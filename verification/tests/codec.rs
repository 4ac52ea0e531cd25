use rustmonero::codec::{ffi_to_field_element, FFIScalar};

#[test]
fn round_trip_small_value() {
    let buffer = FFIScalar::new([5, 0, 0, 0]);
    let element = ffi_to_field_element(&buffer);
    assert_eq!(FFIScalar::from_field_element(element).limbs(), [5, 0, 0, 0]);
}

#[test]
fn round_trip_large_canonical_value() {
    // 2^256 reduced modulo the order: a canonical value with all limbs set.
    let limbs: [u64; 4] = [
        0x5b2b3e9cfffffffd,
        0x992c350be3420567,
        0xffffffffffffffff,
        0x3fffffffffffffff,
    ];
    let element = ffi_to_field_element(&FFIScalar::new(limbs));
    assert_eq!(FFIScalar::from_field_element(element).limbs(), limbs);
}

#[test]
fn decode_reduces_value_above_order() {
    // A buffer holding the order itself decodes to zero, not to itself.
    let order: [u64; 4] = [
        0x8c46eb2100000001,
        0x224698fc0994a8dd,
        0x0000000000000000,
        0x4000000000000000,
    ];
    let element = ffi_to_field_element(&FFIScalar::new(order));
    assert_eq!(FFIScalar::from_field_element(element).limbs(), [0, 0, 0, 0]);
}

#[test]
fn new_and_limbs_preserve_the_buffer() {
    let limbs: [u64; 4] = [0xdeadbeef, 1, 2, 3];
    assert_eq!(FFIScalar::new(limbs).limbs(), limbs);
}
