use veil_protocol::field::{verify_field_element, BN128_MODULUS};

#[test]
fn zero_is_a_field_element() {
    assert!(verify_field_element(&[0u8; 32]));
}

#[test]
fn one_below_modulus_is_a_field_element() {
    let mut below = BN128_MODULUS;
    below[31] = below[31] - 1;
    assert!(verify_field_element(&below));
}

#[test]
fn modulus_itself_is_not_a_field_element() {
    assert!(!verify_field_element(&BN128_MODULUS));
}

#[test]
fn all_ones_is_not_a_field_element() {
    assert!(!verify_field_element(&[0xFFu8; 32]));
}

#[test]
fn wrong_length_is_not_a_field_element() {
    assert!(!verify_field_element(&[0u8; 31]));
    assert!(!verify_field_element(&[0u8; 33]));
    assert!(!verify_field_element(&[]));
}

#[test]
fn first_differing_byte_decides() {
    // Matches the modulus on every byte but the last, which is smaller.
    let mut value = BN128_MODULUS;
    value[31] = 0x00;
    assert!(verify_field_element(&value));
    // Larger in the first byte, smaller everywhere else.
    let mut big = [0u8; 32];
    big[0] = 0x31;
    assert!(!verify_field_element(&big));
}
