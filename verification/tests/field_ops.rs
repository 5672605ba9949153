use qr_solomon::solomon_reed::{add_coeffs, add_exp, get_power_of_two, int_to_exponent};
use qr_solomon::gf256::SENTINEL_EXP;

const ZERO: u32 = SENTINEL_EXP;

#[test]
fn antilog_table_values() {
    assert_eq!(get_power_of_two(0), 1);
    assert_eq!(get_power_of_two(1), 2);
    assert_eq!(get_power_of_two(7), 128);
    assert_eq!(get_power_of_two(8), 29);
    assert_eq!(get_power_of_two(254), 142);
    assert_eq!(get_power_of_two(255), 1);
}

#[test]
fn log_table_values() {
    assert_eq!(int_to_exponent(0), ZERO);
    assert_eq!(int_to_exponent(1), 0);
    assert_eq!(int_to_exponent(2), 1);
    assert_eq!(int_to_exponent(29), 8);
    assert_eq!(int_to_exponent(255), 175);
}

#[test]
fn table_roundtrip_value_to_exponent_and_back() {
    for v in 1..=255u32 {
        let e = int_to_exponent(v);
        assert!(e < 255);
        assert_eq!(get_power_of_two(e), v);
    }
}

#[test]
fn table_roundtrip_exponent_to_value_and_back() {
    for e in 0..255u32 {
        let v = get_power_of_two(e);
        assert!((1..=255).contains(&v));
        assert_eq!(int_to_exponent(v), e);
    }
}

#[test]
fn combine_zero_is_identity() {
    for a in 0..255u32 {
        assert_eq!(add_coeffs(a, ZERO), a);
        assert_eq!(add_coeffs(ZERO, a), a);
    }
    assert_eq!(add_coeffs(ZERO, ZERO), ZERO);
}

#[test]
fn add_exponents_zero_absorbs() {
    for a in 0..255u32 {
        assert_eq!(add_exp(a, ZERO), ZERO);
        assert_eq!(add_exp(ZERO, a), ZERO);
    }
    assert_eq!(add_exp(ZERO, ZERO), ZERO);
}

#[test]
fn add_exponents_adds_modulo_255() {
    assert_eq!(add_exp(0, 0), 0);
    assert_eq!(add_exp(200, 100), 45);
    assert_eq!(add_exp(254, 1), 0);
    assert_eq!(add_exp(3, 4), 7);
}

#[test]
fn combine_concrete_values() {
    // alpha^0 + alpha^1 = 1 XOR 2 = 3 = alpha^25
    assert_eq!(add_coeffs(0, 1), 25);
    // an element added to itself vanishes
    assert_eq!(add_coeffs(17, 17), ZERO);
}

#[test]
fn xor_of_byte_values_never_exceeds_255() {
    // The defensive reduction against the primitive polynomial on the
    // addition path could only trigger if the XOR of two field values left
    // the byte range; it never does.
    let values: Vec<u32> = (0..255u32).map(get_power_of_two).collect();
    for &va in &values {
        for &vb in &values {
            assert!(va ^ vb <= 255);
        }
    }
}
