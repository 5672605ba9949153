use qr_solomon::solomon_reed::{
    add_coeffs, add_exp, get_code_words, get_generator_polynomial, get_poly_degree,
    mult_by_pow_of_x, nums_to_coeffs,
};
use qr_solomon::gf256::SENTINEL_EXP;

const ZERO: u32 = SENTINEL_EXP;

#[test]
fn generator_degree_and_extremes() {
    for n in 1..=20u32 {
        let g = get_generator_polynomial(n);
        assert_eq!(g.len(), 255);
        assert_eq!(get_poly_degree(&g), n);
        // leading coefficient is alpha^0, i.e. the field value 1
        assert_eq!(g[n as usize], 0);
        // constant coefficient is alpha to the triangular number of n
        assert_eq!(g[0], (n * (n - 1) / 2) % 255);
    }
    // for a single codeword the constant coefficient is alpha^0 as well
    let g1 = get_generator_polynomial(1);
    assert_eq!(g1[0], 0);
    assert_eq!(g1[1], 0);
}

#[test]
fn generator_for_ten_codewords() {
    let g = get_generator_polynomial(10);
    let expected = [45u32, 32, 94, 64, 70, 118, 61, 46, 67, 251, 0];
    for (j, &e) in expected.iter().enumerate() {
        assert_eq!(g[j], e);
    }
    for j in 11..255 {
        assert_eq!(g[j], ZERO);
    }
}

#[test]
fn generator_roots_evaluate_to_zero() {
    // g(alpha^i) == 0 for every i in [0, n-1]: Horner evaluation carried out
    // in exponent space with the field operations themselves.
    for n in 1..=12u32 {
        let g = get_generator_polynomial(n);
        for i in 0..n {
            let mut acc: u32 = ZERO;
            for j in (0..=n as usize).rev() {
                acc = add_coeffs(add_exp(acc, i), g[j]);
            }
            assert_eq!(acc, ZERO, "alpha^{} is not a root of g_{}", i, n);
        }
    }
}

#[test]
fn nums_to_coeffs_reverses_and_takes_logs() {
    let coeffs = nums_to_coeffs(&[4u8, 0, 255]);
    assert_eq!(coeffs.len(), 255);
    assert_eq!(coeffs[0], 175); // log of 255
    assert_eq!(coeffs[1], ZERO); // the byte 0 has no exponent
    assert_eq!(coeffs[2], 2); // log of 4
    for j in 3..255 {
        assert_eq!(coeffs[j], ZERO);
    }
}

#[test]
fn poly_degree_finds_highest_nonzero_slot() {
    let mut coeffs = vec![ZERO; 255];
    assert_eq!(get_poly_degree(&coeffs), 0);
    coeffs[0] = 5;
    assert_eq!(get_poly_degree(&coeffs), 0);
    coeffs[17] = 0;
    assert_eq!(get_poly_degree(&coeffs), 17);
    coeffs[254] = 3;
    assert_eq!(get_poly_degree(&coeffs), 254);
}

#[test]
fn mult_by_pow_of_x_shifts_slots_up() {
    let mut coeffs = vec![ZERO; 255];
    coeffs[0] = 7;
    coeffs[3] = 11;
    mult_by_pow_of_x(10, &mut coeffs);
    assert_eq!(coeffs[10], 7);
    assert_eq!(coeffs[13], 11);
    assert_eq!(coeffs[0], ZERO);
    assert_eq!(coeffs[3], ZERO);
    assert_eq!(get_poly_degree(&coeffs), 13);
}

#[test]
fn mult_by_pow_of_x_by_zero_keeps_slots() {
    let mut coeffs = vec![ZERO; 255];
    coeffs[2] = 9;
    mult_by_pow_of_x(0, &mut coeffs);
    assert_eq!(coeffs[2], 9);
    assert_eq!(get_poly_degree(&coeffs), 2);
}

#[test]
fn code_words_for_published_example() {
    // The worked standard example: the eight digits 01234567 packed at
    // version 1, level M, and its ten published correction codewords.
    let message = [
        0x10u8, 0x20, 0x0C, 0x56, 0x61, 0x80, 0xEC, 0x11, 0xEC, 0x11, 0xEC, 0x11, 0xEC, 0x11,
        0xEC, 0x11,
    ];
    let mut coeffs = nums_to_coeffs(&message);
    let words = get_code_words(&mut coeffs, 10);
    assert_eq!(words, vec![165u32, 36, 212, 193, 237, 54, 199, 135, 44, 85]);
}
