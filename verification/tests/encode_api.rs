use qr_solomon::solomon_reed::{encode, SolomonReedError};

#[test]
fn encode_published_example() {
    let message = [
        0x10u8, 0x20, 0x0C, 0x56, 0x61, 0x80, 0xEC, 0x11, 0xEC, 0x11, 0xEC, 0x11, 0xEC, 0x11,
        0xEC, 0x11,
    ];
    let words = encode(&message, 10).unwrap();
    assert_eq!(words, vec![165u8, 36, 212, 193, 237, 54, 199, 135, 44, 85]);
}

#[test]
fn encode_hello_world_codewords() {
    let message = [
        32u8, 91, 11, 120, 209, 114, 220, 77, 67, 64, 236, 17, 236, 17, 236, 17,
    ];
    let words = encode(&message, 10).unwrap();
    assert_eq!(words, vec![196u8, 35, 39, 119, 235, 215, 231, 226, 93, 23]);
}

#[test]
fn encode_always_returns_num_codewords_bytes() {
    for n in 1..=30u32 {
        for len in 1..=8usize {
            let message: Vec<u8> = (0..len).map(|i| (i as u8).wrapping_mul(37)).collect();
            let words = encode(&message, n).unwrap();
            assert_eq!(words.len(), n as usize);
        }
    }
    // the largest size still accepted
    let message = vec![0xABu8; 245];
    assert_eq!(encode(&message, 10).unwrap().len(), 10);
}

#[test]
fn encode_zero_message_gives_zero_codewords() {
    let words = encode(&[0u8, 0, 0], 5).unwrap();
    assert_eq!(words, vec![0u8; 5]);
}

#[test]
fn encode_message_with_leading_zero_bytes() {
    let words = encode(&[0u8, 5], 4).unwrap();
    assert_eq!(words, vec![51u8, 238, 133, 93]);
}

#[test]
fn encode_single_byte_message() {
    let words = encode(&[1u8], 7).unwrap();
    assert_eq!(words, vec![127u8, 122, 154, 164, 11, 68, 117]);
}

#[test]
fn encode_rejects_zero_codewords() {
    assert_eq!(encode(&[1u8, 2, 3], 0), Err(SolomonReedError::InvalidParameter));
}

#[test]
fn encode_rejects_empty_message() {
    assert_eq!(encode(&[], 5), Err(SolomonReedError::InvalidParameter));
}

#[test]
fn encode_rejects_oversized_input() {
    let message = vec![7u8; 250];
    assert_eq!(encode(&message, 10), Err(SolomonReedError::InvalidParameter));
    assert_eq!(encode(&[1u8], 255), Err(SolomonReedError::InvalidParameter));
    // the boundary itself is accepted
    let message = vec![7u8; 245];
    assert!(encode(&message, 10).is_ok());
}
