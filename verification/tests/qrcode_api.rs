use qr_solomon::qrcode::{ErrorCorrectionLevel, ErrorCorrectionMetaData, QRCode};
use qr_solomon::solomon_reed::encode;

#[test]
fn metadata_total_code_words() {
    let m = ErrorCorrectionMetaData::new(10, 1, 0, 16, 0);
    assert_eq!(m.total_code_words(), 16);
    let m = ErrorCorrectionMetaData::new(18, 2, 2, 68, 69);
    assert_eq!(m.total_code_words(), 2 * 68 + 2 * 69);
}

#[test]
fn hello_world_bit_stream() {
    let qr = QRCode::new(String::from("HELLO WORLD"), ErrorCorrectionLevel::M).unwrap();
    let bits = qr.encode().unwrap();
    assert_eq!(
        bits,
        "00100000010110110000101101111000110100010111001011011100010011010100\
         001101000000111011000001000111101100000100011110110000010001"
            .replace(' ', "")
    );
    assert_eq!(bits.len(), 128);
}

#[test]
fn hello_world_coefficients() {
    let qr = QRCode::new(String::from("HELLO WORLD"), ErrorCorrectionLevel::M).unwrap();
    let coeffs = qr.get_coeffs().unwrap();
    assert_eq!(
        coeffs,
        vec![32u8, 91, 11, 120, 209, 114, 220, 77, 67, 64, 236, 17, 236, 17, 236, 17]
    );
}

#[test]
fn hello_world_correction_codewords() {
    let qr = QRCode::new(String::from("HELLO WORLD"), ErrorCorrectionLevel::M).unwrap();
    let coeffs = qr.get_coeffs().unwrap();
    let words = encode(&coeffs, 10).unwrap();
    assert_eq!(words, vec![196u8, 35, 39, 119, 235, 215, 231, 226, 93, 23]);
}

#[test]
fn numeric_payload_bit_stream() {
    let qr = QRCode::new(String::from("01234567"), ErrorCorrectionLevel::M).unwrap();
    let coeffs = qr.get_coeffs().unwrap();
    assert_eq!(
        coeffs,
        vec![16u8, 32, 96, 247, 12, 0, 236, 17, 236, 17, 236, 17, 236, 17, 236, 17]
    );
}

#[test]
fn byte_payload_bit_stream() {
    let qr = QRCode::new(String::from("abc"), ErrorCorrectionLevel::M).unwrap();
    let coeffs = qr.get_coeffs().unwrap();
    assert_eq!(
        coeffs,
        vec![64u8, 54, 22, 38, 48, 236, 17, 236, 17, 236, 17, 236, 17, 236, 17, 236]
    );
}

#[test]
fn mode_detection_shows_in_mode_indicator() {
    // the first four bits of the stream name the detected class
    let num = QRCode::new(String::from("123"), ErrorCorrectionLevel::L).unwrap();
    assert_eq!(&num.encode().unwrap()[0..4], "0001");
    let alnum = QRCode::new(String::from("AB C$%"), ErrorCorrectionLevel::L).unwrap();
    assert_eq!(&alnum.encode().unwrap()[0..4], "0010");
    let byte = QRCode::new(String::from("hello"), ErrorCorrectionLevel::L).unwrap();
    assert_eq!(&byte.encode().unwrap()[0..4], "0100");
    // a comma falls inside the pattern's '+'-to-'.' range
    let comma = QRCode::new(String::from("A,B"), ErrorCorrectionLevel::L).unwrap();
    assert_eq!(&comma.encode().unwrap()[0..4], "0010");
}

#[test]
fn new_rejects_oversized_data() {
    let data = "7".repeat(3000);
    assert!(QRCode::new(data, ErrorCorrectionLevel::L).is_err());
    let data = "x".repeat(3000);
    assert_eq!(
        QRCode::new(data, ErrorCorrectionLevel::H).unwrap_err(),
        String::from("Data too long for encoding!")
    );
}

#[test]
fn larger_version_widens_length_field() {
    // 700 digits land in version 11, whose length field is twelve bits wide
    // and which carries 324 data codewords at level L
    let data = "7".repeat(700);
    let qr = QRCode::new(data, ErrorCorrectionLevel::L).unwrap();
    let bits = qr.encode().unwrap();
    assert_eq!(bits.len(), 8 * 324);
    assert_eq!(&bits[0..4], "0001");
    assert_eq!(&bits[4..16], "001010111100");
}

#[test]
fn terminator_shrinks_near_capacity() {
    // twenty pair-aligned characters leave five free bits at version 1, so
    // the four-bit terminator still fits, followed by a single zero bit
    let qr = QRCode::new("A".repeat(20), ErrorCorrectionLevel::M).unwrap();
    let coeffs = qr.get_coeffs().unwrap();
    assert_eq!(
        coeffs,
        vec![32u8, 161, 204, 57, 135, 48, 230, 28, 195, 152, 115, 14, 97, 204, 57, 128]
    );
}

#[test]
fn version_grows_with_payload() {
    // 20 alphanumeric characters still fit version 1 at level M; 21 do not
    let d20 = "A".repeat(20);
    let qr = QRCode::new(d20, ErrorCorrectionLevel::M).unwrap();
    assert_eq!(qr.encode().unwrap().len(), 8 * 16);
    let d21 = "A".repeat(21);
    let qr = QRCode::new(d21, ErrorCorrectionLevel::M).unwrap();
    assert_eq!(qr.encode().unwrap().len(), 8 * 28);
}
