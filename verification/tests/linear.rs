use imagecodes::ean13::encode_linear;
use imagecodes::ean13::gen_png_buf;
use imagecodes::EncodeError;

fn be32(b: &[u8]) -> u32 {
    ((b[0] as u32) << 24) | ((b[1] as u32) << 16) | ((b[2] as u32) << 8) | (b[3] as u32)
}

#[test]
fn check_digit_weighted_mod_10() {
    // weights 1,3,1,3,... over "123456789012": sum = 92, check = (10 - 2) % 10 = 8
    let p = encode_linear("123456789012").ok().unwrap();
    assert_eq!(p.digits.len(), 13);
    assert_eq!(p.digits[12], 8);
    assert_eq!(
        p.digits,
        vec![1, 2, 3, 4, 5, 6, 7, 8, 9, 0, 1, 2, 8]
    );
}

#[test]
fn supplied_check_digit_accepted() {
    let p = encode_linear("1234567890128").ok().unwrap();
    assert_eq!(p.digits[12], 8);
    assert_eq!(p.modules.len(), 95);
}

#[test]
fn supplied_check_digit_rejected() {
    assert_eq!(
        encode_linear("1234567890123").err().unwrap(),
        EncodeError::ChecksumMismatch
    );
}

#[test]
fn wrong_digit_count_rejected() {
    // 11 digits
    assert_eq!(
        encode_linear("12345678901").err().unwrap(),
        EncodeError::InvalidInput
    );
    // 14 digits
    assert_eq!(
        encode_linear("12345678901234").err().unwrap(),
        EncodeError::InvalidInput
    );
    assert_eq!(encode_linear("").err().unwrap(), EncodeError::InvalidInput);
}

#[test]
fn non_digit_rejected() {
    assert_eq!(
        encode_linear("12345678901a").err().unwrap(),
        EncodeError::InvalidInput
    );
    assert_eq!(
        encode_linear("1234567890é2").err().unwrap(),
        EncodeError::InvalidInput
    );
}

#[test]
fn bar_pattern_guards() {
    let p = encode_linear("036000291452").ok().unwrap();
    assert_eq!(p.modules.len(), 95);
    // left guard
    assert_eq!(&p.modules[0..3], &[1, 0, 1]);
    // center guard
    assert_eq!(&p.modules[45..50], &[0, 1, 0, 1, 0]);
    // right guard
    assert_eq!(&p.modules[92..95], &[1, 0, 1]);
    for m in &p.modules {
        assert!(*m == 0 || *m == 1);
    }
}

#[test]
fn linear_png_dimensions() {
    // 95 modules, size 100: scale 2, so 190 x 100
    let png = gen_png_buf("123456789012".to_string(), 100);
    assert_eq!(&png[0..8], &[137, 80, 78, 71, 13, 10, 26, 10]);
    assert_eq!(be32(&png[16..20]), 190);
    assert_eq!(be32(&png[20..24]), 100);
}

#[test]
fn linear_raster_covers_requested_size() {
    // size smaller than the module count: width stays at 95, height at 40
    let png = gen_png_buf("123456789012".to_string(), 40);
    assert_eq!(be32(&png[16..20]), 95);
    assert_eq!(be32(&png[20..24]), 40);
    assert!(be32(&png[16..20]) >= 40);
}
