use webm::{
    bytes_to_float_bits, bytes_to_int, bytes_to_string, bytes_to_uint, count_leading_zeros,
    read_vint, vint_length, EbmlError, ElementData, FloatBits,
};

fn float_value(bits: FloatBits) -> f64 {
    match bits {
        FloatBits::Single(b) => f32::from_bits(b) as f64,
        FloatBits::Double(b) => f64::from_bits(b),
    }
}

#[test]
fn test_bytes_to_int() {
    assert_eq!(bytes_to_int(&[0x7F]), 127);
    assert_eq!(bytes_to_int(&[0xFE]), -2);
    assert_eq!(bytes_to_int(&[0x00, 0x05]), 5);
}

#[test]
fn test_bytes_to_uint() {
    assert_eq!(bytes_to_uint(&[0xFF]), 255);
}

#[test]
fn test_count_leading_zeros() {
    assert_eq!(count_leading_zeros(0x81), 0);
    assert_eq!(count_leading_zeros(0xe), 4);
    assert_eq!(count_leading_zeros(0x0), 8);
    assert_eq!(count_leading_zeros(0x1), 7);
}

#[test]
fn test_bytes_to_string() {
    assert_eq!(bytes_to_string(&[0x41, 0x42, 0x43]).unwrap(), "ABC");
    assert_eq!(bytes_to_string(&[0xe4, 0xbd, 0x95]).unwrap(), "\u{4f55}");
}

#[test]
fn test_bytes_to_float() {
    assert_eq!(
        float_value(bytes_to_float_bits(&[0x40, 0x29, 0x00, 0x00, 0x00, 0x00, 0x00, 0x00])),
        12.5
    );
    assert_eq!(float_value(bytes_to_float_bits(&[0x47, 0xae, 0x88, 0x80])), 89361.0);
}

#[test]
fn float_bits_pick_precision_by_length() {
    assert_eq!(bytes_to_float_bits(&[0x47, 0xae, 0x88, 0x80]), FloatBits::Single(0x47ae8880));
    assert_eq!(
        bytes_to_float_bits(&[0x40, 0x29, 0, 0, 0, 0, 0, 0]),
        FloatBits::Double(0x4029000000000000)
    );
}

#[test]
fn vint_length_classes() {
    assert_eq!(vint_length(0x81), 1);
    assert_eq!(vint_length(0x0E), 5);
    assert_eq!(vint_length(0x01), 8);
    assert_eq!(vint_length(0x00), 8);
}

#[test]
fn vint_boundaries_decode_in_their_width() {
    assert_eq!(read_vint(&[0x80], 0), Ok((0, 1)));
    assert_eq!(read_vint(&[0xFF], 0), Ok((127, 1)));
    assert_eq!(read_vint(&[0x40, 0x80], 0), Ok((128, 2)));
    assert_eq!(read_vint(&[0x7F, 0xFF], 0), Ok((16383, 2)));
    assert_eq!(read_vint(&[0x20, 0x40, 0x00], 0), Ok((16384, 3)));
    assert_eq!(
        read_vint(&[0x01, 0xFF, 0xFF, 0xFF, 0xFF, 0xFF, 0xFF, 0xFF], 0),
        Ok((0xFF_FFFF_FFFF_FFFF, 8))
    );
}

#[test]
fn vint_reads_from_an_offset() {
    assert_eq!(read_vint(&[0x00, 0x00, 0x81, 0x42], 2), Ok((1, 3)));
}

#[test]
fn vint_longer_forms_of_one_value_agree() {
    assert_eq!(read_vint(&[0x81], 0), Ok((1, 1)));
    assert_eq!(read_vint(&[0x40, 0x01], 0), Ok((1, 2)));
    assert_eq!(read_vint(&[0x10, 0x00, 0x00, 0x01], 0), Ok((1, 4)));
}

#[test]
fn vint_zero_first_byte_reads_eight_octets() {
    assert_eq!(read_vint(&[0x00, 0, 0, 0, 0, 0, 1, 2], 0), Ok((0x0102, 8)));
}

#[test]
fn vint_truncated() {
    assert_eq!(read_vint(&[0x40], 0), Err(EbmlError::TruncatedInput { offset: 0 }));
    assert_eq!(read_vint(&[0x81], 1), Err(EbmlError::TruncatedInput { offset: 1 }));
    assert_eq!(read_vint(&[], 0), Err(EbmlError::TruncatedInput { offset: 0 }));
}

#[test]
fn uint_big_endian_and_long_payloads() {
    assert_eq!(bytes_to_uint(&[]), 0);
    assert_eq!(bytes_to_uint(&[0x0F, 0x42, 0x40]), 1_000_000);
    assert_eq!(bytes_to_uint(&[0xFF; 8]), u64::MAX);
    assert_eq!(bytes_to_uint(&[0x01, 0, 0, 0, 0, 0, 0, 0, 0x05]), 5);
}

#[test]
fn int_sign_extension() {
    assert_eq!(bytes_to_int(&[]), 0);
    assert_eq!(bytes_to_int(&[0x80]), -128);
    assert_eq!(bytes_to_int(&[0xFF, 0xFF]), -1);
    assert_eq!(bytes_to_int(&[0x80, 0x00, 0x00]), -8_388_608);
    assert_eq!(bytes_to_int(&[0x80, 0, 0, 0, 0, 0, 0, 0]), i64::MIN);
    assert_eq!(bytes_to_int(&[0x7F, 0xFF, 0xFF, 0xFF, 0xFF, 0xFF, 0xFF, 0xFF]), i64::MAX);
}

#[test]
fn string_rejects_bad_utf8() {
    assert_eq!(bytes_to_string(&[0xFF, 0x41]), None);
    assert_eq!(bytes_to_string(&[0xE4, 0xBD]), None);
    assert_eq!(bytes_to_string(&[]).unwrap(), "");
}

#[test]
fn element_data_conversions() {
    let d = ElementData(vec![0x00, 0x01]);
    assert_eq!(d.into_uint(), 1);
    assert_eq!(d.into_int(), 1);
    assert!(d.into_bool());
    assert_eq!(d.into_vec(), vec![0x00, 0x01]);
    let two = ElementData(vec![0x02]);
    assert!(!two.into_bool());
    let neg = ElementData(vec![0xFF]);
    assert!(!neg.into_bool());
    assert_eq!(ElementData(vec![0x74, 0x65]).into_string().unwrap(), "te");
}
