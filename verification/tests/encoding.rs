use munic_simulator::encoding::{
    bool_to_base64, fixed_point_to_base64, int_to_base64, text_to_base64, to_be_bytes,
    to_le_bytes,
};

#[test]
fn int_field_is_big_endian_base64() {
    assert_eq!(int_to_base64(6), "AAAABg==");
    assert_eq!(int_to_base64(0), "AAAAAA==");
    assert_eq!(int_to_base64(-1), "/////w==");
    assert_eq!(int_to_base64(256), "AAABAA==");
}

#[test]
fn bool_field_is_one_byte() {
    assert_eq!(bool_to_base64(true), "AQ==");
    assert_eq!(bool_to_base64(false), "AA==");
}

#[test]
fn fixed_point_is_little_endian_base64() {
    assert_eq!(fixed_point_to_base64(1), "AQAAAA==");
    assert_eq!(fixed_point_to_base64(-1), "/////w==");
    // 12.3456 as a fixed-point value
    assert_eq!(fixed_point_to_base64(123456), "QOIBAA==");
}

#[test]
fn byte_orders_of_an_integer() {
    assert_eq!(to_be_bytes(0x01020304), vec![1, 2, 3, 4]);
    assert_eq!(to_le_bytes(0x01020304), vec![4, 3, 2, 1]);
    assert_eq!(to_be_bytes(i32::MIN), vec![0x80, 0, 0, 0]);
    assert_eq!(to_le_bytes(-2), vec![0xfe, 0xff, 0xff, 0xff]);
}

#[test]
fn text_is_encoded_with_padding() {
    assert_eq!(text_to_base64(""), "");
    assert_eq!(text_to_base64("a"), "YQ==");
    assert_eq!(text_to_base64("ab"), "YWI=");
    assert_eq!(text_to_base64("abc"), "YWJj");
    assert_eq!(text_to_base64("hello world"), "aGVsbG8gd29ybGQ=");
}

#[test]
fn int_fields_have_eight_characters() {
    for v in [0, 6, -1, i32::MIN, i32::MAX, 123456] {
        let t = int_to_base64(v);
        assert_eq!(t.len(), 8);
        assert!(t.ends_with("=="));
    }
}
