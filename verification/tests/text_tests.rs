use runtime_boundary::text::{
    decode_foreign_text, encode_result_text, encode_text, strip_trailing_nuls, text_bytes,
    to_c_buffer,
};

#[test]
fn strip_removes_trailing_zero_bytes() {
    assert_eq!(strip_trailing_nuls(vec![7u8, 0, 0]), vec![7u8]);
    assert_eq!(strip_trailing_nuls(vec![0u8, 7, 0]), vec![0u8, 7]);
    assert_eq!(strip_trailing_nuls(vec![1u8, 2, 3]), vec![1u8, 2, 3]);
}

#[test]
fn strip_of_empty_and_all_zero() {
    assert_eq!(strip_trailing_nuls(Vec::new()), Vec::<u8>::new());
    assert_eq!(strip_trailing_nuls(vec![0u8, 0, 0]), Vec::<u8>::new());
}

#[test]
fn terminator_is_appended() {
    assert_eq!(to_c_buffer(vec![1u8, 2]), Some(vec![1u8, 2, 0]));
    assert_eq!(to_c_buffer(Vec::new()), Some(vec![0u8]));
}

#[test]
fn interior_zero_refuses_termination() {
    assert_eq!(to_c_buffer(vec![1u8, 0, 2]), None);
}

#[test]
fn decode_passes_valid_text_through() {
    let bytes: Vec<u8> = b"hello world".to_vec();
    assert_eq!(decode_foreign_text(&bytes), "hello world");
}

#[test]
fn decode_substitutes_malformed_bytes() {
    let bytes: Vec<u8> = vec![0xFF, b'a'];
    assert_eq!(decode_foreign_text(&bytes), "\u{FFFD}a");
}

#[test]
fn decode_of_empty_is_empty() {
    let bytes: Vec<u8> = Vec::new();
    assert_eq!(decode_foreign_text(&bytes), "");
}

#[test]
fn text_bytes_are_utf8() {
    let s = String::from("héllo");
    assert_eq!(text_bytes(&s), "héllo".as_bytes().to_vec());
}

#[test]
fn result_text_is_stripped_then_terminated() {
    let s = String::from("ab\u{0}\u{0}");
    assert_eq!(encode_result_text(&s), Some(b"ab\0".to_vec()));
}

#[test]
fn result_text_with_interior_zero_yields_nothing() {
    let s = String::from("a\u{0}b");
    assert_eq!(encode_result_text(&s), None);
}

#[test]
fn plain_text_is_terminated_unchanged() {
    let s = String::from("abc");
    assert_eq!(encode_text(&s), Some(b"abc\0".to_vec()));
}
