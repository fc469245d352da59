use steamworks::{
    c_string, c_text, decimal_string, first_nul, split_on_char, utf8_text, CTextError, NulError,
};

#[test]
fn test_global_stat_cstring_error() {
    // A string with a NUL byte has no C string form.
    let invalid_name = "test\0stat";
    assert!(c_string(invalid_name).is_err());
}

#[test]
fn c_string_appends_nul() {
    assert_eq!(c_string("abc"), Ok(vec![b'a', b'b', b'c', 0]));
    assert_eq!(c_string(""), Ok(vec![0]));
    assert_eq!(c_string("test\0stat"), Err(NulError(4)));
}

#[test]
fn decimal_text() {
    assert_eq!(decimal_string(0), "0");
    assert_eq!(decimal_string(7), "7");
    assert_eq!(decimal_string(1234567890), "1234567890");
    assert_eq!(decimal_string(u64::MAX), "18446744073709551615");
}

#[test]
fn split_keeps_empty_pieces() {
    assert_eq!(split_on_char("a,b,,c", ','), vec!["a", "b", "", "c"]);
    assert_eq!(split_on_char("", ','), vec![""]);
    assert_eq!(split_on_char("tag", ','), vec!["tag"]);
    assert_eq!(split_on_char(",", ','), vec!["", ""]);
}

#[test]
fn c_text_reads_up_to_nul() {
    assert_eq!(c_text(b"hello\0world"), Ok("hello".to_string()));
    assert_eq!(c_text(b"\0"), Ok(String::new()));
    assert_eq!(c_text(b"no end"), Err(CTextError::NotTerminated));
    assert_eq!(c_text(&[0xff, 0xfe, 0]), Err(CTextError::InvalidUtf8));
    assert_eq!(first_nul(b"ab\0c\0"), Some(2));
    assert_eq!(first_nul(b"abc"), None);
}

#[test]
fn utf8_decoding() {
    assert_eq!(utf8_text("grüße".as_bytes()), Some("grüße".to_string()));
    assert_eq!(utf8_text(&[0xc3]), None);
    assert_eq!(utf8_text(&[]), Some(String::new()));
}
