use build_wrap::utf8::ToUtf8;

#[test]
fn to_utf8_of_text() {
    assert_eq!(b"/tmp/x".to_vec().to_utf8(), Ok("/tmp/x"));
    assert_eq!("/t/\u{e9}\u{1f600}".as_bytes().to_utf8(), Ok("/t/\u{e9}\u{1f600}"));
    assert_eq!(Vec::<u8>::new().to_utf8(), Ok(""));
}

#[test]
fn to_utf8_of_other_bytes() {
    assert!(vec![b'a', 0xff].to_utf8().is_err());
    assert!([0xc3u8][..].to_utf8().is_err());
    assert!([0xedu8, 0xa0, 0x80][..].to_utf8().is_err());
    assert!([0xc0u8, 0x80][..].to_utf8().is_err());
    assert_eq!(vec![b'a', 0xff].to_utf8().unwrap_err().valid_up_to(), 1);
}
