use gpgme::text::to_str;

#[test]
fn absent_string_is_no_text() {
    assert_eq!(to_str(None), Err(None));
}

#[test]
fn utf8_bytes_are_text() {
    assert_eq!(to_str(Some(b"hello")), Ok("hello"));
    assert_eq!(to_str(Some(b"")), Ok(""));
    assert_eq!(to_str(Some("gr\u{fc}\u{df}e".as_bytes())), Ok("gr\u{fc}\u{df}e"));
}

#[test]
fn other_bytes_give_the_decoding_error() {
    let bytes = [b'a', 0xff, b'b'];
    match to_str(Some(&bytes)) {
        Err(Some(e)) => assert_eq!(e.valid_up_to(), 1),
        other => panic!("unexpected result {:?}", other),
    }
    let truncated = [0xe2, 0x82];
    assert!(matches!(to_str(Some(&truncated)), Err(Some(_))));
}
