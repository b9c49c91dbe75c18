use rusty_blue::print::MessageNotation;

#[test]
fn test_error_message() {
    let mut buf = Vec::<u8>::new();
    let input = "test";
    let result = MessageNotation::alert(&mut buf, input.to_string());
    assert!(result.is_ok());
    assert_eq!(buf, b"[ERROR] test\n");
}

#[test]
fn test_info_noheader_message() {
    let mut buf = Vec::<u8>::new();
    let input = "info-test";
    let result = MessageNotation::info_noheader(&mut buf, input.to_string());
    assert!(result.is_ok());
    assert_eq!(buf, b"info-test\n");
}

#[test]
fn test_warn_message() {
    let mut buf = Vec::<u8>::new();
    let input = "warn-test";
    let result = MessageNotation::warn(&mut buf, input.to_string());
    assert!(result.is_ok());
    assert_eq!(buf, b"[WARN] warn-test\n");
}

#[test]
fn messages_are_appended_in_order() {
    let mut buf = Vec::<u8>::new();
    assert!(MessageNotation::info_noheader(&mut buf, "a".to_string()).is_ok());
    assert!(MessageNotation::warn(&mut buf, "b".to_string()).is_ok());
    assert!(MessageNotation::alert(&mut buf, "\u{30db}".to_string()).is_ok());
    assert_eq!(buf, "a\n[WARN] b\n[ERROR] \u{30db}\n".as_bytes());
}

#[test]
fn empty_message_is_one_line_feed() {
    let mut buf = Vec::<u8>::new();
    assert!(MessageNotation::info_noheader(&mut buf, String::new()).is_ok());
    assert_eq!(buf, b"\n");
}
