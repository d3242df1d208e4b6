use maelstrom::protocol::ErrorMessageBody;
use maelstrom::text::{char_is_whitespace, i32_text, is_blank, str_eq, u64_text};
use maelstrom::{is_rpc_error, rpc_err_to_response, Error, Failure};

fn all_errors() -> Vec<Error> {
    vec![
        Error::Timeout,
        Error::NotSupported("echo".to_string()),
        Error::TemporarilyUnavailable,
        Error::MalformedRequest,
        Error::Crash,
        Error::Abort,
        Error::KeyDoesNotExist,
        Error::KeyAlreadyExists,
        Error::PreconditionFailed,
        Error::TxnConflict,
        Error::Custom(1000, "mine".to_string()),
    ]
}

#[test]
fn codes_follow_the_protocol() {
    let codes: Vec<i32> = all_errors().iter().map(|e| e.code()).collect();
    assert_eq!(codes, vec![0, 10, 11, 12, 13, 14, 20, 21, 22, 30, 1000]);
}

#[test]
fn descriptions_follow_the_protocol() {
    let texts: Vec<String> = all_errors().iter().map(|e| e.description().to_string()).collect();
    assert_eq!(
        texts,
        vec![
            "timeout",
            "echo",
            "temporarily unavailable",
            "malformed request",
            "crash",
            "abort",
            "key does not exist",
            "key already exists",
            "precondition failed",
            "txn conflict",
            "mine",
        ]
    );
}

#[test]
fn display_text_prints_code_and_description() {
    assert_eq!(Error::KeyDoesNotExist.display_text(), "error(20): key does not exist");
    assert_eq!(Error::Custom(-7, "x".to_string()).display_text(), "error(-7): x");
    assert_eq!(Error::Timeout.display_text(), "error(0): timeout");
}

#[test]
fn decimal_text() {
    assert_eq!(i32_text(0), "0");
    assert_eq!(i32_text(i32::MIN), "-2147483648");
    assert_eq!(i32_text(i32::MAX), "2147483647");
    assert_eq!(u64_text(u64::MAX), "18446744073709551615");
    assert_eq!(u64_text(1005), "1005");
}

#[test]
fn code_round_trip() {
    for e in all_errors() {
        let back = Error::from_code(e.code(), e.description().to_string());
        assert_eq!(back, e);
    }
    // a custom error with a reserved code reads back as the reserved error
    let back = Error::from_code(20, "whatever".to_string());
    assert_eq!(back, Error::KeyDoesNotExist);
}

#[test]
fn error_body_from_error() {
    let b = ErrorMessageBody::from_error(Error::NotSupported("echo".to_string()));
    assert_eq!(b.typ, "error");
    assert_eq!(b.code, 10);
    assert_eq!(b.text, "echo message type is not supported");
    let b = ErrorMessageBody::from(Error::Custom(42, "boom".to_string()));
    assert_eq!(b.code, 42);
    assert_eq!(b.text, "error(42): boom");
    let b = ErrorMessageBody::from_error(Error::TemporarilyUnavailable);
    assert_eq!((b.typ.as_str(), b.code, b.text.as_str()), ("error", 11, "temporarily unavailable"));
}

#[test]
fn error_body_from_description() {
    let b = ErrorMessageBody::from_description(&Error::NotSupported("topology".to_string()));
    assert_eq!(b, ErrorMessageBody::new(10, "topology"));
    let b = ErrorMessageBody::from_description(&Error::Custom(7, "x".to_string()));
    assert_eq!(b, ErrorMessageBody::new(7, "x"));
    let b = ErrorMessageBody::from_description(&Error::Crash);
    assert_eq!(b, ErrorMessageBody::new(13, "crash"));
}

#[test]
fn error_body_new() {
    let b = ErrorMessageBody::new(22, "nope");
    assert_eq!(b, ErrorMessageBody { typ: "error".to_string(), code: 22, text: "nope".to_string() });
}

#[test]
fn rpc_errors_are_recognised() {
    let ok: Result<u32, Failure> = Ok(1);
    let proto: Result<u32, Failure> = Err(Failure::Protocol(Error::Abort));
    let other: Result<u32, Failure> = Err(Failure::Other("io".to_string()));
    assert!(!is_rpc_error(&ok));
    assert!(is_rpc_error(&proto));
    assert!(!is_rpc_error(&other));
    assert_eq!(rpc_err_to_response(&ok), None);
    assert_eq!(rpc_err_to_response(&other), None);
    assert_eq!(rpc_err_to_response(&proto), Some(ErrorMessageBody::new(14, "abort")));
}

#[test]
fn text_helpers() {
    assert!(str_eq("init", "init"));
    assert!(!str_eq("init", "init_ok"));
    assert!(!str_eq("abc", "abd"));
    assert!(is_blank(""));
    assert!(is_blank("   \t\n  "));
    assert!(!is_blank("  {}  "));
    assert!(is_blank("\u{a0}\u{2028}\u{3000}\r"));
    for c in ['\t', '\n', '\u{b}', '\u{c}', '\r', ' ', '\u{85}', '\u{a0}', '\u{1680}', '\u{2000}', '\u{200a}', '\u{2028}', '\u{2029}', '\u{202f}', '\u{205f}', '\u{3000}'] {
        assert!(char_is_whitespace(c), "{:?}", c);
        assert_eq!(char_is_whitespace(c), c.is_whitespace());
    }
    for c in ['a', '{', '\u{0}', '\u{8}', '\u{e}', '\u{200b}', '\u{feff}', '越'] {
        assert!(!char_is_whitespace(c), "{:?}", c);
        assert_eq!(char_is_whitespace(c), c.is_whitespace());
    }
    let all_agree = (0u32..0x110000).filter_map(char::from_u32).all(|c| char_is_whitespace(c) == c.is_whitespace());
    assert!(all_agree);
}
