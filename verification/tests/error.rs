use lib::Error;

#[test]
fn error_messages() {
    assert_eq!(Error::UnexpectedEndOfStream.message(), "unexpected end of stream");
    assert_eq!(Error::UnexpectedData(12).message(), "unexpected data at position 12");
    assert_eq!(Error::InvalidValue.message(), "invalid value");
    assert_eq!(Error::InvalidIdent.message(), "invalid ident");
    assert_eq!(Error::InvalidNumber(0).message(), "invalid number at position 0");
    assert_eq!(
        Error::InvalidChar(vec![b'q', b')'], 7).message(),
        "expected ')' not 'q' at position 7"
    );
    assert_eq!(
        Error::InvalidChar(vec![0xe9, b'a', b'b'], 1).message(),
        "expected 'a', 'b' not '\u{e9}' at position 1"
    );
    assert_eq!(
        Error::InvalidString(vec!["vax(".to_string(), "var(".to_string()], 1).message(),
        "expected 'var(' not 'vax(' at position 1"
    );
    assert_eq!(
        Error::InvalidString(vec!["é".to_string(), "a".to_string(), "b".to_string()], 1234567890)
            .message(),
        "expected 'a', 'b' not 'é' at position 1234567890"
    );
}
