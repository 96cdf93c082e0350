use lib::stream::ByteClass;
use lib::{Color, Error, Stream};

#[test]
fn stream_basics() {
    let mut s = Stream::from("  ab");
    assert_eq!(s.pos(), 0);
    assert!(!s.at_end());
    assert_eq!(s.curr_byte().unwrap(), b' ');
    assert_eq!(s.next_byte().unwrap(), b' ');
    s.skip_spaces();
    assert_eq!(s.pos(), 2);
    assert!(s.starts_with("ab"));
    assert!(!s.starts_with("abc"));
    s.advance(1);
    assert_eq!(s.next_byte().unwrap_err(), Error::UnexpectedEndOfStream);
    s.advance(1);
    assert!(s.at_end());
    assert_eq!(s.curr_byte().unwrap_err(), Error::UnexpectedEndOfStream);
    assert_eq!(s.curr_byte_or_zero(), 0);
}

#[test]
fn stream_char_positions_count_characters() {
    let s = Stream::from("é€x");
    assert_eq!(s.calc_char_pos_at(0), 1);
    assert_eq!(s.calc_char_pos_at(2), 2);
    assert_eq!(s.calc_char_pos_at(5), 3);
    assert_eq!(s.calc_char_pos_at(6), 4);
}

#[test]
fn stream_consume() {
    let mut s = Stream::from("(abc-1_2 rest");
    assert_eq!(s.consume_byte(b'(').unwrap(), ());
    assert_eq!(s.consume_ascii_ident(), "abc-1_2");
    assert_eq!(s.consume_byte(b'x').unwrap_err(), Error::InvalidChar(vec![b' ', b'x'], 9));
    s.skip_bytes(ByteClass::Space);
    assert_eq!(s.consume_string("rust").unwrap_err(), Error::InvalidString(vec!["rest".to_string(), "rust".to_string()], 10));
    assert_eq!(s.consume_string("re").unwrap(), ());
    assert_eq!(s.slice_tail(), "st");
    assert_eq!(s.consume_bytes(ByteClass::Name), "st");
    assert_eq!(s.consume_string("x").unwrap_err(), Error::UnexpectedEndOfStream);
}

#[test]
fn stream_quoted_string() {
    let mut s = Stream::from("'a\\'b' x");
    assert_eq!(s.parse_quoted_string().unwrap(), "a\\'b");
    assert_eq!(s.pos(), 6);
    let mut s = Stream::from("\"abc");
    assert_eq!(s.parse_quoted_string().unwrap_err(), Error::UnexpectedEndOfStream);
    let mut s = Stream::from("abc");
    assert_eq!(s.parse_quoted_string().unwrap_err(), Error::InvalidValue);
}

#[test]
fn stream_func_iri() {
    let mut s = Stream::from(" url( #id ) tail");
    assert_eq!(s.parse_func_iri().unwrap(), "id");
    assert_eq!(s.slice_tail(), " tail");
    let mut s = Stream::from("url(#)");
    assert_eq!(s.parse_func_iri().unwrap_err(), Error::InvalidValue);
}

#[test]
fn stream_parse_color() {
    let mut s = Stream::from(" #abc rest");
    assert_eq!(s.parse_color().unwrap(), Color::new_rgb(0xaa, 0xbb, 0xcc));
    assert_eq!(s.pos(), 5);
}

#[test]
fn stream_slices() {
    let s = Stream::from("héllo");
    assert_eq!(s.slice_region(1, 3), "é");
}
