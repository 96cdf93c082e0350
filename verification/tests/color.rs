use lib::{Color, Error};

#[test]
fn color_keywords() {
    assert_eq!(Color::from_str("red").unwrap(), Color::red());
    assert_eq!(Color::from_str("  RED  ").unwrap(), Color::red());
    assert_eq!(Color::from_str("AliceBlue").unwrap(), Color::new_rgb(240, 248, 255));
    assert_eq!(Color::from_str("transparent").unwrap(), Color::new_rgba(0, 0, 0, 0));
    assert_eq!(Color::from_str("rebeccapurple").unwrap(), Color::new_rgb(102, 51, 153));
    assert_eq!(Color::from_str("green").unwrap(), Color::green());
    assert_eq!(Color::from_str("yellowgreen").unwrap(), Color::new_rgb(154, 205, 50));
}

#[test]
fn color_hex() {
    assert_eq!(Color::from_str("#ff0000").unwrap(), Color::red());
    assert_eq!(Color::from_str("#F00").unwrap(), Color::red());
    assert_eq!(Color::from_str("#1234").unwrap(), Color::new_rgba(0x11, 0x22, 0x33, 0x44));
    assert_eq!(Color::from_str("#0a0B0c0D").unwrap(), Color::new_rgba(10, 11, 12, 13));
}

#[test]
fn color_errors() {
    assert_eq!(Color::from_str("#12345").unwrap_err(), Error::InvalidValue);
    assert_eq!(Color::from_str("qwe").unwrap_err(), Error::InvalidValue);
    assert_eq!(Color::from_str("").unwrap_err(), Error::UnexpectedEndOfStream);
    assert_eq!(Color::from_str("red x").unwrap_err(), Error::UnexpectedData(5));
    assert_eq!(Color::from_str("#fff.").unwrap_err(), Error::UnexpectedData(5));
    assert_eq!(Color::from_str("rgb(1, 2, 3)").unwrap_err(), Error::InvalidValue);
}

#[test]
fn color_constants() {
    assert_eq!(Color::black(), Color::new_rgb(0, 0, 0));
    assert_eq!(Color::white(), Color::new_rgb(255, 255, 255));
    assert_eq!(Color::blue(), Color { red: 0, green: 0, blue: 255, alpha: 255 });
}
