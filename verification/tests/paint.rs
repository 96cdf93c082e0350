use lib::{Color, Error, Paint, PaintFallback};

#[test]
fn paint_parse_1() {
    assert_eq!(Paint::from_str("none").unwrap(), Paint::NoneKeyword);
}

#[test]
fn paint_parse_2() {
    assert_eq!(Paint::from_str("  none   ").unwrap(), Paint::NoneKeyword);
}

#[test]
fn paint_parse_3() {
    assert_eq!(Paint::from_str(" inherit ").unwrap(), Paint::Inherit);
}

#[test]
fn paint_parse_4() {
    assert_eq!(Paint::from_str(" currentColor ").unwrap(), Paint::CurrentColor);
}

#[test]
fn paint_parse_5() {
    assert_eq!(Paint::from_str(" red ").unwrap(), Paint::Color(Color::red()));
}

#[test]
fn paint_parse_6() {
    assert_eq!(Paint::from_str(" url(#qwe) ").unwrap(), Paint::FuncIRI("qwe", None));
}

#[test]
fn paint_parse_7() {
    assert_eq!(
        Paint::from_str(" url(#qwe) none ").unwrap(),
        Paint::FuncIRI("qwe", Some(PaintFallback::NoneKeyword))
    );
}

#[test]
fn paint_parse_8() {
    assert_eq!(
        Paint::from_str(" url(#qwe) currentColor ").unwrap(),
        Paint::FuncIRI("qwe", Some(PaintFallback::CurrentColor))
    );
}

#[test]
fn paint_parse_9() {
    assert_eq!(
        Paint::from_str(" url(#qwe) red ").unwrap(),
        Paint::FuncIRI("qwe", Some(PaintFallback::Color(Color::red())))
    );
}

#[test]
fn paint_parse_err_1() {
    assert_eq!(Paint::from_str("qwe").unwrap_err().message(), "invalid value");
}

#[test]
fn paint_parse_err_2() {
    assert_eq!(
        Paint::from_str("red icc-color(acmecmyk, 0.11, 0.48, 0.83, 0.00)").unwrap_err().message(),
        "invalid value"
    );
}

#[test]
fn paint_doc_example() {
    let paint = Paint::from_str("url(#gradient) red").unwrap();
    assert_eq!(paint, Paint::FuncIRI("gradient", Some(PaintFallback::Color(Color::red()))));
    let paint = Paint::from_str("inherit").unwrap();
    assert_eq!(paint, Paint::Inherit);
}

#[test]
fn paint_context_keywords() {
    assert_eq!(Paint::from_str("context-fill").unwrap(), Paint::ContextFill);
    assert_eq!(Paint::from_str("\tcontext-stroke\n").unwrap(), Paint::ContextStroke);
}

#[test]
fn paint_unicode_white_space_is_trimmed() {
    assert_eq!(Paint::from_str("\u{a0}none\u{3000}").unwrap(), Paint::NoneKeyword);
    assert_eq!(Paint::from_str("\u{2003}inherit\u{2028}").unwrap(), Paint::Inherit);
}

#[test]
fn paint_hex_colors() {
    assert_eq!(Paint::from_str("#f00").unwrap(), Paint::Color(Color::red()));
    assert_eq!(Paint::from_str("#00ff0080").unwrap(), Paint::Color(Color::new_rgba(0, 255, 0, 0x80)));
}

#[test]
fn paint_variable_without_fallback() {
    assert_eq!(Paint::from_str("var(--main )").unwrap(), Paint::Variable("--main", None));
}

#[test]
fn paint_variable_with_fallbacks() {
    assert_eq!(
        Paint::from_str("var(--main , blue)").unwrap(),
        Paint::Variable("--main", Some(PaintFallback::Color(Color::blue())))
    );
    assert_eq!(
        Paint::from_str("var(--main ,)").unwrap(),
        Paint::Variable("--main", Some(PaintFallback::Empty))
    );
    assert_eq!(
        Paint::from_str("var(--a , var(--b , none ))").unwrap(),
        Paint::Variable(
            "--a",
            Some(PaintFallback::Variable("--b", Some(Box::new(PaintFallback::NoneKeyword))))
        )
    );
}

#[test]
fn paint_func_iri_errors() {
    assert_eq!(Paint::from_str("url(#)").unwrap_err(), Error::InvalidValue);
    assert_eq!(Paint::from_str("url(qwe)").unwrap_err(), Error::InvalidValue);
    assert_eq!(Paint::from_str("url(#a b").unwrap_err(), Error::InvalidValue);
}

#[test]
fn paint_fallback_error_is_reported() {
    assert_eq!(Paint::from_str("url(#a) qwe").unwrap_err(), Error::InvalidValue);
    assert_eq!(Paint::from_str("url(#a) red x").unwrap_err(), Error::UnexpectedData(5));
}

#[test]
fn paint_fallback_from_str() {
    assert_eq!(PaintFallback::from_str("   ").unwrap(), PaintFallback::Empty);
    assert_eq!(PaintFallback::from_str(" none").unwrap(), PaintFallback::NoneKeyword);
    assert_eq!(PaintFallback::from_str("inherit").unwrap_err(), Error::InvalidValue);
}
