use lib::{Color, Error, PaintFallback, Stream, VariableFallback, VariableFunction};

#[test]
fn var_without_fallback() {
    let v = VariableFunction::from_str("var(--a)").unwrap();
    assert_eq!(v, VariableFunction { variable: "--a", fallback: VariableFallback::Unspecified });
    let v = VariableFunction::from_str("var(--x )").unwrap();
    assert_eq!(v, VariableFunction { variable: "--x", fallback: VariableFallback::Unspecified });
}

#[test]
fn var_with_fallback_is_trimmed() {
    let v = VariableFunction::from_str("var(--a, b)").unwrap();
    assert_eq!(v, VariableFunction { variable: "--a", fallback: VariableFallback::Given("b") });
    let v = VariableFunction::from_str("var( --x , 10px  )").unwrap();
    assert_eq!(v, VariableFunction { variable: "--x", fallback: VariableFallback::Given("10px") });
}

#[test]
fn var_with_empty_fallback() {
    let v = VariableFunction::from_str("var(--a,)").unwrap();
    assert_eq!(v.fallback, VariableFallback::Empty(std::marker::PhantomData));
    let v = VariableFunction::from_str("var(--x , )").unwrap();
    assert_eq!(v.fallback, VariableFallback::Empty(std::marker::PhantomData));
}

#[test]
fn var_with_nested_brackets() {
    let v = VariableFunction::from_str("var(--x , f(a, b) [c] {d} )").unwrap();
    assert_eq!(v.fallback, VariableFallback::Given("f(a, b) [c] {d}"));
    let mut s = Stream::from("var(--a, rgb(1, 2, 3))");
    assert_eq!(s.parse_var_func().unwrap(), ("--a", Some("rgb(1, 2, 3)")));
    let mut s = Stream::from("var(--a, [x])");
    assert_eq!(s.parse_var_func().unwrap(), ("--a", Some("[x]")));
    let mut s = Stream::from("var(--a, {b})");
    assert_eq!(s.parse_var_func().unwrap(), ("--a", Some("{b}")));
}

#[test]
fn var_fallback_with_quoted_text_and_url() {
    let v = VariableFunction::from_str("var(--x , a\"b)\"c)").unwrap();
    assert_eq!(v.fallback, VariableFallback::Given("a\"b)\"c"));
    let v = VariableFunction::from_str("var(--x , 'a;b')").unwrap();
    assert_eq!(v.fallback, VariableFallback::Given("'a;b'"));
    let mut s = Stream::from("var(--a, url(#b))");
    assert_eq!(s.parse_var_func().unwrap(), ("--a", Some("url(#b)")));
    assert_eq!(VariableFunction::from_str("var(--x , url(b))").unwrap_err(), Error::InvalidValue);
    assert_eq!(VariableFunction::from_str("var(--x , \"ab)").unwrap_err(), Error::UnexpectedEndOfStream);
}

#[test]
fn var_name_stops_before_comma_and_paren() {
    let mut s = Stream::from("--a)");
    assert_eq!(s.parse_custom_property().unwrap(), "--a");
    assert_eq!(s.slice_tail(), ")");
    let mut s = Stream::from("--a,b");
    assert_eq!(s.parse_custom_property().unwrap(), "--a");
    assert_eq!(s.slice_tail(), ",b");
}

#[test]
fn var_reserved_name() {
    assert_eq!(Stream::from("--").parse_custom_property().unwrap_err(), Error::InvalidValue);
    assert_eq!(Stream::from("-- x").parse_custom_property().unwrap_err(), Error::InvalidValue);
    assert_eq!(VariableFunction::from_str("var(--)").unwrap_err(), Error::InvalidValue);
}

#[test]
fn var_errors() {
    assert_eq!(
        VariableFunction::from_str("vax(--x )").unwrap_err(),
        Error::InvalidString(vec!["vax(".to_string(), "var(".to_string()], 1)
    );
    assert_eq!(VariableFunction::from_str("var(x )").unwrap_err(), Error::InvalidIdent);
    assert_eq!(
        VariableFunction::from_str("var(--x ;").unwrap_err(),
        Error::InvalidChar(vec![b';', b')'], 9)
    );
    assert_eq!(VariableFunction::from_str("var(--a, x;y)").unwrap_err(), Error::InvalidValue);
    assert_eq!(VariableFunction::from_str("var(--a, x!y)").unwrap_err(), Error::InvalidValue);
    assert_eq!(VariableFunction::from_str("var(--a, ;)").unwrap_err(), Error::InvalidValue);
    assert_eq!(VariableFunction::from_str("var(--a, (x;y))").unwrap().fallback, VariableFallback::Given("(x;y)"));
    assert_eq!(VariableFunction::from_str("var(--x , a]b)").unwrap_err(), Error::InvalidValue);
    assert_eq!(VariableFunction::from_str("var(--x , a}b)").unwrap_err(), Error::InvalidValue);
    assert_eq!(VariableFunction::from_str("var(--x , a(b]c)").unwrap_err(), Error::InvalidValue);
    assert_eq!(VariableFunction::from_str("var(--x , {b])").unwrap_err(), Error::InvalidValue);
    assert_eq!(VariableFunction::from_str("var(--x , abc").unwrap_err(), Error::UnexpectedEndOfStream);
    assert_eq!(VariableFunction::from_str("var(--a").unwrap_err(), Error::UnexpectedEndOfStream);
    assert_eq!(VariableFunction::from_str("").unwrap_err(), Error::UnexpectedEndOfStream);
}

#[test]
fn var_error_text_counts_characters() {
    assert_eq!(
        VariableFunction::from_str("é(--x )").unwrap_err(),
        Error::InvalidString(vec!["é(--".to_string(), "var(".to_string()], 1)
    );
    assert_eq!(
        VariableFunction::from_str("ab").unwrap_err(),
        Error::InvalidString(vec!["ab".to_string(), "var(".to_string()], 1)
    );
}

#[test]
fn fallback_from_option() {
    assert_eq!(VariableFallback::from(None), VariableFallback::Unspecified);
    assert_eq!(VariableFallback::from(Some("")), VariableFallback::Empty(std::marker::PhantomData));
    assert_eq!(VariableFallback::from(Some("a")), VariableFallback::Given("a"));
    let f: VariableFallback = Some("b").into();
    assert_eq!(f, VariableFallback::Given("b"));
}

#[test]
fn custom_property() {
    let mut s = Stream::from("  --main-color rest");
    assert_eq!(s.parse_custom_property().unwrap(), "--main-color");
    assert_eq!(s.pos(), 14);
    let mut s = Stream::from("-x");
    assert_eq!(s.parse_custom_property().unwrap_err(), Error::InvalidIdent);
}

#[test]
fn var_func_is_read_whole() {
    let mut s = Stream::from("var(--a)");
    assert_eq!(s.parse_var_func().unwrap(), ("--a", None));
    assert_eq!(s.slice_tail(), "");
    let mut s = Stream::from("  var( --a  )");
    assert_eq!(s.parse_var_func().unwrap(), ("--a", None));
    assert_eq!(s.slice_tail(), "");
    let mut s = Stream::from("var(--a,)");
    assert_eq!(s.parse_var_func().unwrap(), ("--a", Some("")));
    assert_eq!(s.slice_tail(), "");
    let mut s = Stream::from("var( --a ,  red  ) tail");
    assert_eq!(s.parse_var_func().unwrap(), ("--a", Some("red")));
    assert_eq!(s.slice_tail(), " tail");
}

#[test]
fn paint_fallback_variables() {
    assert_eq!(PaintFallback::from_str("var(--a)").unwrap(), PaintFallback::Variable("--a", None));
    assert_eq!(
        PaintFallback::from_str("var(--a,)").unwrap(),
        PaintFallback::Variable("--a", Some(Box::new(PaintFallback::Empty)))
    );
    assert_eq!(
        PaintFallback::from_str("var(--a, none)").unwrap(),
        PaintFallback::Variable("--a", Some(Box::new(PaintFallback::NoneKeyword)))
    );
    assert_eq!(
        PaintFallback::from_str("var(--a, var(--b, red))").unwrap(),
        PaintFallback::Variable(
            "--a",
            Some(Box::new(PaintFallback::Variable("--b", Some(Box::new(PaintFallback::Color(Color::red()))))))
        )
    );
}
