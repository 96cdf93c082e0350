use lib::{AngleParts, AngleUnit, Color, Error, Paint, PaintFallback, Stream, VariableFunction};

#[test]
fn law_white_space_around_paint() {
    let cases = ["none", "url(#a) red", "var(--x , blue)", "qwe", "#12"];
    for t in cases {
        let padded = format!("\u{a0} \t{}\u{2009}\n\u{3000}", t);
        assert_eq!(Paint::from_str(&padded), Paint::from_str(t));
        assert_eq!(PaintFallback::from_str(&padded), PaintFallback::from_str(t));
    }
}

#[test]
fn law_short_hex() {
    assert_eq!(Color::from_str("#abc").unwrap(), Color::from_str("#aabbcc").unwrap());
    assert_eq!(Color::from_str("#abcd").unwrap(), Color::from_str("#aabbccdd").unwrap());
}

#[test]
fn law_color_case() {
    for t in ["RED", "#ABCDEF", "Navy x", "NoSuchColor", "  DarkSlateGray  "] {
        assert_eq!(Color::from_str(t), Color::from_str(&t.to_ascii_lowercase()));
    }
}

#[test]
fn law_angle_lowercase_unit() {
    let mut s = Stream::from("45RAD");
    assert_eq!(
        s.parse_angle_parts().unwrap(),
        AngleParts::Discrete { number: "45", position: 1, unit: AngleUnit::Degrees }
    );
    assert_eq!(s.pos(), 2);
}

#[test]
fn law_custom_property_name() {
    let mut s = Stream::from("--a(b\td");
    let name = s.parse_custom_property().unwrap();
    assert!(name.starts_with("--") && name.len() > 2);
    assert!(!name.bytes().any(|c| c.is_ascii_whitespace() || c == b',' || c == b')'));
    assert_eq!(name, "--a(b");
}

#[test]
fn law_fallback_end_is_trimmed() {
    let v = VariableFunction::from_str("var(--x , a b \u{a0} )").unwrap();
    assert_eq!(v.fallback, lib::VariableFallback::Given("a b"));
}

#[test]
fn law_var_func_read_whole() {
    for t in ["var(--a)", "var(--a,)", "var(--a, (b))", "var( --a , 'x)' )"] {
        let mut s = Stream::from(t);
        assert!(s.parse_var_func().is_ok());
        assert!(s.at_end());
    }
}

#[test]
fn law_paint_trimmed() {
    for t in ["  none ", "\u{a0}url(#a) red ", " var(--x, blue)\t", " qwe "] {
        assert_eq!(Paint::from_str(t), Paint::from_str(t.trim()));
    }
}

#[test]
fn law_func_iri_fallback_error() {
    assert_eq!(Paint::from_str("url(#a) red x").unwrap_err(), Error::UnexpectedData(5));
    assert_eq!(Paint::from_str("url(#a) red x").unwrap_err(), PaintFallback::from_str("red x").unwrap_err());
}

#[test]
fn law_func_iri_fallback_carried() {
    for f in ["none", "currentColor", "#f00", "var(--a, red)", "var(--b)", "qwe", "red x"] {
        let text = format!("url(#qwe) {}", f);
        assert_eq!(
            Paint::from_str(&text),
            PaintFallback::from_str(f).map(|fb| Paint::FuncIRI("qwe", Some(fb)))
        );
    }
}

#[test]
fn law_custom_property_consumes_name() {
    let t0 = " \t--name,rest";
    let mut s = Stream::from(t0);
    let n = s.parse_custom_property().unwrap();
    assert_eq!(t0.trim_start_matches(|c: char| c == ' ' || c == '\t' || c == '\n' || c == '\r'), n.to_string() + s.slice_tail());
}

#[test]
fn law_angle_parts_whole_text() {
    for text in ["1deg", "1degq", " var(--a) x", "2turn ", ""] {
        let mut s = Stream::from(text);
        let expected = match s.parse_angle_parts() {
            Err(e) => Err(e),
            Ok(a) => if s.at_end() { Ok(a) } else { Err(Error::UnexpectedData(s.calc_char_pos())) },
        };
        assert_eq!(AngleParts::from_str(text), expected);
    }
}
