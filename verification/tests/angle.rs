use lib::{AngleParts, AngleUnit, Error, Stream, VariableFallback, VariableFunction};

fn parts(text: &str) -> Result<AngleParts<'_>, Error> {
    AngleParts::from_str(text)
}

fn discrete(number: &str, unit: AngleUnit) -> AngleParts<'_> {
    AngleParts::Discrete { number, position: 1, unit }
}

#[test]
fn angle_parse_1() {
    assert_eq!(parts("1").unwrap(), discrete("1", AngleUnit::Degrees));
}

#[test]
fn angle_parse_2() {
    assert_eq!(parts("1deg").unwrap(), discrete("1", AngleUnit::Degrees));
}

#[test]
fn angle_parse_3() {
    assert_eq!(parts("1grad").unwrap(), discrete("1", AngleUnit::Gradians));
}

#[test]
fn angle_parse_4() {
    assert_eq!(parts("1rad").unwrap(), discrete("1", AngleUnit::Radians));
}

#[test]
fn angle_parse_5() {
    assert_eq!(parts("1turn").unwrap(), discrete("1", AngleUnit::Turns));
}

#[test]
fn err_1() {
    let mut s = Stream::from("1q");
    assert_eq!(s.parse_angle_parts().unwrap(), discrete("1", AngleUnit::Degrees));
    assert_eq!(s.parse_angle_parts().unwrap_err().message(), "invalid number at position 2");
}

#[test]
fn err_2() {
    assert_eq!(parts("1degq").unwrap_err().message(), "unexpected data at position 5");
}

#[test]
fn angle_uppercase_suffix_is_left_over() {
    assert_eq!(parts("1DEG").unwrap_err(), Error::UnexpectedData(2));
}

#[test]
fn angle_numbers() {
    assert_eq!(parts("  -1.5e3rad").unwrap(), AngleParts::Discrete { number: "-1.5e3", position: 3, unit: AngleUnit::Radians });
    assert_eq!(parts(".5").unwrap(), discrete(".5", AngleUnit::Degrees));
    assert_eq!(parts("+2.").unwrap(), discrete("+2.", AngleUnit::Degrees));
    assert_eq!(parts("3E+2turn").unwrap(), discrete("3E+2", AngleUnit::Turns));
    assert_eq!(parts("1em").unwrap_err(), Error::UnexpectedData(2));
}

#[test]
fn angle_number_errors() {
    assert_eq!(parts("").unwrap_err(), Error::InvalidNumber(1));
    assert_eq!(parts(" .").unwrap_err(), Error::InvalidNumber(2));
    assert_eq!(parts("+").unwrap_err(), Error::InvalidNumber(1));
    assert_eq!(parts("1e").unwrap_err(), Error::InvalidNumber(1));
    assert_eq!(parts("1e+").unwrap_err(), Error::InvalidNumber(1));
    assert_eq!(parts("1eq").unwrap_err(), Error::InvalidNumber(1));
    assert_eq!(parts("x").unwrap_err(), Error::InvalidNumber(1));
}

#[test]
fn angle_variable_with_fallback() {
    assert_eq!(
        parts("var(--a , 90deg)").unwrap(),
        AngleParts::Variable(VariableFunction { variable: "--a", fallback: VariableFallback::Given("90deg") })
    );
}

#[test]
fn angle_variable() {
    assert_eq!(
        parts(" var(--angle )").unwrap(),
        AngleParts::Variable(VariableFunction { variable: "--angle", fallback: VariableFallback::Unspecified })
    );
}
