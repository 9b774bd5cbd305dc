use meos::{ParseError, TInterpolation};
use std::str::FromStr;

#[test]
fn parse_names_in_any_case() {
    assert_eq!(TInterpolation::from_str("none"), Ok(TInterpolation::NoInterpolation));
    assert_eq!(TInterpolation::from_str("NONE"), Ok(TInterpolation::NoInterpolation));
    assert_eq!(TInterpolation::from_str("Discrete"), Ok(TInterpolation::Discrete));
    assert_eq!(TInterpolation::from_str("LINEAR"), Ok(TInterpolation::Linear));
    assert_eq!(TInterpolation::from_str("Step"), Ok(TInterpolation::Stepwise));
    assert_eq!(TInterpolation::from_str("stepwise"), Ok(TInterpolation::Stepwise));
}

#[test]
fn parse_rejects_other_text() {
    assert_eq!(TInterpolation::from_str("steps"), Err(ParseError));
    assert_eq!(TInterpolation::from_str(""), Err(ParseError));
    assert_eq!(TInterpolation::from_str(" linear"), Err(ParseError));
    assert_eq!("cubic".parse::<TInterpolation>(), Err(ParseError));
}

#[test]
fn from_lowercase_is_case_sensitive() {
    assert_eq!(TInterpolation::from_lowercase("linear"), Ok(TInterpolation::Linear));
    assert_eq!(TInterpolation::from_lowercase("Linear"), Err(ParseError));
}

#[test]
fn names_are_the_variant_names() {
    assert_eq!(TInterpolation::NoInterpolation.name(), "None");
    assert_eq!(TInterpolation::Discrete.name(), "Discrete");
    assert_eq!(TInterpolation::Stepwise.name(), "Stepwise");
    assert_eq!(TInterpolation::Linear.name(), "Linear");
}

#[test]
fn name_parses_back() {
    for v in [
        TInterpolation::NoInterpolation,
        TInterpolation::Discrete,
        TInterpolation::Stepwise,
        TInterpolation::Linear,
    ] {
        assert_eq!(TInterpolation::from_str(&v.name()), Ok(v));
    }
}

#[test]
fn meos_codes() {
    assert_eq!(TInterpolation::NoInterpolation.code(), 0);
    assert_eq!(TInterpolation::Discrete.code(), 1);
    assert_eq!(TInterpolation::Stepwise.code(), 2);
    assert_eq!(TInterpolation::Linear.code(), 3);
}
