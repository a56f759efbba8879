use nutype_core::guard::{check_value, clamp_value, guard_value, ValidationErrorKind};
use nutype_core::literal::Num;
use nutype_core::rules::Validator;
use nutype_core::wrappers::{Age, AgeError, AgeParseError, Username};

fn min(v: u128) -> Validator {
    Validator::Min { value: Num { neg: false, mag: v }, pos: 0 }
}

fn max(v: u128) -> Validator {
    Validator::Max { value: Num { neg: false, mag: v }, pos: 0 }
}

#[test]
fn clamp_brings_values_into_range() {
    assert_eq!(clamp_value(-5, 0, 10), 0);
    assert_eq!(clamp_value(15, 0, 10), 10);
    assert_eq!(clamp_value(7, 0, 10), 7);
    assert_eq!(clamp_value(clamp_value(15, 0, 10), 0, 10), 10);
}

#[test]
fn clamped_value_always_accepted() {
    let vals = vec![min(10), max(20)];
    for x in [-100i128, 0, 10, 15, 20, 1000] {
        let r = guard_value(Some((10, 20)), &vals, x, &vec![]);
        assert_eq!(r, Ok(clamp_value(x, 10, 20)));
    }
}

#[test]
fn error_kinds_follow_the_refusing_rule() {
    let vals = vec![min(10), max(20), Validator::With { start: 0, end: 1, pos: 0 }];
    assert_eq!(check_value(&vals, 5, &vec![true, true, true]), Some(ValidationErrorKind::TooSmall));
    assert_eq!(check_value(&vals, 25, &vec![true, true, true]), Some(ValidationErrorKind::TooBig));
    assert_eq!(check_value(&vals, 15, &vec![true, true, false]), Some(ValidationErrorKind::Invalid));
    assert_eq!(check_value(&vals, 15, &vec![true, true, true]), None);
}

#[test]
fn first_refusing_rule_wins() {
    let vals = vec![max(20), min(30)];
    assert_eq!(check_value(&vals, 25, &vec![]), Some(ValidationErrorKind::TooBig));
    assert_eq!(check_value(&vals, 10, &vec![]), Some(ValidationErrorKind::TooSmall));
}

#[test]
fn negative_bounds() {
    let vals = vec![Validator::Min { value: Num { neg: true, mag: 5 }, pos: 0 }];
    assert_eq!(check_value(&vals, -6, &vec![]), Some(ValidationErrorKind::TooSmall));
    assert_eq!(check_value(&vals, -5, &vec![]), None);
    assert_eq!(check_value(&vals, i128::MIN, &vec![]), Some(ValidationErrorKind::TooSmall));
}

#[test]
fn age_parses_and_serialises() {
    let age = Age::parse_text("77").unwrap();
    assert_eq!(age.into_inner(), 77);
    assert_eq!(age.to_json().unwrap(), "77");
}

#[test]
fn age_bounds() {
    assert_eq!(Age::new(17), Err(AgeError::TooSmall));
    assert_eq!(Age::new(100), Err(AgeError::TooBig));
    assert_eq!(Age::new(18).unwrap().into_inner(), 18);
    assert_eq!(Age::try_from_raw(99).unwrap().into_inner(), 99);
}

#[test]
fn age_text_errors() {
    assert_eq!(Age::parse_text("abc"), Err(AgeParseError::NotANumber));
    assert_eq!(Age::parse_text("256"), Err(AgeParseError::NotANumber));
    assert_eq!(Age::parse_text("150"), Err(AgeParseError::Invalid(AgeError::TooBig)));
    assert_eq!(Age::parse_text("+20").unwrap().into_inner(), 20);
}

#[test]
fn age_from_json_validates() {
    assert_eq!(Age::from_json("42").unwrap().into_inner(), 42);
    assert_eq!(Age::from_json("150"), Err(AgeParseError::Invalid(AgeError::TooBig)));
    assert_eq!(Age::from_json("5"), Err(AgeParseError::Invalid(AgeError::TooSmall)));
    assert_eq!(Age::from_json("\"x\""), Err(AgeParseError::NotANumber));
}

#[test]
fn age_json_round_trip() {
    for v in 18u8..=99 {
        let age = Age::new(v).unwrap();
        let json = age.to_json().unwrap();
        assert_eq!(Age::from_json(&json), Ok(age));
    }
}

#[test]
fn username_never_fails() {
    let u = Username::from_text("greyblake");
    assert_eq!(u.as_str(), "greyblake");
    assert_eq!(u.to_json().unwrap(), "\"greyblake\"");
    assert_eq!(Username::new(String::new()).into_inner(), "");
    assert_eq!(Username::from_text("with \"quote\"").to_json().unwrap(), "\"with \\\"quote\\\"\"");
}

#[test]
fn username_json_escapes_control_characters() {
    assert_eq!(Username::from_text("a\u{1}b\\").to_json().unwrap(), "\"a\\u0001b\\\\\"");
    assert_eq!(Username::from_text("tab\there\n").to_json().unwrap(), "\"tab\\there\\n\"");
}
