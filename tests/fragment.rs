use nutype_core::attrs::{parse_attributes, Guard};
use nutype_core::rules::{check_single_field, InnerType};
use nutype_core::token::Token;
use nutype_core::error::{ErrorKind, ParseError};
use nutype_core::derive::{Attribute, NumberDeriveTrait, StringDeriveTrait};
use nutype_core::pipeline::{plan_nutype, NutypePlan};
use nutype_core::string_fragment::{gen_nutype_for_string, gen_traits};
use nutype_core::fragment::{decimal_chars, gen_nutype_for_number, gen_sanitize_fn, gen_validate_fn, gen_validation_error_type};
use nutype_core::literal::{Num, NumberKind};
use nutype_core::rules::{Sanitizer, Validator};

fn chars(s: &str) -> Vec<char> {
    s.chars().collect()
}

fn text(v: &[char]) -> String {
    v.iter().collect()
}

fn num(neg: bool, mag: u128) -> Num {
    Num { neg, mag }
}

#[test]
fn decimal_digits() {
    assert_eq!(text(&decimal_chars(0)), "0");
    assert_eq!(text(&decimal_chars(1234)), "1234");
    assert_eq!(text(&decimal_chars(u128::MAX)), u128::MAX.to_string());
}

#[test]
fn sanitize_function_text() {
    let mut out = chars(">");
    let sans = vec![
        Sanitizer::Clamp { min: num(true, 5), max: num(false, 10) },
        Sanitizer::With { start: 0, end: 1, pos: 0 },
    ];
    gen_sanitize_fn(&mut out, &chars("i32"), &sans, &vec![vec![], chars("|x| x * 2")]);
    assert_eq!(
        text(&out),
        ">fn sanitize(mut value: i32) -> i32 {\n    value = value.clamp(-5, 10);\n    value = (|x| x * 2)(value);\n    value\n}\n"
    );
}

#[test]
fn validate_function_text() {
    let mut out = Vec::new();
    let vals = vec![
        Validator::Min { value: num(false, 18), pos: 0 },
        Validator::Max { value: num(false, 99), pos: 0 },
    ];
    gen_validate_fn(&mut out, &chars("u8"), &vals, &vec![], &chars("AgeError"));
    assert_eq!(
        text(&out),
        "fn validate(val: u8) -> Result<(), AgeError> {\n    if val < 18 {\n        return Err(AgeError::TooSmall);\n    }\n    if val > 99 {\n        return Err(AgeError::TooBig);\n    }\n    Ok(())\n}\n"
    );
}

#[test]
fn error_type_text() {
    let mut out = Vec::new();
    let vals = vec![
        Validator::Max { value: num(false, 1), pos: 0 },
        Validator::Max { value: num(false, 2), pos: 0 },
        Validator::With { start: 0, end: 1, pos: 0 },
    ];
    gen_validation_error_type(&mut out, &vals, &chars("XError"));
    assert_eq!(
        text(&out),
        "#[derive(Debug, Clone, Copy, PartialEq, Eq)]\npub enum XError {\n    TooBig,\n    Invalid,\n}\n"
    );
}

#[test]
fn age_fragment() {
    let guard = Guard::TryFrom {
        sanitizers: vec![],
        validators: vec![
            Validator::Min { value: num(false, 18), pos: 0 },
            Validator::Max { value: num(false, 99), pos: 0 },
        ],
    };
    let out = text(&gen_nutype_for_number(&vec![], &chars("pub"), NumberKind::U8, &chars("Age"), &guard, &vec![], &vec![], &vec![]));
    assert!(out.starts_with("mod __nutype_module_for_Age {\n    use super::*;\n\n#[derive("));
    assert!(out.contains("pub struct Age(u8);"));
    assert!(out.contains("pub fn new(raw_value: u8) -> Result<Self, AgeError> {"));
    assert!(out.contains("impl ::core::convert::TryFrom<u8> for Age {"));
    assert!(out.contains("pub fn into_inner(self) -> u8 {"));
    assert!(out.ends_with("}\npub use __nutype_module_for_Age::Age;\npub use __nutype_module_for_Age::AgeError;\n"));
}

#[test]
fn infallible_fragment_has_no_error_type() {
    let guard = Guard::From { sanitizers: vec![] };
    let out = text(&gen_nutype_for_number(&vec![], &vec![], NumberKind::I64, &chars("Count"), &guard, &vec![], &vec![], &vec![]));
    assert!(out.contains("pub fn new(raw_value: i64) -> Self {"));
    assert!(out.contains("impl ::core::convert::From<i64> for Count {"));
    assert!(!out.contains("Error"));
    assert!(out.ends_with("}\n use __nutype_module_for_Count::Count;\n"));
}

#[test]
fn text_traits_split_into_derive_and_code() {
    let g = gen_traits(&chars("Name"), false, &vec![StringDeriveTrait::Debug, StringDeriveTrait::AsRef, StringDeriveTrait::Clone]);
    assert_eq!(text(&g.derive_standard_traits), "#[derive(Debug, Clone, )]\n");
    assert_eq!(
        text(&g.implement_traits),
        "impl ::core::convert::AsRef<str> for Name {\n    fn as_ref(&self) -> &str {\n        &self.0\n    }\n}\n"
    );
}

#[test]
fn text_from_str_depends_on_fallibility() {
    let infallible = text(&gen_traits(&chars("Name"), false, &vec![StringDeriveTrait::FromStr]).implement_traits);
    assert!(infallible.contains("type Err = ();") && infallible.contains("Ok(Name::new(raw_string))"));
    let fallible = text(&gen_traits(&chars("Name"), true, &vec![StringDeriveTrait::FromStr]).implement_traits);
    assert!(fallible.contains("type Err = NameError;") && fallible.contains("Name::new(raw_string)\n"));
}

#[test]
fn username_fragment() {
    let guard = Guard::From { sanitizers: vec![] };
    let out = text(&gen_nutype_for_string(
        &vec![],
        &chars("pub"),
        &chars("Username"),
        &guard,
        &vec![StringDeriveTrait::FromStr, StringDeriveTrait::Clone],
        &vec![],
        &vec![],
    ));
    assert!(out.contains("#[derive(Clone, )]\npub struct Username(String);"));
    assert!(out.contains("pub fn new(raw_value: impl Into<String>) -> Self {"));
    assert!(out.contains("type Err = ();"));
    assert!(!out.contains("UsernameError"));
    assert!(out.ends_with("pub use __nutype_module_for_Username::Username;\n"));
}

#[test]
fn single_field_shape() {
    assert_eq!(check_single_field(1, 0, 3), Ok(()));
    assert_eq!(check_single_field(2, 0, 3), Err(ParseError { kind: ErrorKind::UnsupportedShape, pos: 3 }));
    assert_eq!(check_single_field(0, 1, 4), Err(ParseError { kind: ErrorKind::UnsupportedShape, pos: 4 }));
    assert_eq!(check_single_field(0, 0, 5), Err(ParseError { kind: ErrorKind::UnsupportedShape, pos: 5 }));
}

#[test]
fn tokens_to_fragment() {
    let ident = |s: &str, pos: usize| Token::Ident { text: chars(s), pos };
    let punct = |c: char, pos: usize| Token::Punct { ch: c, pos };
    let lit = |s: &str, pos: usize| Token::Literal { text: chars(s), pos };
    let inner = vec![
        ident("min", 2), punct('=', 3), punct('-', 4), lit("1_0", 5), punct(',', 6),
        ident("with", 7), punct('=', 8), punct('|', 9), ident("x", 10), punct('|', 11), ident("true", 12),
    ];
    let ts = vec![ident("validate", 0), Token::Group { inner, pos: 1 }];
    let guard = parse_attributes(InnerType::Number(NumberKind::I16), &ts).unwrap();
    let codes = vec![vec![], chars("|x| true")];
    let out = text(&gen_nutype_for_number(&vec![], &vec![], NumberKind::I16, &chars("Temp"), &guard, &vec![], &vec![], &codes));
    assert!(out.contains("fn validate(val: i16) -> Result<(), TempError> {\n    if val < -10 {\n        return Err(TempError::TooSmall);\n    }\n    if !(|x| true)(&val) {\n        return Err(TempError::Invalid);\n    }\n    Ok(())\n}\n"));
    assert!(out.contains("pub enum TempError {\n    TooSmall,\n    Invalid,\n}\n"));
}

#[test]
fn integer_behaviours_are_emitted() {
    let guard = Guard::TryFrom { sanitizers: vec![], validators: vec![Validator::Max { value: num(false, 99), pos: 0 }] };
    let traits = vec![NumberDeriveTrait::FromStr, NumberDeriveTrait::Clone, NumberDeriveTrait::Copy, NumberDeriveTrait::SerdeDeserialize, NumberDeriveTrait::Display];
    let out = text(&gen_nutype_for_number(&vec![], &chars("pub"), NumberKind::U8, &chars("Age"), &guard, &traits, &vec![], &vec![]));
    assert!(out.contains("#[derive(Clone, Copy, )]\npub struct Age(u8);"));
    assert!(out.contains("impl ::core::str::FromStr for Age {\n    type Err = AgeParseError;"));
    assert!(out.contains("Validate(AgeError),"));
    assert!(out.contains("Age::new(raw_value).map_err(|e| <D::Error as ::serde::de::Error>::custom(format!(\"{:?}\", e)))"));
    assert!(out.contains("impl ::core::fmt::Display for Age {"));
}

#[test]
fn infallible_integer_deserialize_wraps() {
    let guard = Guard::From { sanitizers: vec![] };
    let traits = vec![NumberDeriveTrait::SerdeDeserialize, NumberDeriveTrait::FromStr];
    let out = text(&gen_nutype_for_number(&vec![], &vec![], NumberKind::I32, &chars("Id"), &guard, &traits, &vec![], &vec![]));
    assert!(out.contains("        Ok(Id::new(raw_value))\n"));
    assert!(out.contains("type Err = <i32 as ::core::str::FromStr>::Err;"));
    assert!(out.contains("#[derive()]"));
}

fn derive_attr(names: &[&str]) -> Attribute {
    let mut inner = Vec::new();
    for (i, n) in names.iter().enumerate() {
        inner.push(Token::Ident { text: chars(n), pos: 10 + i });
    }
    Attribute { path_head: Some(chars("derive")), tokens: vec![Token::Group { inner, pos: 9 }], pos: 8 }
}

#[test]
fn plan_for_age() {
    let ident = |s: &str, pos: usize| Token::Ident { text: chars(s), pos };
    let inner = vec![ident("min", 2), Token::Punct { ch: '=', pos: 3 }, Token::Literal { text: chars("18"), pos: 4 }];
    let rules = vec![ident("validate", 0), Token::Group { inner, pos: 1 }];
    match plan_nutype(&vec![derive_attr(&["FromStr", "Copy", "FromStr"])], 1, 0, &chars("u8"), 7, &rules).unwrap() {
        NutypePlan::Number { kind, guard, number_traits: traits } => {
            assert_eq!(kind, NumberKind::U8);
            assert!(matches!(guard, Guard::TryFrom { .. }));
            assert_eq!(traits, vec![NumberDeriveTrait::FromStr, NumberDeriveTrait::Copy]);
        }
        NutypePlan::Text { .. } => panic!("expected an integer plan"),
    }
}

#[test]
fn plan_refusals() {
    let none: Vec<Token> = vec![];
    assert_eq!(plan_nutype(&vec![], 2, 0, &chars("u8"), 7, &none).unwrap_err(), ParseError { kind: ErrorKind::UnsupportedShape, pos: 7 });
    assert_eq!(plan_nutype(&vec![], 1, 0, &chars("Vec<u8>"), 7, &none).unwrap_err(), ParseError { kind: ErrorKind::UnsupportedShape, pos: 7 });
    assert_eq!(plan_nutype(&vec![derive_attr(&["Sparkle"])], 1, 0, &chars("u8"), 7, &none).unwrap_err(), ParseError { kind: ErrorKind::UnknownBehavior, pos: 10 });
    assert_eq!(plan_nutype(&vec![derive_attr(&["TryFrom"])], 1, 0, &chars("u8"), 7, &none).unwrap_err(), ParseError { kind: ErrorKind::InconsistentRules, pos: 10 });
    assert_eq!(plan_nutype(&vec![derive_attr(&["Copy"])], 1, 0, &chars("String"), 7, &none).unwrap_err(), ParseError { kind: ErrorKind::InconsistentRules, pos: 10 });
    match plan_nutype(&vec![derive_attr(&["From", "Clone"])], 1, 0, &chars("String"), 7, &none).unwrap() {
        NutypePlan::Text { guard, text_traits: traits } => {
            assert!(matches!(guard, Guard::From { .. }));
            assert_eq!(traits, vec![StringDeriveTrait::From, StringDeriveTrait::Clone]);
        }
        NutypePlan::Number { .. } => panic!("expected a text plan"),
    }
}
