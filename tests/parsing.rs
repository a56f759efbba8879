use nutype_core::attrs::{last_option_group, parse_attributes, parse_nutype_attributes, parse_sanitize_attrs, parse_validate_attrs, validate_number_meta, Guard, RawGuard};
use nutype_core::error::{ErrorKind, ParseError};
use nutype_core::literal::{parse_int_text, parse_value_as_number, sanitize_number, NumberKind, Num};
use nutype_core::rules::{parse_inner_type, parse_with_token_stream, split_on_commas, InnerType, Sanitizer, Validator};
use nutype_core::token::{is_comma, is_eq, try_unwrap_group, try_unwrap_ident, Token};

fn ident(s: &str, pos: usize) -> Token {
    Token::Ident { text: s.chars().collect(), pos }
}

fn punct(c: char, pos: usize) -> Token {
    Token::Punct { ch: c, pos }
}

fn lit(s: &str, pos: usize) -> Token {
    Token::Literal { text: s.chars().collect(), pos }
}

fn group(inner: Vec<Token>, pos: usize) -> Token {
    Token::Group { inner, pos }
}

fn chars(s: &str) -> Vec<char> {
    s.chars().collect()
}

#[test]
fn comma_and_eq_are_recognised() {
    assert!(is_comma(&punct(',', 0)));
    assert!(!is_comma(&punct('=', 0)));
    assert!(is_eq(&punct('=', 0)));
    assert!(!is_eq(&ident("eq", 0)));
}

#[test]
fn underscores_are_removed() {
    assert_eq!(sanitize_number(&chars("1_000_000")), chars("1000000"));
    assert_eq!(sanitize_number(&chars("___")), chars(""));
    assert_eq!(sanitize_number(&chars("42")), chars("42"));
}

#[test]
fn integers_parse_within_their_kind() {
    assert_eq!(parse_int_text(NumberKind::U8, &chars("255")), Some(Num { neg: false, mag: 255 }));
    assert_eq!(parse_int_text(NumberKind::U8, &chars("256")), None);
    assert_eq!(parse_int_text(NumberKind::U8, &chars("-1")), None);
    assert_eq!(parse_int_text(NumberKind::I8, &chars("-128")), Some(Num { neg: true, mag: 128 }));
    assert_eq!(parse_int_text(NumberKind::I8, &chars("-129")), None);
    assert_eq!(parse_int_text(NumberKind::I32, &chars("-0")), Some(Num { neg: false, mag: 0 }));
    assert_eq!(parse_int_text(NumberKind::U32, &chars("+7")), Some(Num { neg: false, mag: 7 }));
    assert_eq!(parse_int_text(NumberKind::U32, &chars("")), None);
    assert_eq!(parse_int_text(NumberKind::U32, &chars("+")), None);
    assert_eq!(parse_int_text(NumberKind::U32, &chars("12a")), None);
    assert_eq!(
        parse_int_text(NumberKind::U128, &chars("340282366920938463463374607431768211455")),
        Some(Num { neg: false, mag: u128::MAX })
    );
    assert_eq!(parse_int_text(NumberKind::U128, &chars("340282366920938463463374607431768211456")), None);
}

#[test]
fn bound_value_reads_sign_and_underscores() {
    let ts = vec![punct('=', 1), punct('-', 2), lit("1_000", 3)];
    assert_eq!(parse_value_as_number(NumberKind::I32, &ts, 0, 3, 0), Ok(Num { neg: true, mag: 1000 }));
    let ts = vec![punct('=', 1), lit("123", 2)];
    assert_eq!(parse_value_as_number(NumberKind::U8, &ts, 0, 2, 0), Ok(Num { neg: false, mag: 123 }));
}

#[test]
fn bound_value_errors() {
    let ts = vec![punct('=', 1), lit("300", 2)];
    assert_eq!(
        parse_value_as_number(NumberKind::U8, &ts, 0, 2, 0),
        Err(ParseError { kind: ErrorKind::MalformedLiteral, pos: 2 })
    );
    let ts = vec![lit("3", 1)];
    assert_eq!(
        parse_value_as_number(NumberKind::U8, &ts, 0, 1, 9),
        Err(ParseError { kind: ErrorKind::MalformedSyntax, pos: 1 })
    );
    let ts: Vec<Token> = vec![];
    assert_eq!(
        parse_value_as_number(NumberKind::U8, &ts, 0, 0, 9),
        Err(ParseError { kind: ErrorKind::MalformedSyntax, pos: 9 })
    );
}

#[test]
fn split_drops_empty_parts() {
    let ts = vec![punct(',', 0), ident("a", 1), punct(',', 2), punct(',', 3), ident("b", 4), ident("c", 5)];
    assert_eq!(split_on_commas(&ts), vec![(1, 2), (4, 6)]);
    let empty: Vec<Token> = vec![];
    assert_eq!(split_on_commas(&empty), vec![]);
}

#[test]
fn validators_min_max_with() {
    let ts = vec![
        ident("min", 1), punct('=', 2), lit("18", 3), punct(',', 4),
        ident("max", 5), punct('=', 6), lit("99", 7), punct(',', 8),
        ident("with", 9), punct('=', 10), ident("is_ok", 11),
    ];
    let vals = parse_validate_attrs(InnerType::Number(NumberKind::U8), &ts).unwrap();
    assert_eq!(
        vals,
        vec![
            Validator::Min { value: Num { neg: false, mag: 18 }, pos: 1 },
            Validator::Max { value: Num { neg: false, mag: 99 }, pos: 5 },
            Validator::With { start: 10, end: 11, pos: 9 },
        ]
    );
}

#[test]
fn unknown_validator_is_refused() {
    let ts = vec![ident("between", 4), punct('=', 5), lit("1", 6)];
    assert_eq!(
        parse_validate_attrs(InnerType::Number(NumberKind::U8), &ts),
        Err(ParseError { kind: ErrorKind::UnknownRule, pos: 4 })
    );
}

#[test]
fn with_needs_eq_and_code() {
    let ts = vec![ident("with", 4), ident("f", 5)];
    assert_eq!(parse_sanitize_attrs(&ts), Err(ParseError { kind: ErrorKind::MalformedSyntax, pos: 4 }));
    let ts = vec![ident("with", 4), punct('=', 5)];
    assert_eq!(parse_sanitize_attrs(&ts), Err(ParseError { kind: ErrorKind::MalformedSyntax, pos: 4 }));
    let ts = vec![ident("with", 4), punct('=', 5), ident("f", 6), punct('.', 7), ident("g", 8)];
    assert_eq!(parse_sanitize_attrs(&ts), Ok(vec![Sanitizer::With { start: 2, end: 5, pos: 4 }]));
}

#[test]
fn unknown_option_is_refused() {
    let ts = vec![ident("trim", 3), group(vec![], 4)];
    let r = parse_nutype_attributes(InnerType::Number(NumberKind::U8), &ts);
    assert_eq!(r.unwrap_err(), ParseError { kind: ErrorKind::UnknownRule, pos: 3 });
}

#[test]
fn option_needs_a_group() {
    let ts = vec![ident("validate", 3)];
    assert_eq!(
        parse_nutype_attributes(InnerType::Number(NumberKind::U8), &ts).unwrap_err(),
        ParseError { kind: ErrorKind::ExpectedGroup, pos: 3 }
    );
    let ts = vec![lit("1", 2)];
    assert_eq!(
        parse_nutype_attributes(InnerType::Number(NumberKind::U8), &ts).unwrap_err(),
        ParseError { kind: ErrorKind::ExpectedIdent, pos: 2 }
    );
}

#[test]
fn empty_group_and_absent_group_agree() {
    let absent: Vec<Token> = vec![];
    let empty = vec![ident("sanitize", 0), group(vec![], 1), ident("validate", 2), group(vec![], 3)];
    let a = parse_nutype_attributes(InnerType::Number(NumberKind::U8), &absent).unwrap();
    let b = parse_nutype_attributes(InnerType::Number(NumberKind::U8), &empty).unwrap();
    assert!(a.sanitizers.is_empty() && a.validators.is_empty());
    assert!(b.sanitizers.is_empty() && b.validators.is_empty());
}

#[test]
fn age_attributes_are_fallible() {
    let inner = vec![ident("min", 2), punct('=', 3), lit("18", 4), punct(',', 5), ident("max", 6), punct('=', 7), lit("99", 8)];
    let ts = vec![ident("validate", 1), group(inner, 2)];
    match parse_attributes(InnerType::Number(NumberKind::U8), &ts).unwrap() {
        Guard::TryFrom { sanitizers, validators } => {
            assert!(sanitizers.is_empty());
            assert_eq!(validators.len(), 2);
        }
        Guard::From { .. } => panic!("expected fallible construction"),
    }
}

#[test]
fn no_validators_is_infallible() {
    let raw = RawGuard { sanitizers: vec![Sanitizer::With { start: 2, end: 3, pos: 0 }], validators: vec![] };
    match validate_number_meta(raw).unwrap() {
        Guard::From { sanitizers } => assert_eq!(sanitizers.len(), 1),
        Guard::TryFrom { .. } => panic!("expected infallible construction"),
    }
}

#[test]
fn min_above_max_is_inconsistent() {
    let raw = RawGuard {
        sanitizers: vec![],
        validators: vec![
            Validator::Min { value: Num { neg: false, mag: 50 }, pos: 1 },
            Validator::Max { value: Num { neg: false, mag: 10 }, pos: 2 },
        ],
    };
    assert_eq!(validate_number_meta(raw).unwrap_err().kind, ErrorKind::InconsistentRules);
}

#[test]
fn duplicate_bound_is_inconsistent() {
    let raw = RawGuard {
        sanitizers: vec![],
        validators: vec![
            Validator::Max { value: Num { neg: false, mag: 50 }, pos: 1 },
            Validator::Max { value: Num { neg: false, mag: 60 }, pos: 2 },
        ],
    };
    assert_eq!(validate_number_meta(raw).unwrap_err().kind, ErrorKind::InconsistentRules);
}

#[test]
fn negative_min_below_max_is_accepted() {
    let raw = RawGuard {
        sanitizers: vec![],
        validators: vec![
            Validator::Min { value: Num { neg: true, mag: 5 }, pos: 1 },
            Validator::Max { value: Num { neg: false, mag: 0 }, pos: 2 },
        ],
    };
    assert!(validate_number_meta(raw).is_ok());
}

#[test]
fn text_has_no_numeric_bounds() {
    let ts = vec![ident("min", 4), punct('=', 5), lit("1", 6)];
    assert_eq!(parse_validate_attrs(InnerType::Text, &ts), Err(ParseError { kind: ErrorKind::UnknownRule, pos: 4 }));
    let ts = vec![ident("with", 4), punct('=', 5), ident("is_valid", 6)];
    assert_eq!(parse_validate_attrs(InnerType::Text, &ts), Ok(vec![Validator::With { start: 2, end: 3, pos: 4 }]));
}

#[test]
fn text_without_rules_is_infallible() {
    let ts: Vec<Token> = vec![];
    match parse_attributes(InnerType::Text, &ts).unwrap() {
        Guard::From { sanitizers } => assert!(sanitizers.is_empty()),
        Guard::TryFrom { .. } => panic!("expected infallible construction"),
    }
}

#[test]
fn unwrap_ident_and_group() {
    assert_eq!(try_unwrap_ident(ident("abc", 3)), Ok((chars("abc"), 3)));
    assert_eq!(try_unwrap_ident(punct(',', 4)).unwrap_err(), ParseError { kind: ErrorKind::ExpectedIdent, pos: 4 });
    assert_eq!(try_unwrap_group(group(vec![], 5)).map(|(inner, pos)| (inner.len(), pos)), Ok((0, 5)));
    assert_eq!(try_unwrap_group(ident("x", 6)).unwrap_err(), ParseError { kind: ErrorKind::ExpectedGroup, pos: 6 });
}

#[test]
fn with_code_range() {
    let ts = vec![ident("with", 0), punct('=', 1), ident("f", 2)];
    assert_eq!(parse_with_token_stream(&ts, 1, 3, 0), Ok((2, 3)));
    assert_eq!(parse_with_token_stream(&ts, 2, 3, 0), Err(ParseError { kind: ErrorKind::MalformedSyntax, pos: 0 }));
    assert_eq!(parse_with_token_stream(&ts, 1, 2, 0), Err(ParseError { kind: ErrorKind::MalformedSyntax, pos: 0 }));
}

#[test]
fn inner_type_names() {
    assert_eq!(parse_inner_type(&chars("u8")), Some(InnerType::Number(NumberKind::U8)));
    assert_eq!(parse_inner_type(&chars("i128")), Some(InnerType::Number(NumberKind::I128)));
    assert_eq!(parse_inner_type(&chars("String")), Some(InnerType::Text));
    assert_eq!(parse_inner_type(&chars("f64")), None);
}

#[test]
fn last_group_of_an_option() {
    let ts = vec![
        ident("validate", 0), group(vec![], 1),
        ident("sanitize", 2), group(vec![], 3),
        ident("validate", 4), group(vec![], 5),
    ];
    assert_eq!(last_option_group(&ts, &chars("validate")), Some(5));
    assert_eq!(last_option_group(&ts, &chars("sanitize")), Some(3));
    let none: Vec<Token> = vec![ident("validate", 0)];
    assert_eq!(last_option_group(&none, &chars("validate")), None);
}
