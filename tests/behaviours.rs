use nutype_core::derive::{
    is_derive_attribute, is_doc_attribute, parse_derive_traits, Attribute,
    parse_derive_attr, parse_ident_into_derive_trait, parse_token_into_derive_trait, split_traits,
    validate_derive_traits, DeriveTrait, DerivedTrait, ImplementedTrait, NormalDeriveTrait,
    SpannedDeriveTrait, StringDeriveTrait,
};
use nutype_core::error::{ErrorKind, ParseError};
use nutype_core::plan::{error_variants, gen_error_name, gen_module_name_for_type};
use nutype_core::guard::ValidationErrorKind;
use nutype_core::literal::Num;
use nutype_core::rules::Validator;
use nutype_core::token::Token;

fn chars(s: &str) -> Vec<char> {
    s.chars().collect()
}

fn ident(s: &str, pos: usize) -> Token {
    Token::Ident { text: chars(s), pos }
}

fn normal(t: NormalDeriveTrait, pos: usize) -> SpannedDeriveTrait {
    SpannedDeriveTrait { item: DeriveTrait::Normal(t), pos }
}

#[test]
fn known_behaviour_names() {
    assert_eq!(parse_ident_into_derive_trait(&chars("FromStr"), 3), Ok(normal(NormalDeriveTrait::FromStr, 3)));
    assert_eq!(parse_ident_into_derive_trait(&chars("Serialize"), 1), Ok(normal(NormalDeriveTrait::SerdeSerialize, 1)));
    assert_eq!(parse_ident_into_derive_trait(&chars("Deserialize"), 1), Ok(normal(NormalDeriveTrait::SerdeDeserialize, 1)));
}

#[test]
fn unknown_behaviour_name() {
    assert_eq!(
        parse_ident_into_derive_trait(&chars("Frobnicate"), 7),
        Err(ParseError { kind: ErrorKind::UnknownBehavior, pos: 7 })
    );
}

#[test]
fn derive_tokens() {
    assert_eq!(parse_token_into_derive_trait(&Token::Punct { ch: ',', pos: 0 }), Ok(None));
    assert_eq!(
        parse_token_into_derive_trait(&Token::Punct { ch: '*', pos: 2 }),
        Ok(Some(SpannedDeriveTrait { item: DeriveTrait::Asterisk, pos: 2 }))
    );
    assert_eq!(
        parse_token_into_derive_trait(&Token::Punct { ch: '+', pos: 2 }),
        Err(ParseError { kind: ErrorKind::UnexpectedToken, pos: 2 })
    );
}

#[test]
fn derive_attribute_list() {
    let inner = vec![ident("FromStr", 1), Token::Punct { ch: ',', pos: 2 }, ident("Display", 3)];
    let ts = vec![Token::Group { inner, pos: 0 }];
    assert_eq!(
        parse_derive_attr(&ts, 0),
        Ok(vec![normal(NormalDeriveTrait::FromStr, 1), normal(NormalDeriveTrait::Display, 3)])
    );
    let empty: Vec<Token> = vec![];
    assert_eq!(parse_derive_attr(&empty, 5), Err(ParseError { kind: ErrorKind::MalformedSyntax, pos: 5 }));
}

#[test]
fn split_traits_parts_by_class() {
    let input = vec![
        StringDeriveTrait::Debug,
        StringDeriveTrait::FromStr,
        StringDeriveTrait::Clone,
        StringDeriveTrait::TryFrom,
    ];
    let (derived, implemented) = split_traits(&input);
    assert_eq!(derived, vec![DerivedTrait::Debug, DerivedTrait::Clone]);
    assert_eq!(implemented, vec![ImplementedTrait::FromStr, ImplementedTrait::TryFrom]);
}

#[test]
fn text_behaviours_collapse_duplicates() {
    let traits = vec![
        normal(NormalDeriveTrait::Clone, 1),
        normal(NormalDeriveTrait::From, 2),
        normal(NormalDeriveTrait::Clone, 3),
    ];
    assert_eq!(validate_derive_traits(false, &traits), Ok(vec![StringDeriveTrait::Clone, StringDeriveTrait::From]));
}

#[test]
fn from_needs_infallible_construction() {
    let traits = vec![normal(NormalDeriveTrait::From, 2)];
    assert_eq!(validate_derive_traits(true, &traits), Err(ParseError { kind: ErrorKind::InconsistentRules, pos: 2 }));
    let traits = vec![normal(NormalDeriveTrait::TryFrom, 4)];
    assert_eq!(validate_derive_traits(false, &traits), Err(ParseError { kind: ErrorKind::InconsistentRules, pos: 4 }));
}

#[test]
fn text_refuses_unsupported_behaviour() {
    let traits = vec![normal(NormalDeriveTrait::Copy, 6)];
    assert_eq!(validate_derive_traits(false, &traits), Err(ParseError { kind: ErrorKind::InconsistentRules, pos: 6 }));
}

#[test]
fn hidden_module_and_error_names() {
    assert_eq!(gen_module_name_for_type(&chars("Age")), chars("__nutype_module_for_Age"));
    assert_eq!(gen_error_name(&chars("Age")), chars("AgeError"));
}

#[test]
fn error_variants_are_distinct() {
    let vals = vec![
        Validator::Max { value: Num { neg: false, mag: 9 }, pos: 0 },
        Validator::With { start: 0, end: 1, pos: 1 },
        Validator::Min { value: Num { neg: false, mag: 1 }, pos: 2 },
        Validator::With { start: 2, end: 3, pos: 3 },
    ];
    assert_eq!(
        error_variants(&vals),
        vec![ValidationErrorKind::TooBig, ValidationErrorKind::Invalid, ValidationErrorKind::TooSmall]
    );
}

#[test]
fn declaration_attributes() {
    let doc = Attribute { path_head: Some(chars("doc")), tokens: vec![], pos: 0 };
    let derive = Attribute {
        path_head: Some(chars("derive")),
        tokens: vec![Token::Group { inner: vec![ident("Clone", 2), Token::Punct { ch: ',', pos: 3 }, ident("FromStr", 4)], pos: 1 }],
        pos: 1,
    };
    let other = Attribute { path_head: None, tokens: vec![], pos: 5 };
    assert!(is_doc_attribute(&doc) && !is_derive_attribute(&doc));
    assert!(is_derive_attribute(&derive) && !is_doc_attribute(&derive));
    assert!(!is_doc_attribute(&other) && !is_derive_attribute(&other));
    assert_eq!(
        parse_derive_traits(&vec![doc, derive, other]),
        Ok(vec![normal(NormalDeriveTrait::Clone, 2), normal(NormalDeriveTrait::FromStr, 4)])
    );
}

#[test]
fn unknown_behaviour_in_declaration() {
    let derive = Attribute {
        path_head: Some(chars("derive")),
        tokens: vec![Token::Group { inner: vec![ident("Sparkle", 2)], pos: 1 }],
        pos: 1,
    };
    assert_eq!(parse_derive_traits(&vec![derive]), Err(ParseError { kind: ErrorKind::UnknownBehavior, pos: 2 }));
}
