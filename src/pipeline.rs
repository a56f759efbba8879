//! The steps from a declaration to what the writers need, in order: the
//! shape, the wrapped primitive, the requested behaviours, the rules, and
//! the behaviours checked against the rules.
use vstd::prelude::*;
use crate::attrs::{Guard, attrs_spec, consistent, parse_attributes};
use crate::derive::{
    Attribute, NumberDeriveTrait, StringDeriveTrait, derive_traits_upto, number_traits_upto,
    parse_derive_traits, string_traits_upto, validate_derive_traits, validate_number_derive_traits,
};
use crate::error::{ErrorKind, ParseError, err_at};
use crate::literal::NumberKind;
use crate::rules::{InnerType, Sanitizer, Validator, check_single_field, inner_type_named, parse_inner_type};
use crate::token::Token;

verus! {

/// Everything the writers need for one declaration.
#[derive(Debug)]
pub enum NutypePlan {
    Number { kind: NumberKind, guard: Guard, number_traits: Vec<NumberDeriveTrait> },
    Text { guard: Guard, text_traits: Vec<StringDeriveTrait> },
}

/// `guard` holds exactly the rules `sans` and `vals`, and is fallible
/// exactly when there are validators.
pub open spec fn guard_holds(guard: Guard, sans: Seq<Sanitizer>, vals: Seq<Validator>) -> bool {
    match guard {
        Guard::From { sanitizers } => vals.len() == 0 && sanitizers@ == sans,
        Guard::TryFrom { sanitizers, validators } => vals.len() > 0 && sanitizers@ == sans && validators@ == vals,
    }
}

/// What planning gives once the shape, the primitive `k`, the behaviours
/// `dts` and the rules are read: the behaviours are checked against the
/// rules for the wrapper's family.
pub open spec fn plan_holds(r: Result<NutypePlan, ParseError>, k: InnerType, dts: Seq<crate::derive::SpannedDeriveTrait>, sans: Seq<Sanitizer>, vals: Seq<Validator>) -> bool {
    let fallible = vals.len() > 0;
    match k {
        InnerType::Text => match string_traits_upto(dts, fallible, dts.len() as int) {
            Err(e) => r == Err::<NutypePlan, ParseError>(e),
            Ok(ts) => match r {
                Ok(NutypePlan::Text { guard, text_traits }) => guard_holds(guard, sans, vals) && text_traits@ == ts,
                _ => false,
            },
        },
        InnerType::Number(nk) => match number_traits_upto(dts, fallible, dts.len() as int) {
            Err(e) => r == Err::<NutypePlan, ParseError>(e),
            Ok(ts) => match r {
                Ok(NutypePlan::Number { kind, guard, number_traits }) => kind == nk && guard_holds(guard, sans, vals) && number_traits@ == ts,
                _ => false,
            },
        },
    }
}

/// Reads a declaration: `unnamed` and `named` count its fields, `field_type`
/// is the written type of its field, `pos` its position, `attributes` its
/// outer attributes and `rule_tokens` the attribute list of the generator.
/// The first step that fails gives the error; a type that is not a
/// supported primitive is refused as an unsupported shape.
pub fn plan_nutype(attributes: &Vec<Attribute>, unnamed: usize, named: usize, field_type: &Vec<char>, pos: usize, rule_tokens: &Vec<Token>) -> (r: Result<NutypePlan, ParseError>)
    ensures
        !(unnamed == 1 && named == 0) ==> r == err_at::<NutypePlan>(ErrorKind::UnsupportedShape, pos),
        unnamed == 1 && named == 0 ==> match inner_type_named(field_type@) {
            None => r == err_at::<NutypePlan>(ErrorKind::UnsupportedShape, pos),
            Some(k) => match derive_traits_upto(attributes@, attributes@.len() as int) {
                Err(e) => r == Err::<NutypePlan, ParseError>(e),
                Ok(dts) => match attrs_spec(k, rule_tokens@) {
                    Err(e) => r == Err::<NutypePlan, ParseError>(e),
                    Ok((sans, vals)) => if consistent(vals) {
                        plan_holds(r, k, dts, sans, vals)
                    } else {
                        r is Err && r->Err_0.kind == ErrorKind::InconsistentRules
                    },
                },
            },
        },
{
    check_single_field(unnamed, named, pos)?;
    let k = match parse_inner_type(field_type) {
        Some(k) => k,
        None => {
            return Err(ParseError { kind: ErrorKind::UnsupportedShape, pos });
        },
    };
    let dts = parse_derive_traits(attributes)?;
    let guard = parse_attributes(k, rule_tokens)?;
    let fallible = match &guard {
        Guard::From { .. } => false,
        Guard::TryFrom { .. } => true,
    };
    match k {
        InnerType::Text => {
            let traits = validate_derive_traits(fallible, &dts)?;
            Ok(NutypePlan::Text { guard, text_traits: traits })
        },
        InnerType::Number(nk) => {
            let traits = validate_number_derive_traits(fallible, &dts)?;
            Ok(NutypePlan::Number { kind: nk, guard, number_traits: traits })
        },
    }
}

} // verus!
