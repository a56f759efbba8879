//! Decisions the emitter takes from the checked rules: the name of the
//! hidden module and the variants of the error type.
use vstd::prelude::*;
use crate::guard::{ValidationErrorKind, error_of};
use crate::rules::Validator;
use crate::text::push_chars;

verus! {

pub open spec fn module_prefix() -> Seq<char> {
    seq!['_', '_', 'n', 'u', 't', 'y', 'p', 'e', '_', 'm', 'o', 'd', 'u', 'l', 'e', '_', 'f', 'o', 'r', '_']
}

pub open spec fn error_suffix() -> Seq<char> {
    seq!['E', 'r', 'r', 'o', 'r']
}

/// The name of the hidden module that holds the wrapper `wrapper_name`: a
/// fixed prefix, then the type's name.
pub fn gen_module_name_for_type(wrapper_name: &Vec<char>) -> (r: Vec<char>)
    ensures
        r@ == module_prefix() + wrapper_name@,
{
    let mut out = vec!['_', '_', 'n', 'u', 't', 'y', 'p', 'e', '_', 'm', 'o', 'd', 'u', 'l', 'e', '_', 'f', 'o', 'r', '_'];
    push_chars(&mut out, wrapper_name);
    out
}

/// The name of the error type of the wrapper `wrapper_name`: the type's name,
/// then `Error`.
pub fn gen_error_name(wrapper_name: &Vec<char>) -> (r: Vec<char>)
    ensures
        r@ == wrapper_name@ + error_suffix(),
{
    let mut out: Vec<char> = Vec::new();
    push_chars(&mut out, wrapper_name);
    let suffix = vec!['E', 'r', 'r', 'o', 'r'];
    push_chars(&mut out, &suffix);
    out
}

/// The distinct error kinds of `vals[..j]`, in the order of their first
/// validator.
pub open spec fn error_variants_upto(vals: Seq<Validator>, j: int) -> Seq<ValidationErrorKind>
    decreases j,
{
    if j <= 0 {
        Seq::empty()
    } else {
        let p = error_variants_upto(vals, j - 1);
        let k = error_of(vals[j - 1]);
        if p.contains(k) {
            p
        } else {
            p.push(k)
        }
    }
}

fn error_kind_of(v: &Validator) -> (r: ValidationErrorKind)
    ensures
        r == error_of(*v),
{
    match v {
        Validator::Min { .. } => ValidationErrorKind::TooSmall,
        Validator::Max { .. } => ValidationErrorKind::TooBig,
        Validator::With { .. } => ValidationErrorKind::Invalid,
    }
}

/// The variants of the error type: one per distinct kind of validator
/// failure, in the order of the validators.
pub fn error_variants(vals: &Vec<Validator>) -> (r: Vec<ValidationErrorKind>)
    ensures
        r@ == error_variants_upto(vals@, vals@.len() as int),
{
    let mut out: Vec<ValidationErrorKind> = Vec::new();
    let mut j: usize = 0;
    while j < vals.len()
        invariant
            0 <= j <= vals@.len(),
            out@ == error_variants_upto(vals@, j as int),
        decreases vals@.len() - j,
    {
        let k = error_kind_of(&vals[j]);
        let mut seen = false;
        let mut i: usize = 0;
        while i < out.len()
            invariant
                0 <= i <= out@.len(),
                seen == exists|m: int| 0 <= m < i && out@[m] == k,
            decreases out@.len() - i,
        {
            if out[i] == k {
                seen = true;
            }
            i = i + 1;
        }
        assert(seen == out@.contains(k));
        if !seen {
            out.push(k);
        }
        j = j + 1;
    }
    out
}

} // verus!
