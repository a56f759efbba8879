//! A model of what the constructor of a generated wrapper does with a raw
//! value: clamp it, then run the validators in order; the first that fails
//! names the error. The model is stated by hand after the text that the
//! fragment writers emit; no contract ties the two together, so what is
//! proved here is proved of the model.
use vstd::prelude::*;
use crate::attrs::num_le;
use crate::literal::Num;
use crate::rules::Validator;

verus! {

/// Why a validator refused a value.
#[derive(Debug, Clone, Copy, PartialEq, Eq, Structural)]
pub enum ValidationErrorKind {
    TooSmall,
    TooBig,
    Invalid,
}

/// `x` brought into the range `lo..=hi`.
pub open spec fn clamp(x: int, lo: int, hi: int) -> int {
    if x < lo {
        lo
    } else if x > hi {
        hi
    } else {
        x
    }
}

/// Whether validator `v` refuses `x`; `custom_ok` is what a custom
/// predicate said of `x`.
pub open spec fn refuses(v: Validator, x: int, custom_ok: bool) -> bool {
    match v {
        Validator::Min { value, .. } => x < value.value(),
        Validator::Max { value, .. } => x > value.value(),
        Validator::With { .. } => !custom_ok,
    }
}

/// The error that validator `v` reports.
pub open spec fn error_of(v: Validator) -> ValidationErrorKind {
    match v {
        Validator::Min { .. } => ValidationErrorKind::TooSmall,
        Validator::Max { .. } => ValidationErrorKind::TooBig,
        Validator::With { .. } => ValidationErrorKind::Invalid,
    }
}

/// The outcome of the custom predicate of validator `i`, where one was
/// given; a validator without one is taken to pass.
pub open spec fn custom_at(custom: Seq<bool>, i: int) -> bool {
    if 0 <= i < custom.len() {
        custom[i]
    } else {
        true
    }
}

/// The error of the first validator, from index `i` on, that refuses `x`.
pub open spec fn first_failure_from(vals: Seq<Validator>, x: int, custom: Seq<bool>, i: int) -> Option<ValidationErrorKind>
    decreases vals.len() - i,
{
    if i < 0 || i >= vals.len() {
        None
    } else if refuses(vals[i], x, custom_at(custom, i)) {
        Some(error_of(vals[i]))
    } else {
        first_failure_from(vals, x, custom, i + 1)
    }
}

pub open spec fn first_failure(vals: Seq<Validator>, x: int, custom: Seq<bool>) -> Option<ValidationErrorKind> {
    first_failure_from(vals, x, custom, 0)
}

/// What the constructor gives for `x`: the value clamped to `bounds` where
/// there are bounds, then checked.
pub open spec fn construct(bounds: Option<(int, int)>, vals: Seq<Validator>, x: int, custom: Seq<bool>) -> Result<int, ValidationErrorKind> {
    let y = match bounds {
        Some((lo, hi)) => clamp(x, lo, hi),
        None => x,
    };
    match first_failure(vals, y, custom) {
        None => Ok(y),
        Some(k) => Err(k),
    }
}

/// `x` brought into the range `lo..=hi`.
pub fn clamp_value(x: i128, lo: i128, hi: i128) -> (r: i128)
    requires
        lo <= hi,
    ensures
        r == clamp(x as int, lo as int, hi as int),
{
    if x < lo {
        lo
    } else if x > hi {
        hi
    } else {
        x
    }
}

fn num_of_i128(x: i128) -> (r: Num)
    ensures
        r.value() == x,
{
    if x < 0 {
        Num { neg: true, mag: (-(x + 1)) as u128 + 1 }
    } else {
        Num { neg: false, mag: x as u128 }
    }
}

/// The first validator, in order, that refuses `x`, with `custom[i]` the
/// outcome of validator `i`'s custom predicate on `x`.
pub fn check_value(vals: &Vec<Validator>, x: i128, custom: &Vec<bool>) -> (r: Option<ValidationErrorKind>)
    ensures
        r == first_failure(vals@, x as int, custom@),
{
    let xn = num_of_i128(x);
    let mut i: usize = 0;
    while i < vals.len()
        invariant
            0 <= i <= vals@.len(),
            xn.value() == x,
            first_failure(vals@, x as int, custom@) == first_failure_from(vals@, x as int, custom@, i as int),
        decreases vals@.len() - i,
    {
        let ok = if i < custom.len() { custom[i] } else { true };
        match vals[i] {
            Validator::Min { value, .. } => {
                if !num_le(value, xn) {
                    return Some(ValidationErrorKind::TooSmall);
                }
            },
            Validator::Max { value, .. } => {
                if !num_le(xn, value) {
                    return Some(ValidationErrorKind::TooBig);
                }
            },
            Validator::With { .. } => {
                if !ok {
                    return Some(ValidationErrorKind::Invalid);
                }
            },
        }
        i = i + 1;
    }
    None
}

/// The constructor of a generated wrapper: clamps `x` to `bounds` where
/// given, then validates it.
pub fn guard_value(bounds: Option<(i128, i128)>, vals: &Vec<Validator>, x: i128, custom: &Vec<bool>) -> (r: Result<i128, ValidationErrorKind>)
    requires
        bounds matches Some((lo, hi)) ==> lo <= hi,
    ensures
        ({
            let c = construct(
                match bounds {
                    Some((lo, hi)) => Some((lo as int, hi as int)),
                    None => None,
                },
                vals@,
                x as int,
                custom@,
            );
            match r {
                Ok(y) => c == Ok::<int, ValidationErrorKind>(y as int),
                Err(k) => c == Err::<int, ValidationErrorKind>(k),
            }
        }),
{
    let y = match bounds {
        Some((lo, hi)) => clamp_value(x, lo, hi),
        None => x,
    };
    match check_value(vals, y, custom) {
        None => Ok(y),
        Some(k) => Err(k),
    }
}

/// Clamping is idempotent: clamping an already clamped value keeps it.
pub proof fn lemma_clamp_idempotent(x: int, lo: int, hi: int)
    requires
        lo <= hi,
    ensures
        clamp(clamp(x, lo, hi), lo, hi) == clamp(x, lo, hi),
        lo <= clamp(x, lo, hi) <= hi,
{
}

/// With bounds `lo <= hi` used both to clamp and as `min` and `max`
/// validators, every raw value is accepted, and the wrapper holds exactly
/// the clamped value.
pub proof fn lemma_clamped_value_accepted(lo: Num, hi: Num, x: int, plo: usize, phi: usize, custom: Seq<bool>)
    requires
        lo.value() <= hi.value(),
    ensures
        construct(
            Some((lo.value(), hi.value())),
            seq![Validator::Min { value: lo, pos: plo }, Validator::Max { value: hi, pos: phi }],
            x,
            custom,
        ) == Ok::<int, ValidationErrorKind>(clamp(x, lo.value(), hi.value())),
{
    let vals = seq![Validator::Min { value: lo, pos: plo }, Validator::Max { value: hi, pos: phi }];
    let y = clamp(x, lo.value(), hi.value());
    assert(first_failure_from(vals, y, custom, 2) == None::<ValidationErrorKind>);
    assert(first_failure_from(vals, y, custom, 1) == None::<ValidationErrorKind>);
}

/// The error reported for a refused value is the kind of the first
/// validator that refuses it: `TooBig` for a `max`, `TooSmall` for a
/// `min`, `Invalid` for a custom predicate; every earlier validator passed.
pub proof fn lemma_error_kind_of_first_refusal(vals: Seq<Validator>, x: int, custom: Seq<bool>, i: int)
    requires
        0 <= i <= vals.len(),
        first_failure_from(vals, x, custom, i) is Some,
    ensures
        exists|j: int| #![auto] i <= j < vals.len()
            && refuses(vals[j], x, custom_at(custom, j))
            && first_failure_from(vals, x, custom, i) == Some(error_of(vals[j]))
            && forall|m: int| #![auto] i <= m < j ==> !refuses(vals[m], x, custom_at(custom, m)),
    decreases vals.len() - i,
{
    if refuses(vals[i], x, custom_at(custom, i)) {
        assert(forall|m: int| #![auto] i <= m < i ==> !refuses(vals[m], x, custom_at(custom, m)));
    } else {
        lemma_error_kind_of_first_refusal(vals, x, custom, i + 1);
        let j = choose|j: int| #![auto] i + 1 <= j < vals.len()
            && refuses(vals[j], x, custom_at(custom, j))
            && first_failure_from(vals, x, custom, i + 1) == Some(error_of(vals[j]))
            && forall|m: int| #![auto] i + 1 <= m < j ==> !refuses(vals[m], x, custom_at(custom, m));
        assert(forall|m: int| #![auto] i <= m < j ==> !refuses(vals[m], x, custom_at(custom, m)));
    }
}

/// A value that the constructor accepted is accepted again, unchanged, when
/// it is constructed anew (the custom predicates judging it as before):
/// sanitizing is idempotent and validation passes.
pub proof fn lemma_construct_again(bounds: Option<(int, int)>, vals: Seq<Validator>, x: int, custom: Seq<bool>)
    requires
        bounds matches Some((lo, hi)) ==> lo <= hi,
        construct(bounds, vals, x, custom) is Ok,
    ensures
        construct(bounds, vals, construct(bounds, vals, x, custom)->Ok_0, custom)
            == construct(bounds, vals, x, custom),
{
    if let Some((lo, hi)) = bounds {
        lemma_clamp_idempotent(x, lo, hi);
    }
}

} // verus!
