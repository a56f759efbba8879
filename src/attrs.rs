//! The whole attribute list of a wrapper: its `sanitize(...)` and
//! `validate(...)` groups, and the check that the rules agree.
use vstd::prelude::*;
use crate::error::{ErrorKind, ParseError, err_at};
use crate::literal::Num;
use crate::rules::{
    InnerType, Sanitizer, Validator, segments, segments_in_bounds, sanitizer_spec, validator_spec,
    split_on_commas, parse_sanitize_attr, parse_validate_attr, is_ident,
};
use crate::token::{Token, pos_of, is_ident_word, is_ident_named};

verus! {

/// The sanitizers read from the parts `ss[..j]`, or the first error.
pub open spec fn sanitizers_upto(ts: Seq<Token>, ss: Seq<(usize, usize)>, j: int) -> Result<Seq<Sanitizer>, ParseError>
    decreases j,
{
    if j <= 0 {
        Ok(Seq::empty())
    } else {
        match sanitizers_upto(ts, ss, j - 1) {
            Err(e) => Err(e),
            Ok(p) => match sanitizer_spec(ts, ss[j - 1].0 as int, ss[j - 1].1 as int) {
                Err(e) => Err(e),
                Ok(x) => Ok(p.push(x)),
            },
        }
    }
}

/// The validators read from the parts `ss[..j]`, or the first error.
pub open spec fn validators_upto(k: InnerType, ts: Seq<Token>, ss: Seq<(usize, usize)>, j: int) -> Result<Seq<Validator>, ParseError>
    decreases j,
{
    if j <= 0 {
        Ok(Seq::empty())
    } else {
        match validators_upto(k, ts, ss, j - 1) {
            Err(e) => Err(e),
            Ok(p) => match validator_spec(k, ts, ss[j - 1].0 as int, ss[j - 1].1 as int) {
                Err(e) => Err(e),
                Ok(x) => Ok(p.push(x)),
            },
        }
    }
}

/// The sanitizers that the inside of a `sanitize(...)` group lists.
pub open spec fn sanitizers_of(ts: Seq<Token>) -> Result<Seq<Sanitizer>, ParseError> {
    sanitizers_upto(ts, segments(ts), segments(ts).len() as int)
}

/// The validators that the inside of a `validate(...)` group lists.
pub open spec fn validators_of(k: InnerType, ts: Seq<Token>) -> Result<Seq<Validator>, ParseError> {
    validators_upto(k, ts, segments(ts), segments(ts).len() as int)
}

proof fn lemma_sanitizers_err_stays(ts: Seq<Token>, ss: Seq<(usize, usize)>, j: int, m: int, e: ParseError)
    requires
        0 <= j <= m,
        sanitizers_upto(ts, ss, j) == Err::<Seq<Sanitizer>, ParseError>(e),
    ensures
        sanitizers_upto(ts, ss, m) == Err::<Seq<Sanitizer>, ParseError>(e),
    decreases m - j,
{
    if m > j {
        lemma_sanitizers_err_stays(ts, ss, j, m - 1, e);
    }
}

proof fn lemma_validators_err_stays(k: InnerType, ts: Seq<Token>, ss: Seq<(usize, usize)>, j: int, m: int, e: ParseError)
    requires
        0 <= j <= m,
        validators_upto(k, ts, ss, j) == Err::<Seq<Validator>, ParseError>(e),
    ensures
        validators_upto(k, ts, ss, m) == Err::<Seq<Validator>, ParseError>(e),
    decreases m - j,
{
    if m > j {
        lemma_validators_err_stays(k, ts, ss, j, m - 1, e);
    }
}

/// Reads the sanitizers listed inside a `sanitize(...)` group.
pub fn parse_sanitize_attrs(tokens: &Vec<Token>) -> (r: Result<Vec<Sanitizer>, ParseError>)
    ensures
        match r {
            Ok(v) => sanitizers_of(tokens@) == Ok::<Seq<Sanitizer>, ParseError>(v@),
            Err(e) => sanitizers_of(tokens@) == Err::<Seq<Sanitizer>, ParseError>(e),
        },
{
    let parts = split_on_commas(tokens);
    let mut out: Vec<Sanitizer> = Vec::new();
    let mut j: usize = 0;
    while j < parts.len()
        invariant
            0 <= j <= parts@.len(),
            parts@ == segments(tokens@),
            segments_in_bounds(parts@, tokens@.len() as int),
            sanitizers_upto(tokens@, parts@, j as int) == Ok::<Seq<Sanitizer>, ParseError>(out@),
        decreases parts@.len() - j,
    {
        let (s, e) = parts[j];
        assert(parts@[j as int].0 < parts@[j as int].1);
        match parse_sanitize_attr(tokens, s, e) {
            Ok(x) => {
                out.push(x);
            },
            Err(err) => {
                proof {
                    lemma_sanitizers_err_stays(tokens@, parts@, j + 1, parts@.len() as int, err);
                }
                return Err(err);
            },
        }
        j = j + 1;
    }
    Ok(out)
}

/// Reads the validators for a wrapper of `k` listed inside a `validate(...)` group.
pub fn parse_validate_attrs(k: InnerType, tokens: &Vec<Token>) -> (r: Result<Vec<Validator>, ParseError>)
    ensures
        match r {
            Ok(v) => validators_of(k, tokens@) == Ok::<Seq<Validator>, ParseError>(v@),
            Err(e) => validators_of(k, tokens@) == Err::<Seq<Validator>, ParseError>(e),
        },
{
    let parts = split_on_commas(tokens);
    let mut out: Vec<Validator> = Vec::new();
    let mut j: usize = 0;
    while j < parts.len()
        invariant
            0 <= j <= parts@.len(),
            parts@ == segments(tokens@),
            segments_in_bounds(parts@, tokens@.len() as int),
            validators_upto(k, tokens@, parts@, j as int) == Ok::<Seq<Validator>, ParseError>(out@),
        decreases parts@.len() - j,
    {
        let (s, e) = parts[j];
        assert(parts@[j as int].0 < parts@[j as int].1);
        match parse_validate_attr(k, tokens, s, e) {
            Ok(x) => {
                out.push(x);
            },
            Err(err) => {
                proof {
                    lemma_validators_err_stays(k, tokens@, parts@, j + 1, parts@.len() as int, err);
                }
                return Err(err);
            },
        }
        j = j + 1;
    }
    Ok(out)
}

/// The rules of a wrapper, as read from its attribute list.
#[derive(Debug)]
pub struct RawGuard {
    pub sanitizers: Vec<Sanitizer>,
    pub validators: Vec<Validator>,
}

pub open spec fn word_sanitize() -> Seq<char> {
    seq!['s', 'a', 'n', 'i', 't', 'i', 'z', 'e']
}

pub open spec fn word_validate() -> Seq<char> {
    seq!['v', 'a', 'l', 'i', 'd', 'a', 't', 'e']
}

/// What reading the attribute list `ts` from index `i` on gives, with the
/// rules read so far. A later group of the same name replaces an earlier one.
pub open spec fn attrs_from(k: InnerType, ts: Seq<Token>, i: int, sans: Seq<Sanitizer>, vals: Seq<Validator>) -> Result<(Seq<Sanitizer>, Seq<Validator>), ParseError>
    decreases ts.len() - i,
{
    if i < 0 || i >= ts.len() {
        Ok((sans, vals))
    } else {
        let t = ts[i];
        if !is_ident(t) {
            err_at(ErrorKind::ExpectedIdent, pos_of(t))
        } else if is_ident_word(t, word_sanitize()) || is_ident_word(t, word_validate()) {
            if i + 1 >= ts.len() {
                err_at(ErrorKind::ExpectedGroup, pos_of(t))
            } else {
                match ts[i + 1] {
                    Token::Group { inner, .. } => if is_ident_word(t, word_sanitize()) {
                        match sanitizers_of(inner@) {
                            Ok(s2) => attrs_from(k, ts, i + 2, s2, vals),
                            Err(e) => Err(e),
                        }
                    } else {
                        match validators_of(k, inner@) {
                            Ok(v2) => attrs_from(k, ts, i + 2, sans, v2),
                            Err(e) => Err(e),
                        }
                    },
                    _ => err_at(ErrorKind::ExpectedGroup, pos_of(ts[i + 1])),
                }
            }
        } else {
            err_at(ErrorKind::UnknownRule, pos_of(t))
        }
    }
}

/// What reading a whole attribute list gives.
pub open spec fn attrs_spec(k: InnerType, ts: Seq<Token>) -> Result<(Seq<Sanitizer>, Seq<Validator>), ParseError> {
    attrs_from(k, ts, 0, Seq::empty(), Seq::empty())
}

/// Reads the attribute list of a wrapper of `k`: any number of
/// `sanitize(...)` and `validate(...)` groups. An absent group and an empty
/// one both give no rules; any other name is refused.
pub fn parse_nutype_attributes(k: InnerType, tokens: &Vec<Token>) -> (r: Result<RawGuard, ParseError>)
    ensures
        match r {
            Ok(g) => attrs_spec(k, tokens@) == Ok::<(Seq<Sanitizer>, Seq<Validator>), ParseError>((g.sanitizers@, g.validators@)),
            Err(e) => attrs_spec(k, tokens@) == Err::<(Seq<Sanitizer>, Seq<Validator>), ParseError>(e),
        },
{
    let mut sans: Vec<Sanitizer> = Vec::new();
    let mut vals: Vec<Validator> = Vec::new();
    let mut i: usize = 0;
    while i < tokens.len()
        invariant
            0 <= i <= tokens@.len(),
            attrs_spec(k, tokens@) == attrs_from(k, tokens@, i as int, sans@, vals@),
        decreases tokens@.len() - i,
    {
        let t = &tokens[i];
        if !t.is_ident_token() {
            return Err(ParseError { kind: ErrorKind::ExpectedIdent, pos: t.pos() });
        }
        let is_san = is_ident_named(t, &vec!['s', 'a', 'n', 'i', 't', 'i', 'z', 'e']);
        let is_val = is_ident_named(t, &vec!['v', 'a', 'l', 'i', 'd', 'a', 't', 'e']);
        if !is_san && !is_val {
            return Err(ParseError { kind: ErrorKind::UnknownRule, pos: t.pos() });
        }
        if i + 1 >= tokens.len() {
            return Err(ParseError { kind: ErrorKind::ExpectedGroup, pos: t.pos() });
        }
        match &tokens[i + 1] {
            Token::Group { inner, .. } => {
                if is_san {
                    sans = parse_sanitize_attrs(inner)?;
                } else {
                    vals = parse_validate_attrs(k, inner)?;
                }
            },
            other => {
                return Err(ParseError { kind: ErrorKind::ExpectedGroup, pos: other.pos() });
            },
        }
        i = i + 2;
    }
    Ok(RawGuard { sanitizers: sans, validators: vals })
}

/// The checked rules of a wrapper: without validators construction cannot
/// fail; with them it returns a result.
#[derive(Debug)]
pub enum Guard {
    From { sanitizers: Vec<Sanitizer> },
    TryFrom { sanitizers: Vec<Sanitizer>, validators: Vec<Validator> },
}

/// Validators `i` and `j` contradict each other: the same bound twice, or
/// a minimum above a maximum.
pub open spec fn conflicting(a: Validator, b: Validator) -> bool {
    match (a, b) {
        (Validator::Min { .. }, Validator::Min { .. }) => true,
        (Validator::Max { .. }, Validator::Max { .. }) => true,
        (Validator::Min { value: lo, .. }, Validator::Max { value: hi, .. }) => lo.value() > hi.value(),
        _ => false,
    }
}

/// No two distinct validators contradict each other.
pub open spec fn consistent(vals: Seq<Validator>) -> bool {
    forall|i: int, j: int| 0 <= i < vals.len() && 0 <= j < vals.len() && i != j
        ==> !conflicting(#[trigger] vals[i], #[trigger] vals[j])
}

/// Whether the value of `a` is at most that of `b`.
pub fn num_le(a: Num, b: Num) -> (r: bool)
    ensures
        r == (a.value() <= b.value()),
{
    if a.neg {
        if b.neg { a.mag >= b.mag } else { true }
    } else {
        if b.neg { a.mag == 0 && b.mag == 0 } else { a.mag <= b.mag }
    }
}

fn conflicting_exec(a: Validator, b: Validator) -> (r: bool)
    ensures
        r == conflicting(a, b),
{
    match (a, b) {
        (Validator::Min { .. }, Validator::Min { .. }) => true,
        (Validator::Max { .. }, Validator::Max { .. }) => true,
        (Validator::Min { value: lo, .. }, Validator::Max { value: hi, .. }) => !num_le(lo, hi),
        _ => false,
    }
}

/// Checks that the rules agree, and decides whether construction can fail:
/// it can exactly when there are validators. Contradicting validators are
/// refused with `InconsistentRules`.
pub fn validate_number_meta(raw: RawGuard) -> (r: Result<Guard, ParseError>)
    ensures
        match r {
            Ok(Guard::From { sanitizers }) => raw.validators@.len() == 0 && sanitizers@ == raw.sanitizers@,
            Ok(Guard::TryFrom { sanitizers, validators }) => raw.validators@.len() > 0
                && consistent(raw.validators@) && sanitizers@ == raw.sanitizers@
                && validators@ == raw.validators@,
            Err(e) => e.kind == ErrorKind::InconsistentRules && !consistent(raw.validators@),
        },
{
    let RawGuard { sanitizers, validators } = raw;
    assert(validators@ == raw.validators@);
    let n = validators.len();
    let mut i: usize = 0;
    while i < n
        invariant
            n == validators@.len(),
            0 <= i <= n,
            validators@ == raw.validators@,
            forall|a: int, b: int| 0 <= a < i && 0 <= b < n && a != b
                ==> !conflicting(#[trigger] validators@[a], #[trigger] validators@[b]),
        decreases n - i,
    {
        let mut j: usize = 0;
        while j < n
            invariant
                n == validators@.len(),
                0 <= i < n,
                0 <= j <= n,
                validators@ == raw.validators@,
                forall|a: int, b: int| 0 <= a < i && 0 <= b < n && a != b
                    ==> !conflicting(#[trigger] validators@[a], #[trigger] validators@[b]),
                forall|b: int| 0 <= b < j && b != i ==> !conflicting(validators@[i as int], #[trigger] validators@[b]),
            decreases n - j,
        {
            if j != i && conflicting_exec(validators[i], validators[j]) {
                let pos = match validators[j] {
                    Validator::Min { pos, .. } => pos,
                    Validator::Max { pos, .. } => pos,
                    Validator::With { pos, .. } => pos,
                };
                assert(conflicting(validators@[i as int], validators@[j as int]));
                assert(!consistent(validators@));
                return Err(ParseError { kind: ErrorKind::InconsistentRules, pos });
            }
            j = j + 1;
        }
        i = i + 1;
    }
    if n == 0 {
        Ok(Guard::From { sanitizers })
    } else {
        Ok(Guard::TryFrom { sanitizers, validators })
    }
}

/// Reads and checks the attribute list of a wrapper of `k`.
pub fn parse_attributes(k: InnerType, tokens: &Vec<Token>) -> (r: Result<Guard, ParseError>)
    ensures
        match attrs_spec(k, tokens@) {
            Err(e) => r == Err::<Guard, ParseError>(e),
            Ok((sans, vals)) => match r {
                Ok(Guard::From { sanitizers }) => vals.len() == 0 && sanitizers@ == sans,
                Ok(Guard::TryFrom { sanitizers, validators }) => vals.len() > 0 && consistent(vals)
                    && sanitizers@ == sans && validators@ == vals,
                Err(e) => e.kind == ErrorKind::InconsistentRules && !consistent(vals),
            },
        },
{
    let raw = parse_nutype_attributes(k, tokens)?;
    validate_number_meta(raw)
}

proof fn lemma_known_names_from(k: InnerType, ts: Seq<Token>, i: int, sans: Seq<Sanitizer>, vals: Seq<Validator>)
    requires
        0 <= i,
        attrs_from(k, ts, i, sans, vals) is Ok,
    ensures
        forall|m: int| i <= m < ts.len() && (m - i) % 2 == 0
            ==> is_ident_word(#[trigger] ts[m], word_sanitize()) || is_ident_word(ts[m], word_validate()),
    decreases ts.len() - i,
{
    if i < ts.len() {
        match ts[i + 1] {
            Token::Group { inner, .. } => {
                if is_ident_word(ts[i], word_sanitize()) {
                    let s2 = sanitizers_of(inner@)->Ok_0;
                    lemma_known_names_from(k, ts, i + 2, s2, vals);
                } else {
                    let v2 = validators_of(k, inner@)->Ok_0;
                    lemma_known_names_from(k, ts, i + 2, sans, v2);
                }
                assert forall|m: int| i <= m < ts.len() && (m - i) % 2 == 0
                    implies is_ident_word(#[trigger] ts[m], word_sanitize()) || is_ident_word(ts[m], word_validate()) by {
                    if m > i {
                        assert((m - (i + 2)) % 2 == 0);
                    }
                }
            },
            _ => {},
        }
    }
}

/// Only the names `sanitize` and `validate` pass: an attribute list that is
/// accepted names nothing else where an option stands, and each is followed
/// by its group.
pub proof fn lemma_unknown_option_refused(k: InnerType, ts: Seq<Token>)
    requires
        attrs_spec(k, ts) is Ok,
    ensures
        ts.len() % 2 == 0,
        forall|m: int| 0 <= m < ts.len() && m % 2 == 0
            ==> is_ident_word(#[trigger] ts[m], word_sanitize()) || is_ident_word(ts[m], word_validate()),
{
    lemma_known_names_from(k, ts, 0, Seq::empty(), Seq::empty());
    lemma_even_length(k, ts, 0, Seq::empty(), Seq::empty());
}

proof fn lemma_even_length(k: InnerType, ts: Seq<Token>, i: int, sans: Seq<Sanitizer>, vals: Seq<Validator>)
    requires
        0 <= i <= ts.len(),
        attrs_from(k, ts, i, sans, vals) is Ok,
    ensures
        (ts.len() - i) % 2 == 0,
    decreases ts.len() - i,
{
    if i < ts.len() {
        match ts[i + 1] {
            Token::Group { inner, .. } => {
                if is_ident_word(ts[i], word_sanitize()) {
                    lemma_even_length(k, ts, i + 2, sanitizers_of(inner@)->Ok_0, vals);
                } else {
                    lemma_even_length(k, ts, i + 2, sans, validators_of(k, inner@)->Ok_0);
                }
            },
            _ => {},
        }
    }
}

/// A rule is accepted only under a known name: `with` for a sanitizer;
/// `min`, `max` or `with` for a validator.
pub proof fn lemma_unknown_rule_refused(k: InnerType, ts: Seq<Token>, s: int, e: int)
    ensures
        sanitizer_spec(ts, s, e) is Ok ==> is_ident_word(ts[s], crate::rules::word_with()),
        validator_spec(k, ts, s, e) is Ok ==> is_ident_word(ts[s], crate::rules::word_min())
            || is_ident_word(ts[s], crate::rules::word_max()) || is_ident_word(ts[s], crate::rules::word_with()),
{
}

/// Whether `ts[i]` names the option `w` and a group follows it.
pub open spec fn option_at(ts: Seq<Token>, i: int, w: Seq<char>) -> bool {
    0 <= i && i + 1 < ts.len() && is_ident_word(ts[i], w) && ts[i + 1] is Group
}

/// The index of the group of the last option named `w` in an attribute
/// list: the group whose tokens the custom code ranges of that option's
/// rules index into.
pub fn last_option_group(tokens: &Vec<Token>, w: &Vec<char>) -> (r: Option<usize>)
    ensures
        match r {
            Some(g) => g >= 1 && option_at(tokens@, g - 1, w@)
                && forall|j: int| g - 1 < j < tokens@.len() ==> !#[trigger] option_at(tokens@, j, w@),
            None => forall|j: int| 0 <= j < tokens@.len() ==> !#[trigger] option_at(tokens@, j, w@),
        },
{
    let n = tokens.len();
    let mut i: usize = n;
    while i > 0
        invariant
            i <= n == tokens@.len(),
            forall|j: int| i <= j < n ==> !#[trigger] option_at(tokens@, j, w@),
        decreases i,
    {
        let j = i - 1;
        if j + 1 < n && is_ident_named(&tokens[j], w) && tokens[j + 1].is_group_token() {
            return Some(j + 1);
        }
        i = j;
    }
    None
}

} // verus!
