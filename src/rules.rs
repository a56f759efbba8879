//! The `sanitize(...)` / `validate(...)` attribute grammar: splitting a
//! group on commas and reading each rule.
use vstd::prelude::*;
use crate::error::{ErrorKind, ParseError, err_at};
use crate::literal::{NumberKind, Num, value_spec, parse_value_as_number};
use crate::token::{same_chars, Token, pos_of, is_comma_spec, is_comma, is_eq_spec, is_eq, is_ident_word, is_ident_named};

verus! {

/// The primitive that a wrapper holds: an integer of some width, or text.
#[derive(Debug, Clone, Copy, PartialEq, Eq, Structural)]
pub enum InnerType {
    Number(NumberKind),
    Text,
}

/// A transformation applied to a raw value before validation. A custom one
/// is the code of tokens `start..end` of its group, spliced verbatim.
#[derive(Debug, Clone, Copy, PartialEq, Eq, Structural)]
pub enum Sanitizer {
    Clamp { min: Num, max: Num },
    With { start: usize, end: usize, pos: usize },
}

/// A check applied to a sanitized value. A custom one is the predicate
/// code of tokens `start..end` of its group, spliced verbatim.
#[derive(Debug, Clone, Copy, PartialEq, Eq, Structural)]
pub enum Validator {
    Min { value: Num, pos: usize },
    Max { value: Num, pos: usize },
    With { start: usize, end: usize, pos: usize },
}

pub open spec fn word_with() -> Seq<char> {
    seq!['w', 'i', 't', 'h']
}

pub open spec fn word_min() -> Seq<char> {
    seq!['m', 'i', 'n']
}

pub open spec fn word_max() -> Seq<char> {
    seq!['m', 'a', 'x']
}

pub open spec fn is_ident(t: Token) -> bool {
    t is Ident
}

/// The comma-separated parts of `ts`, from index `i` on, where the current
/// part began at `start`; empty parts are dropped. Each part is a pair of
/// indices `(first, past_last)`.
pub open spec fn segs(ts: Seq<Token>, i: int, start: int) -> Seq<(usize, usize)>
    decreases ts.len() - i,
{
    if i >= ts.len() {
        if start < ts.len() {
            seq![(start as usize, ts.len() as usize)]
        } else {
            Seq::empty()
        }
    } else if is_comma_spec(ts[i]) {
        let here = if start < i {
            seq![(start as usize, i as usize)]
        } else {
            Seq::empty()
        };
        here + segs(ts, i + 1, i + 1)
    } else {
        segs(ts, i + 1, start)
    }
}

pub open spec fn segments(ts: Seq<Token>) -> Seq<(usize, usize)> {
    segs(ts, 0, 0)
}

/// Every part is non-empty and lies within the stream.
pub open spec fn segments_in_bounds(ss: Seq<(usize, usize)>, len: int) -> bool {
    forall|j: int| 0 <= j < ss.len() ==> (#[trigger] ss[j]).0 < ss[j].1 && ss[j].1 <= len
}

proof fn lemma_segs_bounds(ts: Seq<Token>, i: int, start: int)
    requires
        0 <= start <= i <= ts.len(),
        ts.len() <= usize::MAX,
    ensures
        segments_in_bounds(segs(ts, i, start), ts.len() as int),
    decreases ts.len() - i,
{
    if i < ts.len() {
        if is_comma_spec(ts[i]) {
            lemma_segs_bounds(ts, i + 1, i + 1);
            let here = if start < i {
                seq![(start as usize, i as usize)]
            } else {
                Seq::<(usize, usize)>::empty()
            };
            let all = here + segs(ts, i + 1, i + 1);
            assert forall|j: int| 0 <= j < all.len() implies (#[trigger] all[j]).0 < all[j].1 && all[j].1 <= ts.len() by {
                if j >= here.len() {
                    assert(all[j] == segs(ts, i + 1, i + 1)[j - here.len()]);
                }
            }
        } else {
            lemma_segs_bounds(ts, i + 1, start);
        }
    }
}

/// Splits a token stream on commas, dropping empty parts.
pub fn split_on_commas(tokens: &Vec<Token>) -> (r: Vec<(usize, usize)>)
    ensures
        r@ == segments(tokens@),
        segments_in_bounds(r@, tokens@.len() as int),
{
    let n = tokens.len();
    proof {
        lemma_segs_bounds(tokens@, 0, 0);
    }
    let mut out: Vec<(usize, usize)> = Vec::new();
    let mut start: usize = 0;
    let mut i: usize = 0;
    while i < tokens.len()
        invariant
            0 <= start <= i <= tokens@.len(),
            out@ + segs(tokens@, i as int, start as int) == segments(tokens@),
        decreases tokens@.len() - i,
    {
        if is_comma(&tokens[i]) {
            let ghost here = if start < i {
                seq![(start, i)]
            } else {
                Seq::<(usize, usize)>::empty()
            };
            let ghost before = out@;
            if start < i {
                out.push((start, i));
            }
            assert(out@ == before + here);
            assert(before + (here + segs(tokens@, i + 1, i + 1)) == out@ + segs(tokens@, i + 1, i + 1));
            start = i + 1;
        }
        i = i + 1;
    }
    if start < tokens.len() {
        out.push((start, tokens.len()));
    }
    assert(out@ =~= segments(tokens@));
    out
}

/// The custom form `with = <code>` of a rule named at `ts[s]`: an equals
/// sign, then at least one token of code.
pub open spec fn with_code_ok(ts: Seq<Token>, s: int, e: int) -> bool {
    s + 2 < e && is_eq_spec(ts[s + 1])
}

/// What reading one sanitizer from `ts[s..e]` gives.
pub open spec fn sanitizer_spec(ts: Seq<Token>, s: int, e: int) -> Result<Sanitizer, ParseError> {
    let t = ts[s];
    if !is_ident(t) {
        err_at(ErrorKind::MalformedSyntax, pos_of(t))
    } else if is_ident_word(t, word_with()) {
        if with_code_ok(ts, s, e) {
            Ok(Sanitizer::With { start: (s + 2) as usize, end: e as usize, pos: pos_of(t) })
        } else {
            err_at(ErrorKind::MalformedSyntax, pos_of(t))
        }
    } else {
        err_at(ErrorKind::UnknownRule, pos_of(t))
    }
}

/// What reading one validator for a wrapper of `k` from `ts[s..e]` gives:
/// `min` and `max` take a numeric bound and exist for numbers only.
pub open spec fn validator_spec(k: InnerType, ts: Seq<Token>, s: int, e: int) -> Result<Validator, ParseError> {
    let t = ts[s];
    let p = pos_of(t);
    if !is_ident(t) {
        err_at(ErrorKind::MalformedSyntax, p)
    } else if is_ident_word(t, word_min()) && k is Number {
        match value_spec(k->Number_0, ts, s + 1, e, p) {
            Ok(v) => Ok(Validator::Min { value: v, pos: p }),
            Err(err) => Err(err),
        }
    } else if is_ident_word(t, word_max()) && k is Number {
        match value_spec(k->Number_0, ts, s + 1, e, p) {
            Ok(v) => Ok(Validator::Max { value: v, pos: p }),
            Err(err) => Err(err),
        }
    } else if is_ident_word(t, word_with()) {
        if with_code_ok(ts, s, e) {
            Ok(Validator::With { start: (s + 2) as usize, end: e as usize, pos: p })
        } else {
            err_at(ErrorKind::MalformedSyntax, p)
        }
    } else {
        err_at(ErrorKind::UnknownRule, p)
    }
}

/// Reads one sanitizer from `tokens[s..e]`.
pub fn parse_sanitize_attr(tokens: &Vec<Token>, s: usize, e: usize) -> (r: Result<Sanitizer, ParseError>)
    requires
        s < e <= tokens@.len(),
    ensures
        r == sanitizer_spec(tokens@, s as int, e as int),
{
    let t = &tokens[s];
    let p = t.pos();
    if !t.is_ident_token() {
        return Err(ParseError { kind: ErrorKind::MalformedSyntax, pos: p });
    }
    if is_ident_named(t, &vec!['w', 'i', 't', 'h']) {
        match parse_with_token_stream(tokens, s + 1, e, p) {
            Ok((start, end)) => Ok(Sanitizer::With { start, end, pos: p }),
            Err(err) => Err(err),
        }
    } else {
        Err(ParseError { kind: ErrorKind::UnknownRule, pos: p })
    }
}

/// Reads one validator for a wrapper of `k` from `tokens[s..e]`.
pub fn parse_validate_attr(k: InnerType, tokens: &Vec<Token>, s: usize, e: usize) -> (r: Result<Validator, ParseError>)
    requires
        s < e <= tokens@.len(),
    ensures
        r == validator_spec(k, tokens@, s as int, e as int),
{
    let t = &tokens[s];
    let p = t.pos();
    if !t.is_ident_token() {
        return Err(ParseError { kind: ErrorKind::MalformedSyntax, pos: p });
    }
    let is_min = is_ident_named(t, &vec!['m', 'i', 'n']);
    let is_max = is_ident_named(t, &vec!['m', 'a', 'x']);
    if let InnerType::Number(nk) = k {
        if is_min {
            return match parse_value_as_number(nk, tokens, s + 1, e, p) {
                Ok(v) => Ok(Validator::Min { value: v, pos: p }),
                Err(err) => Err(err),
            };
        }
        if is_max {
            return match parse_value_as_number(nk, tokens, s + 1, e, p) {
                Ok(v) => Ok(Validator::Max { value: v, pos: p }),
                Err(err) => Err(err),
            };
        }
    }
    if is_ident_named(t, &vec!['w', 'i', 't', 'h']) {
        match parse_with_token_stream(tokens, s + 1, e, p) {
            Ok((start, end)) => Ok(Validator::With { start, end, pos: p }),
            Err(err) => Err(err),
        }
    } else {
        Err(ParseError { kind: ErrorKind::UnknownRule, pos: p })
    }
}

/// The code of the form `= <code>` in `tokens[i..end]`, for a `with` at
/// position `with_pos`: the range of tokens after the equals sign, kept
/// verbatim. A missing equals sign or missing code is refused.
pub fn parse_with_token_stream(tokens: &Vec<Token>, i: usize, end: usize, with_pos: usize) -> (r: Result<(usize, usize), ParseError>)
    requires
        i <= end <= tokens@.len(),
    ensures
        r == if i + 1 < end && is_eq_spec(tokens@[i as int]) {
            Ok::<(usize, usize), ParseError>(((i + 1) as usize, end))
        } else {
            err_at(ErrorKind::MalformedSyntax, with_pos)
        },
{
    if end - i > 1 && is_eq(&tokens[i]) {
        Ok((i + 1, end))
    } else {
        Err(ParseError { kind: ErrorKind::MalformedSyntax, pos: with_pos })
    }
}

/// The wrapped primitive that a field type's name stands for.
pub open spec fn inner_type_named(w: Seq<char>) -> Option<InnerType> {
    if w == seq!['S', 't', 'r', 'i', 'n', 'g'] { Some(InnerType::Text) }
    else if w == seq!['u', '8'] { Some(InnerType::Number(NumberKind::U8)) }
    else if w == seq!['u', '1', '6'] { Some(InnerType::Number(NumberKind::U16)) }
    else if w == seq!['u', '3', '2'] { Some(InnerType::Number(NumberKind::U32)) }
    else if w == seq!['u', '6', '4'] { Some(InnerType::Number(NumberKind::U64)) }
    else if w == seq!['u', '1', '2', '8'] { Some(InnerType::Number(NumberKind::U128)) }
    else if w == seq!['u', 's', 'i', 'z', 'e'] { Some(InnerType::Number(NumberKind::Usize)) }
    else if w == seq!['i', '8'] { Some(InnerType::Number(NumberKind::I8)) }
    else if w == seq!['i', '1', '6'] { Some(InnerType::Number(NumberKind::I16)) }
    else if w == seq!['i', '3', '2'] { Some(InnerType::Number(NumberKind::I32)) }
    else if w == seq!['i', '6', '4'] { Some(InnerType::Number(NumberKind::I64)) }
    else if w == seq!['i', '1', '2', '8'] { Some(InnerType::Number(NumberKind::I128)) }
    else if w == seq!['i', 's', 'i', 'z', 'e'] { Some(InnerType::Number(NumberKind::Isize)) }
    else { None }
}

/// The wrapped primitive named by a field type's name, if it is one that
/// wrappers are generated for.
pub fn parse_inner_type(name: &Vec<char>) -> (r: Option<InnerType>)
    ensures
        r == inner_type_named(name@),
{
    if same_chars(name, &vec!['S', 't', 'r', 'i', 'n', 'g']) { Some(InnerType::Text) }
    else if same_chars(name, &vec!['u', '8']) { Some(InnerType::Number(NumberKind::U8)) }
    else if same_chars(name, &vec!['u', '1', '6']) { Some(InnerType::Number(NumberKind::U16)) }
    else if same_chars(name, &vec!['u', '3', '2']) { Some(InnerType::Number(NumberKind::U32)) }
    else if same_chars(name, &vec!['u', '6', '4']) { Some(InnerType::Number(NumberKind::U64)) }
    else if same_chars(name, &vec!['u', '1', '2', '8']) { Some(InnerType::Number(NumberKind::U128)) }
    else if same_chars(name, &vec!['u', 's', 'i', 'z', 'e']) { Some(InnerType::Number(NumberKind::Usize)) }
    else if same_chars(name, &vec!['i', '8']) { Some(InnerType::Number(NumberKind::I8)) }
    else if same_chars(name, &vec!['i', '1', '6']) { Some(InnerType::Number(NumberKind::I16)) }
    else if same_chars(name, &vec!['i', '3', '2']) { Some(InnerType::Number(NumberKind::I32)) }
    else if same_chars(name, &vec!['i', '6', '4']) { Some(InnerType::Number(NumberKind::I64)) }
    else if same_chars(name, &vec!['i', '1', '2', '8']) { Some(InnerType::Number(NumberKind::I128)) }
    else if same_chars(name, &vec!['i', 's', 'i', 'z', 'e']) { Some(InnerType::Number(NumberKind::Isize)) }
    else { None }
}

/// A wrapper holds exactly one unnamed field; any other shape is refused
/// at the declaration's position `pos`.
pub fn check_single_field(unnamed_fields: usize, named_fields: usize, pos: usize) -> (r: Result<(), ParseError>)
    ensures
        r is Ok <==> (unnamed_fields == 1 && named_fields == 0),
        r matches Err(e) ==> e == (ParseError { kind: ErrorKind::UnsupportedShape, pos }),
{
    if unnamed_fields == 1 && named_fields == 0 {
        Ok(())
    } else {
        Err(ParseError { kind: ErrorKind::UnsupportedShape, pos })
    }
}

} // verus!
