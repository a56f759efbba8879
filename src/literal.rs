//! Numeric literals in rule bounds: signs, underscores and the integer
//! widths that a wrapper may hold.
use vstd::prelude::*;
use crate::error::{ErrorKind, ParseError, err_at};
use crate::token::{Token, text_of, pos_of, is_punct, is_eq_spec, is_eq};

verus! {

/// The integer primitive that a wrapper holds. `usize` and `isize` have
/// the width of the target the generator runs on.
#[derive(Debug, Clone, Copy, PartialEq, Eq, Structural)]
pub enum NumberKind {
    U8,
    U16,
    U32,
    U64,
    U128,
    Usize,
    I8,
    I16,
    I32,
    I64,
    I128,
    Isize,
}

pub open spec fn is_signed(k: NumberKind) -> bool {
    match k {
        NumberKind::I8 | NumberKind::I16 | NumberKind::I32 | NumberKind::I64
        | NumberKind::I128 | NumberKind::Isize => true,
        _ => false,
    }
}

pub open spec fn kind_max(k: NumberKind) -> int {
    match k {
        NumberKind::U8 => u8::MAX as int,
        NumberKind::U16 => u16::MAX as int,
        NumberKind::U32 => u32::MAX as int,
        NumberKind::U64 => u64::MAX as int,
        NumberKind::Usize => usize::MAX as int,
        NumberKind::U128 => u128::MAX as int,
        NumberKind::I8 => i8::MAX as int,
        NumberKind::I16 => i16::MAX as int,
        NumberKind::I32 => i32::MAX as int,
        NumberKind::I64 => i64::MAX as int,
        NumberKind::Isize => isize::MAX as int,
        NumberKind::I128 => i128::MAX as int,
    }
}

pub open spec fn kind_min(k: NumberKind) -> int {
    match k {
        NumberKind::I8 => i8::MIN as int,
        NumberKind::I16 => i16::MIN as int,
        NumberKind::I32 => i32::MIN as int,
        NumberKind::I64 => i64::MIN as int,
        NumberKind::Isize => isize::MIN as int,
        NumberKind::I128 => i128::MIN as int,
        _ => 0,
    }
}

impl NumberKind {
    /// The largest value of the kind.
    pub fn max_magnitude(&self) -> (r: u128)
        ensures
            r as int == kind_max(*self),
    {
        match self {
            NumberKind::U8 => u8::MAX as u128,
            NumberKind::U16 => u16::MAX as u128,
            NumberKind::U32 => u32::MAX as u128,
            NumberKind::U64 => u64::MAX as u128,
            NumberKind::Usize => usize::MAX as u128,
            NumberKind::U128 => u128::MAX,
            NumberKind::I8 => i8::MAX as u128,
            NumberKind::I16 => i16::MAX as u128,
            NumberKind::I32 => i32::MAX as u128,
            NumberKind::I64 => i64::MAX as u128,
            NumberKind::Isize => isize::MAX as u128,
            NumberKind::I128 => i128::MAX as u128,
        }
    }

    /// The magnitude of the smallest value of the kind.
    pub fn min_magnitude(&self) -> (r: u128)
        ensures
            r as int == -kind_min(*self),
    {
        match self {
            NumberKind::I8 => 128,
            NumberKind::I16 => 32768,
            NumberKind::I32 => 2147483648,
            NumberKind::I64 => 9223372036854775808,
            NumberKind::Isize => (isize::MAX as u128) + 1,
            NumberKind::I128 => 170141183460469231731687303715884105728,
            _ => 0,
        }
    }

    pub fn signed(&self) -> (r: bool)
        ensures
            r == is_signed(*self),
    {
        match self {
            NumberKind::I8 | NumberKind::I16 | NumberKind::I32 | NumberKind::I64
            | NumberKind::I128 | NumberKind::Isize => true,
            _ => false,
        }
    }
}

/// An integer bound: a sign and a magnitude. Zero is never negative.
#[derive(Debug, Clone, Copy, PartialEq, Eq, Structural)]
pub struct Num {
    pub neg: bool,
    pub mag: u128,
}

impl Num {
    pub open spec fn value(self) -> int {
        if self.neg {
            -(self.mag as int)
        } else {
            self.mag as int
        }
    }

    pub open spec fn wf(self) -> bool {
        self.neg ==> self.mag > 0
    }
}

/// The one well-formed `Num` of value `v`.
pub open spec fn num_of(v: int) -> Num {
    if v < 0 {
        Num { neg: true, mag: (-v) as u128 }
    } else {
        Num { neg: false, mag: v as u128 }
    }
}

/// The decimal digit for `d` in `0..10`.
pub open spec fn digit_char(d: int) -> char {
    if d == 0 { '0' } else if d == 1 { '1' } else if d == 2 { '2' } else if d == 3 { '3' }
    else if d == 4 { '4' } else if d == 5 { '5' } else if d == 6 { '6' } else if d == 7 { '7' }
    else if d == 8 { '8' } else { '9' }
}

/// `n` written in decimal, without leading zeros.
pub open spec fn decimal_text(n: nat) -> Seq<char>
    decreases n,
{
    if n < 10 {
        seq![digit_char(n as int)]
    } else {
        decimal_text(n / 10).push(digit_char((n % 10) as int))
    }
}

/// The text with every underscore taken out.
pub open spec fn strip_underscores(s: Seq<char>) -> Seq<char>
    decreases s.len(),
{
    if s.len() == 0 {
        s
    } else {
        let rest = strip_underscores(s.drop_last());
        if s.last() == '_' {
            rest
        } else {
            rest.push(s.last())
        }
    }
}

pub open spec fn is_digit(c: char) -> bool {
    '0' <= c && c <= '9'
}

pub open spec fn all_digits(s: Seq<char>) -> bool {
    forall|i: int| 0 <= i < s.len() ==> is_digit(#[trigger] s[i])
}

/// The value of a string of decimal digits.
pub open spec fn digits_value(s: Seq<char>) -> int
    decreases s.len(),
{
    if s.len() == 0 {
        0
    } else {
        digits_value(s.drop_last()) * 10 + (s.last() as int - '0' as int)
    }
}

/// What reading `s` as an integer of kind `k` gives: an optional sign (a
/// minus only for signed kinds), then one or more decimal digits, with a
/// value within the kind's range.
pub open spec fn parse_int(k: NumberKind, s: Seq<char>) -> Option<int> {
    if s.len() == 0 {
        None
    } else {
        let neg = s[0] == '-' && is_signed(k);
        let body = if neg || s[0] == '+' {
            s.skip(1)
        } else {
            s
        };
        if body.len() == 0 || !all_digits(body) {
            None
        } else {
            let v = if neg {
                -digits_value(body)
            } else {
                digits_value(body)
            };
            if kind_min(k) <= v && v <= kind_max(k) {
                Some(v)
            } else {
                None
            }
        }
    }
}

/// Takes every underscore out of a numeric literal's text.
pub fn sanitize_number(val: &Vec<char>) -> (r: Vec<char>)
    ensures
        r@ == strip_underscores(val@),
{
    let mut out: Vec<char> = Vec::new();
    let mut i: usize = 0;
    while i < val.len()
        invariant
            0 <= i <= val@.len(),
            out@ == strip_underscores(val@.subrange(0, i as int)),
        decreases val@.len() - i,
    {
        assert(val@.subrange(0, i + 1).drop_last() =~= val@.subrange(0, i as int));
        if val[i] != '_' {
            out.push(val[i]);
        }
        i = i + 1;
    }
    assert(val@.subrange(0, val@.len() as int) =~= val@);
    out
}

proof fn lemma_digits_nonneg(s: Seq<char>)
    requires
        all_digits(s),
    ensures
        digits_value(s) >= 0,
    decreases s.len(),
{
    if s.len() > 0 {
        assert(is_digit(s[s.len() - 1]));
        lemma_digits_nonneg(s.drop_last());
    }
}

proof fn lemma_digits_prefix_le(s: Seq<char>, i: int)
    requires
        all_digits(s),
        0 <= i <= s.len(),
    ensures
        digits_value(s.subrange(0, i)) <= digits_value(s),
    decreases s.len(),
{
    if i == s.len() {
        assert(s.subrange(0, i) =~= s);
    } else {
        let p = s.drop_last();
        assert(p.subrange(0, i) =~= s.subrange(0, i));
        assert(is_digit(s[s.len() - 1]));
        lemma_digits_prefix_le(p, i);
        lemma_digits_nonneg(p);
    }
}

/// Reads `s` as an integer of kind `k`; `None` where it is no such literal.
pub fn parse_int_text(k: NumberKind, s: &Vec<char>) -> (r: Option<Num>)
    ensures
        r == match parse_int(k, s@) {
            Some(v) => Some(num_of(v)),
            None => None::<Num>,
        },
{
    if s.len() == 0 {
        return None;
    }
    let neg = s[0] == '-' && k.signed();
    let start: usize = if neg || s[0] == '+' { 1 } else { 0 };
    let ghost body = if neg || s@[0] == '+' { s@.skip(1) } else { s@ };
    assert(body =~= s@.subrange(start as int, s@.len() as int));
    if start == s.len() {
        return None;
    }
    let mut mag: u128 = 0;
    let mut i: usize = start;
    while i < s.len()
        invariant
            start <= i <= s@.len(),
            s@.len() > 0,
            neg == (s@[0] == '-' && is_signed(k)),
            body == (if neg || s@[0] == '+' { s@.skip(1) } else { s@ }),
            body.len() > 0,
            body =~= s@.subrange(start as int, s@.len() as int),
            all_digits(body.subrange(0, i - start)),
            mag as int == digits_value(body.subrange(0, i - start)),
        decreases s@.len() - i,
    {
        let c = s[i];
        let ghost pre = body.subrange(0, i - start);
        let ghost next = body.subrange(0, i + 1 - start);
        assert(next.drop_last() =~= pre);
        if !('0' <= c && c <= '9') {
            assert(body[i - start] == c);
            assert(!is_digit(body[i - start]));
            assert(!all_digits(body));
            return None;
        }
        let d: u128 = (c as u32 - '0' as u32) as u128;
        if mag > (u128::MAX - d) / 10 {
            proof {
                assert(next.last() == c);
                assert(digits_value(next) > u128::MAX) by (nonlinear_arith)
                    requires
                        digits_value(next) == mag * 10 + d,
                        mag > (u128::MAX - d) / 10,
                        d <= 9,
                ;
                if all_digits(body) {
                    lemma_digits_prefix_le(body, i + 1 - start);
                    assert(digits_value(body) > kind_max(k));
                    assert(-digits_value(body) < kind_min(k));
                }
                assert(parse_int(k, s@).is_none());
            }
            return None;
        }
        mag = mag * 10 + d;
        i = i + 1;
    }
    assert(body.subrange(0, body.len() as int) =~= body);
    if neg {
        if mag > k.min_magnitude() {
            return None;
        }
    } else {
        if mag > k.max_magnitude() {
            return None;
        }
    }
    Some(Num { neg: neg && mag != 0, mag })
}

/// What reading the bound `= <number>` from `ts[i..end]` gives, for a rule
/// named at position `at`: the number may be a minus sign and a literal, and
/// its underscores are ignored. Tokens after the number are not read.
pub open spec fn value_spec(k: NumberKind, ts: Seq<Token>, i: int, end: int, at: usize) -> Result<Num, ParseError> {
    if i >= end {
        err_at(ErrorKind::MalformedSyntax, at)
    } else if !is_eq_spec(ts[i]) {
        err_at(ErrorKind::MalformedSyntax, pos_of(ts[i]))
    } else if i + 1 >= end {
        err_at(ErrorKind::MalformedSyntax, at)
    } else {
        let t = ts[i + 1];
        if is_punct(t, '-') && i + 2 >= end {
            err_at(ErrorKind::MalformedSyntax, pos_of(t))
        } else {
            let text = if is_punct(t, '-') {
                seq!['-'] + text_of(ts[i + 2])
            } else {
                text_of(t)
            };
            match parse_int(k, strip_underscores(text)) {
                Some(v) => Ok(num_of(v)),
                None => err_at(ErrorKind::MalformedLiteral, pos_of(t)),
            }
        }
    }
}

/// The text of a token, as `text_of` gives it.
pub fn token_text(t: &Token) -> (r: Vec<char>)
    ensures
        r@ == text_of(*t),
{
    let mut out: Vec<char> = Vec::new();
    match t {
        Token::Ident { text, .. } | Token::Literal { text, .. } => {
            let mut i: usize = 0;
            while i < text.len()
                invariant
                    0 <= i <= text@.len(),
                    out@ == text@.subrange(0, i as int),
                decreases text@.len() - i,
            {
                out.push(text[i]);
                i = i + 1;
            }
            assert(out@ =~= text@);
        },
        Token::Punct { ch, .. } => {
            out.push(*ch);
            assert(out@ =~= seq![*ch]);
        },
        Token::Group { .. } => {},
    }
    out
}

/// Reads the bound `= <number>` of a rule named at position `at` from
/// `tokens[i..end]`.
pub fn parse_value_as_number(k: NumberKind, tokens: &Vec<Token>, i: usize, end: usize, at: usize) -> (r: Result<Num, ParseError>)
    requires
        i <= end <= tokens@.len(),
    ensures
        r == value_spec(k, tokens@, i as int, end as int, at),
{
    if i >= end {
        return Err(ParseError { kind: ErrorKind::MalformedSyntax, pos: at });
    }
    if !is_eq(&tokens[i]) {
        return Err(ParseError { kind: ErrorKind::MalformedSyntax, pos: tokens[i].pos() });
    }
    if i + 1 >= end {
        return Err(ParseError { kind: ErrorKind::MalformedSyntax, pos: at });
    }
    let t = &tokens[i + 1];
    let minus = t.is_punct_char('-');
    if minus && i + 2 >= end {
        return Err(ParseError { kind: ErrorKind::MalformedSyntax, pos: t.pos() });
    }
    let mut text: Vec<char> = Vec::new();
    if minus {
        text.push('-');
        let mut rest = token_text(&tokens[i + 2]);
        text.append(&mut rest);
        assert(text@ =~= seq!['-'] + text_of(tokens@[i + 2]));
    } else {
        text = token_text(t);
    }
    let plain = sanitize_number(&text);
    match parse_int_text(k, &plain) {
        Some(n) => Ok(n),
        None => Err(ParseError { kind: ErrorKind::MalformedLiteral, pos: t.pos() }),
    }
}

} // verus!
