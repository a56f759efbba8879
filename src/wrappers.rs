//! Two wrappers as the generator emits them: `Age`, a `u8` that must lie
//! in `18..=99`, and `Username`, text without rules. Their JSON form goes
//! through serde_json.
use vstd::prelude::*;
use crate::literal::{NumberKind, decimal_text, parse_int, parse_int_text};
use crate::text::chars_of;

verus! {

#[verifier::external_type_specification]
#[verifier::external_body]
pub struct ExJsonError(serde_json::Error);

/// What serde_json reads as a `u8` from a JSON text, if anything.
pub uninterp spec fn json_u8(s: Seq<char>) -> Option<u8>;

/// The hexadecimal digit for `d` in `0..16`, in lower case.
pub open spec fn hex_digit(d: int) -> char {
    if d < 10 {
        crate::literal::digit_char(d)
    } else if d == 10 { 'a' } else if d == 11 { 'b' } else if d == 12 { 'c' }
    else if d == 13 { 'd' } else if d == 14 { 'e' } else { 'f' }
}

/// How one character stands inside a JSON string: a quote, a backslash and
/// the control characters below U+0020 are escaped, the rest is kept.
pub open spec fn json_char(c: char) -> Seq<char> {
    if c == '"' {
        seq!['\\', '"']
    } else if c == '\\' {
        seq!['\\', '\\']
    } else if c == '\u{8}' {
        seq!['\\', 'b']
    } else if c == '\t' {
        seq!['\\', 't']
    } else if c == '\n' {
        seq!['\\', 'n']
    } else if c == '\u{c}' {
        seq!['\\', 'f']
    } else if c == '\r' {
        seq!['\\', 'r']
    } else if (c as int) < 0x20 {
        seq!['\\', 'u', '0', '0', hex_digit(c as int / 16), hex_digit(c as int % 16)]
    } else {
        seq![c]
    }
}

/// The characters of `s`, each as it stands inside a JSON string.
pub open spec fn json_escaped(s: Seq<char>) -> Seq<char>
    decreases s.len(),
{
    if s.len() == 0 {
        Seq::empty()
    } else {
        json_escaped(s.drop_last()) + json_char(s.last())
    }
}

/// The JSON text of a string: its escaped characters between quotes.
pub open spec fn json_string_text(s: Seq<char>) -> Seq<char> {
    seq!['"'] + json_escaped(s) + seq!['"']
}

/// Relies on serde_json::to_string: an integer is written in decimal, into
/// a buffer in memory, which cannot fail.
#[verifier::external_body]
fn u8_to_json(v: u8) -> (r: Result<String, serde_json::Error>)
    ensures
        r is Ok && r->Ok_0@ == decimal_text(v as nat),
{
    serde_json::to_string(&v)
}

/// Relies on serde_json::from_str: reads a `u8` from JSON text, and fails
/// on text that holds no such number; a `u8` in plain decimal is read back
/// as itself.
#[verifier::external_body]
fn u8_from_json(s: &str) -> (r: Result<u8, serde_json::Error>)
    ensures
        match r {
            Ok(v) => json_u8(s@) == Some(v),
            Err(_) => json_u8(s@) is None,
        },
        forall|v: u8| #![trigger decimal_text(v as nat)] s@ == decimal_text(v as nat) ==> (r is Ok && r->Ok_0 == v),
{
    serde_json::from_str::<u8>(s)
}

/// Relies on serde_json::to_string: a string is written between quotes
/// with the escapes of its escape table, into a buffer in memory, which
/// cannot fail.
#[verifier::external_body]
fn text_to_json(s: &String) -> (r: Result<String, serde_json::Error>)
    ensures
        r is Ok && r->Ok_0@ == json_string_text(s@),
{
    serde_json::to_string(s)
}

/// Why an `Age` could not be built.
#[derive(Debug, Clone, Copy, PartialEq, Eq, Structural)]
pub enum AgeError {
    TooSmall,
    TooBig,
}

/// Why an `Age` could not be read from text.
#[derive(Debug, Clone, Copy, PartialEq, Eq, Structural)]
pub enum AgeParseError {
    /// The text is no `u8`.
    NotANumber,
    /// The number is refused by validation.
    Invalid(AgeError),
}

/// A `u8` in `18..=99`.
#[derive(Debug, Clone, Copy, PartialEq, Eq, Structural)]
pub struct Age {
    value: u8,
}

/// What constructing an `Age` from `raw` gives: the minimum is checked
/// before the maximum.
pub open spec fn age_guard(raw: u8) -> Result<u8, AgeError> {
    if raw < 18 {
        Err(AgeError::TooSmall)
    } else if raw > 99 {
        Err(AgeError::TooBig)
    } else {
        Ok(raw)
    }
}

impl Age {
    /// The wrapped value.
    pub closed spec fn raw(self) -> u8 {
        self.value
    }

    #[verifier::type_invariant]
    spec fn inv(self) -> bool {
        18 <= self.value && self.value <= 99
    }

    /// Builds an `Age`, refusing values outside `18..=99`.
    pub fn new(raw_value: u8) -> (r: Result<Age, AgeError>)
        ensures
            match r {
                Ok(a) => age_guard(raw_value) == Ok::<u8, AgeError>(a.raw()),
                Err(e) => age_guard(raw_value) == Err::<u8, AgeError>(e),
            },
    {
        if raw_value < 18 {
            return Err(AgeError::TooSmall);
        }
        if raw_value > 99 {
            return Err(AgeError::TooBig);
        }
        Ok(Age { value: raw_value })
    }

    /// Same as `new`.
    pub fn try_from_raw(raw_value: u8) -> (r: Result<Age, AgeError>)
        ensures
            match r {
                Ok(a) => age_guard(raw_value) == Ok::<u8, AgeError>(a.raw()),
                Err(e) => age_guard(raw_value) == Err::<u8, AgeError>(e),
            },
    {
        Age::new(raw_value)
    }

    /// The wrapped value.
    pub fn into_inner(self) -> (r: u8)
        ensures
            r == self.raw(),
            18 <= r <= 99,
            age_guard(r) == Ok::<u8, AgeError>(r),
    {
        proof {
            use_type_invariant(&self);
        }
        self.value
    }

    /// Reads an `Age` from text, as `u8` parsing reads it: an optional `+`
    /// and decimal digits.
    pub fn parse_text(s: &str) -> (r: Result<Age, AgeParseError>)
        ensures
            match parse_int(NumberKind::U8, s@) {
                None => r == Err::<Age, AgeParseError>(AgeParseError::NotANumber),
                Some(v) => match r {
                    Ok(a) => age_guard(v as u8) == Ok::<u8, AgeError>(a.raw()),
                    Err(AgeParseError::Invalid(e)) => age_guard(v as u8) == Err::<u8, AgeError>(e),
                    Err(AgeParseError::NotANumber) => false,
                },
            },
    {
        let chars = chars_of(s);
        match parse_int_text(NumberKind::U8, &chars) {
            None => Err(AgeParseError::NotANumber),
            Some(n) => {
                let v = n.mag as u8;
                match Age::new(v) {
                    Ok(a) => Ok(a),
                    Err(e) => Err(AgeParseError::Invalid(e)),
                }
            },
        }
    }

    /// The JSON form of the age: its value, in decimal.
    pub fn to_json(&self) -> (r: Result<String, serde_json::Error>)
        ensures
            r is Ok && r->Ok_0@ == decimal_text(self.raw() as nat),
    {
        u8_to_json(self.value)
    }

    /// Reads an `Age` from JSON: the number is validated as `new` does.
    pub fn from_json(s: &str) -> (r: Result<Age, AgeParseError>)
        ensures
            match json_u8(s@) {
                None => r == Err::<Age, AgeParseError>(AgeParseError::NotANumber),
                Some(v) => match r {
                    Ok(a) => age_guard(v) == Ok::<u8, AgeError>(a.raw()),
                    Err(AgeParseError::Invalid(e)) => age_guard(v) == Err::<u8, AgeError>(e),
                    Err(AgeParseError::NotANumber) => false,
                },
            },
            forall|v: u8| #![trigger decimal_text(v as nat)] s@ == decimal_text(v as nat) && age_guard(v) is Ok
                ==> (r is Ok && r->Ok_0.raw() == v),
    {
        match u8_from_json(s) {
            Err(_) => Err(AgeParseError::NotANumber),
            Ok(v) => match Age::new(v) {
                Ok(a) => Ok(a),
                Err(e) => Err(AgeParseError::Invalid(e)),
            },
        }
    }
}

/// Text without rules: every string is accepted as it is.
#[derive(Debug, Clone, PartialEq, Eq)]
pub struct Username {
    value: String,
}

impl Username {
    pub closed spec fn text(self) -> Seq<char> {
        self.value@
    }

    /// Builds a `Username`; this never fails.
    pub fn new(raw_value: String) -> (r: Username)
        ensures
            r.text() == raw_value@,
    {
        Username { value: raw_value }
    }

    /// Builds a `Username` from a string slice; this never fails.
    pub fn from_text(raw_value: &str) -> (r: Username)
        ensures
            r.text() == raw_value@,
    {
        Username { value: raw_value.to_owned() }
    }

    /// The wrapped text.
    pub fn into_inner(self) -> (r: String)
        ensures
            r@ == self.text(),
    {
        self.value
    }

    /// The wrapped text, borrowed.
    pub fn as_str(&self) -> (r: &str)
        ensures
            r@ == self.text(),
    {
        self.value.as_str()
    }

    /// The JSON form: the wrapped text as a JSON string.
    pub fn to_json(&self) -> (r: Result<String, serde_json::Error>)
        ensures
            r is Ok && r->Ok_0@ == json_string_text(self.text()),
    {
        text_to_json(&self.value)
    }
}

} // verus!
