//! The program fragment emitted for a text wrapper, as text: like the
//! integer one, but holding a `String`, taking anything that converts into
//! one, and with the requested behaviours derived or written out.
use vstd::prelude::*;
use crate::attrs::Guard;
use crate::derive::{DerivedTrait, ImplementedTrait, StringDeriveTrait, split_traits, derived_upto, implemented_upto};
use crate::fragment::{imports_text, push_imports, sanitize_fn_text, validate_fn_text, error_type_text, gen_sanitize_fn, gen_validate_fn, gen_validation_error_type};
use crate::plan::{error_suffix, module_prefix};
use crate::text::{push_chars, push_str};

verus! {

pub open spec fn derived_name(d: DerivedTrait) -> Seq<char> {
    match d {
        DerivedTrait::Debug => "Debug"@,
        DerivedTrait::Clone => "Clone"@,
        DerivedTrait::PartialEq => "PartialEq"@,
        DerivedTrait::Eq => "Eq"@,
        DerivedTrait::PartialOrd => "PartialOrd"@,
        DerivedTrait::Ord => "Ord"@,
    }
}

/// The names of `ds[..j]`, each followed by a comma and a space.
pub open spec fn derived_list(ds: Seq<DerivedTrait>, j: int) -> Seq<char>
    decreases j,
{
    if j <= 0 {
        Seq::empty()
    } else {
        derived_list(ds, j - 1) + derived_name(ds[j - 1]) + ", "@
    }
}

/// The written-out behaviour `t` of the wrapper `n`, whose error type (when
/// construction can fail) is `e`.
pub open spec fn implemented_text(t: ImplementedTrait, n: Seq<char>, fallible: bool, e: Seq<char>) -> Seq<char> {
    match t {
        ImplementedTrait::AsRef =>
            "impl ::core::convert::AsRef<str> for "@ + n + " {\n    fn as_ref(&self) -> &str {\n        &self.0\n    }\n}\n"@,
        ImplementedTrait::FromStr => if fallible {
            "impl core::str::FromStr for "@ + n + " {\n    type Err = "@ + e
                + ";\n\n    fn from_str(raw_string: &str) -> Result<Self, Self::Err> {\n        "@ + n
                + "::new(raw_string)\n    }\n}\n"@
        } else {
            "impl core::str::FromStr for "@ + n
                + " {\n    type Err = ();\n\n    fn from_str(raw_string: &str) -> Result<Self, Self::Err> {\n        Ok("@
                + n + "::new(raw_string))\n    }\n}\n"@
        },
        ImplementedTrait::From =>
            "impl ::core::convert::From<String> for "@ + n
                + " {\n    fn from(raw_value: String) -> Self {\n        Self::new(raw_value)\n    }\n}\n"@
                + "impl ::core::convert::From<&str> for "@ + n
                + " {\n    fn from(raw_value: &str) -> Self {\n        Self::new(raw_value)\n    }\n}\n"@,
        ImplementedTrait::TryFrom =>
            "impl ::core::convert::TryFrom<String> for "@ + n + " {\n    type Error = "@ + e
                + ";\n\n    fn try_from(raw_value: String) -> Result<"@ + n
                + ", Self::Error> {\n        Self::new(raw_value)\n    }\n}\n"@
                + "impl ::core::convert::TryFrom<&str> for "@ + n + " {\n    type Error = "@ + e
                + ";\n\n    fn try_from(raw_value: &str) -> Result<"@ + n
                + ", Self::Error> {\n        Self::new(raw_value)\n    }\n}\n"@,
    }
}

/// The written-out behaviours `ts[..j]`, in order.
pub open spec fn implemented_list(ts: Seq<ImplementedTrait>, n: Seq<char>, fallible: bool, e: Seq<char>, j: int) -> Seq<char>
    decreases j,
{
    if j <= 0 {
        Seq::empty()
    } else {
        implemented_list(ts, n, fallible, e, j - 1) + implemented_text(ts[j - 1], n, fallible, e)
    }
}

/// The behaviours of a text wrapper as emitted: the `derive` attribute
/// with the behaviours that can be derived, and the code of the others.
pub struct GeneratedTraits {
    pub derive_standard_traits: Vec<char>,
    pub implement_traits: Vec<char>,
}

pub open spec fn derive_line(traits: Seq<StringDeriveTrait>) -> Seq<char> {
    let ds = derived_upto(traits, traits.len() as int);
    "#[derive("@ + derived_list(ds, ds.len() as int) + ")]\n"@
}

pub open spec fn implemented_block(traits: Seq<StringDeriveTrait>, n: Seq<char>, fallible: bool) -> Seq<char> {
    let is = implemented_upto(traits, traits.len() as int);
    implemented_list(is, n, fallible, n + error_suffix(), is.len() as int)
}

fn push_implemented(out: &mut Vec<char>, t: ImplementedTrait, n: &Vec<char>, fallible: bool, e: &Vec<char>)
    ensures
        final(out)@ == old(out)@ + implemented_text(t, n@, fallible, e@),
{
    let ghost start = out@;
    match t {
        ImplementedTrait::AsRef => {
            push_str(out, "impl ::core::convert::AsRef<str> for ");
            push_chars(out, n);
            push_str(out, " {\n    fn as_ref(&self) -> &str {\n        &self.0\n    }\n}\n");
        },
        ImplementedTrait::FromStr => {
            if fallible {
                push_str(out, "impl core::str::FromStr for ");
                push_chars(out, n);
                push_str(out, " {\n    type Err = ");
                push_chars(out, e);
                push_str(out, ";\n\n    fn from_str(raw_string: &str) -> Result<Self, Self::Err> {\n        ");
                push_chars(out, n);
                push_str(out, "::new(raw_string)\n    }\n}\n");
            } else {
                push_str(out, "impl core::str::FromStr for ");
                push_chars(out, n);
                push_str(out, " {\n    type Err = ();\n\n    fn from_str(raw_string: &str) -> Result<Self, Self::Err> {\n        Ok(");
                push_chars(out, n);
                push_str(out, "::new(raw_string))\n    }\n}\n");
            }
        },
        ImplementedTrait::From => {
            push_str(out, "impl ::core::convert::From<String> for ");
            push_chars(out, n);
            push_str(out, " {\n    fn from(raw_value: String) -> Self {\n        Self::new(raw_value)\n    }\n}\n");
            push_str(out, "impl ::core::convert::From<&str> for ");
            push_chars(out, n);
            push_str(out, " {\n    fn from(raw_value: &str) -> Self {\n        Self::new(raw_value)\n    }\n}\n");
        },
        ImplementedTrait::TryFrom => {
            push_str(out, "impl ::core::convert::TryFrom<String> for ");
            push_chars(out, n);
            push_str(out, " {\n    type Error = ");
            push_chars(out, e);
            push_str(out, ";\n\n    fn try_from(raw_value: String) -> Result<");
            push_chars(out, n);
            push_str(out, ", Self::Error> {\n        Self::new(raw_value)\n    }\n}\n");
            push_str(out, "impl ::core::convert::TryFrom<&str> for ");
            push_chars(out, n);
            push_str(out, " {\n    type Error = ");
            push_chars(out, e);
            push_str(out, ";\n\n    fn try_from(raw_value: &str) -> Result<");
            push_chars(out, n);
            push_str(out, ", Self::Error> {\n        Self::new(raw_value)\n    }\n}\n");
        },
    }
    assert(out@ =~= start + implemented_text(t, n@, fallible, e@));
}

/// Parts the behaviours of the text wrapper `n` and writes both parts.
pub fn gen_traits(n: &Vec<char>, fallible: bool, traits: &Vec<StringDeriveTrait>) -> (r: GeneratedTraits)
    ensures
        r.derive_standard_traits@ == derive_line(traits@),
        r.implement_traits@ == implemented_block(traits@, n@, fallible),
{
    let (standard, implemented) = split_traits(traits);
    let mut line: Vec<char> = Vec::new();
    push_str(&mut line, "#[derive(");
    let ghost head = line@;
    let mut j: usize = 0;
    while j < standard.len()
        invariant
            0 <= j <= standard@.len(),
            line@ == head + derived_list(standard@, j as int),
        decreases standard@.len() - j,
    {
        match standard[j] {
            DerivedTrait::Debug => push_str(&mut line, "Debug"),
            DerivedTrait::Clone => push_str(&mut line, "Clone"),
            DerivedTrait::PartialEq => push_str(&mut line, "PartialEq"),
            DerivedTrait::Eq => push_str(&mut line, "Eq"),
            DerivedTrait::PartialOrd => push_str(&mut line, "PartialOrd"),
            DerivedTrait::Ord => push_str(&mut line, "Ord"),
        }
        push_str(&mut line, ", ");
        j = j + 1;
        assert(line@ =~= head + derived_list(standard@, j as int));
    }
    push_str(&mut line, ")]\n");
    assert(line@ =~= derive_line(traits@));
    let e = crate::plan::gen_error_name(n);
    let mut code: Vec<char> = Vec::new();
    let mut i: usize = 0;
    while i < implemented.len()
        invariant
            0 <= i <= implemented@.len(),
            e@ == n@ + error_suffix(),
            code@ == implemented_list(implemented@, n@, fallible, e@, i as int),
        decreases implemented@.len() - i,
    {
        push_implemented(&mut code, implemented[i], n, fallible, &e);
        i = i + 1;
    }
    GeneratedTraits { derive_standard_traits: line, implement_traits: code }
}

/// The constructor of a text wrapper: anything that converts into a
/// `String` is sanitized, then validated when construction can fail.
pub open spec fn string_new_text(n: Seq<char>, fallible: bool, e: Seq<char>) -> Seq<char> {
    if fallible {
        "impl "@ + n + " {\n    pub fn new(raw_value: impl Into<String>) -> Result<Self, "@ + e
            + "> {\n        let sanitized_value = sanitize(raw_value.into());\n        validate(sanitized_value.clone())?;\n        Ok("@
            + n + "(sanitized_value))\n    }\n}\n"@
    } else {
        "impl "@ + n
            + " {\n    pub fn new(raw_value: impl Into<String>) -> Self {\n        Self(sanitize(raw_value.into()))\n    }\n}\n"@
    }
}

/// The sanitize function, and (when construction can fail) the error type
/// and the validate function, of a text wrapper with error type `e`.
pub open spec fn string_checks_text(guard: Guard, e: Seq<char>, san_codes: Seq<Vec<char>>, val_codes: Seq<Vec<char>>) -> Seq<char> {
    let t = "String"@;
    match guard {
        Guard::From { sanitizers } => sanitize_fn_text(t, sanitizers@, san_codes),
        Guard::TryFrom { sanitizers, validators } => sanitize_fn_text(t, sanitizers@, san_codes)
            + error_type_text(validators@, e) + validate_fn_text(t, validators@, val_codes, e),
    }
}

/// The whole fragment for the text wrapper `n`.
pub open spec fn string_nutype_text(docs: Seq<char>, vis: Seq<char>, n: Seq<char>, guard: Guard, traits: Seq<StringDeriveTrait>, san_codes: Seq<Vec<char>>, val_codes: Seq<Vec<char>>) -> Seq<char> {
    let m = module_prefix() + n;
    let e = n + error_suffix();
    let fallible = guard is TryFrom;
    "mod "@ + m + " {\n    use super::*;\n\n"@ + docs + derive_line(traits) + "pub struct "@ + n + "(String);\n\n"@
        + string_checks_text(guard, e, san_codes, val_codes) + string_new_text(n, fallible, e)
        + implemented_block(traits, n, fallible)
        + "impl "@ + n + " {\n    pub fn into_inner(self) -> String {\n        self.0\n    }\n}\n"@
        + "}\n"@ + imports_text(vis, m, n, fallible, e)
}

fn push_string_checks(out: &mut Vec<char>, guard: &Guard, e: &Vec<char>, san_codes: &Vec<Vec<char>>, val_codes: &Vec<Vec<char>>)
    ensures
        final(out)@ == old(out)@ + string_checks_text(*guard, e@, san_codes@, val_codes@),
{
    let ghost start = out@;
    let mut t: Vec<char> = Vec::new();
    push_str(&mut t, "String");
    assert(t@ =~= "String"@);
    match guard {
        Guard::From { sanitizers } => {
            gen_sanitize_fn(out, &t, sanitizers, san_codes);
        },
        Guard::TryFrom { sanitizers, validators } => {
            gen_sanitize_fn(out, &t, sanitizers, san_codes);
            gen_validation_error_type(out, validators, e);
            gen_validate_fn(out, &t, validators, val_codes, e);
        },
    }
    assert(out@ =~= start + string_checks_text(*guard, e@, san_codes@, val_codes@));
}

fn push_string_new(out: &mut Vec<char>, n: &Vec<char>, fallible: bool, e: &Vec<char>)
    ensures
        final(out)@ == old(out)@ + string_new_text(n@, fallible, e@),
{
    let ghost start = out@;
    push_str(out, "impl ");
    push_chars(out, n);
    if fallible {
        push_str(out, " {\n    pub fn new(raw_value: impl Into<String>) -> Result<Self, ");
        push_chars(out, e);
        push_str(out, "> {\n        let sanitized_value = sanitize(raw_value.into());\n        validate(sanitized_value.clone())?;\n        Ok(");
        push_chars(out, n);
        push_str(out, "(sanitized_value))\n    }\n}\n");
    } else {
        push_str(out, " {\n    pub fn new(raw_value: impl Into<String>) -> Self {\n        Self(sanitize(raw_value.into()))\n    }\n}\n");
    }
    assert(out@ =~= start + string_new_text(n@, fallible, e@));
}

/// Writes the fragment for a text wrapper.
pub fn gen_nutype_for_string(docs: &Vec<char>, vis: &Vec<char>, n: &Vec<char>, guard: &Guard, traits: &Vec<StringDeriveTrait>, san_codes: &Vec<Vec<char>>, val_codes: &Vec<Vec<char>>) -> (r: Vec<char>)
    ensures
        r@ == string_nutype_text(docs@, vis@, n@, *guard, traits@, san_codes@, val_codes@),
{
    let m = crate::plan::gen_module_name_for_type(n);
    let e = crate::plan::gen_error_name(n);
    let fallible = match guard {
        Guard::From { .. } => false,
        Guard::TryFrom { .. } => true,
    };
    let generated = gen_traits(n, fallible, traits);
    let mut out: Vec<char> = Vec::new();
    push_str(&mut out, "mod ");
    push_chars(&mut out, &m);
    push_str(&mut out, " {\n    use super::*;\n\n");
    push_chars(&mut out, docs);
    push_chars(&mut out, &generated.derive_standard_traits);
    push_str(&mut out, "pub struct ");
    push_chars(&mut out, n);
    push_str(&mut out, "(String);\n\n");
    push_string_checks(&mut out, guard, &e, san_codes, val_codes);
    push_string_new(&mut out, n, fallible, &e);
    push_chars(&mut out, &generated.implement_traits);
    push_str(&mut out, "impl ");
    push_chars(&mut out, n);
    push_str(&mut out, " {\n    pub fn into_inner(self) -> String {\n        self.0\n    }\n}\n");
    push_str(&mut out, "}\n");
    push_imports(&mut out, vis, &m, n, fallible, &e);
    assert(out@ =~= string_nutype_text(docs@, vis@, n@, *guard, traits@, san_codes@, val_codes@));
    out
}

} // verus!
