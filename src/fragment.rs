//! The program fragment emitted for an integer wrapper, as text: the
//! sanitize function, the error type and validate function when
//! construction can fail, the constructors and conversions, all inside the
//! hidden module. Custom code is given already written out, one text per
//! rule.
use vstd::prelude::*;
use crate::attrs::Guard;
use crate::derive::NumberDeriveTrait;
use crate::guard::ValidationErrorKind;
use crate::literal::{Num, NumberKind};
use crate::plan::{error_variants, error_variants_upto, error_suffix, module_prefix};
use crate::rules::{Sanitizer, Validator};
use crate::text::{push_chars, push_str};
use crate::literal::{decimal_text, digit_char};

verus! {

/// The name of an integer kind in source.
pub open spec fn kind_text(k: NumberKind) -> Seq<char> {
    match k {
        NumberKind::U8 => "u8"@,
        NumberKind::U16 => "u16"@,
        NumberKind::U32 => "u32"@,
        NumberKind::U64 => "u64"@,
        NumberKind::U128 => "u128"@,
        NumberKind::Usize => "usize"@,
        NumberKind::I8 => "i8"@,
        NumberKind::I16 => "i16"@,
        NumberKind::I32 => "i32"@,
        NumberKind::I64 => "i64"@,
        NumberKind::I128 => "i128"@,
        NumberKind::Isize => "isize"@,
    }
}

/// A bound written as a literal.
pub open spec fn num_text(n: Num) -> Seq<char> {
    if n.neg {
        "-"@ + decimal_text(n.mag as nat)
    } else {
        decimal_text(n.mag as nat)
    }
}

/// The custom code of rule `i`, where it was given.
pub open spec fn code_at(codes: Seq<Vec<char>>, i: int) -> Seq<char> {
    if 0 <= i < codes.len() {
        codes[i]@
    } else {
        Seq::empty()
    }
}

fn push_kind(out: &mut Vec<char>, k: NumberKind)
    ensures
        final(out)@ == old(out)@ + kind_text(k),
{
    match k {
        NumberKind::U8 => push_str(out, "u8"),
        NumberKind::U16 => push_str(out, "u16"),
        NumberKind::U32 => push_str(out, "u32"),
        NumberKind::U64 => push_str(out, "u64"),
        NumberKind::U128 => push_str(out, "u128"),
        NumberKind::Usize => push_str(out, "usize"),
        NumberKind::I8 => push_str(out, "i8"),
        NumberKind::I16 => push_str(out, "i16"),
        NumberKind::I32 => push_str(out, "i32"),
        NumberKind::I64 => push_str(out, "i64"),
        NumberKind::I128 => push_str(out, "i128"),
        NumberKind::Isize => push_str(out, "isize"),
    }
}

/// The name of an integer kind in source.
pub fn kind_chars(k: NumberKind) -> (r: Vec<char>)
    ensures
        r@ == kind_text(k),
{
    let mut out: Vec<char> = Vec::new();
    push_kind(&mut out, k);
    assert(out@ =~= kind_text(k));
    out
}

fn digit(d: u128) -> (r: char)
    requires
        d < 10,
    ensures
        r == digit_char(d as int),
{
    if d == 0 { '0' } else if d == 1 { '1' } else if d == 2 { '2' } else if d == 3 { '3' }
    else if d == 4 { '4' } else if d == 5 { '5' } else if d == 6 { '6' } else if d == 7 { '7' }
    else if d == 8 { '8' } else { '9' }
}

/// `n` in decimal.
pub fn decimal_chars(n: u128) -> (r: Vec<char>)
    ensures
        r@ == decimal_text(n as nat),
    decreases n,
{
    if n < 10 {
        let v = vec![digit(n)];
        assert(v@ =~= seq![digit_char(n as int)]);
        v
    } else {
        let mut v = decimal_chars(n / 10);
        v.push(digit(n % 10));
        v
    }
}

fn push_num(out: &mut Vec<char>, n: Num)
    ensures
        final(out)@ == old(out)@ + num_text(n),
{
    let ghost start = out@;
    let d = decimal_chars(n.mag);
    if n.neg {
        push_str(out, "-");
        push_chars(out, &d);
        assert(out@ =~= start + num_text(n));
    } else {
        push_chars(out, &d);
    }
}

/// The statement of sanitizer `s`, whose custom code is `code`.
pub open spec fn sanitize_step(s: Sanitizer, code: Seq<char>) -> Seq<char> {
    match s {
        Sanitizer::Clamp { min, max } =>
            "    value = value.clamp("@ + num_text(min) + ", "@ + num_text(max) + ");\n"@,
        Sanitizer::With { .. } => "    value = ("@ + code + ")(value);\n"@,
    }
}

/// The statements of the sanitizers `sans[..j]`, in order.
pub open spec fn sanitize_steps(sans: Seq<Sanitizer>, codes: Seq<Vec<char>>, j: int) -> Seq<char>
    decreases j,
{
    if j <= 0 {
        Seq::empty()
    } else {
        sanitize_steps(sans, codes, j - 1) + sanitize_step(sans[j - 1], code_at(codes, j - 1))
    }
}

/// The sanitize function: each sanitizer in turn, then the value.
pub open spec fn sanitize_fn_text(t: Seq<char>, sans: Seq<Sanitizer>, codes: Seq<Vec<char>>) -> Seq<char> {
    "fn sanitize(mut value: "@ + t + ") -> "@ + t + " {\n"@
        + sanitize_steps(sans, codes, sans.len() as int) + "    value\n}\n"@
}

fn push_code(out: &mut Vec<char>, codes: &Vec<Vec<char>>, i: usize)
    ensures
        final(out)@ == old(out)@ + code_at(codes@, i as int),
{
    if i < codes.len() {
        push_chars(out, &codes[i]);
    } else {
        assert(old(out)@ + Seq::<char>::empty() =~= old(out)@);
    }
}

/// Writes the sanitize function of a wrapper of the type written `t`.
pub fn gen_sanitize_fn(out: &mut Vec<char>, t: &Vec<char>, sans: &Vec<Sanitizer>, codes: &Vec<Vec<char>>)
    ensures
        final(out)@ == old(out)@ + sanitize_fn_text(t@, sans@, codes@),
{
    let ghost start = out@;
    push_str(out, "fn sanitize(mut value: ");
    push_chars(out, t);
    push_str(out, ") -> ");
    push_chars(out, t);
    push_str(out, " {\n");
    let ghost head = out@;
    let mut j: usize = 0;
    while j < sans.len()
        invariant
            0 <= j <= sans@.len(),
            out@ == head + sanitize_steps(sans@, codes@, j as int),
        decreases sans@.len() - j,
    {
        let ghost before = out@;
        match sans[j] {
            Sanitizer::Clamp { min, max } => {
                push_str(out, "    value = value.clamp(");
                push_num(out, min);
                push_str(out, ", ");
                push_num(out, max);
                push_str(out, ");\n");
            },
            Sanitizer::With { .. } => {
                push_str(out, "    value = (");
                push_code(out, codes, j);
                push_str(out, ")(value);\n");
            },
        }
        assert(out@ =~= before + sanitize_step(sans@[j as int], code_at(codes@, j as int)));
        j = j + 1;
        assert(out@ =~= head + sanitize_steps(sans@, codes@, j as int));
    }
    push_str(out, "    value\n}\n");
    assert(out@ =~= start + sanitize_fn_text(t@, sans@, codes@));
}

/// The check of validator `v`, whose custom code is `code`, reporting into
/// the error type `err`.
pub open spec fn validate_check(v: Validator, code: Seq<char>, err: Seq<char>) -> Seq<char> {
    match v {
        Validator::Min { value, .. } =>
            "    if val < "@ + num_text(value) + " {\n        return Err("@ + err + "::TooSmall);\n    }\n"@,
        Validator::Max { value, .. } =>
            "    if val > "@ + num_text(value) + " {\n        return Err("@ + err + "::TooBig);\n    }\n"@,
        Validator::With { .. } =>
            "    if !("@ + code + ")(&val) {\n        return Err("@ + err + "::Invalid);\n    }\n"@,
    }
}

/// The checks of the validators `vals[..j]`, in order.
pub open spec fn validate_checks(vals: Seq<Validator>, codes: Seq<Vec<char>>, err: Seq<char>, j: int) -> Seq<char>
    decreases j,
{
    if j <= 0 {
        Seq::empty()
    } else {
        validate_checks(vals, codes, err, j - 1) + validate_check(vals[j - 1], code_at(codes, j - 1), err)
    }
}

/// The validate function: the checks in order; the first that fails
/// returns its error.
pub open spec fn validate_fn_text(t: Seq<char>, vals: Seq<Validator>, codes: Seq<Vec<char>>, err: Seq<char>) -> Seq<char> {
    "fn validate(val: "@ + t + ") -> Result<(), "@ + err + "> {\n"@
        + validate_checks(vals, codes, err, vals.len() as int) + "    Ok(())\n}\n"@
}

/// Writes the validate function of a wrapper of the type written `t`,
/// whose error type is named `err`.
pub fn gen_validate_fn(out: &mut Vec<char>, t: &Vec<char>, vals: &Vec<Validator>, codes: &Vec<Vec<char>>, err: &Vec<char>)
    ensures
        final(out)@ == old(out)@ + validate_fn_text(t@, vals@, codes@, err@),
{
    let ghost start = out@;
    push_str(out, "fn validate(val: ");
    push_chars(out, t);
    push_str(out, ") -> Result<(), ");
    push_chars(out, err);
    push_str(out, "> {\n");
    let ghost head = out@;
    let mut j: usize = 0;
    while j < vals.len()
        invariant
            0 <= j <= vals@.len(),
            out@ == head + validate_checks(vals@, codes@, err@, j as int),
        decreases vals@.len() - j,
    {
        let ghost before = out@;
        match vals[j] {
            Validator::Min { value, .. } => {
                push_str(out, "    if val < ");
                push_num(out, value);
                push_str(out, " {\n        return Err(");
                push_chars(out, err);
                push_str(out, "::TooSmall);\n    }\n");
            },
            Validator::Max { value, .. } => {
                push_str(out, "    if val > ");
                push_num(out, value);
                push_str(out, " {\n        return Err(");
                push_chars(out, err);
                push_str(out, "::TooBig);\n    }\n");
            },
            Validator::With { .. } => {
                push_str(out, "    if !(");
                push_code(out, codes, j);
                push_str(out, ")(&val) {\n        return Err(");
                push_chars(out, err);
                push_str(out, "::Invalid);\n    }\n");
            },
        }
        assert(out@ =~= before + validate_check(vals@[j as int], code_at(codes@, j as int), err@));
        j = j + 1;
        assert(out@ =~= head + validate_checks(vals@, codes@, err@, j as int));
    }
    push_str(out, "    Ok(())\n}\n");
    assert(out@ =~= start + validate_fn_text(t@, vals@, codes@, err@));
}

pub open spec fn variant_name(k: ValidationErrorKind) -> Seq<char> {
    match k {
        ValidationErrorKind::TooSmall => "TooSmall"@,
        ValidationErrorKind::TooBig => "TooBig"@,
        ValidationErrorKind::Invalid => "Invalid"@,
    }
}

/// One line per variant of `ks[..j]`.
pub open spec fn variant_lines(ks: Seq<ValidationErrorKind>, j: int) -> Seq<char>
    decreases j,
{
    if j <= 0 {
        Seq::empty()
    } else {
        variant_lines(ks, j - 1) + "    "@ + variant_name(ks[j - 1]) + ",\n"@
    }
}

/// The error type: one variant per distinct kind of validator failure.
pub open spec fn error_type_text(vals: Seq<Validator>, err: Seq<char>) -> Seq<char> {
    let ks = error_variants_upto(vals, vals.len() as int);
    "#[derive(Debug, Clone, Copy, PartialEq, Eq)]\npub enum "@ + err + " {\n"@
        + variant_lines(ks, ks.len() as int) + "}\n"@
}

/// Writes the error type of an integer wrapper.
pub fn gen_validation_error_type(out: &mut Vec<char>, vals: &Vec<Validator>, err: &Vec<char>)
    ensures
        final(out)@ == old(out)@ + error_type_text(vals@, err@),
{
    let ghost start = out@;
    let ks = error_variants(vals);
    push_str(out, "#[derive(Debug, Clone, Copy, PartialEq, Eq)]\npub enum ");
    push_chars(out, err);
    push_str(out, " {\n");
    let ghost head = out@;
    let mut j: usize = 0;
    while j < ks.len()
        invariant
            0 <= j <= ks@.len(),
            out@ == head + variant_lines(ks@, j as int),
        decreases ks@.len() - j,
    {
        push_str(out, "    ");
        match ks[j] {
            ValidationErrorKind::TooSmall => push_str(out, "TooSmall"),
            ValidationErrorKind::TooBig => push_str(out, "TooBig"),
            ValidationErrorKind::Invalid => push_str(out, "Invalid"),
        }
        push_str(out, ",\n");
        j = j + 1;
        assert(out@ =~= head + variant_lines(ks@, j as int));
    }
    push_str(out, "}\n");
    assert(out@ =~= start + error_type_text(vals@, err@));
}

/// The constructor `new` and `From` of a wrapper that cannot fail.
pub open spec fn new_and_from_text(n: Seq<char>, t: Seq<char>) -> Seq<char> {
    "impl "@ + n + " {\n    pub fn new(raw_value: "@ + t + ") -> Self {\n        Self(sanitize(raw_value))\n    }\n}\n"@
        + "impl ::core::convert::From<"@ + t + "> for "@ + n + " {\n    fn from(raw_value: "@ + t
        + ") -> Self {\n        Self::new(raw_value)\n    }\n}\n"@
}

/// The constructor `new` and `TryFrom` of a wrapper that can fail: the
/// value is sanitized, then validated.
pub open spec fn new_and_try_from_text(n: Seq<char>, t: Seq<char>, e: Seq<char>) -> Seq<char> {
    "impl "@ + n + " {\n    pub fn new(raw_value: "@ + t + ") -> Result<Self, "@ + e
        + "> {\n        let sanitized_value = sanitize(raw_value);\n        validate(sanitized_value)?;\n        Ok("@
        + n + "(sanitized_value))\n    }\n}\n"@
        + "impl ::core::convert::TryFrom<"@ + t + "> for "@ + n + " {\n    type Error = "@ + e
        + ";\n\n    fn try_from(raw_value: "@ + t + ") -> Result<"@ + n + ", Self::Error> {\n        "@ + n
        + "::new(raw_value)\n    }\n}\n"@
}

/// The way back to the raw value: `From` for the primitive and `into_inner`.
pub open spec fn impl_methods_text(n: Seq<char>, t: Seq<char>) -> Seq<char> {
    "impl ::core::convert::From<"@ + n + "> for "@ + t + " {\n    fn from(val: "@ + n + ") -> "@ + t
        + " {\n        val.0\n    }\n}\n"@
        + "impl "@ + n + " {\n    pub fn into_inner(self) -> "@ + t + " {\n        self.0\n    }\n}\n"@
}

fn gen_new_and_from(out: &mut Vec<char>, n: &Vec<char>, k: NumberKind)
    ensures
        final(out)@ == old(out)@ + new_and_from_text(n@, kind_text(k)),
{
    let ghost start = out@;
    push_str(out, "impl ");
    push_chars(out, n);
    push_str(out, " {\n    pub fn new(raw_value: ");
    push_kind(out, k);
    push_str(out, ") -> Self {\n        Self(sanitize(raw_value))\n    }\n}\n");
    push_str(out, "impl ::core::convert::From<");
    push_kind(out, k);
    push_str(out, "> for ");
    push_chars(out, n);
    push_str(out, " {\n    fn from(raw_value: ");
    push_kind(out, k);
    push_str(out, ") -> Self {\n        Self::new(raw_value)\n    }\n}\n");
    assert(out@ =~= start + new_and_from_text(n@, kind_text(k)));
}

fn gen_new_and_try_from(out: &mut Vec<char>, n: &Vec<char>, k: NumberKind, e: &Vec<char>)
    ensures
        final(out)@ == old(out)@ + new_and_try_from_text(n@, kind_text(k), e@),
{
    let ghost start = out@;
    push_str(out, "impl ");
    push_chars(out, n);
    push_str(out, " {\n    pub fn new(raw_value: ");
    push_kind(out, k);
    push_str(out, ") -> Result<Self, ");
    push_chars(out, e);
    push_str(out, "> {\n        let sanitized_value = sanitize(raw_value);\n        validate(sanitized_value)?;\n        Ok(");
    push_chars(out, n);
    push_str(out, "(sanitized_value))\n    }\n}\n");
    push_str(out, "impl ::core::convert::TryFrom<");
    push_kind(out, k);
    push_str(out, "> for ");
    push_chars(out, n);
    push_str(out, " {\n    type Error = ");
    push_chars(out, e);
    push_str(out, ";\n\n    fn try_from(raw_value: ");
    push_kind(out, k);
    push_str(out, ") -> Result<");
    push_chars(out, n);
    push_str(out, ", Self::Error> {\n        ");
    push_chars(out, n);
    push_str(out, "::new(raw_value)\n    }\n}\n");
    assert(out@ =~= start + new_and_try_from_text(n@, kind_text(k), e@));
}

fn gen_impl_methods(out: &mut Vec<char>, n: &Vec<char>, k: NumberKind)
    ensures
        final(out)@ == old(out)@ + impl_methods_text(n@, kind_text(k)),
{
    let ghost start = out@;
    push_str(out, "impl ::core::convert::From<");
    push_chars(out, n);
    push_str(out, "> for ");
    push_kind(out, k);
    push_str(out, " {\n    fn from(val: ");
    push_chars(out, n);
    push_str(out, ") -> ");
    push_kind(out, k);
    push_str(out, " {\n        val.0\n    }\n}\n");
    push_str(out, "impl ");
    push_chars(out, n);
    push_str(out, " {\n    pub fn into_inner(self) -> ");
    push_kind(out, k);
    push_str(out, " {\n        self.0\n    }\n}\n");
    assert(out@ =~= start + impl_methods_text(n@, kind_text(k)));
}

/// Everything inside the hidden module after the struct: sanitize, then
/// (when construction can fail) the error type and validate, then the
/// constructors and the way back to the raw value.
pub open spec fn implementation_text(n: Seq<char>, k: NumberKind, guard: Guard, san_codes: Seq<Vec<char>>, val_codes: Seq<Vec<char>>) -> Seq<char> {
    let t = kind_text(k);
    let e = n + error_suffix();
    match guard {
        Guard::From { sanitizers } => sanitize_fn_text(t, sanitizers@, san_codes) + new_and_from_text(n, t)
            + impl_methods_text(n, t),
        Guard::TryFrom { sanitizers, validators } => sanitize_fn_text(t, sanitizers@, san_codes)
            + error_type_text(validators@, e) + validate_fn_text(t, validators@, val_codes, e)
            + new_and_try_from_text(n, t, e) + impl_methods_text(n, t),
    }
}

/// Writes the items of an integer wrapper named `n`.
pub fn gen_implementation(out: &mut Vec<char>, n: &Vec<char>, k: NumberKind, guard: &Guard, san_codes: &Vec<Vec<char>>, val_codes: &Vec<Vec<char>>)
    ensures
        final(out)@ == old(out)@ + implementation_text(n@, k, *guard, san_codes@, val_codes@),
{
    let ghost start = out@;
    let t = kind_chars(k);
    match guard {
        Guard::From { sanitizers } => {
            gen_sanitize_fn(out, &t, sanitizers, san_codes);
            gen_new_and_from(out, n, k);
        },
        Guard::TryFrom { sanitizers, validators } => {
            let e = crate::plan::gen_error_name(n);
            gen_sanitize_fn(out, &t, sanitizers, san_codes);
            gen_validation_error_type(out, validators, &e);
            gen_validate_fn(out, &t, validators, val_codes, &e);
            gen_new_and_try_from(out, n, k, &e);
        },
    }
    gen_impl_methods(out, n, k);
    assert(out@ =~= start + implementation_text(n@, k, *guard, san_codes@, val_codes@));
}

/// The imports that bring the wrapper (and its error type, when
/// construction can fail) out of the hidden module `m`.
pub open spec fn imports_text(vis: Seq<char>, m: Seq<char>, n: Seq<char>, fallible: bool, e: Seq<char>) -> Seq<char> {
    vis + " use "@ + m + "::"@ + n + ";\n"@ + if fallible {
        vis + " use "@ + m + "::"@ + e + ";\n"@
    } else {
        Seq::empty()
    }
}

/// Writes the imports of a wrapper.
pub fn push_imports(out: &mut Vec<char>, vis: &Vec<char>, m: &Vec<char>, n: &Vec<char>, fallible: bool, e: &Vec<char>)
    ensures
        final(out)@ == old(out)@ + imports_text(vis@, m@, n@, fallible, e@),
{
    let ghost start = out@;
    push_chars(out, vis);
    push_str(out, " use ");
    push_chars(out, m);
    push_str(out, "::");
    push_chars(out, n);
    push_str(out, ";\n");
    if fallible {
        push_chars(out, vis);
        push_str(out, " use ");
        push_chars(out, m);
        push_str(out, "::");
        push_chars(out, e);
        push_str(out, ";\n");
    }
    assert(out@ =~= start + imports_text(vis@, m@, n@, fallible, e@));
}

/// The opening of the hidden module `m`, the doc attributes and the
/// struct `n` over `t` with the derive names `names`.
pub open spec fn header_text(m: Seq<char>, docs: Seq<char>, names: Seq<char>, n: Seq<char>, t: Seq<char>) -> Seq<char> {
    "mod "@ + m + " {\n    use super::*;\n\n"@ + docs
        + "#[derive("@ + names + ")]\npub struct "@ + n + "("@ + t + ");\n\n"@
}

fn push_header(out: &mut Vec<char>, m: &Vec<char>, docs: &Vec<char>, names: &Vec<char>, n: &Vec<char>, t: &Vec<char>)
    ensures
        final(out)@ == old(out)@ + header_text(m@, docs@, names@, n@, t@),
{
    let ghost start = out@;
    push_str(out, "mod ");
    push_chars(out, m);
    push_str(out, " {\n    use super::*;\n\n");
    push_chars(out, docs);
    push_str(out, "#[derive(");
    push_chars(out, names);
    push_str(out, ")]\npub struct ");
    push_chars(out, n);
    push_str(out, "(");
    push_chars(out, t);
    push_str(out, ");\n\n");
    assert(out@ =~= start + header_text(m@, docs@, names@, n@, t@));
}

/// The whole fragment for an integer wrapper named `n` with visibility
/// text `vis`, doc attributes `docs` and requested behaviours `bs`: the
/// hidden module holding the struct, its items and the code of its
/// behaviours, and the imports that bring the type (and its error type,
/// when construction can fail) back out.
pub open spec fn nutype_text(docs: Seq<char>, vis: Seq<char>, k: NumberKind, n: Seq<char>, guard: Guard, bs: Seq<NumberDeriveTrait>, san_codes: Seq<Vec<char>>, val_codes: Seq<Vec<char>>) -> Seq<char> {
    let m = module_prefix() + n;
    let e = n + error_suffix();
    let fallible = guard is TryFrom;
    header_text(m, docs, number_derive_names(bs, bs.len() as int), n, kind_text(k))
        + implementation_text(n, k, guard, san_codes, val_codes)
        + number_traits_text(bs, n, kind_text(k), fallible, e, bs.len() as int)
        + "}\n"@ + imports_text(vis, m, n, fallible, e)
}

/// Writes the fragment for an integer wrapper.
pub fn gen_nutype_for_number(docs: &Vec<char>, vis: &Vec<char>, k: NumberKind, n: &Vec<char>, guard: &Guard, bs: &Vec<NumberDeriveTrait>, san_codes: &Vec<Vec<char>>, val_codes: &Vec<Vec<char>>) -> (r: Vec<char>)
    ensures
        r@ == nutype_text(docs@, vis@, k, n@, *guard, bs@, san_codes@, val_codes@),
{
    let m = crate::plan::gen_module_name_for_type(n);
    let e = crate::plan::gen_error_name(n);
    let t = kind_chars(k);
    let fallible = match guard {
        Guard::From { .. } => false,
        Guard::TryFrom { .. } => true,
    };
    let mut names: Vec<char> = Vec::new();
    let mut behaviours: Vec<char> = Vec::new();
    gen_number_traits(&mut names, &mut behaviours, bs, n, &t, fallible, &e);
    let mut out: Vec<char> = Vec::new();
    push_header(&mut out, &m, docs, &names, n, &t);
    gen_implementation(&mut out, n, k, guard, san_codes, val_codes);
    push_chars(&mut out, &behaviours);
    push_str(&mut out, "}\n");
    push_imports(&mut out, vis, &m, n, fallible, &e);
    assert(out@ =~= nutype_text(docs@, vis@, k, n@, *guard, bs@, san_codes@, val_codes@));
    out
}

/// The name of behaviour `b` in a `derive` attribute, if it is derived.
pub open spec fn number_derived_name(b: NumberDeriveTrait) -> Seq<char> {
    match b {
        NumberDeriveTrait::Debug => "Debug, "@,
        NumberDeriveTrait::Clone => "Clone, "@,
        NumberDeriveTrait::Copy => "Copy, "@,
        NumberDeriveTrait::PartialEq => "PartialEq, "@,
        NumberDeriveTrait::Eq => "Eq, "@,
        NumberDeriveTrait::PartialOrd => "PartialOrd, "@,
        NumberDeriveTrait::Ord => "Ord, "@,
        NumberDeriveTrait::Hash => "Hash, "@,
        _ => Seq::empty(),
    }
}

/// The `derive` names of the behaviours `bs[..j]` that are derived.
pub open spec fn number_derive_names(bs: Seq<NumberDeriveTrait>, j: int) -> Seq<char>
    decreases j,
{
    if j <= 0 {
        Seq::empty()
    } else {
        number_derive_names(bs, j - 1) + number_derived_name(bs[j - 1])
    }
}

/// The code written out for behaviour `b` of the integer wrapper `n` over
/// `t`, whose error type (when construction can fail) is `e`. Derived
/// behaviours need none; `From`, `TryFrom` and `Into` are already given by
/// the constructors and the way back to the raw value. Deserialization goes
/// through `new`, so it validates.
pub open spec fn number_trait_text(b: NumberDeriveTrait, n: Seq<char>, t: Seq<char>, fallible: bool, e: Seq<char>) -> Seq<char> {
    match b {
        NumberDeriveTrait::FromStr => if fallible {
            "#[derive(Debug)]\npub enum "@ + n + "ParseError {\n    Parse(<"@ + t + " as ::core::str::FromStr>::Err),\n    Validate("@ + e + "),\n}\nimpl ::core::str::FromStr for "@ + n + " {\n    type Err = "@ + n + "ParseError;\n\n    fn from_str(raw_string: &str) -> Result<Self, Self::Err> {\n        let raw_value = raw_string.parse::<"@ + t + ">().map_err("@ + n + "ParseError::Parse)?;\n        "@ + n + "::new(raw_value).map_err("@ + n + "ParseError::Validate)\n    }\n}\n"@
        } else {
            "impl ::core::str::FromStr for "@ + n + " {\n    type Err = <"@ + t + " as ::core::str::FromStr>::Err;\n\n    fn from_str(raw_string: &str) -> Result<Self, Self::Err> {\n        Ok("@ + n + "::new(raw_string.parse::<"@ + t + ">()?))\n    }\n}\n"@
        },
        NumberDeriveTrait::Display => "impl ::core::fmt::Display for "@ + n + " {\n    fn fmt(&self, f: &mut ::core::fmt::Formatter<'_>) -> ::core::fmt::Result {\n        ::core::fmt::Display::fmt(&self.0, f)\n    }\n}\n"@,
        NumberDeriveTrait::AsRef => "impl ::core::convert::AsRef<"@ + t + "> for "@ + n + " {\n    fn as_ref(&self) -> &"@ + t + " {\n        &self.0\n    }\n}\n"@,
        NumberDeriveTrait::Borrow => "impl ::core::borrow::Borrow<"@ + t + "> for "@ + n + " {\n    fn borrow(&self) -> &"@ + t + " {\n        &self.0\n    }\n}\n"@,
        NumberDeriveTrait::SerdeSerialize => "impl ::serde::Serialize for "@ + n + " {\n    fn serialize<S: ::serde::Serializer>(&self, serializer: S) -> Result<S::Ok, S::Error> {\n        ::serde::Serialize::serialize(&self.0, serializer)\n    }\n}\n"@,
        NumberDeriveTrait::SerdeDeserialize => if fallible {
            "impl<'de> ::serde::Deserialize<'de> for "@ + n + " {\n    fn deserialize<D: ::serde::Deserializer<'de>>(deserializer: D) -> Result<Self, D::Error> {\n        let raw_value = <"@ + t + " as ::serde::Deserialize<'de>>::deserialize(deserializer)?;\n        "@ + n + "::new(raw_value).map_err(|e| <D::Error as ::serde::de::Error>::custom(format!(\"{:?}\", e)))\n    }\n}\n"@
        } else {
            "impl<'de> ::serde::Deserialize<'de> for "@ + n + " {\n    fn deserialize<D: ::serde::Deserializer<'de>>(deserializer: D) -> Result<Self, D::Error> {\n        let raw_value = <"@ + t + " as ::serde::Deserialize<'de>>::deserialize(deserializer)?;\n        Ok("@ + n + "::new(raw_value))\n    }\n}\n"@
        },
        _ => Seq::empty(),
    }
}

/// The code of the behaviours `bs[..j]`, in order.
pub open spec fn number_traits_text(bs: Seq<NumberDeriveTrait>, n: Seq<char>, t: Seq<char>, fallible: bool, e: Seq<char>, j: int) -> Seq<char>
    decreases j,
{
    if j <= 0 {
        Seq::empty()
    } else {
        number_traits_text(bs, n, t, fallible, e, j - 1) + number_trait_text(bs[j - 1], n, t, fallible, e)
    }
}

fn push_number_trait(out: &mut Vec<char>, b: NumberDeriveTrait, n: &Vec<char>, t: &Vec<char>, fallible: bool, e: &Vec<char>)
    ensures
        final(out)@ == old(out)@ + number_trait_text(b, n@, t@, fallible, e@),
{
    let ghost start = out@;
    match b {
        NumberDeriveTrait::FromStr => {
            if fallible {
                push_str(out, "#[derive(Debug)]\npub enum ");
                push_chars(out, n);
                push_str(out, "ParseError {\n    Parse(<");
                push_chars(out, t);
                push_str(out, " as ::core::str::FromStr>::Err),\n    Validate(");
                push_chars(out, e);
                push_str(out, "),\n}\nimpl ::core::str::FromStr for ");
                push_chars(out, n);
                push_str(out, " {\n    type Err = ");
                push_chars(out, n);
                push_str(out, "ParseError;\n\n    fn from_str(raw_string: &str) -> Result<Self, Self::Err> {\n        let raw_value = raw_string.parse::<");
                push_chars(out, t);
                push_str(out, ">().map_err(");
                push_chars(out, n);
                push_str(out, "ParseError::Parse)?;\n        ");
                push_chars(out, n);
                push_str(out, "::new(raw_value).map_err(");
                push_chars(out, n);
                push_str(out, "ParseError::Validate)\n    }\n}\n");
            } else {
                push_str(out, "impl ::core::str::FromStr for ");
                push_chars(out, n);
                push_str(out, " {\n    type Err = <");
                push_chars(out, t);
                push_str(out, " as ::core::str::FromStr>::Err;\n\n    fn from_str(raw_string: &str) -> Result<Self, Self::Err> {\n        Ok(");
                push_chars(out, n);
                push_str(out, "::new(raw_string.parse::<");
                push_chars(out, t);
                push_str(out, ">()?))\n    }\n}\n");
            }
        },
        NumberDeriveTrait::Display => {
                push_str(out, "impl ::core::fmt::Display for ");
                push_chars(out, n);
                push_str(out, " {\n    fn fmt(&self, f: &mut ::core::fmt::Formatter<'_>) -> ::core::fmt::Result {\n        ::core::fmt::Display::fmt(&self.0, f)\n    }\n}\n");
        },
        NumberDeriveTrait::AsRef => {
                push_str(out, "impl ::core::convert::AsRef<");
                push_chars(out, t);
                push_str(out, "> for ");
                push_chars(out, n);
                push_str(out, " {\n    fn as_ref(&self) -> &");
                push_chars(out, t);
                push_str(out, " {\n        &self.0\n    }\n}\n");
        },
        NumberDeriveTrait::Borrow => {
                push_str(out, "impl ::core::borrow::Borrow<");
                push_chars(out, t);
                push_str(out, "> for ");
                push_chars(out, n);
                push_str(out, " {\n    fn borrow(&self) -> &");
                push_chars(out, t);
                push_str(out, " {\n        &self.0\n    }\n}\n");
        },
        NumberDeriveTrait::SerdeSerialize => {
                push_str(out, "impl ::serde::Serialize for ");
                push_chars(out, n);
                push_str(out, " {\n    fn serialize<S: ::serde::Serializer>(&self, serializer: S) -> Result<S::Ok, S::Error> {\n        ::serde::Serialize::serialize(&self.0, serializer)\n    }\n}\n");
        },
        NumberDeriveTrait::SerdeDeserialize => {
            if fallible {
                push_str(out, "impl<'de> ::serde::Deserialize<'de> for ");
                push_chars(out, n);
                push_str(out, " {\n    fn deserialize<D: ::serde::Deserializer<'de>>(deserializer: D) -> Result<Self, D::Error> {\n        let raw_value = <");
                push_chars(out, t);
                push_str(out, " as ::serde::Deserialize<'de>>::deserialize(deserializer)?;\n        ");
                push_chars(out, n);
                push_str(out, "::new(raw_value).map_err(|e| <D::Error as ::serde::de::Error>::custom(format!(\"{:?}\", e)))\n    }\n}\n");
            } else {
                push_str(out, "impl<'de> ::serde::Deserialize<'de> for ");
                push_chars(out, n);
                push_str(out, " {\n    fn deserialize<D: ::serde::Deserializer<'de>>(deserializer: D) -> Result<Self, D::Error> {\n        let raw_value = <");
                push_chars(out, t);
                push_str(out, " as ::serde::Deserialize<'de>>::deserialize(deserializer)?;\n        Ok(");
                push_chars(out, n);
                push_str(out, "::new(raw_value))\n    }\n}\n");
            }
        },
        _ => {},
    }
    assert(out@ =~= start + number_trait_text(b, n@, t@, fallible, e@));
}

/// Writes the `derive` names and the code of the requested behaviours of an
/// integer wrapper.
pub fn gen_number_traits(derive_names: &mut Vec<char>, code: &mut Vec<char>, bs: &Vec<NumberDeriveTrait>, n: &Vec<char>, t: &Vec<char>, fallible: bool, e: &Vec<char>)
    ensures
        final(derive_names)@ == old(derive_names)@ + number_derive_names(bs@, bs@.len() as int),
        final(code)@ == old(code)@ + number_traits_text(bs@, n@, t@, fallible, e@, bs@.len() as int),
{
    let ghost names0 = derive_names@;
    let ghost code0 = code@;
    let mut j: usize = 0;
    while j < bs.len()
        invariant
            0 <= j <= bs@.len(),
            derive_names@ == names0 + number_derive_names(bs@, j as int),
            code@ == code0 + number_traits_text(bs@, n@, t@, fallible, e@, j as int),
        decreases bs@.len() - j,
    {
        let ghost before = derive_names@;
        match bs[j] {
            NumberDeriveTrait::Debug => push_str(derive_names, "Debug, "),
            NumberDeriveTrait::Clone => push_str(derive_names, "Clone, "),
            NumberDeriveTrait::Copy => push_str(derive_names, "Copy, "),
            NumberDeriveTrait::PartialEq => push_str(derive_names, "PartialEq, "),
            NumberDeriveTrait::Eq => push_str(derive_names, "Eq, "),
            NumberDeriveTrait::PartialOrd => push_str(derive_names, "PartialOrd, "),
            NumberDeriveTrait::Ord => push_str(derive_names, "Ord, "),
            NumberDeriveTrait::Hash => push_str(derive_names, "Hash, "),
            _ => {},
        }
        assert(derive_names@ =~= before + number_derived_name(bs@[j as int]));
        push_number_trait(code, bs[j], n, t, fallible, e);
        j = j + 1;
        assert(derive_names@ =~= names0 + number_derive_names(bs@, j as int));
        assert(code@ =~= code0 + number_traits_text(bs@, n@, t@, fallible, e@, j as int));
    }
}

} // verus!
