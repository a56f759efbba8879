//! Requested behaviours: reading a `derive(...)` list, checking it against
//! the rules of a text wrapper, and parting it into behaviours that are
//! derived and behaviours that are written out.
use vstd::prelude::*;
use crate::error::{ErrorKind, ParseError, err_at};
use crate::token::{Token, pos_of, same_chars};

verus! {

/// A behaviour that a `derive(...)` list may name.
#[derive(Debug, Clone, Copy, PartialEq, Eq, Structural)]
pub enum NormalDeriveTrait {
    Debug,
    Display,
    Clone,
    Copy,
    PartialEq,
    Eq,
    PartialOrd,
    Ord,
    FromStr,
    AsRef,
    TryFrom,
    From,
    Into,
    Hash,
    Borrow,
    SerdeSerialize,
    SerdeDeserialize,
}

/// One entry of a `derive(...)` list: a named behaviour, or `*`.
#[derive(Debug, Clone, Copy, PartialEq, Eq, Structural)]
pub enum DeriveTrait {
    Asterisk,
    Normal(NormalDeriveTrait),
}

#[derive(Debug, Clone, Copy, PartialEq, Eq, Structural)]
pub struct SpannedDeriveTrait {
    pub item: DeriveTrait,
    pub pos: usize,
}

/// The behaviour that the name `w` stands for.
pub open spec fn trait_named(w: Seq<char>) -> Option<NormalDeriveTrait> {
    if w == seq!['D', 'e', 'b', 'u', 'g'] { Some(NormalDeriveTrait::Debug) }
    else if w == seq!['D', 'i', 's', 'p', 'l', 'a', 'y'] { Some(NormalDeriveTrait::Display) }
    else if w == seq!['C', 'l', 'o', 'n', 'e'] { Some(NormalDeriveTrait::Clone) }
    else if w == seq!['C', 'o', 'p', 'y'] { Some(NormalDeriveTrait::Copy) }
    else if w == seq!['P', 'a', 'r', 't', 'i', 'a', 'l', 'E', 'q'] { Some(NormalDeriveTrait::PartialEq) }
    else if w == seq!['E', 'q'] { Some(NormalDeriveTrait::Eq) }
    else if w == seq!['P', 'a', 'r', 't', 'i', 'a', 'l', 'O', 'r', 'd'] { Some(NormalDeriveTrait::PartialOrd) }
    else if w == seq!['O', 'r', 'd'] { Some(NormalDeriveTrait::Ord) }
    else if w == seq!['F', 'r', 'o', 'm', 'S', 't', 'r'] { Some(NormalDeriveTrait::FromStr) }
    else if w == seq!['A', 's', 'R', 'e', 'f'] { Some(NormalDeriveTrait::AsRef) }
    else if w == seq!['T', 'r', 'y', 'F', 'r', 'o', 'm'] { Some(NormalDeriveTrait::TryFrom) }
    else if w == seq!['F', 'r', 'o', 'm'] { Some(NormalDeriveTrait::From) }
    else if w == seq!['I', 'n', 't', 'o'] { Some(NormalDeriveTrait::Into) }
    else if w == seq!['H', 'a', 's', 'h'] { Some(NormalDeriveTrait::Hash) }
    else if w == seq!['B', 'o', 'r', 'r', 'o', 'w'] { Some(NormalDeriveTrait::Borrow) }
    else if w == seq!['S', 'e', 'r', 'i', 'a', 'l', 'i', 'z', 'e'] { Some(NormalDeriveTrait::SerdeSerialize) }
    else if w == seq!['D', 'e', 's', 'e', 'r', 'i', 'a', 'l', 'i', 'z', 'e'] { Some(NormalDeriveTrait::SerdeDeserialize) }
    else { None }
}

/// Reads a behaviour's name; an unknown name is refused at `pos`.
pub fn parse_ident_into_derive_trait(name: &Vec<char>, pos: usize) -> (r: Result<SpannedDeriveTrait, ParseError>)
    ensures
        r == match trait_named(name@) {
            Some(t) => Ok(SpannedDeriveTrait { item: DeriveTrait::Normal(t), pos }),
            None => err_at(ErrorKind::UnknownBehavior, pos),
        },
{
    let t = if same_chars(name, &vec!['D', 'e', 'b', 'u', 'g']) { NormalDeriveTrait::Debug }
    else if same_chars(name, &vec!['D', 'i', 's', 'p', 'l', 'a', 'y']) { NormalDeriveTrait::Display }
    else if same_chars(name, &vec!['C', 'l', 'o', 'n', 'e']) { NormalDeriveTrait::Clone }
    else if same_chars(name, &vec!['C', 'o', 'p', 'y']) { NormalDeriveTrait::Copy }
    else if same_chars(name, &vec!['P', 'a', 'r', 't', 'i', 'a', 'l', 'E', 'q']) { NormalDeriveTrait::PartialEq }
    else if same_chars(name, &vec!['E', 'q']) { NormalDeriveTrait::Eq }
    else if same_chars(name, &vec!['P', 'a', 'r', 't', 'i', 'a', 'l', 'O', 'r', 'd']) { NormalDeriveTrait::PartialOrd }
    else if same_chars(name, &vec!['O', 'r', 'd']) { NormalDeriveTrait::Ord }
    else if same_chars(name, &vec!['F', 'r', 'o', 'm', 'S', 't', 'r']) { NormalDeriveTrait::FromStr }
    else if same_chars(name, &vec!['A', 's', 'R', 'e', 'f']) { NormalDeriveTrait::AsRef }
    else if same_chars(name, &vec!['T', 'r', 'y', 'F', 'r', 'o', 'm']) { NormalDeriveTrait::TryFrom }
    else if same_chars(name, &vec!['F', 'r', 'o', 'm']) { NormalDeriveTrait::From }
    else if same_chars(name, &vec!['I', 'n', 't', 'o']) { NormalDeriveTrait::Into }
    else if same_chars(name, &vec!['H', 'a', 's', 'h']) { NormalDeriveTrait::Hash }
    else if same_chars(name, &vec!['B', 'o', 'r', 'r', 'o', 'w']) { NormalDeriveTrait::Borrow }
    else if same_chars(name, &vec!['S', 'e', 'r', 'i', 'a', 'l', 'i', 'z', 'e']) { NormalDeriveTrait::SerdeSerialize }
    else if same_chars(name, &vec!['D', 'e', 's', 'e', 'r', 'i', 'a', 'l', 'i', 'z', 'e']) { NormalDeriveTrait::SerdeDeserialize }
    else {
        return Err(ParseError { kind: ErrorKind::UnknownBehavior, pos });
    };
    Ok(SpannedDeriveTrait { item: DeriveTrait::Normal(t), pos })
}

/// What one token of a `derive(...)` list gives: a behaviour, nothing for a
/// comma, `*`, or an error.
pub open spec fn token_trait(t: Token) -> Result<Option<SpannedDeriveTrait>, ParseError> {
    match t {
        Token::Ident { text, pos } => match trait_named(text@) {
            Some(n) => Ok(Some(SpannedDeriveTrait { item: DeriveTrait::Normal(n), pos })),
            None => err_at(ErrorKind::UnknownBehavior, pos),
        },
        Token::Punct { ch, pos } => if ch == ',' {
            Ok(None)
        } else if ch == '*' {
            Ok(Some(SpannedDeriveTrait { item: DeriveTrait::Asterisk, pos }))
        } else {
            err_at(ErrorKind::UnexpectedToken, pos)
        },
        _ => err_at(ErrorKind::UnexpectedToken, pos_of(t)),
    }
}

/// Reads one token of a `derive(...)` list.
pub fn parse_token_into_derive_trait(token: &Token) -> (r: Result<Option<SpannedDeriveTrait>, ParseError>)
    ensures
        r == token_trait(*token),
{
    match token {
        Token::Ident { text, pos } => {
            let t = parse_ident_into_derive_trait(text, *pos)?;
            Ok(Some(t))
        },
        Token::Punct { ch, pos } => {
            if *ch == ',' {
                Ok(None)
            } else if *ch == '*' {
                Ok(Some(SpannedDeriveTrait { item: DeriveTrait::Asterisk, pos: *pos }))
            } else {
                Err(ParseError { kind: ErrorKind::UnexpectedToken, pos: *pos })
            }
        },
        _ => Err(ParseError { kind: ErrorKind::UnexpectedToken, pos: token.pos() }),
    }
}

/// The behaviours that `ts[..j]` names, in order, or the first error.
pub open spec fn derive_list_upto(ts: Seq<Token>, j: int) -> Result<Seq<SpannedDeriveTrait>, ParseError>
    decreases j,
{
    if j <= 0 {
        Ok(Seq::empty())
    } else {
        match derive_list_upto(ts, j - 1) {
            Err(e) => Err(e),
            Ok(p) => match token_trait(ts[j - 1]) {
                Err(e) => Err(e),
                Ok(None) => Ok(p),
                Ok(Some(t)) => Ok(p.push(t)),
            },
        }
    }
}

proof fn lemma_derive_err_stays(ts: Seq<Token>, j: int, m: int, e: ParseError)
    requires
        0 <= j <= m,
        derive_list_upto(ts, j) == Err::<Seq<SpannedDeriveTrait>, ParseError>(e),
    ensures
        derive_list_upto(ts, m) == Err::<Seq<SpannedDeriveTrait>, ParseError>(e),
    decreases m - j,
{
    if m > j {
        lemma_derive_err_stays(ts, j, m - 1, e);
    }
}

/// What a `derive` attribute's tokens give: they must open with a group,
/// whose tokens list the behaviours. An empty attribute is refused at `at`.
pub open spec fn derive_attr_spec(ts: Seq<Token>, at: usize) -> Result<Seq<SpannedDeriveTrait>, ParseError> {
    if ts.len() == 0 {
        err_at(ErrorKind::MalformedSyntax, at)
    } else {
        match ts[0] {
            Token::Group { inner, .. } => derive_list_upto(inner@, inner@.len() as int),
            _ => err_at(ErrorKind::ExpectedGroup, pos_of(ts[0])),
        }
    }
}

/// Reads the behaviours that one `derive(...)` attribute at `at` requests.
pub fn parse_derive_attr(tokens: &Vec<Token>, at: usize) -> (r: Result<Vec<SpannedDeriveTrait>, ParseError>)
    ensures
        match r {
            Ok(v) => derive_attr_spec(tokens@, at) == Ok::<Seq<SpannedDeriveTrait>, ParseError>(v@),
            Err(e) => derive_attr_spec(tokens@, at) == Err::<Seq<SpannedDeriveTrait>, ParseError>(e),
        },
{
    if tokens.len() == 0 {
        return Err(ParseError { kind: ErrorKind::MalformedSyntax, pos: at });
    }
    let inner = match &tokens[0] {
        Token::Group { inner, .. } => inner,
        other => {
            return Err(ParseError { kind: ErrorKind::ExpectedGroup, pos: other.pos() });
        },
    };
    assert(derive_attr_spec(tokens@, at) == derive_list_upto(inner@, inner@.len() as int));
    let mut out: Vec<SpannedDeriveTrait> = Vec::new();
    let mut j: usize = 0;
    while j < inner.len()
        invariant
            0 <= j <= inner@.len(),
            derive_attr_spec(tokens@, at) == derive_list_upto(inner@, inner@.len() as int),
            derive_list_upto(inner@, j as int) == Ok::<Seq<SpannedDeriveTrait>, ParseError>(out@),
        decreases inner@.len() - j,
    {
        match parse_token_into_derive_trait(&inner[j]) {
            Ok(Some(t)) => {
                out.push(t);
            },
            Ok(None) => {},
            Err(e) => {
                proof {
                    lemma_derive_err_stays(inner@, j + 1, inner@.len() as int, e);
                }
                return Err(e);
            },
        }
        j = j + 1;
    }
    Ok(out)
}

/// A behaviour that a text wrapper supports.
#[derive(Debug, Clone, Copy, PartialEq, Eq, Structural)]
pub enum StringDeriveTrait {
    Debug,
    Clone,
    PartialEq,
    Eq,
    PartialOrd,
    Ord,
    FromStr,
    AsRef,
    From,
    TryFrom,
}

/// A behaviour that can be left to `derive`: it does not depend on how the
/// value was built.
#[derive(Debug, Clone, Copy, PartialEq, Eq, Structural)]
pub enum DerivedTrait {
    Debug,
    Clone,
    PartialEq,
    Eq,
    PartialOrd,
    Ord,
}

/// A behaviour whose code must be written out, because it builds a value or
/// exposes the raw one.
#[derive(Debug, Clone, Copy, PartialEq, Eq, Structural)]
pub enum ImplementedTrait {
    FromStr,
    AsRef,
    From,
    TryFrom,
}

#[derive(Debug, Clone, Copy, PartialEq, Eq, Structural)]
pub enum Trait {
    Derived(DerivedTrait),
    Implemented(ImplementedTrait),
}

pub open spec fn trait_class(t: StringDeriveTrait) -> Trait {
    match t {
        StringDeriveTrait::Debug => Trait::Derived(DerivedTrait::Debug),
        StringDeriveTrait::Clone => Trait::Derived(DerivedTrait::Clone),
        StringDeriveTrait::PartialEq => Trait::Derived(DerivedTrait::PartialEq),
        StringDeriveTrait::Eq => Trait::Derived(DerivedTrait::Eq),
        StringDeriveTrait::PartialOrd => Trait::Derived(DerivedTrait::PartialOrd),
        StringDeriveTrait::Ord => Trait::Derived(DerivedTrait::Ord),
        StringDeriveTrait::FromStr => Trait::Implemented(ImplementedTrait::FromStr),
        StringDeriveTrait::AsRef => Trait::Implemented(ImplementedTrait::AsRef),
        StringDeriveTrait::From => Trait::Implemented(ImplementedTrait::From),
        StringDeriveTrait::TryFrom => Trait::Implemented(ImplementedTrait::TryFrom),
    }
}

impl Trait {
    /// Whether a text behaviour is derived or written out.
    pub fn from_string_trait(t: StringDeriveTrait) -> (r: Trait)
        ensures
            r == trait_class(t),
    {
        match t {
            StringDeriveTrait::Debug => Trait::Derived(DerivedTrait::Debug),
            StringDeriveTrait::Clone => Trait::Derived(DerivedTrait::Clone),
            StringDeriveTrait::PartialEq => Trait::Derived(DerivedTrait::PartialEq),
            StringDeriveTrait::Eq => Trait::Derived(DerivedTrait::Eq),
            StringDeriveTrait::PartialOrd => Trait::Derived(DerivedTrait::PartialOrd),
            StringDeriveTrait::Ord => Trait::Derived(DerivedTrait::Ord),
            StringDeriveTrait::FromStr => Trait::Implemented(ImplementedTrait::FromStr),
            StringDeriveTrait::AsRef => Trait::Implemented(ImplementedTrait::AsRef),
            StringDeriveTrait::From => Trait::Implemented(ImplementedTrait::From),
            StringDeriveTrait::TryFrom => Trait::Implemented(ImplementedTrait::TryFrom),
        }
    }
}

/// The derived behaviours among `ts[..j]`, in order.
pub open spec fn derived_upto(ts: Seq<StringDeriveTrait>, j: int) -> Seq<DerivedTrait>
    decreases j,
{
    if j <= 0 {
        Seq::empty()
    } else {
        match trait_class(ts[j - 1]) {
            Trait::Derived(d) => derived_upto(ts, j - 1).push(d),
            Trait::Implemented(_) => derived_upto(ts, j - 1),
        }
    }
}

/// The written-out behaviours among `ts[..j]`, in order.
pub open spec fn implemented_upto(ts: Seq<StringDeriveTrait>, j: int) -> Seq<ImplementedTrait>
    decreases j,
{
    if j <= 0 {
        Seq::empty()
    } else {
        match trait_class(ts[j - 1]) {
            Trait::Derived(_) => implemented_upto(ts, j - 1),
            Trait::Implemented(i) => implemented_upto(ts, j - 1).push(i),
        }
    }
}

/// Parts the behaviours of a text wrapper into those left to `derive` and
/// those written out, each in the order given.
pub fn split_traits(input_traits: &Vec<StringDeriveTrait>) -> (r: (Vec<DerivedTrait>, Vec<ImplementedTrait>))
    ensures
        r.0@ == derived_upto(input_traits@, input_traits@.len() as int),
        r.1@ == implemented_upto(input_traits@, input_traits@.len() as int),
{
    let mut derive_traits: Vec<DerivedTrait> = Vec::new();
    let mut impl_traits: Vec<ImplementedTrait> = Vec::new();
    let mut j: usize = 0;
    while j < input_traits.len()
        invariant
            0 <= j <= input_traits@.len(),
            derive_traits@ == derived_upto(input_traits@, j as int),
            impl_traits@ == implemented_upto(input_traits@, j as int),
        decreases input_traits@.len() - j,
    {
        match Trait::from_string_trait(input_traits[j]) {
            Trait::Derived(dt) => derive_traits.push(dt),
            Trait::Implemented(it) => impl_traits.push(it),
        }
        j = j + 1;
    }
    (derive_traits, impl_traits)
}

/// The text behaviour that a requested one stands for, if text supports it.
pub open spec fn string_trait_of(t: NormalDeriveTrait) -> Option<StringDeriveTrait> {
    match t {
        NormalDeriveTrait::Debug => Some(StringDeriveTrait::Debug),
        NormalDeriveTrait::Clone => Some(StringDeriveTrait::Clone),
        NormalDeriveTrait::PartialEq => Some(StringDeriveTrait::PartialEq),
        NormalDeriveTrait::Eq => Some(StringDeriveTrait::Eq),
        NormalDeriveTrait::PartialOrd => Some(StringDeriveTrait::PartialOrd),
        NormalDeriveTrait::Ord => Some(StringDeriveTrait::Ord),
        NormalDeriveTrait::FromStr => Some(StringDeriveTrait::FromStr),
        NormalDeriveTrait::AsRef => Some(StringDeriveTrait::AsRef),
        NormalDeriveTrait::From => Some(StringDeriveTrait::From),
        NormalDeriveTrait::TryFrom => Some(StringDeriveTrait::TryFrom),
        _ => None,
    }
}

/// What one requested behaviour of a text wrapper gives: a behaviour that
/// text does not support, or `*`, contradicts the wrapper; `From` needs
/// infallible construction and `TryFrom` fallible construction.
pub open spec fn string_trait_check(t: SpannedDeriveTrait, fallible: bool) -> Result<StringDeriveTrait, ParseError> {
    match t.item {
        DeriveTrait::Asterisk => err_at(ErrorKind::InconsistentRules, t.pos),
        DeriveTrait::Normal(n) => match string_trait_of(n) {
            None => err_at(ErrorKind::InconsistentRules, t.pos),
            Some(st) => if (st == StringDeriveTrait::From && fallible) || (st == StringDeriveTrait::TryFrom && !fallible) {
                err_at(ErrorKind::InconsistentRules, t.pos)
            } else {
                Ok(st)
            },
        },
    }
}

/// The distinct text behaviours that `ts[..j]` requests, in the order of
/// their first request, or the first error.
pub open spec fn string_traits_upto(ts: Seq<SpannedDeriveTrait>, fallible: bool, j: int) -> Result<Seq<StringDeriveTrait>, ParseError>
    decreases j,
{
    if j <= 0 {
        Ok(Seq::empty())
    } else {
        match string_traits_upto(ts, fallible, j - 1) {
            Err(e) => Err(e),
            Ok(p) => match string_trait_check(ts[j - 1], fallible) {
                Err(e) => Err(e),
                Ok(x) => if p.contains(x) {
                    Ok(p)
                } else {
                    Ok(p.push(x))
                },
            },
        }
    }
}

proof fn lemma_string_traits_err_stays(ts: Seq<SpannedDeriveTrait>, fallible: bool, j: int, m: int, e: ParseError)
    requires
        0 <= j <= m,
        string_traits_upto(ts, fallible, j) == Err::<Seq<StringDeriveTrait>, ParseError>(e),
    ensures
        string_traits_upto(ts, fallible, m) == Err::<Seq<StringDeriveTrait>, ParseError>(e),
    decreases m - j,
{
    if m > j {
        lemma_string_traits_err_stays(ts, fallible, j, m - 1, e);
    }
}

fn string_trait_check_exec(t: SpannedDeriveTrait, fallible: bool) -> (r: Result<StringDeriveTrait, ParseError>)
    ensures
        r == string_trait_check(t, fallible),
{
    let n = match t.item {
        DeriveTrait::Asterisk => {
            return Err(ParseError { kind: ErrorKind::InconsistentRules, pos: t.pos });
        },
        DeriveTrait::Normal(n) => n,
    };
    let st = match n {
        NormalDeriveTrait::Debug => StringDeriveTrait::Debug,
        NormalDeriveTrait::Clone => StringDeriveTrait::Clone,
        NormalDeriveTrait::PartialEq => StringDeriveTrait::PartialEq,
        NormalDeriveTrait::Eq => StringDeriveTrait::Eq,
        NormalDeriveTrait::PartialOrd => StringDeriveTrait::PartialOrd,
        NormalDeriveTrait::Ord => StringDeriveTrait::Ord,
        NormalDeriveTrait::FromStr => StringDeriveTrait::FromStr,
        NormalDeriveTrait::AsRef => StringDeriveTrait::AsRef,
        NormalDeriveTrait::From => StringDeriveTrait::From,
        NormalDeriveTrait::TryFrom => StringDeriveTrait::TryFrom,
        _ => {
            return Err(ParseError { kind: ErrorKind::InconsistentRules, pos: t.pos });
        },
    };
    if (st == StringDeriveTrait::From && fallible) || (st == StringDeriveTrait::TryFrom && !fallible) {
        Err(ParseError { kind: ErrorKind::InconsistentRules, pos: t.pos })
    } else {
        Ok(st)
    }
}

fn contains_trait(v: &Vec<StringDeriveTrait>, x: StringDeriveTrait) -> (r: bool)
    ensures
        r == v@.contains(x),
{
    let mut i: usize = 0;
    while i < v.len()
        invariant
            0 <= i <= v@.len(),
            forall|k: int| 0 <= k < i ==> v@[k] != x,
        decreases v@.len() - i,
    {
        if v[i] == x {
            return true;
        }
        i = i + 1;
    }
    false
}

/// Checks the behaviours requested of a text wrapper against whether its
/// construction can fail, and gives each supported one once.
pub fn validate_derive_traits(fallible: bool, traits: &Vec<SpannedDeriveTrait>) -> (r: Result<Vec<StringDeriveTrait>, ParseError>)
    ensures
        match r {
            Ok(v) => string_traits_upto(traits@, fallible, traits@.len() as int) == Ok::<Seq<StringDeriveTrait>, ParseError>(v@),
            Err(e) => string_traits_upto(traits@, fallible, traits@.len() as int) == Err::<Seq<StringDeriveTrait>, ParseError>(e),
        },
{
    let mut out: Vec<StringDeriveTrait> = Vec::new();
    let mut j: usize = 0;
    while j < traits.len()
        invariant
            0 <= j <= traits@.len(),
            string_traits_upto(traits@, fallible, j as int) == Ok::<Seq<StringDeriveTrait>, ParseError>(out@),
        decreases traits@.len() - j,
    {
        match string_trait_check_exec(traits[j], fallible) {
            Ok(x) => {
                if !contains_trait(&out, x) {
                    out.push(x);
                }
            },
            Err(e) => {
                proof {
                    lemma_string_traits_err_stays(traits@, fallible, j + 1, traits@.len() as int, e);
                }
                return Err(e);
            },
        }
        j = j + 1;
    }
    Ok(out)
}

/// An outer attribute of a type declaration: the first segment of its path
/// (if it has one), the tokens after the path, and its position.
#[derive(Debug)]
pub struct Attribute {
    pub path_head: Option<Vec<char>>,
    pub tokens: Vec<Token>,
    pub pos: usize,
}

/// Whether the attribute's path starts with `w`.
pub open spec fn has_head(a: Attribute, w: Seq<char>) -> bool {
    match a.path_head {
        Some(h) => h@ == w,
        None => false,
    }
}

fn head_is(a: &Attribute, w: &Vec<char>) -> (r: bool)
    ensures
        r == has_head(*a, w@),
{
    match &a.path_head {
        Some(h) => same_chars(h, w),
        None => false,
    }
}

/// Whether the attribute is a doc comment.
pub fn is_doc_attribute(attribute: &Attribute) -> (r: bool)
    ensures
        r == has_head(*attribute, seq!['d', 'o', 'c']),
{
    head_is(attribute, &vec!['d', 'o', 'c'])
}

/// Whether the attribute is a `derive(...)` list.
pub fn is_derive_attribute(attribute: &Attribute) -> (r: bool)
    ensures
        r == has_head(*attribute, seq!['d', 'e', 'r', 'i', 'v', 'e']),
{
    head_is(attribute, &vec!['d', 'e', 'r', 'i', 'v', 'e'])
}

/// The behaviours that the `derive` attributes among `attrs[..j]` request,
/// in order, or the first error.
pub open spec fn derive_traits_upto(attrs: Seq<Attribute>, j: int) -> Result<Seq<SpannedDeriveTrait>, ParseError>
    decreases j,
{
    if j <= 0 {
        Ok(Seq::empty())
    } else {
        match derive_traits_upto(attrs, j - 1) {
            Err(e) => Err(e),
            Ok(p) => {
                let a = attrs[j - 1];
                if has_head(a, seq!['d', 'e', 'r', 'i', 'v', 'e']) {
                    match derive_attr_spec(a.tokens@, a.pos) {
                        Err(e) => Err(e),
                        Ok(ts) => Ok(p + ts),
                    }
                } else {
                    Ok(p)
                }
            },
        }
    }
}

proof fn lemma_derive_traits_err_stays(attrs: Seq<Attribute>, j: int, m: int, e: ParseError)
    requires
        0 <= j <= m,
        derive_traits_upto(attrs, j) == Err::<Seq<SpannedDeriveTrait>, ParseError>(e),
    ensures
        derive_traits_upto(attrs, m) == Err::<Seq<SpannedDeriveTrait>, ParseError>(e),
    decreases m - j,
{
    if m > j {
        lemma_derive_traits_err_stays(attrs, j, m - 1, e);
    }
}

/// Reads the behaviours that all `derive` attributes of a declaration
/// request, in order; other attributes are passed over.
pub fn parse_derive_traits(attributes: &Vec<Attribute>) -> (r: Result<Vec<SpannedDeriveTrait>, ParseError>)
    ensures
        match r {
            Ok(v) => derive_traits_upto(attributes@, attributes@.len() as int) == Ok::<Seq<SpannedDeriveTrait>, ParseError>(v@),
            Err(e) => derive_traits_upto(attributes@, attributes@.len() as int) == Err::<Seq<SpannedDeriveTrait>, ParseError>(e),
        },
{
    let mut out: Vec<SpannedDeriveTrait> = Vec::new();
    let mut j: usize = 0;
    while j < attributes.len()
        invariant
            0 <= j <= attributes@.len(),
            derive_traits_upto(attributes@, j as int) == Ok::<Seq<SpannedDeriveTrait>, ParseError>(out@),
        decreases attributes@.len() - j,
    {
        let a = &attributes[j];
        if is_derive_attribute(a) {
            match parse_derive_attr(&a.tokens, a.pos) {
                Ok(mut ts) => {
                    out.append(&mut ts);
                },
                Err(e) => {
                    proof {
                        lemma_derive_traits_err_stays(attributes@, j + 1, attributes@.len() as int, e);
                    }
                    return Err(e);
                },
            }
        }
        j = j + 1;
    }
    Ok(out)
}

/// A behaviour that an integer wrapper supports.
#[derive(Debug, Clone, Copy, PartialEq, Eq, Structural)]
pub enum NumberDeriveTrait {
    Debug,
    Clone,
    Copy,
    PartialEq,
    Eq,
    PartialOrd,
    Ord,
    Hash,
    FromStr,
    AsRef,
    Into,
    From,
    TryFrom,
    Display,
    Borrow,
    SerdeSerialize,
    SerdeDeserialize,
}

pub open spec fn number_trait_of(t: NormalDeriveTrait) -> NumberDeriveTrait {
    match t {
        NormalDeriveTrait::Debug => NumberDeriveTrait::Debug,
        NormalDeriveTrait::Display => NumberDeriveTrait::Display,
        NormalDeriveTrait::Clone => NumberDeriveTrait::Clone,
        NormalDeriveTrait::Copy => NumberDeriveTrait::Copy,
        NormalDeriveTrait::PartialEq => NumberDeriveTrait::PartialEq,
        NormalDeriveTrait::Eq => NumberDeriveTrait::Eq,
        NormalDeriveTrait::PartialOrd => NumberDeriveTrait::PartialOrd,
        NormalDeriveTrait::Ord => NumberDeriveTrait::Ord,
        NormalDeriveTrait::FromStr => NumberDeriveTrait::FromStr,
        NormalDeriveTrait::AsRef => NumberDeriveTrait::AsRef,
        NormalDeriveTrait::TryFrom => NumberDeriveTrait::TryFrom,
        NormalDeriveTrait::From => NumberDeriveTrait::From,
        NormalDeriveTrait::Into => NumberDeriveTrait::Into,
        NormalDeriveTrait::Hash => NumberDeriveTrait::Hash,
        NormalDeriveTrait::Borrow => NumberDeriveTrait::Borrow,
        NormalDeriveTrait::SerdeSerialize => NumberDeriveTrait::SerdeSerialize,
        NormalDeriveTrait::SerdeDeserialize => NumberDeriveTrait::SerdeDeserialize,
    }
}

/// What one requested behaviour of an integer wrapper gives: `*`
/// contradicts the wrapper; `From` needs infallible construction and
/// `TryFrom` fallible construction.
pub open spec fn number_trait_check(t: SpannedDeriveTrait, fallible: bool) -> Result<NumberDeriveTrait, ParseError> {
    match t.item {
        DeriveTrait::Asterisk => err_at(ErrorKind::InconsistentRules, t.pos),
        DeriveTrait::Normal(n) => {
            let nt = number_trait_of(n);
            if (nt == NumberDeriveTrait::From && fallible) || (nt == NumberDeriveTrait::TryFrom && !fallible) {
                err_at(ErrorKind::InconsistentRules, t.pos)
            } else {
                Ok(nt)
            }
        },
    }
}

/// The distinct integer behaviours that `ts[..j]` requests, in the order
/// of their first request, or the first error.
pub open spec fn number_traits_upto(ts: Seq<SpannedDeriveTrait>, fallible: bool, j: int) -> Result<Seq<NumberDeriveTrait>, ParseError>
    decreases j,
{
    if j <= 0 {
        Ok(Seq::empty())
    } else {
        match number_traits_upto(ts, fallible, j - 1) {
            Err(e) => Err(e),
            Ok(p) => match number_trait_check(ts[j - 1], fallible) {
                Err(e) => Err(e),
                Ok(x) => if p.contains(x) {
                    Ok(p)
                } else {
                    Ok(p.push(x))
                },
            },
        }
    }
}

proof fn lemma_number_traits_err_stays(ts: Seq<SpannedDeriveTrait>, fallible: bool, j: int, m: int, e: ParseError)
    requires
        0 <= j <= m,
        number_traits_upto(ts, fallible, j) == Err::<Seq<NumberDeriveTrait>, ParseError>(e),
    ensures
        number_traits_upto(ts, fallible, m) == Err::<Seq<NumberDeriveTrait>, ParseError>(e),
    decreases m - j,
{
    if m > j {
        lemma_number_traits_err_stays(ts, fallible, j, m - 1, e);
    }
}

fn number_trait_check_exec(t: SpannedDeriveTrait, fallible: bool) -> (r: Result<NumberDeriveTrait, ParseError>)
    ensures
        r == number_trait_check(t, fallible),
{
    let n = match t.item {
        DeriveTrait::Asterisk => {
            return Err(ParseError { kind: ErrorKind::InconsistentRules, pos: t.pos });
        },
        DeriveTrait::Normal(n) => n,
    };
    let nt = match n {
        NormalDeriveTrait::Debug => NumberDeriveTrait::Debug,
        NormalDeriveTrait::Display => NumberDeriveTrait::Display,
        NormalDeriveTrait::Clone => NumberDeriveTrait::Clone,
        NormalDeriveTrait::Copy => NumberDeriveTrait::Copy,
        NormalDeriveTrait::PartialEq => NumberDeriveTrait::PartialEq,
        NormalDeriveTrait::Eq => NumberDeriveTrait::Eq,
        NormalDeriveTrait::PartialOrd => NumberDeriveTrait::PartialOrd,
        NormalDeriveTrait::Ord => NumberDeriveTrait::Ord,
        NormalDeriveTrait::FromStr => NumberDeriveTrait::FromStr,
        NormalDeriveTrait::AsRef => NumberDeriveTrait::AsRef,
        NormalDeriveTrait::TryFrom => NumberDeriveTrait::TryFrom,
        NormalDeriveTrait::From => NumberDeriveTrait::From,
        NormalDeriveTrait::Into => NumberDeriveTrait::Into,
        NormalDeriveTrait::Hash => NumberDeriveTrait::Hash,
        NormalDeriveTrait::Borrow => NumberDeriveTrait::Borrow,
        NormalDeriveTrait::SerdeSerialize => NumberDeriveTrait::SerdeSerialize,
        NormalDeriveTrait::SerdeDeserialize => NumberDeriveTrait::SerdeDeserialize,
    };
    if (nt == NumberDeriveTrait::From && fallible) || (nt == NumberDeriveTrait::TryFrom && !fallible) {
        Err(ParseError { kind: ErrorKind::InconsistentRules, pos: t.pos })
    } else {
        Ok(nt)
    }
}

fn contains_number_trait(v: &Vec<NumberDeriveTrait>, x: NumberDeriveTrait) -> (r: bool)
    ensures
        r == v@.contains(x),
{
    let mut i: usize = 0;
    while i < v.len()
        invariant
            0 <= i <= v@.len(),
            forall|k: int| 0 <= k < i ==> v@[k] != x,
        decreases v@.len() - i,
    {
        if v[i] == x {
            return true;
        }
        i = i + 1;
    }
    false
}

/// Checks the behaviours requested of an integer wrapper against whether
/// its construction can fail, and gives each one once.
pub fn validate_number_derive_traits(fallible: bool, traits: &Vec<SpannedDeriveTrait>) -> (r: Result<Vec<NumberDeriveTrait>, ParseError>)
    ensures
        match r {
            Ok(v) => number_traits_upto(traits@, fallible, traits@.len() as int) == Ok::<Seq<NumberDeriveTrait>, ParseError>(v@),
            Err(e) => number_traits_upto(traits@, fallible, traits@.len() as int) == Err::<Seq<NumberDeriveTrait>, ParseError>(e),
        },
{
    let mut out: Vec<NumberDeriveTrait> = Vec::new();
    let mut j: usize = 0;
    while j < traits.len()
        invariant
            0 <= j <= traits@.len(),
            number_traits_upto(traits@, fallible, j as int) == Ok::<Seq<NumberDeriveTrait>, ParseError>(out@),
        decreases traits@.len() - j,
    {
        match number_trait_check_exec(traits[j], fallible) {
            Ok(x) => {
                if !contains_number_trait(&out, x) {
                    out.push(x);
                }
            },
            Err(e) => {
                proof {
                    lemma_number_traits_err_stays(traits@, fallible, j + 1, traits@.len() as int, e);
                }
                return Err(e);
            },
        }
        j = j + 1;
    }
    Ok(out)
}

} // verus!
