//! A lexical token stream of plain values, and the small tests on tokens
//! that the parsers share.
use vstd::prelude::*;
use crate::error::{ErrorKind, ParseError};

verus! {

/// One lexical token. `pos` stands for the token's source position: it is
/// what errors report, and what custom code fragments are cut from.
#[derive(Debug)]
pub enum Token {
    Ident { text: Vec<char>, pos: usize },
    Punct { ch: char, pos: usize },
    Literal { text: Vec<char>, pos: usize },
    Group { inner: Vec<Token>, pos: usize },
}

/// The source position of a token.
pub open spec fn pos_of(t: Token) -> usize {
    match t {
        Token::Ident { pos, .. } => pos,
        Token::Punct { pos, .. } => pos,
        Token::Literal { pos, .. } => pos,
        Token::Group { pos, .. } => pos,
    }
}

/// The text of a token, as far as a numeric literal may be read from it.
/// A group has no such text.
pub open spec fn text_of(t: Token) -> Seq<char> {
    match t {
        Token::Ident { text, .. } => text@,
        Token::Punct { ch, .. } => seq![ch],
        Token::Literal { text, .. } => text@,
        Token::Group { .. } => Seq::empty(),
    }
}

pub open spec fn is_punct(t: Token, c: char) -> bool {
    match t {
        Token::Punct { ch, .. } => ch == c,
        _ => false,
    }
}

pub open spec fn is_comma_spec(t: Token) -> bool {
    is_punct(t, ',')
}

pub open spec fn is_eq_spec(t: Token) -> bool {
    is_punct(t, '=')
}

/// Whether `t` is an identifier spelled `w`.
pub open spec fn is_ident_word(t: Token, w: Seq<char>) -> bool {
    match t {
        Token::Ident { text, .. } => text@ == w,
        _ => false,
    }
}

impl Token {
    pub fn pos(&self) -> (r: usize)
        ensures
            r == pos_of(*self),
    {
        match self {
            Token::Ident { pos, .. } => *pos,
            Token::Punct { pos, .. } => *pos,
            Token::Literal { pos, .. } => *pos,
            Token::Group { pos, .. } => *pos,
        }
    }

    /// Whether this token is an identifier.
    pub fn is_ident_token(&self) -> (r: bool)
        ensures
            r == (*self is Ident),
    {
        match self {
            Token::Ident { .. } => true,
            _ => false,
        }
    }

    /// Whether this token is a group.
    pub fn is_group_token(&self) -> (r: bool)
        ensures
            r == (*self is Group),
    {
        match self {
            Token::Group { .. } => true,
            _ => false,
        }
    }

    /// Whether this token is the punctuation character `c`.
    pub fn is_punct_char(&self, c: char) -> (r: bool)
        ensures
            r == is_punct(*self, c),
    {
        match self {
            Token::Punct { ch, .. } => *ch == c,
            _ => false,
        }
    }
}

/// Whether the token is a comma.
pub fn is_comma(token: &Token) -> (r: bool)
    ensures
        r == is_comma_spec(*token),
{
    token.is_punct_char(',')
}

/// Whether the token is an equals sign.
pub fn is_eq(token: &Token) -> (r: bool)
    ensures
        r == is_eq_spec(*token),
{
    token.is_punct_char('=')
}

/// Whether two character sequences are equal.
pub fn same_chars(a: &Vec<char>, b: &Vec<char>) -> (r: bool)
    ensures
        r == (a@ == b@),
{
    if a.len() != b.len() {
        return false;
    }
    let mut i: usize = 0;
    while i < a.len()
        invariant
            a@.len() == b@.len(),
            0 <= i <= a@.len(),
            forall|j: int| 0 <= j < i ==> a@[j] == b@[j],
        decreases a@.len() - i,
    {
        if a[i] != b[i] {
            return false;
        }
        i = i + 1;
    }
    assert(a@ =~= b@);
    true
}

/// Whether the token is an identifier spelled `w`.
pub fn is_ident_named(token: &Token, w: &Vec<char>) -> (r: bool)
    ensures
        r == is_ident_word(*token, w@),
{
    match token {
        Token::Ident { text, .. } => same_chars(text, w),
        _ => false,
    }
}

/// The text and position of an identifier; any other token is refused.
pub fn try_unwrap_ident(token: Token) -> (r: Result<(Vec<char>, usize), ParseError>)
    ensures
        match token {
            Token::Ident { text, pos } => r == Ok::<(Vec<char>, usize), ParseError>((text, pos)),
            _ => r == Err::<(Vec<char>, usize), ParseError>(ParseError { kind: ErrorKind::ExpectedIdent, pos: pos_of(token) }),
        },
{
    let p = token.pos();
    match token {
        Token::Ident { text, pos } => Ok((text, pos)),
        _ => Err(ParseError { kind: ErrorKind::ExpectedIdent, pos: p }),
    }
}

/// The inner tokens and position of a group; any other token is refused.
pub fn try_unwrap_group(token: Token) -> (r: Result<(Vec<Token>, usize), ParseError>)
    ensures
        match token {
            Token::Group { inner, pos } => r == Ok::<(Vec<Token>, usize), ParseError>((inner, pos)),
            _ => r == Err::<(Vec<Token>, usize), ParseError>(ParseError { kind: ErrorKind::ExpectedGroup, pos: pos_of(token) }),
        },
{
    let p = token.pos();
    match token {
        Token::Group { inner, pos } => Ok((inner, pos)),
        _ => Err(ParseError { kind: ErrorKind::ExpectedGroup, pos: p }),
    }
}

} // verus!
