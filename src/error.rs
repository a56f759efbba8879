//! The diagnostics that parsing and rule checking report.
use vstd::prelude::*;

verus! {

/// What went wrong.
#[derive(Debug, Clone, Copy, PartialEq, Eq, Structural)]
pub enum ErrorKind {
    /// A numeric bound is not a literal of the wrapped type.
    MalformedLiteral,
    /// An `=` or the expression after it is missing, or a rule does not start
    /// with a name.
    MalformedSyntax,
    /// A rule or option name is not known.
    UnknownRule,
    /// A requested behaviour is not known.
    UnknownBehavior,
    /// The declaration does not wrap exactly one field.
    UnsupportedShape,
    /// Rules or behaviours contradict one another.
    InconsistentRules,
    /// An identifier was expected.
    ExpectedIdent,
    /// A parenthesised group was expected.
    ExpectedGroup,
    /// A token that has no place where it stands.
    UnexpectedToken,
}

/// A diagnostic: what went wrong and at which source position.
#[derive(Debug, Clone, Copy, PartialEq, Eq, Structural)]
pub struct ParseError {
    pub kind: ErrorKind,
    pub pos: usize,
}

pub open spec fn err_at<T>(kind: ErrorKind, pos: usize) -> Result<T, ParseError> {
    Err(ParseError { kind, pos })
}

} // verus!
