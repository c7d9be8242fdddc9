//! What can go wrong while a template is compiled.

use vstd::prelude::*;

verus! {

/// Why a sequence of tokens is not a template.
#[derive(Clone, Copy, Debug, PartialEq, Eq, Hash, Structural)]
pub enum ParseErrorKind {
    /// A path that names an element or an attribute was expected.
    ExpectedPath,
    /// An expression of the host language was expected.
    ExpectedExpression,
    /// A pattern of the host language was expected.
    ExpectedPattern,
    /// An identifier that is no keyword was expected.
    ExpectedIdentifier,
    /// An annotation `#[...]` is malformed.
    MalformedAnnotation,
    /// A block in curly braces was expected.
    ExpectedBraces,
    /// A group of tokens is never closed, or is closed by the wrong bracket.
    UnbalancedGroup,
    /// The keyword `in` was expected between a loop's pattern and its source.
    ExpectedIn,
    /// `:` was expected after the directive of an attribute name.
    ExpectedColon,
    /// `=` was expected between an attribute's name and its value.
    ExpectedEquals,
    /// `=>` was expected between the head of a match arm and its body.
    ExpectedFatArrow,
    /// `,` was expected: between two attributes, or after a match arm whose
    /// body is a text or an expression and which is not the last arm.
    ExpectedComma,
    /// Tokens are left over where a group has to end.
    UnexpectedToken,
}

/// A failure to parse, with the position of the offending token: its index
/// in the sequence of tokens. A position equal to the length of the sequence
/// means that the tokens ended too early.
#[derive(Clone, Copy, Debug, PartialEq, Eq, Hash, Structural)]
pub struct ParseError {
    pub at: usize,
    pub kind: ParseErrorKind,
}

/// Why a well-formed template cannot be lowered.
#[derive(Clone, Copy, Debug, PartialEq, Eq, Hash, Structural)]
pub enum GenerateError {
    /// An attribute whose name is a string literal: there is no lowering for
    /// such a name.
    QuotedAttributeName,
    /// A `key` annotation without an argument list, or whose arguments are
    /// not one expression.
    MalformedKey,
    /// A `with` annotation without an argument list, or whose arguments are
    /// not one statement.
    MalformedWith,
}

} // verus!
