//! The compiler from end to end: tokens to a template, a template to the
//! invocation of the view macro, and every failure to a compile-time error
//! of the host language.

use crate::block::Nodes;
use crate::error::{GenerateError, ParseErrorKind};
use crate::generate::{
    braced_tokens,
    generate_nodes,
    join,
    joint_token,
    nothing,
    punct_token,
    with_token,
    word_token,
};
use crate::grammar::spec_template;
use crate::lower::{braced, joint, lower_nodes, punct, word};
use crate::token::{toks, Delimiter, Tok, Token};
use vstd::prelude::*;
use vstd::string::*;

verus! {

/// What a parse error says, as a string literal of the host language.
pub open spec fn parse_message(kind: ParseErrorKind) -> Seq<char> {
    match kind {
        ParseErrorKind::ExpectedPath => "\"expected a path\""@,
        ParseErrorKind::ExpectedExpression => "\"expected an expression\""@,
        ParseErrorKind::ExpectedPattern => "\"expected a pattern\""@,
        ParseErrorKind::ExpectedIdentifier => "\"expected an identifier\""@,
        ParseErrorKind::MalformedAnnotation => "\"malformed annotation\""@,
        ParseErrorKind::ExpectedBraces => "\"expected curly braces\""@,
        ParseErrorKind::UnbalancedGroup => "\"unbalanced brackets\""@,
        ParseErrorKind::ExpectedIn => "\"expected `in`\""@,
        ParseErrorKind::ExpectedColon => "\"expected `:`\""@,
        ParseErrorKind::ExpectedEquals => "\"expected `=`\""@,
        ParseErrorKind::ExpectedFatArrow => "\"expected `=>`\""@,
        ParseErrorKind::ExpectedComma => "\"expected `,`\""@,
        ParseErrorKind::UnexpectedToken => "\"unexpected token\""@,
    }
}

/// What a lowering error says, as a string literal of the host language.
pub open spec fn generate_message(error: GenerateError) -> Seq<char> {
    match error {
        GenerateError::QuotedAttributeName => "\"quoted attribute names are not supported\""@,
        GenerateError::MalformedKey => "\"expected one expression: #[key(...)]\""@,
        GenerateError::MalformedWith => "\"expected one statement: #[with(...)]\""@,
    }
}

impl ParseErrorKind {
    /// What the error says, as a string literal of the host language.
    pub fn message(&self) -> (text: &'static str)
        ensures
            text@ == parse_message(*self),
    {
        match self {
            ParseErrorKind::ExpectedPath => "\"expected a path\"",
            ParseErrorKind::ExpectedExpression => "\"expected an expression\"",
            ParseErrorKind::ExpectedPattern => "\"expected a pattern\"",
            ParseErrorKind::ExpectedIdentifier => "\"expected an identifier\"",
            ParseErrorKind::MalformedAnnotation => "\"malformed annotation\"",
            ParseErrorKind::ExpectedBraces => "\"expected curly braces\"",
            ParseErrorKind::UnbalancedGroup => "\"unbalanced brackets\"",
            ParseErrorKind::ExpectedIn => "\"expected `in`\"",
            ParseErrorKind::ExpectedColon => "\"expected `:`\"",
            ParseErrorKind::ExpectedEquals => "\"expected `=`\"",
            ParseErrorKind::ExpectedFatArrow => "\"expected `=>`\"",
            ParseErrorKind::ExpectedComma => "\"expected `,`\"",
            ParseErrorKind::UnexpectedToken => "\"unexpected token\"",
        }
    }
}

impl GenerateError {
    /// What the error says, as a string literal of the host language.
    pub fn message(&self) -> (text: &'static str)
        ensures
            text@ == generate_message(*self),
    {
        match self {
            GenerateError::QuotedAttributeName => "\"quoted attribute names are not supported\"",
            GenerateError::MalformedKey => "\"expected one expression: #[key(...)]\"",
            GenerateError::MalformedWith => "\"expected one statement: #[with(...)]\"",
        }
    }
}

/// An error of the host language's compiler with the given message, which is
/// a string literal: `::core::compile_error!{ "message" }`
pub open spec fn diagnostic(message: Seq<char>) -> Seq<Tok> {
    seq![
        joint(':'),
        punct(':'),
        word("core"@),
        joint(':'),
        punct(':'),
        word("compile_error"@),
        punct('!'),
    ] + braced(seq![Tok::Literal(message)])
}

/// `#[allow(lint)]`
pub open spec fn allow(lint: Seq<char>) -> Seq<Tok> {
    seq![
        punct('#'),
        Tok::Open(Delimiter::Bracket),
        word("allow"@),
        Tok::Open(Delimiter::Parenthesis),
        word(lint),
        Tok::Close(Delimiter::Parenthesis),
        Tok::Close(Delimiter::Bracket),
    ]
}

/// The invocation of the view macro on the lowered nodes, in a block that
/// silences the lints that generated code trips: `{ #[allow(...)] {
/// ::leptos::prelude::view! { body } } }`
pub open spec fn invocation(body: Seq<Tok>) -> Seq<Tok> {
    braced(
        allow("unused_variables"@) + allow("unused_parens"@) + allow("unused_braces"@) + braced(
            seq![
                joint(':'),
                punct(':'),
                word("leptos"@),
                joint(':'),
                punct(':'),
                word("prelude"@),
                joint(':'),
                punct(':'),
                word("view"@),
                punct('!'),
            ] + braced(body),
        ),
    )
}

/// What a template compiles to: the invocation of the view macro on its
/// lowered nodes; where it cannot be parsed or lowered, a compile-time error
/// that says why.
pub open spec fn compiled(t: Seq<Tok>) -> Seq<Tok> {
    match spec_template(t) {
        Err(e) => diagnostic(parse_message(e.kind)),
        Ok(nodes) => match lower_nodes(nodes) {
            Err(e) => diagnostic(generate_message(e)),
            Ok(body) => invocation(body),
        },
    }
}

fn allow_tokens(lint: &str) -> (r: Vec<Token>)
    ensures
        toks(r@) == allow(lint@),
{
    let r = with_token(
        with_token(
            with_token(
                with_token(
                    with_token(
                        with_token(
                            with_token(nothing(), punct_token('#')),
                            Token::Open(Delimiter::Bracket),
                        ),
                        word_token("allow"),
                    ),
                    Token::Open(Delimiter::Parenthesis),
                ),
                word_token(lint),
            ),
            Token::Close(Delimiter::Parenthesis),
        ),
        Token::Close(Delimiter::Bracket),
    );
    assert(toks(r@) =~= allow(lint@));
    r
}

/// `::first::second`
fn path_tokens(first: &str, second: &str) -> (r: Vec<Token>)
    ensures
        toks(r@) == seq![
            joint(':'),
            punct(':'),
            word(first@),
            joint(':'),
            punct(':'),
            word(second@),
        ],
{
    let r = with_token(
        with_token(
            with_token(
                with_token(
                    with_token(with_token(nothing(), joint_token(':')), punct_token(':')),
                    word_token(first),
                ),
                joint_token(':'),
            ),
            punct_token(':'),
        ),
        word_token(second),
    );
    assert(toks(r@) =~= seq![
        joint(':'),
        punct(':'),
        word(first@),
        joint(':'),
        punct(':'),
        word(second@),
    ]);
    r
}

/// The tokens of a compile-time error with the given message, which has
/// to be a string literal of the host language.
pub fn diagnostic_tokens(message: &str) -> (r: Vec<Token>)
    ensures
        toks(r@) == diagnostic(message@),
{
    let head = with_token(path_tokens("core", "compile_error"), punct_token('!'));
    assert(toks(head@) =~= seq![
        joint(':'),
        punct(':'),
        word("core"@),
        joint(':'),
        punct(':'),
        word("compile_error"@),
        punct('!'),
    ]);
    let literal = with_token(nothing(), Token::Literal(String::from_str(message)));
    assert(toks(literal@) =~= seq![Tok::Literal(message@)]);
    join(head, braced_tokens(literal))
}

/// The tokens of the invocation of the view macro on the given body.
pub fn invocation_tokens(body: Vec<Token>) -> (r: Vec<Token>)
    ensures
        toks(r@) == invocation(toks(body@)),
{
    let head = with_token(
        with_token(
            with_token(
                with_token(path_tokens("leptos", "prelude"), joint_token(':')),
                punct_token(':'),
            ),
            word_token("view"),
        ),
        punct_token('!'),
    );
    assert(toks(head@) =~= seq![
        joint(':'),
        punct(':'),
        word("leptos"@),
        joint(':'),
        punct(':'),
        word("prelude"@),
        joint(':'),
        punct(':'),
        word("view"@),
        punct('!'),
    ]);
    braced_tokens(
        join(
            join(
                join(allow_tokens("unused_variables"), allow_tokens("unused_parens")),
                allow_tokens("unused_braces"),
            ),
            braced_tokens(join(head, braced_tokens(body))),
        ),
    )
}

/// Compiles a template: parses the tokens, lowers the nodes and wraps them
/// in the invocation of the view macro. A template that cannot be parsed or
/// lowered compiles to a compile-time error that says why.
pub fn rdml(tokens: &Vec<Token>) -> (r: Vec<Token>)
    ensures
        toks(r@) == compiled(toks(tokens@)),
{
    match Nodes::parse(tokens) {
        Err(e) => diagnostic_tokens(e.kind.message()),
        Ok(nodes) => match generate_nodes(&nodes.nodes) {
            Err(e) => diagnostic_tokens(e.message()),
            Ok(body) => invocation_tokens(body),
        },
    }
}

} // verus!
