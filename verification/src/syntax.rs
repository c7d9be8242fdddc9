//! The boundary to the host language's own grammar.
//!
//! Templates embed fragments of the host language: paths, expressions,
//! patterns, statements and attributes. Their grammar is not ours. It is
//! asked of `syn` through the functions of this module, which hand it the
//! text of the tokens in question. Nothing in this module is proved: each
//! contract here is taken on trust from the crate it calls. What a call
//! returns is a function of the text it is given, and is referred to by a
//! name.

use proc_macro2::TokenStream;
use syn::parse::{Parse, ParseStream, Parser};
use vstd::prelude::*;

verus! {

/// How many token trees of `text` are left once `syn` has read a path at its
/// start, or `None` where the text does not start with a path.
pub uninterp spec fn syn_path_rest(text: Seq<char>) -> Option<nat>;

/// How many token trees of `text` are left once `syn` has read an expression
/// at its start, or `None` where the text does not start with an expression.
pub uninterp spec fn syn_expr_rest(text: Seq<char>) -> Option<nat>;

/// As [`syn_expr_rest`], for an expression in the position of a condition,
/// where an opening brace ends the expression instead of starting a struct
/// literal.
pub uninterp spec fn syn_condition_rest(text: Seq<char>) -> Option<nat>;

/// How many token trees of `text` are left once `syn` has read one pattern
/// without alternatives at its start, or `None`.
pub uninterp spec fn syn_pattern_rest(text: Seq<char>) -> Option<nat>;

/// How many token trees of `text` are left once `syn` has read a pattern
/// with alternatives, which may start with `|`, at its start, or `None`.
pub uninterp spec fn syn_arm_pattern_rest(text: Seq<char>) -> Option<nat>;

/// How many token trees of `text` are left once `syn` has read one statement
/// at its start, or `None`.
pub uninterp spec fn syn_statement_rest(text: Seq<char>) -> Option<nat>;

/// How many token trees of `text` are left once `syn` has read all the outer
/// attributes at its start, or `None` where one of them is malformed.
pub uninterp spec fn syn_annotations_rest(text: Seq<char>) -> Option<nat>;

/// Whether `syn` reads `text` as one string literal.
pub uninterp spec fn syn_is_string_literal(text: Seq<char>) -> bool;

/// Whether `syn` reads `text` as one identifier that is no keyword.
pub uninterp spec fn syn_is_identifier(text: Seq<char>) -> bool;

/// The single identifier that is the path of the first outer attribute in
/// `text`, or `None` where `syn` finds no such attribute or its path is
/// longer.
pub uninterp spec fn syn_annotation_name(text: Seq<char>) -> Option<Seq<char>>;

/// Whether the first outer attribute that `syn` finds in `text` has an
/// argument list: a path with one group behind it.
pub uninterp spec fn syn_annotation_has_arguments(text: Seq<char>) -> bool;

/// The characters of an optional string.
pub open spec fn optional_text(s: Option<String>) -> Option<Seq<char>> {
    match s {
        Some(s) => Some(s@),
        None => None,
    }
}

/// A count as a natural number.
pub open spec fn optional_count(n: Option<usize>) -> Option<nat> {
    match n {
        Some(n) => Some(n as nat),
        None => None,
    }
}

/// `<syn::Path as Parse>::parse`, run at the start of `text`. The contract
/// names the number of token trees that the call leaves unread.
#[verifier::external_body]
pub(crate) fn path_rest(text: &str) -> (rest: Option<usize>)
    ensures
        optional_count(rest) == syn_path_rest(text@),
{
    let prefix = |input: ParseStream| {
        syn::Path::parse(input)?;
        input.parse::<TokenStream>()
    };
    prefix.parse_str(text).ok().map(|rest| rest.into_iter().count())
}

/// `<syn::Expr as Parse>::parse`, run at the start of `text`. The contract
/// names the number of token trees that the call leaves unread.
#[verifier::external_body]
pub(crate) fn expr_rest(text: &str) -> (rest: Option<usize>)
    ensures
        optional_count(rest) == syn_expr_rest(text@),
{
    let prefix = |input: ParseStream| {
        syn::Expr::parse(input)?;
        input.parse::<TokenStream>()
    };
    prefix.parse_str(text).ok().map(|rest| rest.into_iter().count())
}

/// `syn::Expr::parse_without_eager_brace`, run at the start of `text`. The
/// contract names the number of token trees that the call leaves unread.
#[verifier::external_body]
pub(crate) fn condition_rest(text: &str) -> (rest: Option<usize>)
    ensures
        optional_count(rest) == syn_condition_rest(text@),
{
    let prefix = |input: ParseStream| {
        syn::Expr::parse_without_eager_brace(input)?;
        input.parse::<TokenStream>()
    };
    prefix.parse_str(text).ok().map(|rest| rest.into_iter().count())
}

/// `syn::Pat::parse_single`, run at the start of `text`. The contract names
/// the number of token trees that the call leaves unread.
#[verifier::external_body]
pub(crate) fn pattern_rest(text: &str) -> (rest: Option<usize>)
    ensures
        optional_count(rest) == syn_pattern_rest(text@),
{
    let prefix = |input: ParseStream| {
        syn::Pat::parse_single(input)?;
        input.parse::<TokenStream>()
    };
    prefix.parse_str(text).ok().map(|rest| rest.into_iter().count())
}

/// `syn::Pat::parse_multi_with_leading_vert`, run at the start of `text`.
/// The contract names the number of token trees that the call leaves unread.
#[verifier::external_body]
pub(crate) fn arm_pattern_rest(text: &str) -> (rest: Option<usize>)
    ensures
        optional_count(rest) == syn_arm_pattern_rest(text@),
{
    let prefix = |input: ParseStream| {
        syn::Pat::parse_multi_with_leading_vert(input)?;
        input.parse::<TokenStream>()
    };
    prefix.parse_str(text).ok().map(|rest| rest.into_iter().count())
}

/// `<syn::Stmt as Parse>::parse`, run at the start of `text`. The contract
/// names the number of token trees that the call leaves unread.
#[verifier::external_body]
pub(crate) fn statement_rest(text: &str) -> (rest: Option<usize>)
    ensures
        optional_count(rest) == syn_statement_rest(text@),
{
    let prefix = |input: ParseStream| {
        syn::Stmt::parse(input)?;
        input.parse::<TokenStream>()
    };
    prefix.parse_str(text).ok().map(|rest| rest.into_iter().count())
}

/// `syn::Attribute::parse_outer`, run at the start of `text`. The contract
/// names the number of token trees that the call leaves unread.
#[verifier::external_body]
pub(crate) fn annotations_rest(text: &str) -> (rest: Option<usize>)
    ensures
        optional_count(rest) == syn_annotations_rest(text@),
{
    let prefix = |input: ParseStream| {
        syn::Attribute::parse_outer(input)?;
        input.parse::<TokenStream>()
    };
    prefix.parse_str(text).ok().map(|rest| rest.into_iter().count())
}

/// `syn::parse_str::<syn::LitStr>`: whether the text is one string literal.
#[verifier::external_body]
pub(crate) fn is_string_literal(text: &str) -> (yes: bool)
    ensures
        yes == syn_is_string_literal(text@),
{
    syn::parse_str::<syn::LitStr>(text).is_ok()
}

/// `syn::parse_str::<syn::Ident>`: whether the text is one identifier that
/// is not a keyword.
#[verifier::external_body]
pub(crate) fn is_identifier(text: &str) -> (yes: bool)
    ensures
        yes == syn_is_identifier(text@),
{
    syn::parse_str::<syn::Ident>(text).is_ok()
}

/// `syn::Path::get_ident` on the path of the first attribute that
/// `syn::Attribute::parse_outer` reads from `text`. The contract names the
/// identifier's text.
#[verifier::external_body]
pub(crate) fn annotation_name(text: &str) -> (name: Option<String>)
    ensures
        optional_text(name) == syn_annotation_name(text@),
{
    let attributes = syn::Attribute::parse_outer.parse_str(text).ok()?;
    attributes.first()?.path().get_ident().map(|ident| ident.to_string())
}

/// `syn::Meta::require_list` on the first attribute that
/// `syn::Attribute::parse_outer` reads from `text`: whether the attribute
/// is a path with a list of arguments.
#[verifier::external_body]
pub(crate) fn annotation_has_arguments(text: &str) -> (yes: bool)
    ensures
        yes == syn_annotation_has_arguments(text@),
{
    match syn::Attribute::parse_outer.parse_str(text) {
        Ok(attributes) => attributes.first().is_some_and(|a| a.meta.require_list().is_ok()),
        Err(_) => false,
    }
}

/// `String::push`: appends one character.
#[verifier::external_body]
pub(crate) fn push_char(text: &mut String, c: char)
    ensures
        final(text)@ == old(text)@.push(c),
{
    text.push(c)
}

/// `str::eq`: whether two strings hold the same characters.
#[verifier::external_body]
pub(crate) fn same_text(a: &str, b: &str) -> (same: bool)
    ensures
        same == (a@ == b@),
{
    a == b
}

} // verus!
