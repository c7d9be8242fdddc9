//! The annotation resolver: what the annotations of a node say about how the
//! node is lowered.
//!
//! Three annotations are understood. `show` on a conditional selects the
//! component over the closure. `key(expression)` on a loop selects the keyed
//! list over the collected one. `with(statement)`, on any node and any number
//! of times, opens a scope around the node in which the statements run
//! first. Every other annotation is left alone.

use crate::error::GenerateError;
use crate::node::{Annotation, AnnotationView};
use crate::syntax::{expr_rest, same_text, statement_rest, syn_expr_rest, syn_statement_rest};
use crate::token::{copy_tokens, render, text_of, toks, Tok, Token};
use vstd::prelude::*;

verus! {

/// How a conditional is lowered.
#[derive(Clone, Copy, Debug, PartialEq, Eq, Hash, Structural)]
pub enum IfStrategy {
    /// As a chain of the host language in a closure that the host runs again.
    Closure,
    /// As the component that shows one of two views.
    Show,
}

/// How a loop is lowered.
#[derive(Debug, PartialEq, Eq, Hash)]
pub enum ForStrategy {
    /// As a list that is built anew each time.
    Collect,
    /// As the keyed list, with the tokens of the expression that gives the
    /// key of an item.
    Keyed(Vec<Token>),
}

/// The value of a [`ForStrategy`].
pub enum ForStrategyView {
    Collect,
    Keyed(Seq<Tok>),
}

impl View for ForStrategy {
    type V = ForStrategyView;

    open spec fn view(&self) -> ForStrategyView {
        match *self {
            ForStrategy::Collect => ForStrategyView::Collect,
            ForStrategy::Keyed(key) => ForStrategyView::Keyed(toks(key@)),
        }
    }
}

/// The values of a sequence of annotations, one for one.
pub open spec fn annotations_view(attrs: Seq<Annotation>) -> Seq<AnnotationView> {
    attrs.map_values(|a: Annotation| a@)
}

/// Whether the annotation has the given name.
pub open spec fn is_named(annotation: AnnotationView, name: Seq<char>) -> bool {
    annotation.name == Some(name)
}

/// The position of the first annotation from position `from` on that has
/// the given name.
pub open spec fn first_named(attrs: Seq<AnnotationView>, name: Seq<char>, from: int) -> Option<int>
    decreases attrs.len() - from,
{
    if from < 0 || from >= attrs.len() {
        None
    } else if is_named(attrs[from], name) {
        Some(from)
    } else {
        first_named(attrs, name, from + 1)
    }
}

/// Whether one of the annotations has the given name.
pub open spec fn has_annotation(attrs: Seq<AnnotationView>, name: Seq<char>) -> bool {
    first_named(attrs, name, 0) is Some
}

/// The first annotation that has the given name.
pub open spec fn first_annotation(attrs: Seq<AnnotationView>, name: Seq<char>) -> Option<
    AnnotationView,
> {
    match first_named(attrs, name, 0) {
        Some(i) => Some(attrs[i]),
        None => None,
    }
}

/// The expression that a `key` annotation holds: its arguments, where the
/// host grammar reads them as one expression and nothing more.
pub open spec fn key_of(annotation: AnnotationView) -> Result<Seq<Tok>, GenerateError> {
    match annotation.arguments {
        Some(arguments) => if syn_expr_rest(text_of(arguments)) == Some(0nat) {
            Ok(arguments)
        } else {
            Err(GenerateError::MalformedKey)
        },
        None => Err(GenerateError::MalformedKey),
    }
}

/// The statement that a `with` annotation holds: its arguments, where the
/// host grammar reads them as one statement and nothing more.
pub open spec fn statement_of(annotation: AnnotationView) -> Result<Seq<Tok>, GenerateError> {
    match annotation.arguments {
        Some(arguments) => if syn_statement_rest(text_of(arguments)) == Some(0nat) {
            Ok(arguments)
        } else {
            Err(GenerateError::MalformedWith)
        },
        None => Err(GenerateError::MalformedWith),
    }
}

/// The statements of all the `with` annotations, in the order in which the
/// annotations stand.
pub open spec fn with_statements(attrs: Seq<AnnotationView>) -> Result<Seq<Tok>, GenerateError>
    decreases attrs.len(),
{
    if attrs.len() == 0 {
        Ok(Seq::empty())
    } else {
        match with_statements(attrs.drop_last()) {
            Err(e) => Err(e),
            Ok(first) => if is_named(attrs.last(), "with"@) {
                match statement_of(attrs.last()) {
                    Err(e) => Err(e),
                    Ok(statement) => Ok(first + statement),
                }
            } else {
                Ok(first)
            },
        }
    }
}

/// The strategy for a conditional with these annotations: the component
/// where one of them is `show`.
pub open spec fn if_strategy(attrs: Seq<AnnotationView>) -> IfStrategy {
    if has_annotation(attrs, "show"@) {
        IfStrategy::Show
    } else {
        IfStrategy::Closure
    }
}

/// The strategy for a loop with these annotations: keyed by the expression
/// of the first `key` annotation, where there is one.
pub open spec fn for_strategy(attrs: Seq<AnnotationView>) -> Result<
    ForStrategyView,
    GenerateError,
> {
    match first_annotation(attrs, "key"@) {
        None => Ok(ForStrategyView::Collect),
        Some(annotation) => match key_of(annotation) {
            Err(e) => Err(e),
            Ok(key) => Ok(ForStrategyView::Keyed(key)),
        },
    }
}

/// The statements of the scope around a node with these annotations, or
/// `None` where no annotation is `with` and the node gets no scope.
pub open spec fn scope_of(attrs: Seq<AnnotationView>) -> Result<Option<Seq<Tok>>, GenerateError> {
    match with_statements(attrs) {
        Err(e) => Err(e),
        Ok(statements) => if has_annotation(attrs, "with"@) {
            Ok(Some(statements))
        } else {
            Ok(None)
        },
    }
}

/// A copy of the tokens.
fn copy_of(tokens: &Vec<Token>) -> (r: Vec<Token>)
    ensures
        toks(r@) == toks(tokens@),
{
    let r = copy_tokens(tokens, 0, tokens.len());
    assert(toks(tokens@).subrange(0, tokens.len() as int) =~= toks(tokens@));
    r
}

/// The outcome of reading tokens from an annotation as mathematics.
pub open spec fn read(r: Result<Vec<Token>, GenerateError>) -> Result<Seq<Tok>, GenerateError> {
    match r {
        Ok(tokens) => Ok(toks(tokens@)),
        Err(e) => Err(e),
    }
}

fn named(annotation: &Annotation, name: &str) -> (yes: bool)
    ensures
        yes == is_named(annotation@, name@),
{
    match &annotation.name {
        Some(own) => same_text(own.as_str(), name),
        None => false,
    }
}

/// Finds the first annotation with the given name.
fn find_annotation(attrs: &Vec<Annotation>, name: &str) -> (found: Option<usize>)
    ensures
        match found {
            Some(i) => first_named(attrs@.map_values(|a: Annotation| a@), name@, 0) == Some(
                i as int,
            ) && i < attrs.len(),
            None => first_named(attrs@.map_values(|a: Annotation| a@), name@, 0) is None,
        },
{
    let ghost views = attrs@.map_values(|a: Annotation| a@);
    let mut i: usize = 0;
    while i < attrs.len()
        invariant
            i <= attrs.len(),
            views == attrs@.map_values(|a: Annotation| a@),
            first_named(views, name@, 0) == first_named(views, name@, i as int),
        decreases attrs.len() - i,
    {
        if named(&attrs[i], name) {
            return Some(i);
        }
        i = i + 1;
    }
    None
}

/// The expression of a `key` annotation.
fn key_tokens(annotation: &Annotation) -> (r: Result<Vec<Token>, GenerateError>)
    ensures
        read(r) == key_of(annotation@),
{
    match &annotation.arguments {
        None => Err(GenerateError::MalformedKey),
        Some(arguments) => {
            let text = render(arguments, 0, arguments.len());
            assert(toks(arguments@).subrange(0, arguments.len() as int) =~= toks(arguments@));
            match expr_rest(text.as_str()) {
                Some(0) => Ok(copy_of(arguments)),
                _ => Err(GenerateError::MalformedKey),
            }
        },
    }
}

/// The statement of a `with` annotation.
fn statement_tokens(annotation: &Annotation) -> (r: Result<Vec<Token>, GenerateError>)
    ensures
        read(r) == statement_of(annotation@),
{
    match &annotation.arguments {
        None => Err(GenerateError::MalformedWith),
        Some(arguments) => {
            let text = render(arguments, 0, arguments.len());
            assert(toks(arguments@).subrange(0, arguments.len() as int) =~= toks(arguments@));
            match statement_rest(text.as_str()) {
                Some(0) => Ok(copy_of(arguments)),
                _ => Err(GenerateError::MalformedWith),
            }
        },
    }
}

/// The statements of the `with` annotations, in their order.
fn with_tokens(attrs: &Vec<Annotation>) -> (r: Result<Vec<Token>, GenerateError>)
    ensures
        read(r) == with_statements(attrs@.map_values(|a: Annotation| a@)),
{
    let ghost views = attrs@.map_values(|a: Annotation| a@);
    let mut out: Vec<Token> = Vec::new();
    assert(toks(out@) =~= Seq::<Tok>::empty());
    let mut i: usize = 0;
    assert(views.take(0) =~= Seq::empty());
    while i < attrs.len()
        invariant
            i <= attrs.len(),
            views == attrs@.map_values(|a: Annotation| a@),
            with_statements(views.take(i as int)) == Ok::<_, GenerateError>(toks(out@)),
        decreases attrs.len() - i,
    {
        assert(views.take(i + 1).drop_last() =~= views.take(i as int));
        assert(views.take(i + 1).last() == attrs@[i as int]@);
        if named(&attrs[i], "with") {
            match statement_tokens(&attrs[i]) {
                Err(e) => {
                    proof {
                        lemma_with_statements_fail(views, i + 1);
                    }
                    return Err(e);
                },
                Ok(statement) => {
                    let ghost before = out@;
                    let ghost added = statement@;
                    let mut statement = statement;
                    out.append(&mut statement);
                    assert(toks(out@) =~= toks(before) + toks(added));
                },
            }
        }
        i = i + 1;
    }
    assert(views.take(i as int) =~= views);
    Ok(out)
}

/// Once the statements of the first `n` annotations cannot be had, those
/// of all of them cannot, for the same reason.
proof fn lemma_with_statements_fail(attrs: Seq<AnnotationView>, n: int)
    requires
        0 <= n <= attrs.len(),
        with_statements(attrs.take(n)) is Err,
    ensures
        with_statements(attrs) == with_statements(attrs.take(n)),
    decreases attrs.len() - n,
{
    if n == attrs.len() {
        assert(attrs.take(n) =~= attrs);
    } else {
        assert(attrs.take(n + 1).drop_last() =~= attrs.take(n));
        lemma_with_statements_fail(attrs, n + 1);
    }
}

/// Resolves the strategy for a conditional.
pub fn resolve_if(attrs: &Vec<Annotation>) -> (strategy: IfStrategy)
    ensures
        strategy == if_strategy(annotations_view(attrs@)),
{
    match find_annotation(attrs, "show") {
        Some(_) => IfStrategy::Show,
        None => IfStrategy::Closure,
    }
}

/// Resolves the strategy for a loop. A `key` annotation whose arguments are
/// not one expression is an error.
pub fn resolve_for(attrs: &Vec<Annotation>) -> (r: Result<ForStrategy, GenerateError>)
    ensures
        match r {
            Ok(strategy) => for_strategy(annotations_view(attrs@)) == Ok::<_, GenerateError>(
                strategy@,
            ),
            Err(e) => for_strategy(annotations_view(attrs@)) == Err::<ForStrategyView, _>(e),
        },
{
    match find_annotation(attrs, "key") {
        None => Ok(ForStrategy::Collect),
        Some(i) => {
            assert(annotations_view(attrs@)[i as int] == attrs@[i as int]@);
            match key_tokens(&attrs[i]) {
                Err(e) => Err(e),
                Ok(key) => Ok(ForStrategy::Keyed(key)),
            }
        },
    }
}

/// Resolves the scope around a node: the statements of its `with`
/// annotations in their order, or `None` where it has none. A `with`
/// annotation whose arguments are not one statement is an error.
pub fn resolve_with(attrs: &Vec<Annotation>) -> (r: Result<Option<Vec<Token>>, GenerateError>)
    ensures
        match r {
            Ok(Some(statements)) => scope_of(annotations_view(attrs@)) == Ok::<_, GenerateError>(
                Some(toks(statements@)),
            ),
            Ok(None) => scope_of(annotations_view(attrs@)) == Ok::<_, GenerateError>(
                None::<Seq<Tok>>,
            ),
            Err(e) => scope_of(annotations_view(attrs@)) == Err::<Option<Seq<Tok>>, _>(e),
        },
{
    match with_tokens(attrs) {
        Err(e) => Err(e),
        Ok(statements) => match find_annotation(attrs, "with") {
            Some(_) => Ok(Some(statements)),
            None => Ok(None),
        },
    }
}

} // verus!
