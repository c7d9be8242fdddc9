//! What a template lowers to, as mathematics.
//!
//! A template is lowered to the markup of a reactive view macro: tags in
//! angle brackets, attributes with their values in braces, and host
//! expressions in braces for all that is decided while the view runs.
//! Fragments of the host language go to the output as they were written.
//! The generator's contracts are stated over the functions of this module.

use crate::attribute::{AttributeNameView, AttributeView};
use crate::element::ElementView;
use crate::error::GenerateError;
use crate::for_node::ForNodeView;
use crate::if_node::{ElseNodeView, IfNodeView};
use crate::match_node::{MatchNodeArmView, MatchNodeView};
use crate::node::{AnnotationView, NodeTypeView, NodeView};
use crate::resolve::{for_strategy, if_strategy, scope_of, ForStrategyView, IfStrategy};
use crate::token::{Delimiter, Tok};
use vstd::prelude::*;

verus! {

/// A word.
pub open spec fn word(name: Seq<char>) -> Tok {
    Tok::Ident(name)
}

/// A punctuation character that stands alone.
pub open spec fn punct(c: char) -> Tok {
    Tok::Punct(c, false)
}

/// A punctuation character that is joined to the next one.
pub open spec fn joint(c: char) -> Tok {
    Tok::Punct(c, true)
}

/// `{ inner }`
pub open spec fn braced(inner: Seq<Tok>) -> Seq<Tok> {
    seq![Tok::Open(Delimiter::Brace)] + inner + seq![Tok::Close(Delimiter::Brace)]
}

/// `( inner )`
pub open spec fn parenthesized(inner: Seq<Tok>) -> Seq<Tok> {
    seq![Tok::Open(Delimiter::Parenthesis)] + inner + seq![Tok::Close(Delimiter::Parenthesis)]
}

/// A sub-view: `view! { inner }`
pub open spec fn sub_view(inner: Seq<Tok>) -> Seq<Tok> {
    seq![word("view"@), punct('!')] + braced(inner)
}

/// A sub-view of no particular type: `view! { inner }.into_any()`
pub open spec fn any_view(inner: Seq<Tok>) -> Seq<Tok> {
    sub_view(inner) + seq![
        punct('.'),
        word("into_any"@),
        Tok::Open(Delimiter::Parenthesis),
        Tok::Close(Delimiter::Parenthesis),
    ]
}

/// The head of a closure without parameters that owns what it uses, which
/// the host runs again whenever a value that it reads changes: `move ||`
pub open spec fn reactive() -> Seq<Tok> {
    seq![word("move"@), joint('|'), punct('|')]
}

/// The head of a closure that binds `pat`, with `move` in front of it or
/// without: `move |pat|`
pub open spec fn binding(owning: bool, pat: Seq<Tok>) -> Seq<Tok> {
    (if owning {
        seq![word("move"@)]
    } else {
        Seq::empty()
    }) + seq![punct('|')] + pat + seq![punct('|')]
}

/// The key under which an attribute is handed to the host: a path as it is,
/// a directive as `directive:path`. A quoted name has no lowering.
pub open spec fn lower_attribute_name(name: AttributeNameView) -> Result<Seq<Tok>, GenerateError> {
    match name {
        AttributeNameView::Single(path) => Ok(path),
        AttributeNameView::Directive(d) => Ok(seq![word(d.directive), punct(':')] + d.path),
        AttributeNameView::Quoted(_) => Err(GenerateError::QuotedAttributeName),
    }
}

/// `name={value}`
pub open spec fn lower_attribute(attribute: AttributeView) -> Result<Seq<Tok>, GenerateError> {
    match lower_attribute_name(attribute.name) {
        Err(e) => Err(e),
        Ok(name) => Ok(name + seq![punct('=')] + braced(attribute.value)),
    }
}

/// The attributes one after another, in their order.
pub open spec fn lower_attributes(attributes: Seq<AttributeView>) -> Result<
    Seq<Tok>,
    GenerateError,
>
    decreases attributes.len(),
{
    if attributes.len() == 0 {
        Ok(Seq::empty())
    } else {
        match lower_attributes(attributes.drop_last()) {
            Err(e) => Err(e),
            Ok(first) => match lower_attribute(attributes.last()) {
                Err(e) => Err(e),
                Ok(last) => Ok(first + last),
            },
        }
    }
}

/// The nodes one after another, in their order, with nothing around them.
pub open spec fn lower_nodes(nodes: Seq<NodeView>) -> Result<Seq<Tok>, GenerateError>
    decreases nodes,
{
    if nodes.len() == 0 {
        Ok(Seq::empty())
    } else {
        match lower_nodes(nodes.drop_last()) {
            Err(e) => Err(e),
            Ok(first) => match lower_node(nodes.last()) {
                Err(e) => Err(e),
                Ok(last) => Ok(first + last),
            },
        }
    }
}

/// `<path attributes> children </path>`
pub open spec fn lower_element(element: ElementView) -> Result<Seq<Tok>, GenerateError>
    decreases element,
{
    match (match element.attributes {
        Some(attributes) => lower_attributes(attributes.attributes),
        None => Ok(Seq::empty()),
    }) {
        Err(e) => Err(e),
        Ok(attributes) => match lower_nodes(element.children) {
            Err(e) => Err(e),
            Ok(children) => Ok(
                seq![punct('<')] + element.path + attributes + seq![punct('>')] + children
                    + seq![punct('<'), punct('/')] + element.path + seq![punct('>')],
            ),
        },
    }
}

/// A conditional as a chain of the host language: `if cond { then } else
/// ...`, each branch a sub-view. A chain without a final `else` gets one
/// that yields the empty view, so that every path yields a value.
pub open spec fn lower_chain(node: IfNodeView) -> Result<Seq<Tok>, GenerateError>
    decreases node, 0int,
{
    match lower_nodes(node.then_branch) {
        Err(e) => Err(e),
        Ok(then_branch) => match (match node.else_branch {
            None => Ok(braced(any_view(Seq::empty()))),
            Some(ElseNodeView::If(next)) => lower_chain(*next),
            Some(ElseNodeView::Else(block)) => match lower_nodes(block) {
                Err(e) => Err(e),
                Ok(block) => Ok(braced(any_view(block))),
            },
        }) {
            Err(e) => Err(e),
            Ok(otherwise) => Ok(
                seq![word("if"@)] + node.cond + braced(any_view(then_branch)) + seq![
                    word("else"@),
                ] + otherwise,
            ),
        },
    }
}

/// A conditional as a component: `<Show when=(move || cond)
/// fallback=(move || view! { otherwise })> then </Show>`. The fallback is
/// that of the `else` branch; a conditional without `else` names none, and
/// the host shows nothing in its place. An `else if` is the component of the
/// next conditional in the fallback of this one.
pub open spec fn lower_show(node: IfNodeView) -> Result<Seq<Tok>, GenerateError>
    decreases node, 0int,
{
    match (match node.else_branch {
        None => Ok(Seq::empty()),
        Some(otherwise) => match (match otherwise {
            ElseNodeView::If(next) => lower_show(*next),
            ElseNodeView::Else(block) => lower_nodes(block),
        }) {
            Err(e) => Err(e),
            Ok(otherwise) => Ok(
                seq![word("fallback"@), punct('=')] + parenthesized(
                    reactive() + sub_view(otherwise),
                ),
            ),
        },
    }) {
        Err(e) => Err(e),
        Ok(fallback) => match lower_nodes(node.then_branch) {
            Err(e) => Err(e),
            Ok(then_branch) => Ok(
                seq![punct('<'), word("Show"@), word("when"@), punct('=')] + parenthesized(
                    reactive() + node.cond,
                ) + fallback + seq![punct('>')] + then_branch + seq![
                    punct('<'),
                    punct('/'),
                    word("Show"@),
                    punct('>'),
                ],
            ),
        },
    }
}

/// A conditional: as a component where the node is annotated with `show`,
/// else as a chain in a closure that the host runs again: `{move || if ...}`
pub open spec fn lower_if(node: IfNodeView, attrs: Seq<AnnotationView>) -> Result<
    Seq<Tok>,
    GenerateError,
>
    decreases node, 1int,
{
    match if_strategy(attrs) {
        IfStrategy::Show => lower_show(node),
        IfStrategy::Closure => match lower_chain(node) {
            Err(e) => Err(e),
            Ok(chain) => Ok(braced(reactive() + chain)),
        },
    }
}

/// A loop with a key: `<For each=(move || { source }) key=(move |pat| { key
/// }) children=(move |pat| { view! { body } }) />`. The same pattern binds
/// the item for the key and for the children.
pub open spec fn keyed_loop(node: ForNodeView, key: Seq<Tok>, body: Seq<Tok>) -> Seq<Tok> {
    seq![punct('<'), word("For"@), word("each"@), punct('=')] + parenthesized(
        reactive() + braced(node.expr),
    ) + seq![word("key"@), punct('=')] + parenthesized(binding(true, node.pat) + braced(key))
        + seq![word("children"@), punct('=')] + parenthesized(
        binding(true, node.pat) + braced(sub_view(body)),
    ) + seq![punct('/'), punct('>')]
}

/// A loop without a key: `{(source).into_iter().map(|pat| view! { body
/// }).collect::<Vec<_>>()}`, which builds the whole list anew each time.
pub open spec fn collected_loop(node: ForNodeView, body: Seq<Tok>) -> Seq<Tok> {
    braced(
        parenthesized(node.expr) + seq![
            punct('.'),
            word("into_iter"@),
            Tok::Open(Delimiter::Parenthesis),
            Tok::Close(Delimiter::Parenthesis),
            punct('.'),
            word("map"@),
        ] + parenthesized(binding(false, node.pat) + sub_view(body)) + seq![
            punct('.'),
            word("collect"@),
            joint(':'),
            punct(':'),
            punct('<'),
            word("Vec"@),
            punct('<'),
            word("_"@),
            joint('>'),
            punct('>'),
            Tok::Open(Delimiter::Parenthesis),
            Tok::Close(Delimiter::Parenthesis),
        ],
    )
}

/// A loop: keyed by the first `key` annotation of the node, where it has
/// one, else collected.
pub open spec fn lower_for(node: ForNodeView, attrs: Seq<AnnotationView>) -> Result<
    Seq<Tok>,
    GenerateError,
>
    decreases node,
{
    match lower_nodes(node.body) {
        Err(e) => Err(e),
        Ok(body) => match for_strategy(attrs) {
            Err(e) => Err(e),
            Ok(ForStrategyView::Collect) => Ok(collected_loop(node, body)),
            Ok(ForStrategyView::Keyed(key)) => Ok(keyed_loop(node, key, body)),
        },
    }
}

/// `pat if guard => view! { body }.into_any(),`
pub open spec fn lower_arm(arm: MatchNodeArmView) -> Result<Seq<Tok>, GenerateError>
    decreases arm,
{
    match lower_node(*arm.body) {
        Err(e) => Err(e),
        Ok(body) => Ok(
            arm.pat + (match arm.guard {
                Some(guard) => seq![word("if"@)] + guard,
                None => Seq::empty(),
            }) + seq![joint('='), punct('>')] + any_view(body) + seq![punct(',')],
        ),
    }
}

/// The arms one after another, in their order.
pub open spec fn lower_arms(arms: Seq<MatchNodeArmView>) -> Result<Seq<Tok>, GenerateError>
    decreases arms,
{
    if arms.len() == 0 {
        Ok(Seq::empty())
    } else {
        match lower_arms(arms.drop_last()) {
            Err(e) => Err(e),
            Ok(first) => match lower_arm(arms.last()) {
                Err(e) => Err(e),
                Ok(last) => Ok(first + last),
            },
        }
    }
}

/// `{move || match scrutinee { arms }}`
pub open spec fn lower_match(node: MatchNodeView) -> Result<Seq<Tok>, GenerateError>
    decreases node,
{
    match lower_arms(node.arms) {
        Err(e) => Err(e),
        Ok(arms) => Ok(braced(reactive() + seq![word("match"@)] + node.expr + braced(arms))),
    }
}

/// A node without regard to its `with` annotations.
pub open spec fn lower_node_type(node: NodeTypeView, attrs: Seq<AnnotationView>) -> Result<
    Seq<Tok>,
    GenerateError,
>
    decreases node,
{
    match node {
        NodeTypeView::Element(element) => lower_element(element),
        NodeTypeView::Text(literal) => Ok(seq![Tok::Literal(literal)]),
        NodeTypeView::Expr(expr) => Ok(braced(expr.expr)),
        NodeTypeView::If(node) => lower_if(node, attrs),
        NodeTypeView::For(node) => lower_for(node, attrs),
        NodeTypeView::Match(node) => lower_match(node),
        NodeTypeView::Block(nodes) => lower_nodes(nodes),
    }
}

/// What stands for a node in its scope: `{{ statements view! { inner } }}`
pub open spec fn scoped(statements: Seq<Tok>, inner: Seq<Tok>) -> Seq<Tok> {
    braced(braced(statements + sub_view(inner)))
}

/// A node. Where it has `with` annotations, their statements are run, in
/// their order, in a scope of their own that holds this node and nothing
/// else.
pub open spec fn lower_node(node: NodeView) -> Result<Seq<Tok>, GenerateError>
    decreases node,
{
    match lower_node_type(node.node, node.attrs) {
        Err(e) => Err(e),
        Ok(inner) => match scope_of(node.attrs) {
            Err(e) => Err(e),
            Ok(Some(statements)) => Ok(scoped(statements, inner)),
            Ok(None) => Ok(inner),
        },
    }
}

} // verus!
