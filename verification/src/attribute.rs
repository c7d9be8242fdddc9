//! Attributes of an element: `class="value"`, `on:click=handler`.

use crate::token::{toks, Tok, Token};
use vstd::prelude::*;

verus! {

/// An attribute name with a directive: `on:click`.
#[derive(Debug, PartialEq, Eq, Hash)]
pub struct AttributeNameDirective {
    /// The identifier before the colon.
    pub directive: String,
    /// The tokens of the path after the colon.
    pub path: Vec<Token>,
}

/// The value of an [`AttributeNameDirective`].
pub struct AttributeNameDirectiveView {
    pub directive: Seq<char>,
    pub path: Seq<Tok>,
}

impl View for AttributeNameDirective {
    type V = AttributeNameDirectiveView;

    open spec fn view(&self) -> AttributeNameDirectiveView {
        AttributeNameDirectiveView { directive: self.directive@, path: toks(self.path@) }
    }
}

/// An attribute name.
#[derive(Debug, PartialEq, Eq, Hash)]
pub enum AttributeName {
    /// A single attribute name: `class` or `::package::attributes::id`. It
    /// holds the tokens of the path.
    Single(Vec<Token>),
    /// A quoted attribute name: `"aria-label"`. It holds the literal as
    /// written.
    Quoted(String),
    /// A directive attribute name: `on:click` or `bind:binds::value`.
    Directive(AttributeNameDirective),
}

/// The value of an [`AttributeName`].
pub enum AttributeNameView {
    Single(Seq<Tok>),
    Quoted(Seq<char>),
    Directive(AttributeNameDirectiveView),
}

impl View for AttributeName {
    type V = AttributeNameView;

    open spec fn view(&self) -> AttributeNameView {
        match *self {
            AttributeName::Single(path) => AttributeNameView::Single(toks(path@)),
            AttributeName::Quoted(literal) => AttributeNameView::Quoted(literal@),
            AttributeName::Directive(directive) => AttributeNameView::Directive(directive@),
        }
    }
}

/// An attribute: `class="value"`.
#[derive(Debug, PartialEq, Eq, Hash)]
pub struct Attribute {
    pub name: AttributeName,
    /// The tokens of the expression after the `=`.
    pub value: Vec<Token>,
}

/// The value of an [`Attribute`].
pub struct AttributeView {
    pub name: AttributeNameView,
    pub value: Seq<Tok>,
}

impl View for Attribute {
    type V = AttributeView;

    open spec fn view(&self) -> AttributeView {
        AttributeView { name: self.name@, value: toks(self.value@) }
    }
}

/// A list of attributes: `(class="value", id="value")`. Their order is the
/// order in which they were written; a name may occur more than once.
#[derive(Debug, PartialEq, Eq, Hash)]
pub struct Attributes {
    pub attributes: Vec<Attribute>,
}

/// The value of an [`Attributes`].
pub struct AttributesView {
    pub attributes: Seq<AttributeView>,
}

impl View for Attributes {
    type V = AttributesView;

    open spec fn view(&self) -> AttributesView {
        AttributesView { attributes: self.attributes@.map_values(|a: Attribute| a@) }
    }
}

} // verus!
