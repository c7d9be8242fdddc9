//! Elements: a tag or a component with its attributes and children.

use crate::attribute::{Attributes, AttributesView};
use crate::block::{nodes_view, Block};
use crate::node::NodeView;
use crate::token::{toks, Tok, Token};
use vstd::prelude::*;

verus! {

/// An element: `div {}`, or with attributes
/// `div(class="hello", name=full_name()) {}`.
#[derive(Debug, PartialEq, Eq, Hash)]
pub struct Element {
    /// The tokens of the path that names the tag or the component.
    pub path: Vec<Token>,
    pub attributes: Option<Attributes>,
    pub children: Block,
}

/// The value of an [`Element`].
pub struct ElementView {
    pub path: Seq<Tok>,
    pub attributes: Option<AttributesView>,
    pub children: Seq<NodeView>,
}

/// The value of an element.
pub open spec fn element_view(element: Element) -> ElementView
    decreases element,
{
    ElementView {
        path: toks(element.path@),
        attributes: match element.attributes {
            Some(attributes) => Some(attributes@),
            None => None,
        },
        children: nodes_view(element.children.nodes@),
    }
}

impl View for Element {
    type V = ElementView;

    open spec fn view(&self) -> ElementView {
        element_view(*self)
    }
}

} // verus!
