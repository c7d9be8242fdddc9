//! Iteration: `for pattern in source { ... }`.

use crate::block::{nodes_view, Block};
use crate::node::NodeView;
use crate::token::{toks, Tok, Token};
use vstd::prelude::*;

verus! {

/// A loop. The pattern is bound once for each item and is in scope in the
/// body only.
#[derive(Debug, PartialEq, Eq, Hash)]
pub struct ForNode {
    /// The tokens of the pattern that binds each item.
    pub pat: Vec<Token>,
    /// The tokens of the expression that is iterated over.
    pub expr: Vec<Token>,
    pub body: Block,
}

/// The value of a [`ForNode`].
pub struct ForNodeView {
    pub pat: Seq<Tok>,
    pub expr: Seq<Tok>,
    pub body: Seq<NodeView>,
}

/// The value of a loop.
pub open spec fn for_node_view(node: ForNode) -> ForNodeView
    decreases node,
{
    ForNodeView {
        pat: toks(node.pat@),
        expr: toks(node.expr@),
        body: nodes_view(node.body.nodes@),
    }
}

impl View for ForNode {
    type V = ForNodeView;

    open spec fn view(&self) -> ForNodeView {
        for_node_view(*self)
    }
}

} // verus!
