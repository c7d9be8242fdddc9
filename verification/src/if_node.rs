//! Conditionals: `if condition { ... } else if other { ... } else { ... }`.

use crate::block::{nodes_view, Block};
use crate::node::NodeView;
use crate::token::{toks, Tok, Token};
use vstd::prelude::*;

verus! {

/// A conditional with the rest of its chain.
#[derive(Debug, PartialEq, Eq, Hash)]
pub struct IfNode {
    /// The tokens of the condition.
    pub cond: Vec<Token>,
    pub then_branch: Block,
    pub else_branch: Option<ElseNode>,
}

/// What follows an `else`: another conditional, or the final block.
#[derive(Debug, PartialEq, Eq, Hash)]
pub enum ElseNode {
    If(Box<IfNode>),
    Else(Block),
}

/// The value of an [`IfNode`].
pub struct IfNodeView {
    pub cond: Seq<Tok>,
    pub then_branch: Seq<NodeView>,
    pub else_branch: Option<ElseNodeView>,
}

/// The value of an [`ElseNode`].
pub enum ElseNodeView {
    If(Box<IfNodeView>),
    Else(Seq<NodeView>),
}

/// The value of a conditional.
pub open spec fn if_node_view(node: IfNode) -> IfNodeView
    decreases node,
{
    IfNodeView {
        cond: toks(node.cond@),
        then_branch: nodes_view(node.then_branch.nodes@),
        else_branch: match node.else_branch {
            Some(ElseNode::If(next)) => Some(ElseNodeView::If(Box::new(if_node_view(*next)))),
            Some(ElseNode::Else(block)) => Some(ElseNodeView::Else(nodes_view(block.nodes@))),
            None => None,
        },
    }
}

impl View for IfNode {
    type V = IfNodeView;

    open spec fn view(&self) -> IfNodeView {
        if_node_view(*self)
    }
}

impl View for ElseNode {
    type V = ElseNodeView;

    open spec fn view(&self) -> ElseNodeView {
        match *self {
            ElseNode::If(next) => ElseNodeView::If(Box::new(if_node_view(*next))),
            ElseNode::Else(block) => ElseNodeView::Else(nodes_view(block.nodes@)),
        }
    }
}

} // verus!
