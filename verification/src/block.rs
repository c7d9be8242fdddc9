//! Sequences of nodes, with and without braces around them.

use crate::node::{node_view, Node, NodeView};
use vstd::prelude::*;

verus! {

/// The values of a sequence of nodes, in the same order.
pub open spec fn nodes_view(nodes: Seq<Node>) -> Seq<NodeView>
    decreases nodes,
{
    if nodes.len() == 0 {
        Seq::empty()
    } else {
        nodes_view(nodes.drop_last()).push(node_view(nodes.last()))
    }
}

/// The values of a sequence of nodes with one more node behind it.
pub proof fn lemma_nodes_view_push(nodes: Seq<Node>, node: Node)
    ensures
        nodes_view(nodes.push(node)) == nodes_view(nodes).push(node_view(node)),
{
    assert(nodes.push(node).drop_last() =~= nodes);
}

/// Nodes in curly braces: `{ div {} "text" }`. Their order is the order in
/// which they are rendered.
#[derive(Debug, PartialEq, Eq, Hash)]
pub struct Block {
    pub nodes: Vec<Node>,
}

/// The value of a [`Block`].
pub struct BlockView {
    pub nodes: Seq<NodeView>,
}

impl View for Block {
    type V = BlockView;

    open spec fn view(&self) -> BlockView {
        BlockView { nodes: nodes_view(self.nodes@) }
    }
}

/// A whole template: nodes without braces around them.
#[derive(Debug, PartialEq, Eq, Hash)]
pub struct Nodes {
    pub nodes: Vec<Node>,
}

/// The value of a [`Nodes`].
pub struct NodesView {
    pub nodes: Seq<NodeView>,
}

impl View for Nodes {
    type V = NodesView;

    open spec fn view(&self) -> NodesView {
        NodesView { nodes: nodes_view(self.nodes@) }
    }
}

} // verus!
