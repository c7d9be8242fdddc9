//! Pattern matching: `match scrutinee { pattern => node, ... }`.

use crate::node::{node_view, Node, NodeView};
use crate::token::{toks, Tok, Token};
use vstd::prelude::*;

verus! {

/// A match. Its arms are in the order in which they are tried.
#[derive(Debug, PartialEq, Eq, Hash)]
pub struct MatchNode {
    /// The tokens of the expression that is matched on.
    pub expr: Vec<Token>,
    pub arms: Vec<MatchNodeArm>,
}

/// One arm of a match.
#[derive(Debug, PartialEq, Eq, Hash)]
pub struct MatchNodeArm {
    /// The tokens of the pattern, with all its alternatives.
    pub pat: Vec<Token>,
    /// The tokens of the guard's condition, where the arm has a guard.
    pub guard: Option<Vec<Token>>,
    pub body: Node,
    /// Whether a comma follows the body.
    pub comma: bool,
}

/// The value of a [`MatchNode`].
pub struct MatchNodeView {
    pub expr: Seq<Tok>,
    pub arms: Seq<MatchNodeArmView>,
}

/// The value of a [`MatchNodeArm`].
pub struct MatchNodeArmView {
    pub pat: Seq<Tok>,
    pub guard: Option<Seq<Tok>>,
    pub body: Box<NodeView>,
    pub comma: bool,
}

/// The values of a sequence of arms, in the same order.
pub open spec fn arms_view(arms: Seq<MatchNodeArm>) -> Seq<MatchNodeArmView>
    decreases arms,
{
    if arms.len() == 0 {
        Seq::empty()
    } else {
        arms_view(arms.drop_last()).push(arm_view(arms.last()))
    }
}

/// The values of a sequence of arms with one more arm behind it.
pub proof fn lemma_arms_view_push(arms: Seq<MatchNodeArm>, arm: MatchNodeArm)
    ensures
        arms_view(arms.push(arm)) == arms_view(arms).push(arm_view(arm)),
{
    assert(arms.push(arm).drop_last() =~= arms);
}

/// The value of an arm.
pub open spec fn arm_view(arm: MatchNodeArm) -> MatchNodeArmView
    decreases arm,
{
    MatchNodeArmView {
        pat: toks(arm.pat@),
        guard: match arm.guard {
            Some(guard) => Some(toks(guard@)),
            None => None,
        },
        body: Box::new(node_view(arm.body)),
        comma: arm.comma,
    }
}

/// The value of a match.
pub open spec fn match_node_view(node: MatchNode) -> MatchNodeView
    decreases node,
{
    MatchNodeView { expr: toks(node.expr@), arms: arms_view(node.arms@) }
}

impl View for MatchNodeArm {
    type V = MatchNodeArmView;

    open spec fn view(&self) -> MatchNodeArmView {
        arm_view(*self)
    }
}

impl View for MatchNode {
    type V = MatchNodeView;

    open spec fn view(&self) -> MatchNodeView {
        match_node_view(*self)
    }
}

} // verus!
