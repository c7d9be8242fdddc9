//! Nodes: the units that a template is made of.

use crate::block::{nodes_view, Block};
use crate::element::{element_view, Element, ElementView};
use crate::for_node::{for_node_view, ForNode, ForNodeView};
use crate::if_node::{if_node_view, IfNode, IfNodeView};
use crate::match_node::{match_node_view, MatchNode, MatchNodeView};
use crate::token::{toks, Tok, Token};
use vstd::prelude::*;

verus! {

/// An expression interpolation node: `(1 + 1)`.
#[derive(Debug, PartialEq, Eq, Hash)]
pub struct ExprNode {
    /// The tokens between the parentheses.
    pub expr: Vec<Token>,
}

/// The value of an [`ExprNode`].
pub struct ExprNodeView {
    pub expr: Seq<Tok>,
}

impl View for ExprNode {
    type V = ExprNodeView;

    open spec fn view(&self) -> ExprNodeView {
        ExprNodeView { expr: toks(self.expr@) }
    }
}

/// An annotation in front of a node: `#[show]`, `#[key(item.id)]`.
#[derive(Debug, PartialEq, Eq, Hash)]
pub struct Annotation {
    /// The annotation's name, where its path is a single identifier.
    pub name: Option<String>,
    /// The tokens of its argument list, where it has one.
    pub arguments: Option<Vec<Token>>,
    /// All its tokens, from the `#` to the closing bracket.
    pub tokens: Vec<Token>,
}

/// The value of an [`Annotation`].
pub struct AnnotationView {
    pub name: Option<Seq<char>>,
    pub arguments: Option<Seq<Tok>>,
    pub tokens: Seq<Tok>,
}

impl View for Annotation {
    type V = AnnotationView;

    open spec fn view(&self) -> AnnotationView {
        AnnotationView {
            name: match self.name {
                Some(name) => Some(name@),
                None => None,
            },
            arguments: match self.arguments {
                Some(arguments) => Some(toks(arguments@)),
                None => None,
            },
            tokens: toks(self.tokens@),
        }
    }
}

/// A [`Node`] without annotations.
#[derive(Debug, PartialEq, Eq, Hash)]
pub enum NodeType {
    /// Element: `div {}`
    Element(Element),
    /// Text literal: `"Hello, world!"`, as written, with its quotes.
    Text(String),
    /// Expression literal: `(1 + 1)`
    Expr(ExprNode),
    /// If node: `if condition { [...] }`
    If(IfNode),
    /// For node: `for pattern in expr { [...] }`
    For(ForNode),
    /// Match node: `match expr { [...] }`
    Match(MatchNode),
    /// A block fragment: `{ div {} span {} [...] }`
    Block(Block),
}

/// The value of a [`NodeType`].
pub enum NodeTypeView {
    Element(ElementView),
    Text(Seq<char>),
    Expr(ExprNodeView),
    If(IfNodeView),
    For(ForNodeView),
    Match(MatchNodeView),
    Block(Seq<NodeView>),
}

/// The value of a node without its annotations.
pub open spec fn node_type_view(node: NodeType) -> NodeTypeView
    decreases node,
{
    match node {
        NodeType::Element(element) => NodeTypeView::Element(element_view(element)),
        NodeType::Text(literal) => NodeTypeView::Text(literal@),
        NodeType::Expr(expr) => NodeTypeView::Expr(expr@),
        NodeType::If(node) => NodeTypeView::If(if_node_view(node)),
        NodeType::For(node) => NodeTypeView::For(for_node_view(node)),
        NodeType::Match(node) => NodeTypeView::Match(match_node_view(node)),
        NodeType::Block(block) => NodeTypeView::Block(nodes_view(block.nodes@)),
    }
}

impl View for NodeType {
    type V = NodeTypeView;

    open spec fn view(&self) -> NodeTypeView {
        node_type_view(*self)
    }
}

/// A node with its annotations, in the order in which they were written.
#[derive(Debug, PartialEq, Eq, Hash)]
pub struct Node {
    pub attrs: Vec<Annotation>,
    pub node: NodeType,
}

/// The value of a [`Node`].
pub struct NodeView {
    pub attrs: Seq<AnnotationView>,
    pub node: NodeTypeView,
}

/// The value of a node.
pub open spec fn node_view(node: Node) -> NodeView
    decreases node,
{
    NodeView {
        attrs: node.attrs@.map_values(|a: Annotation| a@),
        node: node_type_view(node.node),
    }
}

impl View for Node {
    type V = NodeView;

    open spec fn view(&self) -> NodeView {
        node_view(*self)
    }
}

} // verus!
