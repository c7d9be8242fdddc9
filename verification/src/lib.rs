//! A compiler for a small templating language of nested elements, text,
//! embedded expressions and control flow, which it lowers to the markup that a
//! reactive view macro accepts.
//!
//! ```text
//! div(id="root", class="container") {
//!     span { "Hello, world!" }
//!     #[key(item.id)]
//!     for item in items.get() {
//!         li { (item.name) }
//!     }
//! }
//! ```
//!
//! A template is handed over as a flat sequence of [`Token`]s and goes
//! through two stages, each a function of its input alone: the tokens are
//! parsed into a tree of nodes ([`Nodes::parse`]), and the tree is lowered to
//! the tokens of the view macro's markup ([`generate::generate_nodes`]).
//! [`rdml`] runs both and wraps the result. The grammar is in [`grammar`], the meaning
//! of annotations in [`resolve`], what the lowering produces in [`lower`];
//! what holds of all of it in [`laws`].

pub mod attribute;
pub mod block;
pub mod compile;
pub mod element;
pub mod error;
pub mod for_node;
pub mod generate;
pub mod grammar;
pub mod if_node;
pub mod laws;
pub mod lower;
pub mod match_node;
pub mod node;
pub mod parse;
pub mod resolve;
pub mod syntax;
pub mod token;

pub use attribute::{Attribute, AttributeName, AttributeNameDirective, Attributes};
pub use block::{Block, Nodes};
pub use compile::rdml;
pub use element::Element;
pub use error::{GenerateError, ParseError, ParseErrorKind};
pub use for_node::ForNode;
pub use if_node::{ElseNode, IfNode};
pub use match_node::{MatchNode, MatchNodeArm};
pub use node::{Annotation, ExprNode, Node, NodeType};
pub use resolve::{ForStrategy, IfStrategy};
pub use token::{Delimiter, Token};
