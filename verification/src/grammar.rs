//! The grammar of templates, as mathematics.
//!
//! Each function here says what one syntactic category is: given the tokens
//! `t` and a window `p..end` in them, the value that stands at `p` and the
//! position behind it, or the error that reading it gives. The parser's
//! contracts are stated over these functions.
//!
//! ```text
//! Nodes      := Node*
//! Node       := Annotation* NodeType
//! NodeType   := If | For | Match | Text | Block | Expr | Element
//! Element    := Path Attributes? Block
//! Attributes := '(' (Attribute (',' Attribute)* ','?)? ')'
//! Attribute  := AttributeName '=' Expr
//! AttributeName := Ident ':' Path | StringLit | Path
//! Block      := '{' Node* '}'
//! If         := 'if' Expr Block ('else' (If | Block))?
//! For        := 'for' Pattern 'in' Expr Block
//! Match      := 'match' Expr '{' MatchArm* '}'
//! MatchArm   := Pattern ('if' Expr)? '=>' Node ','?
//! Expr(node) := '(' Expr ')'
//! ```

use crate::attribute::{
    AttributeNameDirectiveView,
    AttributeNameView,
    AttributeView,
    AttributesView,
};
use crate::element::ElementView;
use crate::error::{ParseError, ParseErrorKind};
use crate::for_node::ForNodeView;
use crate::if_node::{ElseNodeView, IfNodeView};
use crate::match_node::{MatchNodeArmView, MatchNodeView};
use crate::node::{AnnotationView, ExprNodeView, NodeTypeView, NodeView};
use crate::syntax::{
    syn_annotation_has_arguments,
    syn_annotation_name,
    syn_annotations_rest,
    syn_arm_pattern_rest,
    syn_condition_rest,
    syn_expr_rest,
    syn_is_identifier,
    syn_is_string_literal,
    syn_path_rest,
    syn_pattern_rest,
};
use crate::token::{group_close, skip_trees, text_of, tree_count, tree_end, Delimiter, Tok};
use vstd::prelude::*;

verus! {

/// The error of the given kind at position `p`.
pub open spec fn fail(p: int, kind: ParseErrorKind) -> ParseError {
    ParseError { at: p as usize, kind }
}

/// Whether `p..end` is a window in `t`.
pub open spec fn window(t: Seq<Tok>, p: int, end: int) -> bool {
    0 <= p <= end <= t.len()
}

/// Whether the word `name` stands at `p`.
pub open spec fn at_word(t: Seq<Tok>, p: int, end: int, name: Seq<char>) -> bool {
    0 <= p < end <= t.len() && t[p] == Tok::Ident(name)
}

/// Whether any word stands at `p`.
pub open spec fn at_any_word(t: Seq<Tok>, p: int, end: int) -> bool {
    0 <= p < end <= t.len() && t[p] is Ident
}

/// Whether the punctuation character `c` stands at `p`.
pub open spec fn at_punct(t: Seq<Tok>, p: int, end: int, c: char) -> bool {
    0 <= p < end <= t.len() && (t[p] matches Tok::Punct(ch, _) && ch == c)
}

/// Whether the two-character operator `first second` starts at `p`: its
/// first character has to be joined to the second.
pub open spec fn at_operator(t: Seq<Tok>, p: int, end: int, first: char, second: char) -> bool {
    0 <= p < end <= t.len() && t[p] == Tok::Punct(first, true) && at_punct(t, p + 1, end, second)
}

/// Whether a group with the given delimiter opens at `p`.
pub open spec fn at_open(t: Seq<Tok>, p: int, end: int, d: Delimiter) -> bool {
    0 <= p < end <= t.len() && t[p] == Tok::Open(d)
}

/// Whether a string literal stands at `p`.
pub open spec fn at_string(t: Seq<Tok>, p: int, end: int) -> bool {
    0 <= p < end <= t.len() && (t[p] matches Tok::Literal(text) && syn_is_string_literal(text))
}

/// The text of the literal or word at `p`.
pub open spec fn text_at(t: Seq<Tok>, p: int) -> Seq<char> {
    match t[p] {
        Tok::Ident(text) => text,
        Tok::Literal(text) => text,
        _ => Seq::empty(),
    }
}

/// The text of the window `p..end`, which is what the host grammar is asked
/// about.
pub open spec fn window_text(t: Seq<Tok>, p: int, end: int) -> Seq<char> {
    text_of(t.subrange(p, end))
}

/// Where the leading part of the window `p..end` ends that the host grammar
/// has read, given how many trees of the window it has left unread.
pub open spec fn prefix_end(rest: Option<nat>, t: Seq<Tok>, p: int, end: int) -> Option<int> {
    match (rest, tree_count(t, p, end)) {
        (Some(r), Some(n)) => if r <= n {
            match skip_trees(t, p, end, (n - r) as nat) {
                Some(e) => if p <= e <= end {
                    Some(e)
                } else {
                    None
                },
                None => None,
            }
        } else {
            None
        },
        _ => None,
    }
}

/// Where a fragment of the host language that starts at `p` ends, given how
/// many trees of the window `p..end` the host grammar leaves unread. A
/// fragment holds at least one token.
pub open spec fn fragment_end(rest: Option<nat>, t: Seq<Tok>, p: int, end: int) -> Option<int> {
    match prefix_end(rest, t, p, end) {
        Some(e) => if p < e {
            Some(e)
        } else {
            None
        },
        None => None,
    }
}

/// Where the group that opens at `p` with delimiter `d` closes: the position
/// of its closing token, which has to be of the same kind.
pub open spec fn closing(t: Seq<Tok>, p: int, end: int, d: Delimiter) -> Option<int> {
    match group_close(t, p, end) {
        Some(c) => if p < c < end && t[c] == Tok::Close(d) {
            Some(c)
        } else {
            None
        },
        None => None,
    }
}

/// Where the path at `p` ends.
pub open spec fn path_end(t: Seq<Tok>, p: int, end: int) -> Option<int> {
    fragment_end(syn_path_rest(window_text(t, p, end)), t, p, end)
}

/// Where the expression at `p` ends.
pub open spec fn expr_end(t: Seq<Tok>, p: int, end: int) -> Option<int> {
    fragment_end(syn_expr_rest(window_text(t, p, end)), t, p, end)
}

/// Where the expression at `p` ends if a block follows it: an opening brace
/// outside of parentheses ends such an expression.
pub open spec fn condition_end(t: Seq<Tok>, p: int, end: int) -> Option<int> {
    fragment_end(syn_condition_rest(window_text(t, p, end)), t, p, end)
}

/// Where the pattern at `p` ends.
pub open spec fn pattern_end(t: Seq<Tok>, p: int, end: int) -> Option<int> {
    fragment_end(syn_pattern_rest(window_text(t, p, end)), t, p, end)
}

/// Where the pattern of a match arm at `p` ends.
pub open spec fn arm_pattern_end(t: Seq<Tok>, p: int, end: int) -> Option<int> {
    fragment_end(syn_arm_pattern_rest(window_text(t, p, end)), t, p, end)
}

/// A list so far, followed by the rest of it, if the rest can be read.
pub open spec fn followed_by<A>(first: Seq<A>, rest: Result<Seq<A>, ParseError>) -> Result<
    Seq<A>,
    ParseError,
> {
    match rest {
        Ok(rest) => Ok(first + rest),
        Err(e) => Err(e),
    }
}

/// Where the annotations in front of a node end. Without a `#` at `p` there
/// are none; else the host grammar says where its outer attributes end.
pub open spec fn annotations_end(t: Seq<Tok>, p: int, end: int) -> Option<int> {
    if !at_punct(t, p, end, '#') {
        Some(p)
    } else {
        prefix_end(syn_annotations_rest(window_text(t, p, end)), t, p, end)
    }
}

/// The last tree of the window `p..end`, where that tree is a group: the
/// positions of its opening and of its closing token.
pub open spec fn last_group(t: Seq<Tok>, p: int, end: int) -> Option<(int, int)>
    decreases end - p,
{
    match tree_end(t, p, end) {
        None => None,
        Some(q) => if q <= p {
            None
        } else if q < end {
            last_group(t, q, end)
        } else if t[p] is Open {
            Some((p, q - 1))
        } else {
            None
        },
    }
}

/// The annotation whose `#` stands at `p` and whose closing bracket stands
/// at `c`. The host grammar gives its name, and says whether it has a list
/// of arguments; the arguments are then what the last group between the
/// brackets holds.
pub open spec fn annotation_of(t: Seq<Tok>, p: int, c: int) -> AnnotationView {
    let tokens = t.subrange(p, c + 1);
    AnnotationView {
        name: syn_annotation_name(text_of(tokens)),
        arguments: if syn_annotation_has_arguments(text_of(tokens)) {
            match last_group(t, p + 2, c) {
                Some((open, close)) => Some(t.subrange(open + 1, close)),
                None => None,
            }
        } else {
            None
        },
        tokens,
    }
}

/// The annotations that fill the window `p..e` exactly, each a `#` with a
/// group in square brackets behind it.
pub open spec fn spec_annotation_list(t: Seq<Tok>, p: int, e: int) -> Result<
    Seq<AnnotationView>,
    ParseError,
>
    decreases e - p,
{
    if p >= e {
        Ok(Seq::empty())
    } else if !(at_punct(t, p, e, '#') && at_open(t, p + 1, e, Delimiter::Bracket)) {
        Err(fail(p, ParseErrorKind::MalformedAnnotation))
    } else {
        match closing(t, p + 1, e, Delimiter::Bracket) {
            None => Err(fail(p, ParseErrorKind::MalformedAnnotation)),
            Some(c) => followed_by(
                seq![annotation_of(t, p, c)],
                spec_annotation_list(t, c + 1, e),
            ),
        }
    }
}

/// `Annotation*`: the annotations at `p` and the position behind them.
pub open spec fn spec_annotations(t: Seq<Tok>, p: int, end: int) -> Result<
    (Seq<AnnotationView>, int),
    ParseError,
> {
    match annotations_end(t, p, end) {
        None => Err(fail(p, ParseErrorKind::MalformedAnnotation)),
        Some(e) => match spec_annotation_list(t, p, e) {
            Err(e) => Err(e),
            Ok(list) => Ok((list, e)),
        },
    }
}

/// Whether the attribute name at `p` is a directive: a word, then a colon
/// that is not the first half of `::`.
pub open spec fn at_directive(t: Seq<Tok>, p: int, end: int) -> bool {
    at_any_word(t, p, end) && !at_operator(t, p + 1, end, ':', ':') && at_punct(
        t,
        p + 1,
        end,
        ':',
    )
}

/// `Ident ':' Path`
pub open spec fn spec_directive(t: Seq<Tok>, p: int, end: int) -> Result<
    (AttributeNameDirectiveView, int),
    ParseError,
> {
    if !(at_any_word(t, p, end) && syn_is_identifier(text_at(t, p))) {
        Err(fail(p, ParseErrorKind::ExpectedIdentifier))
    } else if !at_punct(t, p + 1, end, ':') {
        Err(fail(p + 1, ParseErrorKind::ExpectedColon))
    } else {
        match path_end(t, p + 2, end) {
            None => Err(fail(p + 2, ParseErrorKind::ExpectedPath)),
            Some(e) => Ok(
                (
                    AttributeNameDirectiveView {
                        directive: text_at(t, p),
                        path: t.subrange(p + 2, e),
                    },
                    e,
                ),
            ),
        }
    }
}

/// `AttributeName`: a directive where a word and a single colon stand at
/// `p`; else a quoted name where a string literal stands there; else a path.
pub open spec fn spec_attribute_name(t: Seq<Tok>, p: int, end: int) -> Result<
    (AttributeNameView, int),
    ParseError,
> {
    if at_directive(t, p, end) {
        match spec_directive(t, p, end) {
            Err(e) => Err(e),
            Ok((directive, e)) => Ok((AttributeNameView::Directive(directive), e)),
        }
    } else if at_string(t, p, end) {
        Ok((AttributeNameView::Quoted(text_at(t, p)), p + 1))
    } else {
        match path_end(t, p, end) {
            None => Err(fail(p, ParseErrorKind::ExpectedPath)),
            Some(e) => Ok((AttributeNameView::Single(t.subrange(p, e)), e)),
        }
    }
}

/// `Attribute := AttributeName '=' Expr`
pub open spec fn spec_attribute(t: Seq<Tok>, p: int, end: int) -> Result<
    (AttributeView, int),
    ParseError,
> {
    match spec_attribute_name(t, p, end) {
        Err(e) => Err(e),
        Ok((name, q)) => if !at_punct(t, q, end, '=') {
            Err(fail(q, ParseErrorKind::ExpectedEquals))
        } else {
            match expr_end(t, q + 1, end) {
                None => Err(fail(q + 1, ParseErrorKind::ExpectedExpression)),
                Some(e) => Ok((AttributeView { name, value: t.subrange(q + 1, e) }, e)),
            }
        },
    }
}

/// The attributes that fill the window `p..end`: separated by commas, with
/// or without a comma behind the last one.
pub open spec fn spec_attribute_list(t: Seq<Tok>, p: int, end: int) -> Result<
    Seq<AttributeView>,
    ParseError,
>
    decreases end - p,
{
    if p >= end {
        Ok(Seq::empty())
    } else {
        match spec_attribute(t, p, end) {
            Err(e) => Err(e),
            Ok((attribute, q)) => if q >= end {
                Ok(seq![attribute])
            } else if !at_punct(t, q, end, ',') {
                Err(fail(q, ParseErrorKind::ExpectedComma))
            } else {
                followed_by(seq![attribute], spec_attribute_list(t, q + 1, end))
            },
        }
    }
}

/// `Attributes`: the group in parentheses at `p` and the position behind it.
pub open spec fn spec_attributes(t: Seq<Tok>, p: int, end: int) -> Result<
    (AttributesView, int),
    ParseError,
> {
    if !at_open(t, p, end, Delimiter::Parenthesis) {
        Err(fail(p, ParseErrorKind::UnexpectedToken))
    } else {
        match closing(t, p, end, Delimiter::Parenthesis) {
            None => Err(fail(p, ParseErrorKind::UnbalancedGroup)),
            Some(c) => match spec_attribute_list(t, p + 1, c) {
                Err(e) => Err(e),
                Ok(attributes) => Ok((AttributesView { attributes }, c + 1)),
            },
        }
    }
}

/// Where the block at `p` closes, or why no block stands there.
pub open spec fn block_close(t: Seq<Tok>, p: int, end: int) -> Result<int, ParseError> {
    if !at_open(t, p, end, Delimiter::Brace) {
        Err(fail(p, ParseErrorKind::ExpectedBraces))
    } else {
        match closing(t, p, end, Delimiter::Brace) {
            None => Err(fail(p, ParseErrorKind::UnbalancedGroup)),
            Some(c) => Ok(c),
        }
    }
}

/// `'(' Expr ')'`: the expression has to fill the parentheses.
pub open spec fn spec_expr_node(t: Seq<Tok>, p: int, end: int) -> Result<
    (ExprNodeView, int),
    ParseError,
> {
    if !at_open(t, p, end, Delimiter::Parenthesis) {
        Err(fail(p, ParseErrorKind::UnexpectedToken))
    } else {
        match closing(t, p, end, Delimiter::Parenthesis) {
            None => Err(fail(p, ParseErrorKind::UnbalancedGroup)),
            Some(c) => match expr_end(t, p + 1, c) {
                None => Err(fail(p + 1, ParseErrorKind::ExpectedExpression)),
                Some(e) => if e != c {
                    Err(fail(e, ParseErrorKind::UnexpectedToken))
                } else {
                    Ok((ExprNodeView { expr: t.subrange(p + 1, c) }, c + 1))
                },
            },
        }
    }
}

/// Whether a match arm with this body needs a comma behind it unless it is
/// the last arm: a text or an expression does, what ends in a closing brace
/// does not.
pub open spec fn requires_comma(body: NodeTypeView) -> bool {
    body is Text || body is Expr
}

/// `Node*`: the nodes that fill the window `p..end`.
pub open spec fn spec_nodes(t: Seq<Tok>, p: int, end: int) -> Result<Seq<NodeView>, ParseError>
    decreases end - p, 4int,
{
    if p >= end {
        Ok(Seq::empty())
    } else {
        match spec_node(t, p, end) {
            Err(e) => Err(e),
            Ok((node, next)) => if p < next <= end {
                followed_by(seq![node], spec_nodes(t, next, end))
            } else {
                Err(fail(p, ParseErrorKind::UnexpectedToken))
            },
        }
    }
}

/// `Node := Annotation* NodeType`
pub open spec fn spec_node(t: Seq<Tok>, p: int, end: int) -> Result<(NodeView, int), ParseError>
    decreases end - p, 3int,
{
    match annotations_end(t, p, end) {
        None => Err(fail(p, ParseErrorKind::MalformedAnnotation)),
        Some(q) => match spec_annotation_list(t, p, q) {
            Err(e) => Err(e),
            Ok(attrs) => match spec_node_type(t, q, end) {
                Err(e) => Err(e),
                Ok((node, next)) => Ok((NodeView { attrs, node }, next)),
            },
        },
    }
}

/// `NodeType`: the first of these that fits decides what is read at `p`: the
/// keyword `if`, `for` or `match`; a string literal; an opening brace; an
/// opening parenthesis; anything else is read as an element.
pub open spec fn spec_node_type(t: Seq<Tok>, p: int, end: int) -> Result<
    (NodeTypeView, int),
    ParseError,
>
    decreases end - p, 2int,
{
    if at_word(t, p, end, "if"@) {
        match spec_if(t, p, end) {
            Err(e) => Err(e),
            Ok((node, next)) => Ok((NodeTypeView::If(node), next)),
        }
    } else if at_word(t, p, end, "for"@) {
        match spec_for(t, p, end) {
            Err(e) => Err(e),
            Ok((node, next)) => Ok((NodeTypeView::For(node), next)),
        }
    } else if at_word(t, p, end, "match"@) {
        match spec_match(t, p, end) {
            Err(e) => Err(e),
            Ok((node, next)) => Ok((NodeTypeView::Match(node), next)),
        }
    } else if at_string(t, p, end) {
        Ok((NodeTypeView::Text(text_at(t, p)), p + 1))
    } else if at_open(t, p, end, Delimiter::Brace) {
        match spec_block(t, p, end) {
            Err(e) => Err(e),
            Ok((nodes, next)) => Ok((NodeTypeView::Block(nodes), next)),
        }
    } else if at_open(t, p, end, Delimiter::Parenthesis) {
        match spec_expr_node(t, p, end) {
            Err(e) => Err(e),
            Ok((node, next)) => Ok((NodeTypeView::Expr(node), next)),
        }
    } else {
        match spec_element(t, p, end) {
            Err(e) => Err(e),
            Ok((node, next)) => Ok((NodeTypeView::Element(node), next)),
        }
    }
}

/// `Block := '{' Node* '}'`
pub open spec fn spec_block(t: Seq<Tok>, p: int, end: int) -> Result<
    (Seq<NodeView>, int),
    ParseError,
>
    decreases end - p, 1int,
{
    match block_close(t, p, end) {
        Err(e) => Err(e),
        Ok(c) => match spec_nodes(t, p + 1, c) {
            Err(e) => Err(e),
            Ok(nodes) => Ok((nodes, c + 1)),
        },
    }
}

/// `Element := Path Attributes? Block`: attributes are read exactly when an
/// opening parenthesis follows the path.
pub open spec fn spec_element(t: Seq<Tok>, p: int, end: int) -> Result<
    (ElementView, int),
    ParseError,
>
    decreases end - p, 1int,
{
    match path_end(t, p, end) {
        None => Err(fail(p, ParseErrorKind::ExpectedPath)),
        Some(q) => if at_open(t, q, end, Delimiter::Parenthesis) {
            match spec_attributes(t, q, end) {
                Err(e) => Err(e),
                Ok((attributes, _)) => {
                    let b = closing(t, q, end, Delimiter::Parenthesis).unwrap() + 1;
                    match spec_block(t, b, end) {
                        Err(e) => Err(e),
                        Ok((children, next)) => Ok(
                            (
                                ElementView {
                                    path: t.subrange(p, q),
                                    attributes: Some(attributes),
                                    children,
                                },
                                next,
                            ),
                        ),
                    }
                },
            }
        } else {
            match spec_block(t, q, end) {
                Err(e) => Err(e),
                Ok((children, next)) => Ok(
                    (ElementView { path: t.subrange(p, q), attributes: None, children }, next),
                ),
            }
        },
    }
}

/// `If := 'if' Expr Block ('else' (If | Block))?`
pub open spec fn spec_if(t: Seq<Tok>, p: int, end: int) -> Result<(IfNodeView, int), ParseError>
    decreases end - p, 1int,
{
    if !at_word(t, p, end, "if"@) {
        Err(fail(p, ParseErrorKind::UnexpectedToken))
    } else {
        match condition_end(t, p + 1, end) {
            None => Err(fail(p + 1, ParseErrorKind::ExpectedExpression)),
            Some(b) => match block_close(t, b, end) {
                Err(e) => Err(e),
                Ok(c) => match spec_nodes(t, b + 1, c) {
                    Err(e) => Err(e),
                    Ok(then_branch) => if !at_word(t, c + 1, end, "else"@) {
                        Ok(
                            (
                                IfNodeView {
                                    cond: t.subrange(p + 1, b),
                                    then_branch,
                                    else_branch: None,
                                },
                                c + 1,
                            ),
                        )
                    } else {
                        match spec_else(t, c + 2, end) {
                            Err(e) => Err(e),
                            Ok((else_branch, next)) => Ok(
                                (
                                    IfNodeView {
                                        cond: t.subrange(p + 1, b),
                                        then_branch,
                                        else_branch: Some(else_branch),
                                    },
                                    next,
                                ),
                            ),
                        }
                    },
                },
            },
        }
    }
}

/// `If | Block` behind an `else`: another conditional where the keyword `if`
/// follows, else the final block.
pub open spec fn spec_else(t: Seq<Tok>, p: int, end: int) -> Result<
    (ElseNodeView, int),
    ParseError,
>
    decreases end - p, 2int,
{
    if at_word(t, p, end, "if"@) {
        match spec_if(t, p, end) {
            Err(e) => Err(e),
            Ok((node, next)) => Ok((ElseNodeView::If(Box::new(node)), next)),
        }
    } else {
        match spec_block(t, p, end) {
            Err(e) => Err(e),
            Ok((nodes, next)) => Ok((ElseNodeView::Else(nodes), next)),
        }
    }
}

/// `For := 'for' Pattern 'in' Expr Block`
pub open spec fn spec_for(t: Seq<Tok>, p: int, end: int) -> Result<(ForNodeView, int), ParseError>
    decreases end - p, 1int,
{
    if !at_word(t, p, end, "for"@) {
        Err(fail(p, ParseErrorKind::UnexpectedToken))
    } else {
        match pattern_end(t, p + 1, end) {
            None => Err(fail(p + 1, ParseErrorKind::ExpectedPattern)),
            Some(i) => if !at_word(t, i, end, "in"@) {
                Err(fail(i, ParseErrorKind::ExpectedIn))
            } else {
                match condition_end(t, i + 1, end) {
                    None => Err(fail(i + 1, ParseErrorKind::ExpectedExpression)),
                    Some(b) => match spec_block(t, b, end) {
                        Err(e) => Err(e),
                        Ok((body, next)) => Ok(
                            (
                                ForNodeView {
                                    pat: t.subrange(p + 1, i),
                                    expr: t.subrange(i + 1, b),
                                    body,
                                },
                                next,
                            ),
                        ),
                    },
                }
            },
        }
    }
}

/// `Match := 'match' Expr '{' MatchArm* '}'`
pub open spec fn spec_match(t: Seq<Tok>, p: int, end: int) -> Result<
    (MatchNodeView, int),
    ParseError,
>
    decreases end - p, 1int,
{
    if !at_word(t, p, end, "match"@) {
        Err(fail(p, ParseErrorKind::UnexpectedToken))
    } else {
        match condition_end(t, p + 1, end) {
            None => Err(fail(p + 1, ParseErrorKind::ExpectedExpression)),
            Some(b) => match block_close(t, b, end) {
                Err(e) => Err(e),
                Ok(c) => match spec_arms(t, b + 1, c) {
                    Err(e) => Err(e),
                    Ok(arms) => Ok((MatchNodeView { expr: t.subrange(p + 1, b), arms }, c + 1)),
                },
            },
        }
    }
}

/// `MatchArm*`: the arms that fill the window `p..end`.
pub open spec fn spec_arms(t: Seq<Tok>, p: int, end: int) -> Result<
    Seq<MatchNodeArmView>,
    ParseError,
>
    decreases end - p, 1int,
{
    if p >= end {
        Ok(Seq::empty())
    } else {
        match spec_arm(t, p, end) {
            Err(e) => Err(e),
            Ok((arm, next)) => if p < next <= end {
                followed_by(seq![arm], spec_arms(t, next, end))
            } else {
                Err(fail(p, ParseErrorKind::UnexpectedToken))
            },
        }
    }
}

/// Where the head of the arm at `p` ends, that is where its `=>` stands, and
/// the guard in it: `Pattern ('if' Expr)?`.
pub open spec fn spec_arm_head(t: Seq<Tok>, p: int, end: int) -> Result<
    (Seq<Tok>, Option<Seq<Tok>>, int),
    ParseError,
> {
    match arm_pattern_end(t, p, end) {
        None => Err(fail(p, ParseErrorKind::ExpectedPattern)),
        Some(g) => if at_word(t, g, end, "if"@) {
            match expr_end(t, g + 1, end) {
                None => Err(fail(g + 1, ParseErrorKind::ExpectedExpression)),
                Some(a) => Ok((t.subrange(p, g), Some(t.subrange(g + 1, a)), a)),
            }
        } else {
            Ok((t.subrange(p, g), None, g))
        },
    }
}

/// The comma behind the body of an arm, which ends at `p`: it has to stand
/// there where the body needs one and the arm is not the last. The result
/// says whether a comma was read, and where the arm ends.
pub open spec fn spec_arm_comma(t: Seq<Tok>, p: int, end: int, body: NodeTypeView) -> Result<
    (bool, int),
    ParseError,
> {
    if at_punct(t, p, end, ',') {
        Ok((true, p + 1))
    } else if requires_comma(body) && p < end {
        Err(fail(p, ParseErrorKind::ExpectedComma))
    } else {
        Ok((false, p))
    }
}

/// `MatchArm := Pattern ('if' Expr)? '=>' Node ','?`
pub open spec fn spec_arm(t: Seq<Tok>, p: int, end: int) -> Result<
    (MatchNodeArmView, int),
    ParseError,
>
    decreases end - p, 0int,
{
    match spec_arm_head(t, p, end) {
        Err(e) => Err(e),
        Ok((pat, guard, a)) => if !at_operator(t, a, end, '=', '>') {
            Err(fail(a, ParseErrorKind::ExpectedFatArrow))
        } else {
            match spec_node(t, a + 2, end) {
                Err(e) => Err(e),
                Ok((body, b)) => match spec_arm_comma(t, b, end, body.node) {
                    Err(e) => Err(e),
                    Ok((comma, next)) => Ok(
                        (MatchNodeArmView { pat, guard, body: Box::new(body), comma }, next),
                    ),
                },
            }
        },
    }
}

/// A whole template: the nodes that fill all of `t`.
pub open spec fn spec_template(t: Seq<Tok>) -> Result<Seq<NodeView>, ParseError> {
    spec_nodes(t, 0, t.len() as int)
}

} // verus!
