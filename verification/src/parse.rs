//! The parser: recursive descent over the tokens, with one function for each
//! syntactic category. Each function reads what stands at `pos` in the window
//! `pos..end` and returns it with the position behind it, or fails at the
//! first token that does not fit. What each of them returns is given by the
//! function of the same category in [`crate::grammar`].

use crate::attribute::{Attribute, AttributeName, AttributeNameDirective, Attributes};
use crate::error::{ParseError, ParseErrorKind};
use crate::grammar::{
    annotation_of,
    annotations_end,
    arm_pattern_end,
    at_any_word,
    at_open,
    at_operator,
    at_punct,
    at_string,
    at_word,
    block_close,
    closing,
    condition_end,
    expr_end,
    fail,
    followed_by,
    fragment_end,
    last_group,
    path_end,
    pattern_end,
    prefix_end,
    requires_comma,
    spec_annotation_list,
    spec_annotations,
    spec_arm,
    spec_arms,
    spec_attribute,
    spec_attribute_list,
    spec_attribute_name,
    spec_attributes,
    spec_block,
    spec_directive,
    spec_element,
    spec_else,
    spec_expr_node,
    spec_for,
    spec_if,
    spec_match,
    spec_node,
    spec_node_type,
    spec_nodes,
    text_at,
};
use crate::block::{lemma_nodes_view_push, nodes_view, Block, Nodes};
use crate::element::{element_view, Element};
use crate::for_node::{for_node_view, ForNode};
use crate::if_node::{if_node_view, ElseNode, IfNode};
use crate::laws::is_parse_of;
use crate::match_node::{
    arm_view,
    arms_view,
    lemma_arms_view_push,
    match_node_view,
    MatchNode,
    MatchNodeArm,
};
use crate::node::{node_type_view, node_view, Annotation, ExprNode, Node, NodeType};
use crate::syntax::{
    annotation_has_arguments,
    annotation_name,
    annotations_rest,
    arm_pattern_rest,
    condition_rest,
    expr_rest,
    is_identifier,
    is_string_literal,
    optional_count,
    path_rest,
    pattern_rest,
    same_text,
};
use crate::token::{
    close_of,
    copy_tokens,
    count_trees,
    render,
    skip,
    toks,
    tree_end_of,
    Delimiter,
    Token,
};
use vstd::prelude::*;

verus! {

/// The position of an optional index.
pub open spec fn optional_position(p: Option<usize>) -> Option<int> {
    match p {
        Some(p) => Some(p as int),
        None => None,
    }
}

fn error_at<T>(at: usize, kind: ParseErrorKind) -> (r: Result<T, ParseError>)
    ensures
        r == Err::<T, ParseError>(fail(at as int, kind)),
{
    Err(ParseError { at, kind })
}

fn word_at(tokens: &Vec<Token>, pos: usize, end: usize, name: &str) -> (yes: bool)
    requires
        end <= tokens.len(),
    ensures
        yes == at_word(toks(tokens@), pos as int, end as int, name@),
{
    if pos < end {
        match &tokens[pos] {
            Token::Ident(text) => same_text(text.as_str(), name),
            _ => false,
        }
    } else {
        false
    }
}

fn any_word_at(tokens: &Vec<Token>, pos: usize, end: usize) -> (yes: bool)
    requires
        end <= tokens.len(),
    ensures
        yes == at_any_word(toks(tokens@), pos as int, end as int),
{
    if pos < end {
        match &tokens[pos] {
            Token::Ident(_) => true,
            _ => false,
        }
    } else {
        false
    }
}

fn punct_at(tokens: &Vec<Token>, pos: usize, end: usize, c: char) -> (yes: bool)
    requires
        end <= tokens.len(),
    ensures
        yes == at_punct(toks(tokens@), pos as int, end as int, c),
{
    if pos < end {
        match &tokens[pos] {
            Token::Punct(ch, _) => *ch == c,
            _ => false,
        }
    } else {
        false
    }
}

fn operator_at(tokens: &Vec<Token>, pos: usize, end: usize, first: char, second: char) -> (yes:
    bool)
    requires
        end <= tokens.len(),
    ensures
        yes == at_operator(toks(tokens@), pos as int, end as int, first, second),
{
    if pos < end {
        match &tokens[pos] {
            Token::Punct(ch, joint) => *ch == first && *joint && punct_at(
                tokens,
                pos + 1,
                end,
                second,
            ),
            _ => false,
        }
    } else {
        false
    }
}

fn open_at(tokens: &Vec<Token>, pos: usize, end: usize, d: Delimiter) -> (yes: bool)
    requires
        end <= tokens.len(),
    ensures
        yes == at_open(toks(tokens@), pos as int, end as int, d),
{
    if pos < end {
        match &tokens[pos] {
            Token::Open(delimiter) => *delimiter == d,
            _ => false,
        }
    } else {
        false
    }
}

fn string_at(tokens: &Vec<Token>, pos: usize, end: usize) -> (yes: bool)
    requires
        end <= tokens.len(),
    ensures
        yes == at_string(toks(tokens@), pos as int, end as int),
{
    if pos < end {
        match &tokens[pos] {
            Token::Literal(text) => is_string_literal(text.as_str()),
            _ => false,
        }
    } else {
        false
    }
}

fn text_of_token(tokens: &Vec<Token>, pos: usize) -> (text: String)
    requires
        pos < tokens.len(),
    ensures
        text@ == text_at(toks(tokens@), pos as int),
{
    match &tokens[pos] {
        Token::Ident(text) => text.clone(),
        Token::Literal(text) => text.clone(),
        _ => String::new(),
    }
}

fn closing_of(tokens: &Vec<Token>, pos: usize, end: usize, d: Delimiter) -> (close: Option<usize>)
    requires
        pos < end <= tokens.len(),
    ensures
        optional_position(close) == closing(toks(tokens@), pos as int, end as int, d),
        close matches Some(c) ==> pos < c < end,
{
    match close_of(tokens, pos, end) {
        Some(c) => {
            match &tokens[c] {
                Token::Close(delimiter) => if *delimiter == d {
                    Some(c)
                } else {
                    None
                },
                _ => None,
            }
        },
        None => None,
    }
}

fn prefix_end_of(tokens: &Vec<Token>, rest: Option<usize>, pos: usize, end: usize) -> (e: Option<
    usize,
>)
    requires
        pos <= end <= tokens.len(),
    ensures
        optional_position(e) == prefix_end(
            optional_count(rest),
            toks(tokens@),
            pos as int,
            end as int,
        ),
        e matches Some(e) ==> pos <= e <= end,
{
    match (rest, count_trees(tokens, pos, end)) {
        (Some(r), Some(n)) => if r <= n {
            skip(tokens, pos, end, n - r)
        } else {
            None
        },
        _ => None,
    }
}

fn fragment_end_of(tokens: &Vec<Token>, rest: Option<usize>, pos: usize, end: usize) -> (e:
    Option<usize>)
    requires
        pos <= end <= tokens.len(),
    ensures
        optional_position(e) == fragment_end(
            optional_count(rest),
            toks(tokens@),
            pos as int,
            end as int,
        ),
        e matches Some(e) ==> pos < e <= end,
{
    match prefix_end_of(tokens, rest, pos, end) {
        Some(e) => if pos < e {
            Some(e)
        } else {
            None
        },
        None => None,
    }
}

fn path_end_at(tokens: &Vec<Token>, pos: usize, end: usize) -> (e: Option<usize>)
    requires
        pos <= end <= tokens.len(),
    ensures
        optional_position(e) == path_end(toks(tokens@), pos as int, end as int),
        e matches Some(e) ==> pos < e <= end,
{
    let text = render(tokens, pos, end);
    fragment_end_of(tokens, path_rest(text.as_str()), pos, end)
}

fn expr_end_at(tokens: &Vec<Token>, pos: usize, end: usize) -> (e: Option<usize>)
    requires
        pos <= end <= tokens.len(),
    ensures
        optional_position(e) == expr_end(toks(tokens@), pos as int, end as int),
        e matches Some(e) ==> pos < e <= end,
{
    let text = render(tokens, pos, end);
    fragment_end_of(tokens, expr_rest(text.as_str()), pos, end)
}

fn condition_end_at(tokens: &Vec<Token>, pos: usize, end: usize) -> (e: Option<usize>)
    requires
        pos <= end <= tokens.len(),
    ensures
        optional_position(e) == condition_end(toks(tokens@), pos as int, end as int),
        e matches Some(e) ==> pos < e <= end,
{
    let text = render(tokens, pos, end);
    fragment_end_of(tokens, condition_rest(text.as_str()), pos, end)
}

fn pattern_end_at(tokens: &Vec<Token>, pos: usize, end: usize) -> (e: Option<usize>)
    requires
        pos <= end <= tokens.len(),
    ensures
        optional_position(e) == pattern_end(toks(tokens@), pos as int, end as int),
        e matches Some(e) ==> pos < e <= end,
{
    let text = render(tokens, pos, end);
    fragment_end_of(tokens, pattern_rest(text.as_str()), pos, end)
}

fn arm_pattern_end_at(tokens: &Vec<Token>, pos: usize, end: usize) -> (e: Option<usize>)
    requires
        pos <= end <= tokens.len(),
    ensures
        optional_position(e) == arm_pattern_end(toks(tokens@), pos as int, end as int),
        e matches Some(e) ==> pos < e <= end,
{
    let text = render(tokens, pos, end);
    fragment_end_of(tokens, arm_pattern_rest(text.as_str()), pos, end)
}

impl AttributeNameDirective {
    /// Reads `Ident ':' Path` at `pos`.
    pub fn parse(tokens: &Vec<Token>, pos: usize, end: usize) -> (r: Result<
        (AttributeNameDirective, usize),
        ParseError,
    >)
        requires
            pos <= end <= tokens.len(),
        ensures
            match r {
                Ok((name, next)) => spec_directive(toks(tokens@), pos as int, end as int) == Ok::<
                    _,
                    ParseError,
                >((name@, next as int)) && pos < next <= end,
                Err(e) => spec_directive(toks(tokens@), pos as int, end as int) == Err::<
                    (crate::attribute::AttributeNameDirectiveView, int),
                    _,
                >(e),
            },
    {
        if !any_word_at(tokens, pos, end) {
            return error_at(pos, ParseErrorKind::ExpectedIdentifier);
        }
        let directive = text_of_token(tokens, pos);
        if !is_identifier(directive.as_str()) {
            return error_at(pos, ParseErrorKind::ExpectedIdentifier);
        }
        if !punct_at(tokens, pos + 1, end, ':') {
            return error_at(pos + 1, ParseErrorKind::ExpectedColon);
        }
        match path_end_at(tokens, pos + 2, end) {
            None => error_at(pos + 2, ParseErrorKind::ExpectedPath),
            Some(e) => {
                let path = copy_tokens(tokens, pos + 2, e);
                Ok((AttributeNameDirective { directive, path }, e))
            },
        }
    }
}

impl AttributeName {
    /// Reads the name of an attribute at `pos`: a directive, a quoted name
    /// or a path, whichever the next tokens call for.
    pub fn parse(tokens: &Vec<Token>, pos: usize, end: usize) -> (r: Result<
        (AttributeName, usize),
        ParseError,
    >)
        requires
            pos <= end <= tokens.len(),
        ensures
            match r {
                Ok((name, next)) => spec_attribute_name(toks(tokens@), pos as int, end as int)
                    == Ok::<_, ParseError>((name@, next as int)) && pos < next <= end,
                Err(e) => spec_attribute_name(toks(tokens@), pos as int, end as int) == Err::<
                    (crate::attribute::AttributeNameView, int),
                    _,
                >(e),
            },
    {
        if any_word_at(tokens, pos, end) && !operator_at(tokens, pos + 1, end, ':', ':')
            && punct_at(tokens, pos + 1, end, ':') {
            match AttributeNameDirective::parse(tokens, pos, end) {
                Err(e) => Err(e),
                Ok((directive, next)) => Ok((AttributeName::Directive(directive), next)),
            }
        } else if string_at(tokens, pos, end) {
            Ok((AttributeName::Quoted(text_of_token(tokens, pos)), pos + 1))
        } else {
            match path_end_at(tokens, pos, end) {
                None => error_at(pos, ParseErrorKind::ExpectedPath),
                Some(e) => Ok((AttributeName::Single(copy_tokens(tokens, pos, e)), e)),
            }
        }
    }
}

impl Attribute {
    /// Reads `AttributeName '=' Expr` at `pos`.
    pub fn parse(tokens: &Vec<Token>, pos: usize, end: usize) -> (r: Result<
        (Attribute, usize),
        ParseError,
    >)
        requires
            pos <= end <= tokens.len(),
        ensures
            match r {
                Ok((attribute, next)) => spec_attribute(toks(tokens@), pos as int, end as int)
                    == Ok::<_, ParseError>((attribute@, next as int)) && pos < next <= end,
                Err(e) => spec_attribute(toks(tokens@), pos as int, end as int) == Err::<
                    (crate::attribute::AttributeView, int),
                    _,
                >(e),
            },
    {
        match AttributeName::parse(tokens, pos, end) {
            Err(e) => Err(e),
            Ok((name, q)) => {
                if !punct_at(tokens, q, end, '=') {
                    return error_at(q, ParseErrorKind::ExpectedEquals);
                }
                match expr_end_at(tokens, q + 1, end) {
                    None => error_at(q + 1, ParseErrorKind::ExpectedExpression),
                    Some(e) => {
                        let value = copy_tokens(tokens, q + 1, e);
                        Ok((Attribute { name, value }, e))
                    },
                }
            },
        }
    }
}

impl Attributes {
    /// Reads the list of attributes in parentheses at `pos`.
    pub fn parse(tokens: &Vec<Token>, pos: usize, end: usize) -> (r: Result<
        (Attributes, usize),
        ParseError,
    >)
        requires
            pos <= end <= tokens.len(),
        ensures
            match r {
                Ok((attributes, next)) => spec_attributes(toks(tokens@), pos as int, end as int)
                    == Ok::<_, ParseError>((attributes@, next as int)) && pos < next <= end
                    && closing(toks(tokens@), pos as int, end as int, Delimiter::Parenthesis)
                    == Some(next - 1),
                Err(e) => spec_attributes(toks(tokens@), pos as int, end as int) == Err::<
                    (crate::attribute::AttributesView, int),
                    _,
                >(e),
            },
    {
        if !open_at(tokens, pos, end, Delimiter::Parenthesis) {
            return error_at(pos, ParseErrorKind::UnexpectedToken);
        }
        let close = match closing_of(tokens, pos, end, Delimiter::Parenthesis) {
            None => {
                return error_at(pos, ParseErrorKind::UnbalancedGroup);
            },
            Some(c) => c,
        };
        let ghost t = toks(tokens@);
        let mut attributes: Vec<Attribute> = Vec::new();
        let mut p: usize = pos + 1;
        while p < close
            invariant
                pos < p <= close + 1,
                close < end <= tokens.len(),
                t == toks(tokens@),
                at_open(t, pos as int, end as int, Delimiter::Parenthesis),
                closing(t, pos as int, end as int, Delimiter::Parenthesis) == Some(close as int),
                p == close + 1 ==> spec_attribute_list(t, pos + 1, close as int) == Ok::<
                    _,
                    ParseError,
                >(attributes@.map_values(|a: Attribute| a@)),
                p <= close ==> spec_attribute_list(t, pos + 1, close as int) == followed_by(
                    attributes@.map_values(|a: Attribute| a@),
                    spec_attribute_list(t, p as int, close as int),
                ),
            decreases close + 1 - p,
        {
            let ghost before = attributes@.map_values(|a: Attribute| a@);
            match Attribute::parse(tokens, p, close) {
                Err(e) => {
                    return Err(e);
                },
                Ok((attribute, q)) => {
                    let ghost value = attribute@;
                    attributes.push(attribute);
                    assert(attributes@.map_values(|a: Attribute| a@) =~= before.push(value));
                    if q >= close {
                        assert(before + seq![value] =~= before.push(value));
                        p = close + 1;
                    } else if !punct_at(tokens, q, close, ',') {
                        return error_at(q, ParseErrorKind::ExpectedComma);
                    } else {
                        p = q + 1;
                        proof {
                            let rest = spec_attribute_list(t, p as int, close as int);
                            match rest {
                                Ok(rest) => {
                                    assert(before + (seq![value] + rest) =~= before.push(value)
                                        + rest);
                                },
                                Err(_) => {},
                            }
                        }
                    }
                },
            }
        }
        proof {
            if p <= close {
                assert(attributes@.map_values(|a: Attribute| a@) + Seq::empty()
                    =~= attributes@.map_values(|a: Attribute| a@));
            }
        }
        Ok((Attributes { attributes }, close + 1))
    }
}

/// Finds the last tree of the window `pos..end`, where that tree is a group.
fn last_group_of(tokens: &Vec<Token>, pos: usize, end: usize) -> (r: Option<(usize, usize)>)
    requires
        pos <= end <= tokens.len(),
    ensures
        match r {
            Some((open, close)) => last_group(toks(tokens@), pos as int, end as int) == Some(
                (open as int, close as int),
            ) && pos <= open < close < end,
            None => last_group(toks(tokens@), pos as int, end as int) is None,
        },
{
    let ghost t = toks(tokens@);
    let mut p: usize = pos;
    loop
        invariant
            pos <= p <= end <= tokens.len(),
            t == toks(tokens@),
            last_group(t, pos as int, end as int) == last_group(t, p as int, end as int),
        decreases end - p,
    {
        match tree_end_of(tokens, p, end) {
            None => {
                return None;
            },
            Some(q) => {
                if q < end {
                    p = q;
                } else {
                    return match &tokens[p] {
                        Token::Open(_) => Some((p, q - 1)),
                        _ => None,
                    };
                }
            },
        }
    }
}

impl Annotation {
    /// Reads the annotations at `pos`: none where no `#` stands there.
    pub fn parse_outer(tokens: &Vec<Token>, pos: usize, end: usize) -> (r: Result<
        (Vec<Annotation>, usize),
        ParseError,
    >)
        requires
            pos <= end <= tokens.len(),
        ensures
            match r {
                Ok((annotations, next)) => spec_annotations(
                    toks(tokens@),
                    pos as int,
                    end as int,
                ) == Ok::<_, ParseError>(
                    (annotations@.map_values(|a: Annotation| a@), next as int),
                ) && pos <= next <= end,
                Err(e) => spec_annotations(toks(tokens@), pos as int, end as int) == Err::<
                    (Seq<crate::node::AnnotationView>, int),
                    _,
                >(e),
            },
    {
        let mut annotations: Vec<Annotation> = Vec::new();
        if !punct_at(tokens, pos, end, '#') {
            assert(annotations@.map_values(|a: Annotation| a@) =~= Seq::empty());
            return Ok((annotations, pos));
        }
        let text = render(tokens, pos, end);
        let last = match prefix_end_of(tokens, annotations_rest(text.as_str()), pos, end) {
            Some(last) => last,
            None => {
                return error_at(pos, ParseErrorKind::MalformedAnnotation);
            },
        };
        let ghost t = toks(tokens@);
        let mut p: usize = pos;
        while p < last
            invariant
                pos <= p <= last <= end <= tokens.len(),
                t == toks(tokens@),
                annotations_end(t, pos as int, end as int) == Some(last as int),
                spec_annotation_list(t, pos as int, last as int) == followed_by(
                    annotations@.map_values(|a: Annotation| a@),
                    spec_annotation_list(t, p as int, last as int),
                ),
            decreases last - p,
        {
            let ghost before = annotations@.map_values(|a: Annotation| a@);
            if !(punct_at(tokens, p, last, '#') && open_at(
                tokens,
                p + 1,
                last,
                Delimiter::Bracket,
            )) {
                return error_at(p, ParseErrorKind::MalformedAnnotation);
            }
            let close = match closing_of(tokens, p + 1, last, Delimiter::Bracket) {
                None => {
                    return error_at(p, ParseErrorKind::MalformedAnnotation);
                },
                Some(c) => c,
            };
            let own = copy_tokens(tokens, p, close + 1);
            let text = render(tokens, p, close + 1);
            let arguments = if annotation_has_arguments(text.as_str()) {
                match last_group_of(tokens, p + 2, close) {
                    Some((first, last)) => Some(copy_tokens(tokens, first + 1, last)),
                    None => None,
                }
            } else {
                None
            };
            let annotation = Annotation {
                name: annotation_name(text.as_str()),
                arguments,
                tokens: own,
            };
            let ghost value = annotation@;
            assert(value == annotation_of(t, p as int, close as int));
            annotations.push(annotation);
            assert(annotations@.map_values(|a: Annotation| a@) =~= before.push(value));
            proof {
                match spec_annotation_list(t, close + 1, last as int) {
                    Ok(rest) => {
                        assert(before + (seq![value] + rest) =~= before.push(value) + rest);
                    },
                    Err(_) => {},
                }
            }
            p = close + 1;
        }
        assert(annotations@.map_values(|a: Annotation| a@) + Seq::empty()
            =~= annotations@.map_values(|a: Annotation| a@));
        Ok((annotations, last))
    }
}

impl ExprNode {
    /// Reads `'(' Expr ')'` at `pos`.
    pub fn parse(tokens: &Vec<Token>, pos: usize, end: usize) -> (r: Result<
        (ExprNode, usize),
        ParseError,
    >)
        requires
            pos <= end <= tokens.len(),
        ensures
            match r {
                Ok((node, next)) => spec_expr_node(toks(tokens@), pos as int, end as int) == Ok::<
                    _,
                    ParseError,
                >((node@, next as int)) && pos < next <= end,
                Err(e) => spec_expr_node(toks(tokens@), pos as int, end as int) == Err::<
                    (crate::node::ExprNodeView, int),
                    _,
                >(e),
            },
    {
        if !open_at(tokens, pos, end, Delimiter::Parenthesis) {
            return error_at(pos, ParseErrorKind::UnexpectedToken);
        }
        match closing_of(tokens, pos, end, Delimiter::Parenthesis) {
            None => error_at(pos, ParseErrorKind::UnbalancedGroup),
            Some(close) => match expr_end_at(tokens, pos + 1, close) {
                None => error_at(pos + 1, ParseErrorKind::ExpectedExpression),
                Some(e) => if e != close {
                    error_at(e, ParseErrorKind::UnexpectedToken)
                } else {
                    Ok((ExprNode { expr: copy_tokens(tokens, pos + 1, close) }, close + 1))
                },
            },
        }
    }
}

/// Reads nodes until the window `pos..end` is used up.
pub fn parse_all(tokens: &Vec<Token>, pos: usize, end: usize) -> (r: Result<Vec<Node>, ParseError>)
    requires
        pos <= end <= tokens.len(),
    ensures
        match r {
            Ok(nodes) => spec_nodes(toks(tokens@), pos as int, end as int) == Ok::<_, ParseError>(
                nodes_view(nodes@),
            ),
            Err(e) => spec_nodes(toks(tokens@), pos as int, end as int) == Err::<
                Seq<crate::node::NodeView>,
                _,
            >(e),
        },
    decreases end - pos, 4int,
{
    let ghost t = toks(tokens@);
    let mut nodes: Vec<Node> = Vec::new();
    let mut p: usize = pos;
    while p < end
        invariant
            pos <= p <= end <= tokens.len(),
            t == toks(tokens@),
            spec_nodes(t, pos as int, end as int) == followed_by(
                nodes_view(nodes@),
                spec_nodes(t, p as int, end as int),
            ),
        decreases end - p,
    {
        let ghost before = nodes@;
        match Node::parse(tokens, p, end) {
            Err(e) => {
                return Err(e);
            },
            Ok((node, next)) => {
                proof {
                    lemma_nodes_view_push(before, node);
                    match spec_nodes(t, next as int, end as int) {
                        Ok(rest) => {
                            assert(nodes_view(before) + (seq![node_view(node)] + rest)
                                =~= nodes_view(before).push(node_view(node)) + rest);
                        },
                        Err(_) => {},
                    }
                }
                nodes.push(node);
                p = next;
            },
        }
    }
    assert(nodes_view(nodes@) + Seq::empty() =~= nodes_view(nodes@));
    Ok(nodes)
}

impl Nodes {
    /// Reads a whole template: the tokens have to be nodes from the first
    /// to the last.
    pub fn parse(tokens: &Vec<Token>) -> (r: Result<Nodes, ParseError>)
        ensures
            is_parse_of(r, toks(tokens@)),
    {
        match parse_all(tokens, 0, tokens.len()) {
            Err(e) => Err(e),
            Ok(nodes) => Ok(Nodes { nodes }),
        }
    }
}

impl Node {
    /// Reads a node with the annotations in front of it at `pos`.
    pub fn parse(tokens: &Vec<Token>, pos: usize, end: usize) -> (r: Result<
        (Node, usize),
        ParseError,
    >)
        requires
            pos <= end <= tokens.len(),
        ensures
            match r {
                Ok((node, next)) => spec_node(toks(tokens@), pos as int, end as int) == Ok::<
                    _,
                    ParseError,
                >((node_view(node), next as int)) && pos < next <= end,
                Err(e) => spec_node(toks(tokens@), pos as int, end as int) == Err::<
                    (crate::node::NodeView, int),
                    _,
                >(e),
            },
        decreases end - pos, 3int,
    {
        match Annotation::parse_outer(tokens, pos, end) {
            Err(e) => Err(e),
            Ok((attrs, q)) => match NodeType::parse(tokens, q, end) {
                Err(e) => Err(e),
                Ok((node, next)) => Ok((Node { attrs, node }, next)),
            },
        }
    }
}

impl NodeType {
    /// Reads a node without annotations at `pos`. The token at `pos`
    /// decides which kind of node is read.
    #[verifier::rlimit(60)]
    #[verifier::spinoff_prover]
    pub fn parse(tokens: &Vec<Token>, pos: usize, end: usize) -> (r: Result<
        (NodeType, usize),
        ParseError,
    >)
        requires
            pos <= end <= tokens.len(),
        ensures
            match r {
                Ok((node, next)) => spec_node_type(toks(tokens@), pos as int, end as int) == Ok::<
                    _,
                    ParseError,
                >((node_type_view(node), next as int)) && pos < next <= end,
                Err(e) => spec_node_type(toks(tokens@), pos as int, end as int) == Err::<
                    (crate::node::NodeTypeView, int),
                    _,
                >(e),
            },
        decreases end - pos, 2int,
    {
        if word_at(tokens, pos, end, "if") {
            match IfNode::parse(tokens, pos, end) {
                Err(e) => Err(e),
                Ok((node, next)) => Ok((NodeType::If(node), next)),
            }
        } else if word_at(tokens, pos, end, "for") {
            match ForNode::parse(tokens, pos, end) {
                Err(e) => Err(e),
                Ok((node, next)) => Ok((NodeType::For(node), next)),
            }
        } else if word_at(tokens, pos, end, "match") {
            match MatchNode::parse(tokens, pos, end) {
                Err(e) => Err(e),
                Ok((node, next)) => Ok((NodeType::Match(node), next)),
            }
        } else if string_at(tokens, pos, end) {
            Ok((NodeType::Text(text_of_token(tokens, pos)), pos + 1))
        } else if open_at(tokens, pos, end, Delimiter::Brace) {
            match Block::parse(tokens, pos, end) {
                Err(e) => Err(e),
                Ok((block, next)) => Ok((NodeType::Block(block), next)),
            }
        } else if open_at(tokens, pos, end, Delimiter::Parenthesis) {
            match ExprNode::parse(tokens, pos, end) {
                Err(e) => Err(e),
                Ok((node, next)) => Ok((NodeType::Expr(node), next)),
            }
        } else {
            match Element::parse(tokens, pos, end) {
                Err(e) => Err(e),
                Ok((node, next)) => Ok((NodeType::Element(node), next)),
            }
        }
    }
}

fn block_close_at(tokens: &Vec<Token>, pos: usize, end: usize) -> (r: Result<usize, ParseError>)
    requires
        pos <= end <= tokens.len(),
    ensures
        match r {
            Ok(c) => block_close(toks(tokens@), pos as int, end as int) == Ok::<_, ParseError>(
                c as int,
            ) && pos < c < end,
            Err(e) => block_close(toks(tokens@), pos as int, end as int) == Err::<int, _>(e),
        },
{
    if !open_at(tokens, pos, end, Delimiter::Brace) {
        return error_at(pos, ParseErrorKind::ExpectedBraces);
    }
    match closing_of(tokens, pos, end, Delimiter::Brace) {
        None => error_at(pos, ParseErrorKind::UnbalancedGroup),
        Some(c) => Ok(c),
    }
}

impl Block {
    /// Reads `'{' Node* '}'` at `pos`.
    pub fn parse(tokens: &Vec<Token>, pos: usize, end: usize) -> (r: Result<
        (Block, usize),
        ParseError,
    >)
        requires
            pos <= end <= tokens.len(),
        ensures
            match r {
                Ok((block, next)) => spec_block(toks(tokens@), pos as int, end as int) == Ok::<
                    _,
                    ParseError,
                >((nodes_view(block.nodes@), next as int)) && pos < next <= end,
                Err(e) => spec_block(toks(tokens@), pos as int, end as int) == Err::<
                    (Seq<crate::node::NodeView>, int),
                    _,
                >(e),
            },
        decreases end - pos, 1int,
    {
        match block_close_at(tokens, pos, end) {
            Err(e) => Err(e),
            Ok(close) => match parse_all(tokens, pos + 1, close) {
                Err(e) => Err(e),
                Ok(nodes) => Ok((Block { nodes }, close + 1)),
            },
        }
    }
}

impl Element {
    /// Reads `Path Attributes? Block` at `pos`.
    pub fn parse(tokens: &Vec<Token>, pos: usize, end: usize) -> (r: Result<
        (Element, usize),
        ParseError,
    >)
        requires
            pos <= end <= tokens.len(),
        ensures
            match r {
                Ok((element, next)) => spec_element(toks(tokens@), pos as int, end as int) == Ok::<
                    _,
                    ParseError,
                >((element_view(element), next as int)) && pos < next <= end,
                Err(e) => spec_element(toks(tokens@), pos as int, end as int) == Err::<
                    (crate::element::ElementView, int),
                    _,
                >(e),
            },
        decreases end - pos, 1int,
    {
        let q = match path_end_at(tokens, pos, end) {
            None => {
                return error_at(pos, ParseErrorKind::ExpectedPath);
            },
            Some(q) => q,
        };
        let path = copy_tokens(tokens, pos, q);
        if open_at(tokens, q, end, Delimiter::Parenthesis) {
            match Attributes::parse(tokens, q, end) {
                Err(e) => Err(e),
                Ok((attributes, b)) => match Block::parse(tokens, b, end) {
                    Err(e) => Err(e),
                    Ok((children, next)) => Ok(
                        (Element { path, attributes: Some(attributes), children }, next),
                    ),
                },
            }
        } else {
            match Block::parse(tokens, q, end) {
                Err(e) => Err(e),
                Ok((children, next)) => Ok((Element { path, attributes: None, children }, next)),
            }
        }
    }
}

impl IfNode {
    /// Reads a conditional with all of its chain at `pos`.
    pub fn parse(tokens: &Vec<Token>, pos: usize, end: usize) -> (r: Result<
        (IfNode, usize),
        ParseError,
    >)
        requires
            pos <= end <= tokens.len(),
        ensures
            match r {
                Ok((node, next)) => spec_if(toks(tokens@), pos as int, end as int) == Ok::<
                    _,
                    ParseError,
                >((if_node_view(node), next as int)) && pos < next <= end,
                Err(e) => spec_if(toks(tokens@), pos as int, end as int) == Err::<
                    (crate::if_node::IfNodeView, int),
                    _,
                >(e),
            },
        decreases end - pos, 1int,
    {
        if !word_at(tokens, pos, end, "if") {
            return error_at(pos, ParseErrorKind::UnexpectedToken);
        }
        let b = match condition_end_at(tokens, pos + 1, end) {
            None => {
                return error_at(pos + 1, ParseErrorKind::ExpectedExpression);
            },
            Some(b) => b,
        };
        let cond = copy_tokens(tokens, pos + 1, b);
        let close = match block_close_at(tokens, b, end) {
            Err(e) => {
                return Err(e);
            },
            Ok(c) => c,
        };
        let then_branch = match parse_all(tokens, b + 1, close) {
            Err(e) => {
                return Err(e);
            },
            Ok(nodes) => Block { nodes },
        };
        if !word_at(tokens, close + 1, end, "else") {
            Ok((IfNode { cond, then_branch, else_branch: None }, close + 1))
        } else {
            match ElseNode::parse(tokens, close + 2, end) {
                Err(e) => Err(e),
                Ok((else_branch, next)) => Ok(
                    (IfNode { cond, then_branch, else_branch: Some(else_branch) }, next),
                ),
            }
        }
    }
}

impl ElseNode {
    /// Reads what follows an `else` at `pos`: another conditional or a block.
    pub fn parse(tokens: &Vec<Token>, pos: usize, end: usize) -> (r: Result<
        (ElseNode, usize),
        ParseError,
    >)
        requires
            pos <= end <= tokens.len(),
        ensures
            match r {
                Ok((node, next)) => spec_else(toks(tokens@), pos as int, end as int) == Ok::<
                    _,
                    ParseError,
                >((node@, next as int)) && pos < next <= end,
                Err(e) => spec_else(toks(tokens@), pos as int, end as int) == Err::<
                    (crate::if_node::ElseNodeView, int),
                    _,
                >(e),
            },
        decreases end - pos, 2int,
    {
        if word_at(tokens, pos, end, "if") {
            match IfNode::parse(tokens, pos, end) {
                Err(e) => Err(e),
                Ok((node, next)) => Ok((ElseNode::If(Box::new(node)), next)),
            }
        } else {
            match Block::parse(tokens, pos, end) {
                Err(e) => Err(e),
                Ok((block, next)) => Ok((ElseNode::Else(block), next)),
            }
        }
    }
}

impl ForNode {
    /// Reads `'for' Pattern 'in' Expr Block` at `pos`.
    pub fn parse(tokens: &Vec<Token>, pos: usize, end: usize) -> (r: Result<
        (ForNode, usize),
        ParseError,
    >)
        requires
            pos <= end <= tokens.len(),
        ensures
            match r {
                Ok((node, next)) => spec_for(toks(tokens@), pos as int, end as int) == Ok::<
                    _,
                    ParseError,
                >((for_node_view(node), next as int)) && pos < next <= end,
                Err(e) => spec_for(toks(tokens@), pos as int, end as int) == Err::<
                    (crate::for_node::ForNodeView, int),
                    _,
                >(e),
            },
        decreases end - pos, 1int,
    {
        if !word_at(tokens, pos, end, "for") {
            return error_at(pos, ParseErrorKind::UnexpectedToken);
        }
        let i = match pattern_end_at(tokens, pos + 1, end) {
            None => {
                return error_at(pos + 1, ParseErrorKind::ExpectedPattern);
            },
            Some(i) => i,
        };
        if !word_at(tokens, i, end, "in") {
            return error_at(i, ParseErrorKind::ExpectedIn);
        }
        let b = match condition_end_at(tokens, i + 1, end) {
            None => {
                return error_at(i + 1, ParseErrorKind::ExpectedExpression);
            },
            Some(b) => b,
        };
        let pat = copy_tokens(tokens, pos + 1, i);
        let expr = copy_tokens(tokens, i + 1, b);
        match Block::parse(tokens, b, end) {
            Err(e) => Err(e),
            Ok((body, next)) => Ok((ForNode { pat, expr, body }, next)),
        }
    }
}

impl MatchNode {
    /// Reads `'match' Expr '{' MatchArm* '}'` at `pos`.
    pub fn parse(tokens: &Vec<Token>, pos: usize, end: usize) -> (r: Result<
        (MatchNode, usize),
        ParseError,
    >)
        requires
            pos <= end <= tokens.len(),
        ensures
            match r {
                Ok((node, next)) => spec_match(toks(tokens@), pos as int, end as int) == Ok::<
                    _,
                    ParseError,
                >((match_node_view(node), next as int)) && pos < next <= end,
                Err(e) => spec_match(toks(tokens@), pos as int, end as int) == Err::<
                    (crate::match_node::MatchNodeView, int),
                    _,
                >(e),
            },
        decreases end - pos, 1int,
    {
        if !word_at(tokens, pos, end, "match") {
            return error_at(pos, ParseErrorKind::UnexpectedToken);
        }
        let b = match condition_end_at(tokens, pos + 1, end) {
            None => {
                return error_at(pos + 1, ParseErrorKind::ExpectedExpression);
            },
            Some(b) => b,
        };
        let expr = copy_tokens(tokens, pos + 1, b);
        let close = match block_close_at(tokens, b, end) {
            Err(e) => {
                return Err(e);
            },
            Ok(c) => c,
        };
        let ghost t = toks(tokens@);
        let mut arms: Vec<MatchNodeArm> = Vec::new();
        let mut p: usize = b + 1;
        while p < close
            invariant
                pos < b < p <= close < end <= tokens.len(),
                t == toks(tokens@),
                spec_arms(t, b + 1, close as int) == followed_by(
                    arms_view(arms@),
                    spec_arms(t, p as int, close as int),
                ),
                at_word(t, pos as int, end as int, "match"@),
                condition_end(t, pos + 1, end as int) == Some(b as int),
                block_close(t, b as int, end as int) == Ok::<_, ParseError>(close as int),
            decreases close - p,
        {
            let ghost before = arms@;
            match MatchNodeArm::parse(tokens, p, close) {
                Err(e) => {
                    return Err(e);
                },
                Ok((arm, next)) => {
                    proof {
                        lemma_arms_view_push(before, arm);
                        match spec_arms(t, next as int, close as int) {
                            Ok(rest) => {
                                assert(arms_view(before) + (seq![arm_view(arm)] + rest)
                                    =~= arms_view(before).push(arm_view(arm)) + rest);
                            },
                            Err(_) => {},
                        }
                    }
                    arms.push(arm);
                    p = next;
                },
            }
        }
        assert(arms_view(arms@) + Seq::empty() =~= arms_view(arms@));
        Ok((MatchNode { expr, arms }, close + 1))
    }
}

/// Whether a match arm with this body has to end in a comma unless it is the
/// last arm: a text or an expression has to, what ends in a closing brace
/// need not.
pub fn requires_comma_to_be_match_arm(body: &Node) -> (yes: bool)
    ensures
        yes == requires_comma(node_view(*body).node),
{
    match &body.node {
        NodeType::Element(_)
        | NodeType::If(_)
        | NodeType::For(_)
        | NodeType::Match(_)
        | NodeType::Block(_) => false,
        NodeType::Expr(_) | NodeType::Text(_) => true,
    }
}

impl MatchNodeArm {
    /// Reads `Pattern ('if' Expr)? '=>' Node ','?` at `pos`.
    pub fn parse(tokens: &Vec<Token>, pos: usize, end: usize) -> (r: Result<
        (MatchNodeArm, usize),
        ParseError,
    >)
        requires
            pos <= end <= tokens.len(),
        ensures
            match r {
                Ok((arm, next)) => spec_arm(toks(tokens@), pos as int, end as int) == Ok::<
                    _,
                    ParseError,
                >((arm_view(arm), next as int)) && pos < next <= end,
                Err(e) => spec_arm(toks(tokens@), pos as int, end as int) == Err::<
                    (crate::match_node::MatchNodeArmView, int),
                    _,
                >(e),
            },
        decreases end - pos, 0int,
    {
        let g = match arm_pattern_end_at(tokens, pos, end) {
            None => {
                return error_at(pos, ParseErrorKind::ExpectedPattern);
            },
            Some(g) => g,
        };
        let pat = copy_tokens(tokens, pos, g);
        let mut guard: Option<Vec<Token>> = None;
        let mut a: usize = g;
        if word_at(tokens, g, end, "if") {
            match expr_end_at(tokens, g + 1, end) {
                None => {
                    return error_at(g + 1, ParseErrorKind::ExpectedExpression);
                },
                Some(e) => {
                    guard = Some(copy_tokens(tokens, g + 1, e));
                    a = e;
                },
            }
        }
        if !operator_at(tokens, a, end, '=', '>') {
            return error_at(a, ParseErrorKind::ExpectedFatArrow);
        }
        match Node::parse(tokens, a + 2, end) {
            Err(e) => Err(e),
            Ok((body, b)) => {
                if punct_at(tokens, b, end, ',') {
                    Ok((MatchNodeArm { pat, guard, body, comma: true }, b + 1))
                } else if requires_comma_to_be_match_arm(&body) && b < end {
                    error_at(b, ParseErrorKind::ExpectedComma)
                } else {
                    Ok((MatchNodeArm { pat, guard, body, comma: false }, b))
                }
            },
        }
    }
}

} // verus!
