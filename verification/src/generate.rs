//! The generator: lowers a parsed template to the tokens of the view macro's
//! markup. What each function returns is given by the function for the same
//! construct in [`crate::lower`].

use crate::attribute::{Attribute, AttributeName, Attributes};
use crate::block::{lemma_nodes_view_push, nodes_view, Block};
use crate::element::{element_view, Element};
use crate::error::GenerateError;
use crate::for_node::{for_node_view, ForNode};
use crate::if_node::{if_node_view, ElseNode, IfNode};
use crate::match_node::{
    arm_view,
    arms_view,
    lemma_arms_view_push,
    match_node_view,
    MatchNode,
    MatchNodeArm,
};
use crate::lower::{
    any_view,
    binding,
    braced,
    collected_loop,
    joint,
    keyed_loop,
    lower_arm,
    lower_arms,
    lower_attribute,
    lower_attribute_name,
    lower_attributes,
    lower_chain,
    lower_element,
    lower_for,
    lower_if,
    lower_match,
    lower_node,
    lower_nodes,
    lower_show,
    parenthesized,
    punct,
    reactive,
    sub_view,
    word,
};
use crate::node::{node_view, Annotation, Node, NodeType};
use crate::resolve::{
    annotations_view,
    resolve_for,
    resolve_if,
    resolve_with,
    ForStrategy,
    IfStrategy,
};
use crate::token::{copy_tokens, toks, Delimiter, Tok, Token};
use vstd::prelude::*;
use vstd::string::*;

verus! {

/// The outcome of a generator as mathematics: the values of the tokens, or
/// the error.
pub open spec fn generated(r: Result<Vec<Token>, GenerateError>) -> Result<
    Seq<Tok>,
    GenerateError,
> {
    match r {
        Ok(tokens) => Ok(toks(tokens@)),
        Err(e) => Err(e),
    }
}

pub(crate) fn word_token(name: &str) -> (token: Token)
    ensures
        token@ == word(name@),
{
    Token::Ident(String::from_str(name))
}

pub(crate) fn punct_token(c: char) -> (token: Token)
    ensures
        token@ == punct(c),
{
    Token::Punct(c, false)
}

pub(crate) fn joint_token(c: char) -> (token: Token)
    ensures
        token@ == joint(c),
{
    Token::Punct(c, true)
}

/// The tokens with one more behind them.
pub(crate) fn with_token(tokens: Vec<Token>, token: Token) -> (r: Vec<Token>)
    ensures
        toks(r@) == toks(tokens@).push(token@),
{
    let mut tokens = tokens;
    let ghost before = tokens@;
    tokens.push(token);
    assert(toks(tokens@) =~= toks(before).push(token@));
    tokens
}

/// No tokens.
pub(crate) fn nothing() -> (r: Vec<Token>)
    ensures
        toks(r@) == Seq::<Tok>::empty(),
{
    let r: Vec<Token> = Vec::new();
    assert(toks(r@) =~= Seq::<Tok>::empty());
    r
}

/// The first tokens with the second behind them.
pub(crate) fn join(first: Vec<Token>, second: Vec<Token>) -> (r: Vec<Token>)
    ensures
        toks(r@) == toks(first@) + toks(second@),
{
    let mut first = first;
    let mut second = second;
    let ghost a = first@;
    let ghost b = second@;
    first.append(&mut second);
    assert(toks(first@) =~= toks(a) + toks(b));
    first
}

/// A copy of the tokens.
fn copy_of(tokens: &Vec<Token>) -> (r: Vec<Token>)
    ensures
        toks(r@) == toks(tokens@),
{
    let r = copy_tokens(tokens, 0, tokens.len());
    assert(toks(tokens@).subrange(0, tokens.len() as int) =~= toks(tokens@));
    r
}

fn delimited(open: Token, inner: Vec<Token>, close: Token) -> (r: Vec<Token>)
    ensures
        toks(r@) == seq![open@] + toks(inner@) + seq![close@],
{
    let r = with_token(join(with_token(nothing(), open), inner), close);
    assert(toks(r@) =~= seq![open@] + toks(inner@) + seq![close@]);
    r
}

pub(crate) fn braced_tokens(inner: Vec<Token>) -> (r: Vec<Token>)
    ensures
        toks(r@) == braced(toks(inner@)),
{
    delimited(Token::Open(Delimiter::Brace), inner, Token::Close(Delimiter::Brace))
}

fn parenthesized_tokens(inner: Vec<Token>) -> (r: Vec<Token>)
    ensures
        toks(r@) == parenthesized(toks(inner@)),
{
    delimited(Token::Open(Delimiter::Parenthesis), inner, Token::Close(Delimiter::Parenthesis))
}

fn sub_view_tokens(inner: Vec<Token>) -> (r: Vec<Token>)
    ensures
        toks(r@) == sub_view(toks(inner@)),
{
    let head = with_token(with_token(nothing(), word_token("view")), punct_token('!'));
    assert(toks(head@) =~= seq![word("view"@), punct('!')]);
    join(head, braced_tokens(inner))
}

fn any_view_tokens(inner: Vec<Token>) -> (r: Vec<Token>)
    ensures
        toks(r@) == any_view(toks(inner@)),
{
    let tail = with_token(
        with_token(
            with_token(with_token(nothing(), punct_token('.')), word_token("into_any")),
            Token::Open(Delimiter::Parenthesis),
        ),
        Token::Close(Delimiter::Parenthesis),
    );
    assert(toks(tail@) =~= seq![
        punct('.'),
        word("into_any"@),
        Tok::Open(Delimiter::Parenthesis),
        Tok::Close(Delimiter::Parenthesis),
    ]);
    join(sub_view_tokens(inner), tail)
}

fn reactive_tokens() -> (r: Vec<Token>)
    ensures
        toks(r@) == reactive(),
{
    let r = with_token(
        with_token(with_token(nothing(), word_token("move")), joint_token('|')),
        punct_token('|'),
    );
    assert(toks(r@) =~= reactive());
    r
}

fn binding_tokens(owning: bool, pat: &Vec<Token>) -> (r: Vec<Token>)
    ensures
        toks(r@) == binding(owning, toks(pat@)),
{
    let head = if owning {
        let head = with_token(nothing(), word_token("move"));
        assert(toks(head@) =~= seq![word("move"@)]);
        head
    } else {
        nothing()
    };
    let bar = with_token(nothing(), punct_token('|'));
    assert(toks(bar@) =~= seq![punct('|')]);
    let close = with_token(nothing(), punct_token('|'));
    assert(toks(close@) =~= seq![punct('|')]);
    join(join(join(head, bar), copy_of(pat)), close)
}

/// Lowers the name of an attribute.
pub fn generate_attribute_name(name: &AttributeName) -> (r: Result<Vec<Token>, GenerateError>)
    ensures
        generated(r) == lower_attribute_name(name@),
{
    match name {
        AttributeName::Single(path) => Ok(copy_of(path)),
        AttributeName::Directive(d) => {
            let head = with_token(
                with_token(nothing(), word_token(d.directive.as_str())),
                punct_token(':'),
            );
            assert(toks(head@) =~= seq![word(d.directive@), punct(':')]);
            Ok(join(head, copy_of(&d.path)))
        },
        AttributeName::Quoted(_) => Err(GenerateError::QuotedAttributeName),
    }
}

/// Lowers one attribute.
pub fn generate_attribute(attribute: &Attribute) -> (r: Result<Vec<Token>, GenerateError>)
    ensures
        generated(r) == lower_attribute(attribute@),
{
    match generate_attribute_name(&attribute.name) {
        Err(e) => Err(e),
        Ok(name) => {
            let equals = with_token(nothing(), punct_token('='));
            assert(toks(equals@) =~= seq![punct('=')]);
            Ok(join(join(name, equals), braced_tokens(copy_of(&attribute.value))))
        },
    }
}

/// Lowers a list of attributes, in their order.
fn generate_attributes(attributes: &Attributes) -> (r: Result<Vec<Token>, GenerateError>)
    ensures
        generated(r) == lower_attributes(attributes@.attributes),
{
    let ghost views = attributes@.attributes;
    let mut out = nothing();
    let mut i: usize = 0;
    assert(views.take(0) =~= Seq::empty());
    while i < attributes.attributes.len()
        invariant
            i <= attributes.attributes.len(),
            views == attributes.attributes@.map_values(|a: Attribute| a@),
            lower_attributes(views.take(i as int)) == Ok::<_, GenerateError>(toks(out@)),
        decreases attributes.attributes.len() - i,
    {
        assert(views.take(i + 1).drop_last() =~= views.take(i as int));
        assert(views.take(i + 1).last() == attributes.attributes@[i as int]@);
        match generate_attribute(&attributes.attributes[i]) {
            Err(e) => {
                proof {
                    lemma_lower_attributes_fail(views, i + 1);
                }
                return Err(e);
            },
            Ok(attribute) => {
                out = join(out, attribute);
            },
        }
        i = i + 1;
    }
    assert(views.take(i as int) =~= views);
    Ok(out)
}

/// Once the first `n` attributes cannot be lowered, all of them cannot, for
/// the same reason.
proof fn lemma_lower_attributes_fail(attributes: Seq<crate::attribute::AttributeView>, n: int)
    requires
        0 <= n <= attributes.len(),
        lower_attributes(attributes.take(n)) is Err,
    ensures
        lower_attributes(attributes) == lower_attributes(attributes.take(n)),
    decreases attributes.len() - n,
{
    if n == attributes.len() {
        assert(attributes.take(n) =~= attributes);
    } else {
        assert(attributes.take(n + 1).drop_last() =~= attributes.take(n));
        lemma_lower_attributes_fail(attributes, n + 1);
    }
}

/// Once the first `n` nodes cannot be lowered, all of them cannot, for the
/// same reason.
proof fn lemma_lower_nodes_fail(nodes: Seq<crate::node::NodeView>, n: int)
    requires
        0 <= n <= nodes.len(),
        lower_nodes(nodes.take(n)) is Err,
    ensures
        lower_nodes(nodes) == lower_nodes(nodes.take(n)),
    decreases nodes.len() - n,
{
    if n == nodes.len() {
        assert(nodes.take(n) =~= nodes);
    } else {
        assert(nodes.take(n + 1).drop_last() =~= nodes.take(n));
        lemma_lower_nodes_fail(nodes, n + 1);
    }
}

/// Once the first `n` arms cannot be lowered, all of them cannot, for the
/// same reason.
proof fn lemma_lower_arms_fail(arms: Seq<crate::match_node::MatchNodeArmView>, n: int)
    requires
        0 <= n <= arms.len(),
        lower_arms(arms.take(n)) is Err,
    ensures
        lower_arms(arms) == lower_arms(arms.take(n)),
    decreases arms.len() - n,
{
    if n == arms.len() {
        assert(arms.take(n) =~= arms);
    } else {
        assert(arms.take(n + 1).drop_last() =~= arms.take(n));
        lemma_lower_arms_fail(arms, n + 1);
    }
}

/// Lowers nodes one after another, in their order.
pub fn generate_nodes(nodes: &Vec<Node>) -> (r: Result<Vec<Token>, GenerateError>)
    ensures
        generated(r) == lower_nodes(nodes_view(nodes@)),
    decreases *nodes,
{
    let ghost views = nodes_view(nodes@);
    let mut out = nothing();
    let mut i: usize = 0;
    assert(nodes@.take(0) =~= Seq::empty());
    while i < nodes.len()
        invariant
            i <= nodes.len(),
            views == nodes_view(nodes@),
            lower_nodes(nodes_view(nodes@.take(i as int))) == Ok::<_, GenerateError>(
                toks(out@),
            ),
        decreases nodes.len() - i,
    {
        proof {
            assert(nodes@.take(i + 1) =~= nodes@.take(i as int).push(
                nodes@[i as int],
            ));
            lemma_nodes_view_push(nodes@.take(i as int), nodes@[i as int]);
            let next = nodes_view(nodes@.take(i + 1));
            assert(next.drop_last() =~= nodes_view(nodes@.take(i as int)));
        }
        match generate_node(&nodes[i]) {
            Err(e) => {
                proof {
                    lemma_nodes_view_take(nodes@, i + 1);
                    lemma_lower_nodes_fail(views, i + 1);
                }
                return Err(e);
            },
            Ok(node) => {
                out = join(out, node);
            },
        }
        i = i + 1;
    }
    assert(nodes@.take(i as int) =~= nodes@);
    Ok(out)
}

/// Lowers the nodes of a block, in their order.
pub fn generate_block(block: &Block) -> (r: Result<Vec<Token>, GenerateError>)
    ensures
        generated(r) == lower_nodes(nodes_view(block.nodes@)),
    decreases *block,
{
    generate_nodes(&block.nodes)
}

/// The values of the first `n` nodes are the first `n` of the values.
proof fn lemma_nodes_view_take(nodes: Seq<Node>, n: int)
    requires
        0 <= n <= nodes.len(),
    ensures
        nodes_view(nodes).len() == nodes.len(),
        nodes_view(nodes.take(n)) == nodes_view(nodes).take(n),
    decreases nodes.len(),
{
    if nodes.len() == 0 {
        assert(nodes.take(n) =~= nodes);
        assert(nodes_view(nodes).take(n) =~= nodes_view(nodes));
    } else {
        lemma_nodes_view_take(nodes.drop_last(), if n < nodes.len() {
            n
        } else {
            n - 1
        });
        if n == nodes.len() {
            assert(nodes.take(n) =~= nodes);
            assert(nodes_view(nodes).take(n) =~= nodes_view(nodes));
        } else {
            assert(nodes.take(n) =~= nodes.drop_last().take(n));
            assert(nodes_view(nodes).take(n) =~= nodes_view(nodes.drop_last()).take(n));
        }
    }
}

/// The values of the first `n` arms are the first `n` of the values.
proof fn lemma_arms_view_take(arms: Seq<MatchNodeArm>, n: int)
    requires
        0 <= n <= arms.len(),
    ensures
        arms_view(arms).len() == arms.len(),
        arms_view(arms.take(n)) == arms_view(arms).take(n),
    decreases arms.len(),
{
    if arms.len() == 0 {
        assert(arms.take(n) =~= arms);
        assert(arms_view(arms).take(n) =~= arms_view(arms));
    } else {
        lemma_arms_view_take(arms.drop_last(), if n < arms.len() {
            n
        } else {
            n - 1
        });
        if n == arms.len() {
            assert(arms.take(n) =~= arms);
            assert(arms_view(arms).take(n) =~= arms_view(arms));
        } else {
            assert(arms.take(n) =~= arms.drop_last().take(n));
            assert(arms_view(arms).take(n) =~= arms_view(arms.drop_last()).take(n));
        }
    }
}

/// Lowers an element to its opening tag, its children and its closing tag.
pub fn generate_element(el: &Element) -> (r: Result<Vec<Token>, GenerateError>)
    ensures
        generated(r) == lower_element(element_view(*el)),
    decreases *el,
{
    let attributes = match &el.attributes {
        Some(attributes) => match generate_attributes(attributes) {
            Err(e) => {
                return Err(e);
            },
            Ok(attributes) => attributes,
        },
        None => nothing(),
    };
    let children = match generate_block(&el.children) {
        Err(e) => {
            return Err(e);
        },
        Ok(children) => children,
    };
    let open = with_token(nothing(), punct_token('<'));
    assert(toks(open@) =~= seq![punct('<')]);
    let end_open = with_token(nothing(), punct_token('>'));
    assert(toks(end_open@) =~= seq![punct('>')]);
    let close = with_token(with_token(nothing(), punct_token('<')), punct_token('/'));
    assert(toks(close@) =~= seq![punct('<'), punct('/')]);
    let end_close = with_token(nothing(), punct_token('>'));
    assert(toks(end_close@) =~= seq![punct('>')]);
    Ok(
        join(
            join(
                join(
                    join(join(join(join(open, copy_of(&el.path)), attributes), end_open), children),
                    close,
                ),
                copy_of(&el.path),
            ),
            end_close,
        ),
    )
}

/// Lowers a conditional to a chain of the host language.
fn generate_chain(node: &IfNode) -> (r: Result<Vec<Token>, GenerateError>)
    ensures
        generated(r) == lower_chain(if_node_view(*node)),
    decreases *node, 0int,
{
    let then_branch = match generate_block(&node.then_branch) {
        Err(e) => {
            return Err(e);
        },
        Ok(tokens) => tokens,
    };
    let otherwise = match &node.else_branch {
        None => braced_tokens(any_view_tokens(nothing())),
        Some(ElseNode::If(next)) => match generate_chain(next) {
            Err(e) => {
                return Err(e);
            },
            Ok(tokens) => tokens,
        },
        Some(ElseNode::Else(block)) => match generate_block(block) {
            Err(e) => {
                return Err(e);
            },
            Ok(tokens) => braced_tokens(any_view_tokens(tokens)),
        },
    };
    let head = with_token(nothing(), word_token("if"));
    assert(toks(head@) =~= seq![word("if"@)]);
    let other = with_token(nothing(), word_token("else"));
    assert(toks(other@) =~= seq![word("else"@)]);
    Ok(
        join(
            join(
                join(join(head, copy_of(&node.cond)), braced_tokens(any_view_tokens(then_branch))),
                other,
            ),
            otherwise,
        ),
    )
}

/// Lowers a conditional to the component that shows one of two views.
fn generate_show(node: &IfNode) -> (r: Result<Vec<Token>, GenerateError>)
    ensures
        generated(r) == lower_show(if_node_view(*node)),
    decreases *node, 0int,
{
    let fallback = match &node.else_branch {
        None => nothing(),
        Some(otherwise) => {
            let otherwise = match otherwise {
                ElseNode::If(next) => generate_show(next),
                ElseNode::Else(block) => generate_block(block),
            };
            match otherwise {
                Err(e) => {
                    return Err(e);
                },
                Ok(tokens) => {
                    let head = with_token(
                        with_token(nothing(), word_token("fallback")),
                        punct_token('='),
                    );
                    assert(toks(head@) =~= seq![word("fallback"@), punct('=')]);
                    join(
                        head,
                        parenthesized_tokens(join(reactive_tokens(), sub_view_tokens(tokens))),
                    )
                },
            }
        },
    };
    let then_branch = match generate_block(&node.then_branch) {
        Err(e) => {
            return Err(e);
        },
        Ok(tokens) => tokens,
    };
    let open = with_token(
        with_token(
            with_token(with_token(nothing(), punct_token('<')), word_token("Show")),
            word_token("when"),
        ),
        punct_token('='),
    );
    assert(toks(open@) =~= seq![punct('<'), word("Show"@), word("when"@), punct('=')]);
    let end_open = with_token(nothing(), punct_token('>'));
    assert(toks(end_open@) =~= seq![punct('>')]);
    let close = with_token(
        with_token(
            with_token(with_token(nothing(), punct_token('<')), punct_token('/')),
            word_token("Show"),
        ),
        punct_token('>'),
    );
    assert(toks(close@) =~= seq![punct('<'), punct('/'), word("Show"@), punct('>')]);
    Ok(
        join(
            join(
                join(
                    join(
                        join(
                            open,
                            parenthesized_tokens(join(reactive_tokens(), copy_of(&node.cond))),
                        ),
                        fallback,
                    ),
                    end_open,
                ),
                then_branch,
            ),
            close,
        ),
    )
}

/// Lowers a conditional: to a component where one of the annotations is
/// `show`, else to a chain in a closure.
pub fn generate_if_node(if_node: &IfNode, attrs: &Vec<Annotation>) -> (r: Result<
    Vec<Token>,
    GenerateError,
>)
    ensures
        generated(r) == lower_if(if_node_view(*if_node), annotations_view(attrs@)),
    decreases *if_node, 1int,
{
    match resolve_if(attrs) {
        IfStrategy::Show => generate_show(if_node),
        IfStrategy::Closure => match generate_chain(if_node) {
            Err(e) => Err(e),
            Ok(chain) => Ok(braced_tokens(join(reactive_tokens(), chain))),
        },
    }
}

/// Lowers a node.
pub fn generate_node(node: &Node) -> (r: Result<Vec<Token>, GenerateError>)
    ensures
        generated(r) == lower_node(node_view(*node)),
    decreases *node,
{
    let inner = match &node.node {
        NodeType::Element(element) => generate_element(element),
        NodeType::Text(literal) => {
            let text = with_token(nothing(), Token::Literal(literal.clone()));
            assert(toks(text@) =~= seq![Tok::Literal(literal@)]);
            Ok(text)
        },
        NodeType::Expr(expr) => Ok(braced_tokens(copy_of(&expr.expr))),
        NodeType::If(if_node) => generate_if_node(if_node, &node.attrs),
        NodeType::For(for_node) => generate_for_node(for_node, &node.attrs),
        NodeType::Match(match_node) => generate_match_node(match_node),
        NodeType::Block(block) => generate_block(block),
    };
    let inner = match inner {
        Err(e) => {
            return Err(e);
        },
        Ok(inner) => inner,
    };
    match resolve_with(&node.attrs) {
        Err(e) => Err(e),
        Ok(Some(statements)) => Ok(
            braced_tokens(braced_tokens(join(statements, sub_view_tokens(inner)))),
        ),
        Ok(None) => Ok(inner),
    }
}

/// The tokens of a loop that is collected anew each time.
fn collected_loop_tokens(node: &ForNode, body: Vec<Token>) -> (r: Vec<Token>)
    ensures
        toks(r@) == collected_loop(for_node_view(*node), toks(body@)),
{
    let first = with_token(
        with_token(
            with_token(
                with_token(
                    with_token(with_token(nothing(), punct_token('.')), word_token("into_iter")),
                    Token::Open(Delimiter::Parenthesis),
                ),
                Token::Close(Delimiter::Parenthesis),
            ),
            punct_token('.'),
        ),
        word_token("map"),
    );
    assert(toks(first@) =~= seq![
        punct('.'),
        word("into_iter"@),
        Tok::Open(Delimiter::Parenthesis),
        Tok::Close(Delimiter::Parenthesis),
        punct('.'),
        word("map"@),
    ]);
    braced_tokens(
        join(
            join(
                join(parenthesized_tokens(copy_of(&node.expr)), first),
                parenthesized_tokens(join(binding_tokens(false, &node.pat), sub_view_tokens(body))),
            ),
            collect_tokens(),
        ),
    )
}

/// The tokens of a keyed loop.
fn keyed_loop_tokens(node: &ForNode, key: Vec<Token>, body: Vec<Token>) -> (r: Vec<Token>)
    ensures
        toks(r@) == keyed_loop(for_node_view(*node), toks(key@), toks(body@)),
{
    let open = with_token(
        with_token(
            with_token(with_token(nothing(), punct_token('<')), word_token("For")),
            word_token("each"),
        ),
        punct_token('='),
    );
    assert(toks(open@) =~= seq![punct('<'), word("For"@), word("each"@), punct('=')]);
    let by = with_token(with_token(nothing(), word_token("key")), punct_token('='));
    assert(toks(by@) =~= seq![word("key"@), punct('=')]);
    let children = with_token(with_token(nothing(), word_token("children")), punct_token('='));
    assert(toks(children@) =~= seq![word("children"@), punct('=')]);
    let close = with_token(with_token(nothing(), punct_token('/')), punct_token('>'));
    assert(toks(close@) =~= seq![punct('/'), punct('>')]);
    join(
        join(
            join(
                join(
                    join(
                        join(
                            open,
                            parenthesized_tokens(
                                join(reactive_tokens(), braced_tokens(copy_of(&node.expr))),
                            ),
                        ),
                        by,
                    ),
                    parenthesized_tokens(join(binding_tokens(true, &node.pat), braced_tokens(key))),
                ),
                children,
            ),
            parenthesized_tokens(
                join(binding_tokens(true, &node.pat), braced_tokens(sub_view_tokens(body))),
            ),
        ),
        close,
    )
}

/// Lowers a loop: to the keyed component where one of the annotations is
/// `key`, else to a list that is collected anew each time.
pub fn generate_for_node(for_node: &ForNode, attrs: &Vec<Annotation>) -> (r: Result<
    Vec<Token>,
    GenerateError,
>)
    ensures
        generated(r) == lower_for(for_node_view(*for_node), annotations_view(attrs@)),
    decreases *for_node,
{
    let body = match generate_block(&for_node.body) {
        Err(e) => {
            return Err(e);
        },
        Ok(body) => body,
    };
    match resolve_for(attrs) {
        Err(e) => Err(e),
        Ok(ForStrategy::Collect) => Ok(collected_loop_tokens(for_node, body)),
        Ok(ForStrategy::Keyed(key)) => Ok(keyed_loop_tokens(for_node, key, body)),
    }
}

/// `.collect::<Vec<_>>()`
fn collect_tokens() -> (r: Vec<Token>)
    ensures
        toks(r@) == seq![
            punct('.'),
            word("collect"@),
            joint(':'),
            punct(':'),
            punct('<'),
            word("Vec"@),
            punct('<'),
            word("_"@),
            joint('>'),
            punct('>'),
            Tok::Open(Delimiter::Parenthesis),
            Tok::Close(Delimiter::Parenthesis),
        ],
{
    let a = with_token(
        with_token(
            with_token(
                with_token(with_token(nothing(), punct_token('.')), word_token("collect")),
                joint_token(':'),
            ),
            punct_token(':'),
        ),
        punct_token('<'),
    );
    let b = with_token(
        with_token(
            with_token(with_token(a, word_token("Vec")), punct_token('<')),
            word_token("_"),
        ),
        joint_token('>'),
    );
    let c = with_token(
        with_token(with_token(b, punct_token('>')), Token::Open(Delimiter::Parenthesis)),
        Token::Close(Delimiter::Parenthesis),
    );
    assert(toks(c@) =~= seq![
        punct('.'),
        word("collect"@),
        joint(':'),
        punct(':'),
        punct('<'),
        word("Vec"@),
        punct('<'),
        word("_"@),
        joint('>'),
        punct('>'),
        Tok::Open(Delimiter::Parenthesis),
        Tok::Close(Delimiter::Parenthesis),
    ]);
    c
}

/// Lowers one arm of a match, with its body as a sub-view.
pub fn generate_match_node_arm(arm: &MatchNodeArm) -> (r: Result<Vec<Token>, GenerateError>)
    ensures
        generated(r) == lower_arm(arm_view(*arm)),
    decreases *arm,
{
    let body = match generate_node(&arm.body) {
        Err(e) => {
            return Err(e);
        },
        Ok(body) => body,
    };
    let guard = match &arm.guard {
        Some(guard) => {
            let head = with_token(nothing(), word_token("if"));
            assert(toks(head@) =~= seq![word("if"@)]);
            join(head, copy_of(guard))
        },
        None => nothing(),
    };
    let arrow = with_token(with_token(nothing(), joint_token('=')), punct_token('>'));
    assert(toks(arrow@) =~= seq![joint('='), punct('>')]);
    let comma = with_token(nothing(), punct_token(','));
    assert(toks(comma@) =~= seq![punct(',')]);
    Ok(join(join(join(join(copy_of(&arm.pat), guard), arrow), any_view_tokens(body)), comma))
}

/// Lowers a match to a match of the host language in a closure, with the
/// arms in their order.
pub fn generate_match_node(node: &MatchNode) -> (r: Result<Vec<Token>, GenerateError>)
    ensures
        generated(r) == lower_match(match_node_view(*node)),
    decreases *node,
{
    let ghost views = arms_view(node.arms@);
    let mut arms = nothing();
    let mut i: usize = 0;
    assert(node.arms@.take(0) =~= Seq::empty());
    while i < node.arms.len()
        invariant
            i <= node.arms.len(),
            views == arms_view(node.arms@),
            lower_arms(arms_view(node.arms@.take(i as int))) == Ok::<_, GenerateError>(
                toks(arms@),
            ),
        decreases node.arms.len() - i,
    {
        proof {
            assert(node.arms@.take(i + 1) =~= node.arms@.take(i as int).push(
                node.arms@[i as int],
            ));
            lemma_arms_view_push(node.arms@.take(i as int), node.arms@[i as int]);
            let next = arms_view(node.arms@.take(i + 1));
            assert(next.drop_last() =~= arms_view(node.arms@.take(i as int)));
        }
        match generate_match_node_arm(&node.arms[i]) {
            Err(e) => {
                proof {
                    lemma_arms_view_take(node.arms@, i + 1);
                    lemma_lower_arms_fail(views, i + 1);
                }
                return Err(e);
            },
            Ok(arm) => {
                arms = join(arms, arm);
            },
        }
        i = i + 1;
    }
    assert(node.arms@.take(i as int) =~= node.arms@);
    let head = with_token(nothing(), word_token("match"));
    assert(toks(head@) =~= seq![word("match"@)]);
    Ok(
        braced_tokens(
            join(join(join(reactive_tokens(), head), copy_of(&node.expr)), braced_tokens(arms)),
        ),
    )
}

} // verus!
