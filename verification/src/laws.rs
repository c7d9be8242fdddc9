//! What holds of the compiler as a whole.

use crate::attribute::AttributeNameView;
use crate::block::Nodes;
use crate::error::{GenerateError, ParseError, ParseErrorKind};
use crate::for_node::ForNodeView;
use crate::grammar::{
    annotations_end,
    at_directive,
    at_open,
    at_operator,
    at_punct,
    at_string,
    at_word,
    block_close,
    closing,
    condition_end,
    fail,
    followed_by,
    path_end,
    pattern_end,
    requires_comma,
    spec_arm,
    spec_arm_head,
    spec_arms,
    spec_attribute_name,
    spec_block,
    spec_element,
    spec_else,
    spec_for,
    spec_if,
    spec_match,
    spec_node,
    spec_node_type,
    spec_nodes,
    spec_template,
    text_at,
    window,
};
use crate::if_node::{ElseNodeView, IfNodeView};
use crate::lower::{
    any_view,
    binding,
    braced,
    lower_chain,
    lower_for,
    lower_if,
    lower_node,
    lower_node_type,
    lower_nodes,
    parenthesized,
    punct,
    reactive,
    sub_view,
    word,
};
use crate::match_node::MatchNodeArmView;
use crate::resolve::{for_strategy, if_strategy, ForStrategyView, IfStrategy};
use crate::node::{AnnotationView, NodeTypeView, NodeView};
use crate::token::{Delimiter, Tok};
use vstd::prelude::*;

verus! {

/// Whether `outcome` is what parsing the tokens `t` gives: the template that
/// the grammar reads from them, or the error that it gives.
pub open spec fn is_parse_of(outcome: Result<Nodes, ParseError>, t: Seq<Tok>) -> bool {
    match outcome {
        Ok(nodes) => spec_template(t) == Ok::<_, ParseError>(nodes@.nodes),
        Err(e) => spec_template(t) == Err::<Seq<NodeView>, _>(e),
    }
}

/// Parsing the same tokens twice gives the same outcome: both times the
/// same error, or templates of equal structure, with the same nodes of the
/// same kinds in the same order.
pub proof fn law_parsing_is_repeatable(
    t: Seq<Tok>,
    first: Result<Nodes, ParseError>,
    second: Result<Nodes, ParseError>,
)
    requires
        is_parse_of(first, t),
        is_parse_of(second, t),
    ensures
        match (first, second) {
            (Ok(a), Ok(b)) => a@ == b@,
            (Err(a), Err(b)) => a == b,
            _ => false,
        },
{
}

/// Lowering keeps the order of nodes: what two sequences of nodes lower to,
/// one behind the other, is what the first lowers to followed by what the
/// second lowers to. Where a node cannot be lowered, the first such node
/// decides the error.
pub proof fn law_lowering_keeps_order(first: Seq<NodeView>, second: Seq<NodeView>)
    ensures
        lower_nodes(first + second) == match lower_nodes(first) {
            Err(e) => Err(e),
            Ok(a) => match lower_nodes(second) {
                Err(e) => Err(e),
                Ok(b) => Ok(a + b),
            },
        },
    decreases second.len(),
{
    if second.len() == 0 {
        assert(first + second =~= first);
        match lower_nodes(first) {
            Ok(a) => {
                assert(a + Seq::<Tok>::empty() =~= a);
            },
            Err(_) => {},
        }
    } else {
        assert((first + second).drop_last() =~= first + second.drop_last());
        assert((first + second).last() == second.last());
        law_lowering_keeps_order(first, second.drop_last());
        match (lower_nodes(first), lower_nodes(second.drop_last()), lower_node(second.last())) {
            (Ok(a), Ok(b), Ok(c)) => {
                assert((a + b) + c =~= a + (b + c));
            },
            _ => {},
        }
    }
}

/// A block of three nodes lowers to what the first, the second and the
/// third lower to, in that order, with nothing around or between them.
pub proof fn law_block_of_three(
    first: NodeView,
    second: NodeView,
    third: NodeView,
    attrs: Seq<AnnotationView>,
)
    requires
        lower_node(first) is Ok,
        lower_node(second) is Ok,
        lower_node(third) is Ok,
    ensures
        lower_node_type(NodeTypeView::Block(seq![first, second, third]), attrs) == Ok::<
            _,
            GenerateError,
        >(lower_node(first).unwrap() + lower_node(second).unwrap() + lower_node(third).unwrap()),
{
    let nodes = seq![first, second, third];
    let two = seq![first, second];
    let one = seq![first];
    assert(nodes.drop_last() =~= two);
    assert(two.drop_last() =~= one);
    assert(one.drop_last() =~= Seq::<NodeView>::empty());
    assert(lower_nodes(Seq::<NodeView>::empty()) == Ok::<_, GenerateError>(Seq::<Tok>::empty()));
    assert(Seq::<Tok>::empty() + lower_node(first).unwrap() =~= lower_node(first).unwrap());
    assert(lower_nodes(one) == Ok::<_, GenerateError>(lower_node(first).unwrap()));
    assert(lower_nodes(two) == Ok::<_, GenerateError>(
        lower_node(first).unwrap() + lower_node(second).unwrap(),
    ));
}

/// A match arm whose body is a text or an expression has to end in a comma
/// unless it is the last arm: where another token follows the body and is
/// no comma, the arm is an error at that token; where the window ends
/// behind the body, the arm stands without a comma.
pub proof fn law_arm_separator(t: Seq<Tok>, p: int, end: int)
    requires
        spec_arm_head(t, p, end) is Ok,
        at_operator(t, spec_arm_head(t, p, end).unwrap().2, end, '=', '>'),
        spec_node(t, spec_arm_head(t, p, end).unwrap().2 + 2, end) is Ok,
        requires_comma(spec_node(t, spec_arm_head(t, p, end).unwrap().2 + 2, end).unwrap().0.node),
    ensures
        ({
            let (pat, guard, a) = spec_arm_head(t, p, end).unwrap();
            let (body, b) = spec_node(t, a + 2, end).unwrap();
            &&& b < end && !at_punct(t, b, end, ',') ==> spec_arm(t, p, end) == Err::<
                (MatchNodeArmView, int),
                _,
            >(fail(b, ParseErrorKind::ExpectedComma))
            &&& b >= end ==> spec_arm(t, p, end) == Ok::<_, ParseError>(
                (MatchNodeArmView { pat, guard, body: Box::new(body), comma: false }, b),
            )
        }),
{
}

/// An error in the first of several arms is the error of all of them: no
/// arm is read behind one that lacks its comma.
pub proof fn law_arms_stop_at_first_error(t: Seq<Tok>, p: int, end: int)
    requires
        p < end,
        spec_arm(t, p, end) is Err,
    ensures
        spec_arms(t, p, end) == Err::<Seq<MatchNodeArmView>, _>(spec_arm(t, p, end)->Err_0),
{
}

/// Whether the chain of the conditional ends without an `else` block.
pub open spec fn ends_without_else(node: IfNodeView) -> bool
    decreases node,
{
    match node.else_branch {
        None => true,
        Some(ElseNodeView::If(next)) => ends_without_else(*next),
        Some(ElseNodeView::Else(_)) => false,
    }
}

/// The branch that is made up for a chain without `else`: `else { view! {
/// }.into_any() }`
pub open spec fn empty_else() -> Seq<Tok> {
    seq![word("else"@)] + braced(any_view(Seq::empty()))
}

/// A conditional whose chain ends without `else` lowers to a chain of the
/// host language that ends in an `else` branch with the empty view.
pub proof fn law_chain_ends_in_else(node: IfNodeView)
    requires
        ends_without_else(node),
        lower_chain(node) is Ok,
    ensures
        ({
            let chain = lower_chain(node).unwrap();
            chain.len() >= empty_else().len() && chain.subrange(
                chain.len() - empty_else().len(),
                chain.len() as int,
            ) == empty_else()
        }),
    decreases node,
{
    let chain = lower_chain(node).unwrap();
    let then_branch = lower_nodes(node.then_branch).unwrap();
    let head = seq![word("if"@)] + node.cond + braced(any_view(then_branch)) + seq![word("else"@)];
    match node.else_branch {
        None => {
            let last = braced(any_view(Seq::empty()));
            assert(chain == head + last);
            assert(chain.subrange(chain.len() - empty_else().len(), chain.len() as int)
                =~= empty_else());
        },
        Some(ElseNodeView::If(next)) => {
            law_chain_ends_in_else(*next);
            let rest = lower_chain(*next).unwrap();
            assert(chain == head + rest);
            assert(chain.subrange(chain.len() - empty_else().len(), chain.len() as int)
                =~= rest.subrange(rest.len() - empty_else().len(), rest.len() as int));
        },
        Some(ElseNodeView::Else(_)) => {},
    }
}

/// A conditional without `else` and without the `show` annotation lowers to
/// `{move || if cond { view! { then }.into_any() } else { view! {
/// }.into_any() }}`: the `else` branch is made up and yields the empty view.
pub proof fn law_if_without_else(node: IfNodeView, attrs: Seq<AnnotationView>)
    requires
        node.else_branch is None,
        if_strategy(attrs) == IfStrategy::Closure,
        lower_nodes(node.then_branch) is Ok,
    ensures
        lower_if(node, attrs) == Ok::<_, GenerateError>(
            braced(
                reactive() + (seq![word("if"@)] + node.cond + braced(
                    any_view(lower_nodes(node.then_branch).unwrap()),
                ) + empty_else()),
            ),
        ),
{
    let then_branch = lower_nodes(node.then_branch).unwrap();
    assert(seq![word("if"@)] + node.cond + braced(any_view(then_branch)) + seq![word("else"@)]
        + braced(any_view(Seq::empty())) =~= seq![word("if"@)] + node.cond + braced(
        any_view(then_branch),
    ) + empty_else());
}

/// A conditional without `else` that is annotated with `show` lowers to
/// `<Show when=(move || cond)> then </Show>`: it names no fallback, and the
/// host shows nothing where the condition does not hold.
pub proof fn law_show_without_else(node: IfNodeView, attrs: Seq<AnnotationView>)
    requires
        node.else_branch is None,
        if_strategy(attrs) == IfStrategy::Show,
        lower_nodes(node.then_branch) is Ok,
    ensures
        lower_if(node, attrs) == Ok::<_, GenerateError>(
            seq![punct('<'), word("Show"@), word("when"@), punct('=')] + parenthesized(
                reactive() + node.cond,
            ) + seq![punct('>')] + lower_nodes(node.then_branch).unwrap() + seq![
                punct('<'),
                punct('/'),
                word("Show"@),
                punct('>'),
            ],
        ),
{
    let head = seq![punct('<'), word("Show"@), word("when"@), punct('=')] + parenthesized(
        reactive() + node.cond,
    );
    assert(head + Seq::<Tok>::empty() =~= head);
}

/// The closure of a keyed loop that gives the key of an item: `(move |pat|
/// { key })`
pub open spec fn key_closure(pat: Seq<Tok>, key: Seq<Tok>) -> Seq<Tok> {
    parenthesized(binding(true, pat) + braced(key))
}

/// The closure of a keyed loop that gives the view of an item: `(move |pat|
/// { view! { body } })`
pub open spec fn children_closure(pat: Seq<Tok>, body: Seq<Tok>) -> Seq<Tok> {
    parenthesized(binding(true, pat) + braced(sub_view(body)))
}

/// A loop with a `key` annotation lowers to the keyed component, never to
/// the collected list, and the closure that gives the key binds each item
/// with the same pattern as the closure that gives the children: the
/// pattern of the loop.
pub proof fn law_keyed_loop_binds_alike(node: ForNodeView, attrs: Seq<AnnotationView>)
    requires
        lower_nodes(node.body) is Ok,
        for_strategy(attrs) matches Ok(ForStrategyView::Keyed(_)),
    ensures
        ({
            let key = for_strategy(attrs).unwrap()->Keyed_0;
            let body = lower_nodes(node.body).unwrap();
            lower_for(node, attrs) == Ok::<_, GenerateError>(
                seq![punct('<'), word("For"@), word("each"@), punct('=')] + parenthesized(
                    reactive() + braced(node.expr),
                ) + seq![word("key"@), punct('=')] + key_closure(node.pat, key) + seq![
                    word("children"@),
                    punct('='),
                ] + children_closure(node.pat, body) + seq![punct('/'), punct('>')],
            )
        }),
{
}

proof fn lemma_block_advances(t: Seq<Tok>, p: int, end: int)
    requires
        window(t, p, end),
    ensures
        spec_block(t, p, end) matches Ok((_, next)) ==> p < next <= end,
{
}

proof fn lemma_if_advances(t: Seq<Tok>, p: int, end: int)
    requires
        window(t, p, end),
    ensures
        spec_if(t, p, end) matches Ok((_, next)) ==> p < next <= end,
    decreases end - p, 1int,
{
    if spec_if(t, p, end) is Ok {
        let b = condition_end(t, p + 1, end).unwrap();
        let c = block_close(t, b, end).unwrap();
        if at_word(t, c + 1, end, "else"@) {
            lemma_else_advances(t, c + 2, end);
        }
    }
}

proof fn lemma_else_advances(t: Seq<Tok>, p: int, end: int)
    requires
        window(t, p, end),
    ensures
        spec_else(t, p, end) matches Ok((_, next)) ==> p < next <= end,
    decreases end - p, 2int,
{
    if at_word(t, p, end, "if"@) {
        lemma_if_advances(t, p, end);
    } else {
        lemma_block_advances(t, p, end);
    }
}

proof fn lemma_for_advances(t: Seq<Tok>, p: int, end: int)
    requires
        window(t, p, end),
    ensures
        spec_for(t, p, end) matches Ok((_, next)) ==> p < next <= end,
{
    if spec_for(t, p, end) is Ok {
        let i = pattern_end(t, p + 1, end).unwrap();
        let b = condition_end(t, i + 1, end).unwrap();
        lemma_block_advances(t, b, end);
    }
}

proof fn lemma_match_advances(t: Seq<Tok>, p: int, end: int)
    requires
        window(t, p, end),
    ensures
        spec_match(t, p, end) matches Ok((_, next)) ==> p < next <= end,
{
}

proof fn lemma_element_advances(t: Seq<Tok>, p: int, end: int)
    requires
        window(t, p, end),
    ensures
        spec_element(t, p, end) matches Ok((_, next)) ==> p < next <= end,
{
    if spec_element(t, p, end) is Ok {
        let q = path_end(t, p, end).unwrap();
        if at_open(t, q, end, Delimiter::Parenthesis) {
            let b = closing(t, q, end, Delimiter::Parenthesis).unwrap() + 1;
            lemma_block_advances(t, b, end);
        } else {
            lemma_block_advances(t, q, end);
        }
    }
}

proof fn lemma_node_type_advances(t: Seq<Tok>, p: int, end: int)
    requires
        window(t, p, end),
    ensures
        spec_node_type(t, p, end) matches Ok((_, next)) ==> p < next <= end,
{
    lemma_if_advances(t, p, end);
    lemma_for_advances(t, p, end);
    lemma_match_advances(t, p, end);
    lemma_block_advances(t, p, end);
    lemma_element_advances(t, p, end);
}

proof fn lemma_node_advances(t: Seq<Tok>, p: int, end: int)
    requires
        window(t, p, end),
    ensures
        spec_node(t, p, end) matches Ok((_, next)) ==> p < next <= end,
{
    if spec_node(t, p, end) is Ok {
        let q = annotations_end(t, p, end).unwrap();
        lemma_node_type_advances(t, q, end);
    }
}

proof fn lemma_arm_advances(t: Seq<Tok>, p: int, end: int)
    requires
        window(t, p, end),
    ensures
        spec_arm(t, p, end) matches Ok((_, next)) ==> p < next <= end,
{
    if spec_arm(t, p, end) is Ok {
        let a = spec_arm_head(t, p, end).unwrap().2;
        lemma_node_advances(t, a + 2, end);
    }
}

/// Whatever is read in a window lies in it and is not empty: the position
/// behind it is behind the position where it starts, and not behind the end
/// of the window. This holds of every category that the grammar reads nodes
/// by; so no list of nodes or of arms is ever rejected for standing still.
pub proof fn law_reading_advances(t: Seq<Tok>, p: int, end: int)
    requires
        window(t, p, end),
    ensures
        spec_node(t, p, end) matches Ok((_, next)) ==> p < next <= end,
        spec_node_type(t, p, end) matches Ok((_, next)) ==> p < next <= end,
        spec_block(t, p, end) matches Ok((_, next)) ==> p < next <= end,
        spec_element(t, p, end) matches Ok((_, next)) ==> p < next <= end,
        spec_if(t, p, end) matches Ok((_, next)) ==> p < next <= end,
        spec_else(t, p, end) matches Ok((_, next)) ==> p < next <= end,
        spec_for(t, p, end) matches Ok((_, next)) ==> p < next <= end,
        spec_match(t, p, end) matches Ok((_, next)) ==> p < next <= end,
        spec_arm(t, p, end) matches Ok((_, next)) ==> p < next <= end,
{
    lemma_node_advances(t, p, end);
    lemma_node_type_advances(t, p, end);
    lemma_block_advances(t, p, end);
    lemma_element_advances(t, p, end);
    lemma_if_advances(t, p, end);
    lemma_else_advances(t, p, end);
    lemma_for_advances(t, p, end);
    lemma_match_advances(t, p, end);
    lemma_arm_advances(t, p, end);
}

/// A list of nodes is read node by node: where a node can be read at the
/// start of a window that is not empty, the nodes of the window are that
/// node followed by the nodes of the rest of the window.
pub proof fn law_nodes_are_read_one_by_one(t: Seq<Tok>, p: int, end: int)
    requires
        window(t, p, end),
        p < end,
        spec_node(t, p, end) is Ok,
    ensures
        ({
            let (node, next) = spec_node(t, p, end).unwrap();
            spec_nodes(t, p, end) == followed_by(seq![node], spec_nodes(t, next, end))
        }),
{
    lemma_node_advances(t, p, end);
}

/// The arms of a match are read arm by arm, as nodes are.
pub proof fn law_arms_are_read_one_by_one(t: Seq<Tok>, p: int, end: int)
    requires
        window(t, p, end),
        p < end,
        spec_arm(t, p, end) is Ok,
    ensures
        ({
            let (arm, next) = spec_arm(t, p, end).unwrap();
            spec_arms(t, p, end) == followed_by(seq![arm], spec_arms(t, next, end))
        }),
{
    lemma_arm_advances(t, p, end);
}

/// The first tokens of an attribute's name decide of which kind it is: a
/// word with a single colon behind it starts a directive and nothing else;
/// failing that, a string literal is a quoted name; anything else is read as
/// a path, so that `on:click` is a directive and `::a::b` and `a::b` are
/// paths.
pub proof fn law_attribute_name_is_told_by_its_start(t: Seq<Tok>, p: int, end: int)
    ensures
        at_directive(t, p, end) ==> !(spec_attribute_name(t, p, end) matches Ok((name, _))
            && !(name is Directive)),
        !at_directive(t, p, end) && at_string(t, p, end) ==> spec_attribute_name(t, p, end) == Ok::<
            _,
            ParseError,
        >((AttributeNameView::Quoted(text_at(t, p)), p + 1)),
        !at_directive(t, p, end) && !at_string(t, p, end) ==> !(spec_attribute_name(
            t,
            p,
            end,
        ) matches Ok((name, _)) && !(name is Single)),
        at_operator(t, p + 1, end, ':', ':') ==> !at_directive(t, p, end),
{
}

/// The first token of a node decides of which kind it is, in this order:
/// the keywords `if`, `for` and `match` start a conditional, a loop and a
/// match; a string literal is a text; an opening brace starts a block; an
/// opening parenthesis starts an expression; everything else is read as an
/// element.
pub proof fn law_node_is_told_by_its_first_token(t: Seq<Tok>, p: int, end: int)
    requires
        spec_node_type(t, p, end) is Ok,
    ensures
        ({
            let node = spec_node_type(t, p, end).unwrap().0;
            if at_word(t, p, end, "if"@) {
                node is If
            } else if at_word(t, p, end, "for"@) {
                node is For
            } else if at_word(t, p, end, "match"@) {
                node is Match
            } else if at_string(t, p, end) {
                node == NodeTypeView::Text(text_at(t, p))
            } else if at_open(t, p, end, Delimiter::Brace) {
                node is Block
            } else if at_open(t, p, end, Delimiter::Parenthesis) {
                node is Expr
            } else {
                node is Element
            }
        }),
{
}

} // verus!
