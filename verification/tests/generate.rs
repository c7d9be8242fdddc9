use proc_macro2::{LexError, Spacing, TokenStream, TokenTree};
use rdml::block::Nodes;
use rdml::compile::rdml;
use rdml::error::GenerateError;
use rdml::generate::{generate_block, generate_node, generate_nodes};
use rdml::node::NodeType;
use rdml::token::{render, Delimiter, Token};
use std::str::FromStr;

fn flatten(stream: TokenStream, out: &mut Vec<Token>) {
    for tree in stream {
        match tree {
            TokenTree::Ident(ident) => out.push(Token::Ident(ident.to_string())),
            TokenTree::Punct(punct) => {
                out.push(Token::Punct(punct.as_char(), punct.spacing() == Spacing::Joint))
            }
            TokenTree::Literal(literal) => out.push(Token::Literal(literal.to_string())),
            TokenTree::Group(group) => {
                let delimiter = match group.delimiter() {
                    proc_macro2::Delimiter::Parenthesis => Delimiter::Parenthesis,
                    proc_macro2::Delimiter::Brace => Delimiter::Brace,
                    proc_macro2::Delimiter::Bracket => Delimiter::Bracket,
                    proc_macro2::Delimiter::None => panic!("a group without delimiters"),
                };
                out.push(Token::Open(delimiter));
                flatten(group.stream(), out);
                out.push(Token::Close(delimiter));
            }
        }
    }
}

fn tokenize(source: &str) -> Result<Vec<Token>, LexError> {
    let mut tokens = Vec::new();
    flatten(TokenStream::from_str(source)?, &mut tokens);
    Ok(tokens)
}

fn parse(source: &str) -> Nodes {
    let tokens = tokenize(source).unwrap();
    Nodes::parse(&tokens).unwrap()
}

fn text(tokens: &Vec<Token>) -> String {
    render(tokens, 0, tokens.len())
}

fn lower(source: &str) -> String {
    text(&generate_nodes(&parse(source).nodes).unwrap())
}

fn lower_error(source: &str) -> GenerateError {
    generate_nodes(&parse(source).nodes).unwrap_err()
}

#[test]
fn element_with_attribute_and_text() {
    let template = parse("div(id=\"x\"){ \"hi\" }");
    assert_eq!(template.nodes.len(), 1);
    match &template.nodes[0].node {
        NodeType::Element(element) => {
            assert_eq!(text(&element.path), "div ");
            assert_eq!(element.attributes.as_ref().unwrap().attributes.len(), 1);
            assert_eq!(element.children.nodes.len(), 1);
        }
        other => panic!("expected an element, found {:?}", other),
    }
    assert_eq!(
        text(&generate_node(&template.nodes[0]).unwrap()),
        "< div id = { \"x\" } > \"hi\" < / div > "
    );
}

#[test]
fn element_without_attributes() {
    assert_eq!(lower("div {}"), "< div > < / div > ");
}

#[test]
fn attributes_keep_their_order_and_duplicates() {
    assert_eq!(
        lower("a(x=1, y=2, x=3) {}"),
        "< a x = { 1 } y = { 2 } x = { 3 } > < / a > "
    );
}

#[test]
fn directive_attribute_keeps_its_colon() {
    assert_eq!(
        lower("button(on:click=handler) {}"),
        "< button on : click = { handler } > < / button > "
    );
}

#[test]
fn quoted_attribute_is_not_lowered() {
    assert_eq!(lower_error("div(\"aria-label\"=1) {}"), GenerateError::QuotedAttributeName);
}

#[test]
fn text_is_passed_through() {
    assert_eq!(lower("\"hello\""), "\"hello\" ");
}

#[test]
fn expression_is_braced() {
    assert_eq!(lower("(a + 1)"), "{ a + 1 } ");
}

#[test]
fn block_has_no_wrapping() {
    assert_eq!(lower("{ \"a\" \"b\" }"), "\"a\" \"b\" ");
}

#[test]
fn block_keeps_the_order_of_its_nodes() {
    let template = parse("{ div {} \"two\" (three) }");
    let block = match &template.nodes[0].node {
        NodeType::Block(block) => block,
        other => panic!("expected a block, found {:?}", other),
    };
    assert_eq!(block.nodes.len(), 3);
    let mut expected = String::new();
    for node in &block.nodes {
        expected.push_str(&text(&generate_node(node).unwrap()));
    }
    assert_eq!(text(&generate_block(block).unwrap()), expected);
    assert_eq!(expected, "< div > < / div > \"two\" { three } ");
}

#[test]
fn if_without_else_gets_an_empty_else() {
    assert_eq!(
        lower("if a { \"x\" }"),
        "{ move || if a { view ! { \"x\" } . into_any ( ) } else { view ! { } . into_any ( ) } } "
    );
}

#[test]
fn if_with_else() {
    assert_eq!(
        lower("if a { \"x\" } else { \"y\" }"),
        "{ move || if a { view ! { \"x\" } . into_any ( ) } else { view ! { \"y\" } . into_any ( ) } } "
    );
}

#[test]
fn if_chain_keeps_its_order() {
    assert_eq!(
        lower("if a { \"x\" } else if b { \"y\" } else if c { \"z\" }"),
        "{ move || if a { view ! { \"x\" } . into_any ( ) } \
         else if b { view ! { \"y\" } . into_any ( ) } \
         else if c { view ! { \"z\" } . into_any ( ) } \
         else { view ! { } . into_any ( ) } } "
    );
}

#[test]
fn show_without_else_names_no_fallback() {
    assert_eq!(lower("#[show] if a { \"x\" }"), "< Show when = ( move || a ) > \"x\" < / Show > ");
}

#[test]
fn show_with_else_names_the_fallback() {
    assert_eq!(
        lower("#[show] if a { \"x\" } else { \"y\" }"),
        "< Show when = ( move || a ) fallback = ( move || view ! { \"y\" } ) > \"x\" < / Show > "
    );
}

#[test]
fn show_chain_nests_its_fallbacks() {
    assert_eq!(
        lower("#[show] if a { \"x\" } else if b { \"y\" } else { \"z\" }"),
        "< Show when = ( move || a ) fallback = ( move || view ! { \
         < Show when = ( move || b ) fallback = ( move || view ! { \"z\" } ) > \"y\" < / Show > \
         } ) > \"x\" < / Show > "
    );
}

#[test]
fn for_without_key_is_collected() {
    assert_eq!(
        lower("for i in items { span { (i) } }"),
        "{ ( items ) . into_iter ( ) . map ( | i | view ! { < span > { i } < / span > } ) \
         . collect :: < Vec < _ >> ( ) } "
    );
}

#[test]
fn for_with_key_is_keyed() {
    assert_eq!(
        lower("#[key(i.clone())] for i in items { span { (i) } }"),
        "< For each = ( move || { items } ) key = ( move | i | { i . clone ( ) } ) \
         children = ( move | i | { view ! { < span > { i } < / span > } } ) / > "
    );
}

#[test]
fn keyed_for_binds_the_same_pattern_twice() {
    let lowered = lower("#[key(item.clone())] for (i, item) in list { (i) }");
    assert_eq!(lowered.matches("move | ( i , item ) | ").count(), 2);
    assert_eq!(
        lowered,
        "< For each = ( move || { list } ) key = ( move | ( i , item ) | { item . clone ( ) } ) \
         children = ( move | ( i , item ) | { view ! { { i } } } ) / > "
    );
}

#[test]
fn first_key_wins() {
    assert_eq!(
        lower("#[key(a)] #[key(b)] for i in items {}"),
        "< For each = ( move || { items } ) key = ( move | i | { a } ) \
         children = ( move | i | { view ! { } } ) / > "
    );
}

#[test]
fn key_without_arguments_is_an_error() {
    assert_eq!(lower_error("#[key] for i in items {}"), GenerateError::MalformedKey);
}

#[test]
fn key_that_is_no_expression_is_an_error() {
    assert_eq!(lower_error("#[key(a b)] for i in items {}"), GenerateError::MalformedKey);
    assert_eq!(lower_error("#[key()] for i in items {}"), GenerateError::MalformedKey);
}

#[test]
fn key_on_another_node_is_ignored() {
    assert_eq!(lower("#[key] div {}"), "< div > < / div > ");
}

#[test]
fn show_on_another_node_is_ignored() {
    assert_eq!(lower("#[show] div {}"), "< div > < / div > ");
}

#[test]
fn unknown_annotation_is_ignored() {
    assert_eq!(lower("#[other(1, 2)] div {}"), "< div > < / div > ");
    assert_eq!(lower("#[a::b] \"t\""), "\"t\" ");
}

#[test]
fn match_keeps_its_arms_in_order() {
    assert_eq!(
        lower("match n { 0 => \"zero\", 1..=9 => \"small\", _ => \"big\" }"),
        "{ move || match n { \
         0 => view ! { \"zero\" } . into_any ( ) , \
         1 ..= 9 => view ! { \"small\" } . into_any ( ) , \
         _ => view ! { \"big\" } . into_any ( ) , \
         } } "
    );
}

#[test]
fn match_arm_with_guard() {
    assert_eq!(
        lower("match n { Some(x) if x > 1 => div {} None => (0) }"),
        "{ move || match n { \
         Some ( x ) if x > 1 => view ! { < div > < / div > } . into_any ( ) , \
         None => view ! { { 0 } } . into_any ( ) , \
         } } "
    );
}

#[test]
fn with_wraps_the_node_in_a_scope() {
    assert_eq!(
        lower("#[with(let v = 1;)] div {}"),
        "{ { let v = 1 ; view ! { < div > < / div > } } } "
    );
}

#[test]
fn with_statements_keep_their_order() {
    assert_eq!(
        lower("#[with(let a = 1;)] #[other] #[with(let b = a;)] (b)"),
        "{ { let a = 1 ; let b = a ; view ! { { b } } } } "
    );
}

#[test]
fn with_wraps_only_its_own_node() {
    assert_eq!(
        lower("\"before\" #[with(let a = 1;)] (a) \"after\""),
        "\"before\" { { let a = 1 ; view ! { { a } } } } \"after\" "
    );
}

#[test]
fn with_is_applied_outside_of_show() {
    assert_eq!(
        lower("#[with(let a = 1;)] #[show] if a { \"x\" }"),
        "{ { let a = 1 ; view ! { < Show when = ( move || a ) > \"x\" < / Show > } } } "
    );
}

#[test]
fn with_that_is_no_statement_is_an_error() {
    assert_eq!(lower_error("#[with] div {}"), GenerateError::MalformedWith);
    assert_eq!(lower_error("#[with(let)] div {}"), GenerateError::MalformedWith);
    assert_eq!(lower_error("#[with = 1] div {}"), GenerateError::MalformedWith);
}

#[test]
fn error_in_a_child_is_the_error_of_the_parent() {
    assert_eq!(
        lower_error("div { span(\"q\"=1) {} }"),
        GenerateError::QuotedAttributeName
    );
    assert_eq!(
        lower_error("if a { #[key] for i in x {} }"),
        GenerateError::MalformedKey
    );
}

#[test]
fn first_error_in_order_is_reported() {
    assert_eq!(
        lower_error("{ #[with] \"a\" div(\"q\"=1) {} }"),
        GenerateError::MalformedWith
    );
    assert_eq!(
        lower_error("{ div(\"q\"=1) {} #[with] \"a\" }"),
        GenerateError::QuotedAttributeName
    );
}

#[test]
fn whole_template_is_wrapped_in_the_view_macro() {
    let tokens = tokenize("div {}").unwrap();
    assert_eq!(
        text(&rdml(&tokens)),
        "{ # [ allow ( unused_variables ) ] # [ allow ( unused_parens ) ] \
         # [ allow ( unused_braces ) ] \
         { :: leptos :: prelude :: view ! { < div > < / div > } } } "
    );
}

#[test]
fn empty_template_is_an_empty_view() {
    let tokens = tokenize("").unwrap();
    assert_eq!(
        text(&rdml(&tokens)),
        "{ # [ allow ( unused_variables ) ] # [ allow ( unused_parens ) ] \
         # [ allow ( unused_braces ) ] \
         { :: leptos :: prelude :: view ! { } } } "
    );
}

#[test]
fn parse_error_becomes_a_compile_error() {
    let tokens = tokenize("div").unwrap();
    assert_eq!(
        text(&rdml(&tokens)),
        ":: core :: compile_error ! { \"expected curly braces\" } "
    );
}

#[test]
fn lowering_error_becomes_a_compile_error() {
    let tokens = tokenize("div(\"q\"=1) {}").unwrap();
    assert_eq!(
        text(&rdml(&tokens)),
        ":: core :: compile_error ! { \"quoted attribute names are not supported\" } "
    );
    let tokens = tokenize("#[key] for i in x {}").unwrap();
    assert_eq!(
        text(&rdml(&tokens)),
        ":: core :: compile_error ! { \"expected one expression: #[key(...)]\" } "
    );
}

#[test]
fn output_of_the_compiler_is_read_by_the_lexer() {
    let source = "ol { #[key(item.clone())] for (i, item) in items.get().into_iter().enumerate() { \
                  #[with(let item1 = item.clone();)] #[show] if i % 2 == 0 { li { (item.clone()) } } \
                  else { li { (item1.clone()) } } } } \
                  form(on:submit=move |e| { e.prevent_default(); }) { input(bind:value=value) {} \
                  button { \"Add Item\" } } \
                  #[with(let length = value.read().len();)] match length { 0 => \"Input is required\", \
                  0..=10 => {}, 11.. => \"That input is too long\", }";
    let out = rdml(&tokenize(source).unwrap());
    let printed = text(&out);
    assert!(printed.starts_with("{ # [ allow ( unused_variables ) ] "));
    assert_eq!(tokenize(&printed).unwrap(), out);
}
