use proc_macro2::{LexError, Spacing, TokenStream, TokenTree};
use rdml::attribute::{AttributeName, AttributeNameDirective};
use rdml::block::Nodes;
use rdml::error::{GenerateError, ParseError, ParseErrorKind};
use rdml::match_node::MatchNode;
use rdml::node::{Node, NodeType};
use rdml::parse::requires_comma_to_be_match_arm;
use rdml::token::{render, Delimiter, Token};
use std::str::FromStr;

fn flatten(stream: TokenStream, out: &mut Vec<Token>) {
    for tree in stream {
        match tree {
            TokenTree::Ident(ident) => out.push(Token::Ident(ident.to_string())),
            TokenTree::Punct(punct) => {
                out.push(Token::Punct(punct.as_char(), punct.spacing() == Spacing::Joint))
            }
            TokenTree::Literal(literal) => out.push(Token::Literal(literal.to_string())),
            TokenTree::Group(group) => {
                let delimiter = match group.delimiter() {
                    proc_macro2::Delimiter::Parenthesis => Delimiter::Parenthesis,
                    proc_macro2::Delimiter::Brace => Delimiter::Brace,
                    proc_macro2::Delimiter::Bracket => Delimiter::Bracket,
                    proc_macro2::Delimiter::None => panic!("a group without delimiters"),
                };
                out.push(Token::Open(delimiter));
                flatten(group.stream(), out);
                out.push(Token::Close(delimiter));
            }
        }
    }
}

fn tokenize(source: &str) -> Result<Vec<Token>, LexError> {
    let mut tokens = Vec::new();
    flatten(TokenStream::from_str(source)?, &mut tokens);
    Ok(tokens)
}

fn text(tokens: &Vec<Token>) -> String {
    render(tokens, 0, tokens.len())
}

fn error(source: &str) -> ParseError {
    let tokens = tokenize(source).unwrap();
    Nodes::parse(&tokens).unwrap_err()
}

fn name(source: &str) -> (AttributeName, usize) {
    let tokens = tokenize(source).unwrap();
    AttributeName::parse(&tokens, 0, tokens.len()).unwrap()
}

fn first_node(source: &str) -> Node {
    let tokens = tokenize(source).unwrap();
    Nodes::parse(&tokens).unwrap().nodes.remove(0)
}

#[test]
fn element_needs_a_path() {
    assert_eq!(error("= {}"), ParseError { at: 0, kind: ParseErrorKind::ExpectedPath });
    assert_eq!(error("div { , }"), ParseError { at: 2, kind: ParseErrorKind::ExpectedPath });
    assert_eq!(error("div(=1) {}"), ParseError { at: 2, kind: ParseErrorKind::ExpectedPath });
    assert_eq!(error("div(on:=1) {}"), ParseError { at: 4, kind: ParseErrorKind::ExpectedPath });
}

#[test]
fn element_needs_a_block() {
    assert_eq!(error("div"), ParseError { at: 1, kind: ParseErrorKind::ExpectedBraces });
    assert_eq!(error("div span {}"), ParseError { at: 1, kind: ParseErrorKind::ExpectedBraces });
    assert_eq!(error("div(a=1)"), ParseError { at: 6, kind: ParseErrorKind::ExpectedBraces });
    assert_eq!(error("div [ ]"), ParseError { at: 1, kind: ParseErrorKind::ExpectedBraces });
}

#[test]
fn attribute_needs_a_value() {
    assert_eq!(error("div(a) {}"), ParseError { at: 3, kind: ParseErrorKind::ExpectedEquals });
    assert_eq!(error("div(a=) {}"), ParseError { at: 4, kind: ParseErrorKind::ExpectedExpression });
    assert_eq!(error("div(\"q\" 1) {}"), ParseError { at: 3, kind: ParseErrorKind::ExpectedEquals });
}

#[test]
fn attributes_are_separated_by_commas() {
    assert_eq!(error("div(a=1 b=2) {}"), ParseError { at: 5, kind: ParseErrorKind::ExpectedComma });
    assert_eq!(error("div(a=1; b=2) {}"), ParseError { at: 5, kind: ParseErrorKind::ExpectedComma });
    assert_eq!(error("div(a=1,, b=2) {}"), ParseError { at: 6, kind: ParseErrorKind::ExpectedPath });
}

#[test]
fn attributes_may_end_in_a_comma() {
    let tokens = tokenize("div(a=1, b=2,) {} div() {}").unwrap();
    let template = Nodes::parse(&tokens).unwrap();
    let counts: Vec<usize> = template
        .nodes
        .iter()
        .map(|node| match &node.node {
            NodeType::Element(element) => element.attributes.as_ref().unwrap().attributes.len(),
            other => panic!("expected an element, found {:?}", other),
        })
        .collect();
    assert_eq!(counts, vec![2, 0]);
}

#[test]
fn directive_needs_an_identifier() {
    assert_eq!(
        error("div(for:x=1) {}"),
        ParseError { at: 2, kind: ParseErrorKind::ExpectedIdentifier }
    );
    let tokens = tokenize("\"on\" : click").unwrap();
    assert_eq!(
        AttributeNameDirective::parse(&tokens, 0, tokens.len()),
        Err(ParseError { at: 0, kind: ParseErrorKind::ExpectedIdentifier })
    );
}

#[test]
fn directive_needs_a_colon() {
    let tokens = tokenize("on click").unwrap();
    assert_eq!(
        AttributeNameDirective::parse(&tokens, 0, tokens.len()),
        Err(ParseError { at: 1, kind: ParseErrorKind::ExpectedColon })
    );
}

#[test]
fn directive_is_read_to_the_end_of_its_path() {
    let tokens = tokenize("bind:binds::value = x").unwrap();
    let (directive, next) = AttributeNameDirective::parse(&tokens, 0, tokens.len()).unwrap();
    assert_eq!(directive.directive, "bind");
    assert_eq!(text(&directive.path), "binds :: value ");
    assert_eq!(next, 6);
}

#[test]
fn attribute_name_is_told_by_its_first_tokens() {
    match name("on:click=expr") {
        (AttributeName::Directive(directive), next) => {
            assert_eq!(directive.directive, "on");
            assert_eq!(text(&directive.path), "click ");
            assert_eq!(next, 3);
        }
        other => panic!("expected a directive, found {:?}", other),
    }
    match name("::a::b=expr") {
        (AttributeName::Single(path), next) => {
            assert_eq!(text(&path), ":: a :: b ");
            assert_eq!(next, 6);
        }
        other => panic!("expected a path, found {:?}", other),
    }
    match name("a::b=expr") {
        (AttributeName::Single(path), next) => {
            assert_eq!(text(&path), "a :: b ");
            assert_eq!(next, 4);
        }
        other => panic!("expected a path, found {:?}", other),
    }
    match name("\"aria-label\"=expr") {
        (AttributeName::Quoted(literal), next) => {
            assert_eq!(literal, "\"aria-label\"");
            assert_eq!(next, 1);
        }
        other => panic!("expected a quoted name, found {:?}", other),
    }
    match name("class=expr") {
        (AttributeName::Single(path), next) => {
            assert_eq!(text(&path), "class ");
            assert_eq!(next, 1);
        }
        other => panic!("expected a path, found {:?}", other),
    }
}

#[test]
fn number_is_no_quoted_name() {
    assert_eq!(error("div(1=2) {}"), ParseError { at: 2, kind: ParseErrorKind::ExpectedPath });
    assert_eq!(error("div(b\"x\"=2) {}"), ParseError { at: 2, kind: ParseErrorKind::ExpectedPath });
}

#[test]
fn raw_string_is_a_text() {
    let node = first_node("r#\"raw \"text\"\"#");
    assert!(matches!(&node.node, NodeType::Text(literal) if literal == "r#\"raw \"text\"\"#"));
}

#[test]
fn annotation_has_to_be_well_formed() {
    assert_eq!(error("#[] div {}"), ParseError { at: 0, kind: ParseErrorKind::MalformedAnnotation });
    assert_eq!(error("# div {}"), ParseError { at: 0, kind: ParseErrorKind::MalformedAnnotation });
    assert_eq!(
        error("div { #[a b] span {} }"),
        ParseError { at: 2, kind: ParseErrorKind::MalformedAnnotation }
    );
}

#[test]
fn annotation_needs_a_node() {
    assert_eq!(error("#[a]"), ParseError { at: 4, kind: ParseErrorKind::ExpectedPath });
}

#[test]
fn annotations_are_kept_in_order() {
    let node = first_node("#[with(let a = 1;)] #[show] #[a::b] #[name = \"value\"] if a {}");
    let names: Vec<Option<&str>> = node.attrs.iter().map(|a| a.name.as_deref()).collect();
    assert_eq!(names, vec![Some("with"), Some("show"), None, Some("name")]);
    let arguments: Vec<Option<String>> =
        node.attrs.iter().map(|a| a.arguments.as_ref().map(text)).collect();
    assert_eq!(arguments, vec![Some("let a = 1 ; ".to_string()), None, None, None]);
    assert_eq!(text(&node.attrs[2].tokens), "# [ a :: b ] ");
}

#[test]
fn if_needs_a_condition_and_a_block() {
    assert_eq!(error("if"), ParseError { at: 1, kind: ParseErrorKind::ExpectedExpression });
    assert_eq!(error("if a"), ParseError { at: 2, kind: ParseErrorKind::ExpectedBraces });
    assert_eq!(error("if a { } else"), ParseError { at: 5, kind: ParseErrorKind::ExpectedBraces });
    assert_eq!(error("if a { } else b"), ParseError { at: 5, kind: ParseErrorKind::ExpectedBraces });
    assert_eq!(
        error("if a { } else if { }"),
        ParseError { at: 8, kind: ParseErrorKind::ExpectedBraces }
    );
}

#[test]
fn condition_ends_at_the_brace() {
    let node = first_node("if S { \"x\" }");
    match &node.node {
        NodeType::If(node) => {
            assert_eq!(text(&node.cond), "S ");
            assert_eq!(node.then_branch.nodes.len(), 1);
        }
        other => panic!("expected a conditional, found {:?}", other),
    }
    let node = first_node("if (S { a: 1 }).a { \"x\" }");
    match &node.node {
        NodeType::If(node) => assert_eq!(text(&node.cond), "( S { a : 1 } ) . a "),
        other => panic!("expected a conditional, found {:?}", other),
    }
}

#[test]
fn for_needs_pattern_in_and_source() {
    assert_eq!(error("for in x {}"), ParseError { at: 1, kind: ParseErrorKind::ExpectedPattern });
    assert_eq!(error("for x of y {}"), ParseError { at: 2, kind: ParseErrorKind::ExpectedIn });
    assert_eq!(error("for x"), ParseError { at: 2, kind: ParseErrorKind::ExpectedIn });
    assert_eq!(error("for x in"), ParseError { at: 3, kind: ParseErrorKind::ExpectedExpression });
    assert_eq!(error("for x in y"), ParseError { at: 4, kind: ParseErrorKind::ExpectedBraces });
}

#[test]
fn for_pattern_may_destructure() {
    let node = first_node("for (i, Item { name, .. }) in items.iter().enumerate() {}");
    match &node.node {
        NodeType::For(node) => {
            assert_eq!(text(&node.pat), "( i , Item { name , .. } ) ");
            assert_eq!(text(&node.expr), "items . iter ( ) . enumerate ( ) ");
            assert!(node.body.nodes.is_empty());
        }
        other => panic!("expected a loop, found {:?}", other),
    }
}

#[test]
fn match_needs_scrutinee_and_braces() {
    assert_eq!(error("match"), ParseError { at: 1, kind: ParseErrorKind::ExpectedExpression });
    assert_eq!(error("match x"), ParseError { at: 2, kind: ParseErrorKind::ExpectedBraces });
    assert_eq!(error("match x ( )"), ParseError { at: 4, kind: ParseErrorKind::ExpectedBraces });
}

#[test]
fn arm_needs_pattern_and_arrow() {
    assert_eq!(error("match x { => \"a\" }"), ParseError { at: 3, kind: ParseErrorKind::ExpectedPattern });
    assert_eq!(error("match x { 1 \"a\" }"), ParseError { at: 4, kind: ParseErrorKind::ExpectedFatArrow });
    assert_eq!(error("match x { 1 = > \"a\" }"), ParseError { at: 4, kind: ParseErrorKind::ExpectedFatArrow });
    assert_eq!(error("match x { 1 if => \"a\" }"), ParseError { at: 5, kind: ParseErrorKind::ExpectedExpression });
    assert_eq!(error("match x { 1 => }"), ParseError { at: 6, kind: ParseErrorKind::ExpectedPath });
}

#[test]
fn arm_with_text_needs_a_comma_before_the_next_arm() {
    assert_eq!(
        error("match x { 1 => \"a\" 2 => \"b\" }"),
        ParseError { at: 7, kind: ParseErrorKind::ExpectedComma }
    );
}

#[test]
fn arm_with_expression_needs_a_comma_before_the_next_arm() {
    assert_eq!(
        error("match x { 1 => (a) 2 => (b) }"),
        ParseError { at: 9, kind: ParseErrorKind::ExpectedComma }
    );
}

#[test]
fn last_arm_needs_no_comma() {
    for source in ["match x { 1 => \"a\" }", "match x { 1 => (a) }", "match x { 0 => \"z\", 1 => \"a\" }"]
    {
        let node = first_node(source);
        match &node.node {
            NodeType::Match(node) => assert!(!node.arms.last().unwrap().comma),
            other => panic!("expected a match, found {:?}", other),
        }
    }
}

#[test]
fn arm_that_ends_in_a_brace_needs_no_comma() {
    let node = first_node(
        "match x { 1 => div {} 2 => { \"b\" } 3 => if a {} 4 => for i in x {} 5 => match y {} 6 => \"t\" }",
    );
    match &node.node {
        NodeType::Match(node) => {
            assert_eq!(node.arms.len(), 6);
            assert!(node.arms.iter().all(|arm| !arm.comma));
            let needs: Vec<bool> =
                node.arms.iter().map(|arm| requires_comma_to_be_match_arm(&arm.body)).collect();
            assert_eq!(needs, vec![false, false, false, false, false, true]);
        }
        other => panic!("expected a match, found {:?}", other),
    }
}

#[test]
fn match_is_read_within_its_window() {
    let tokens = tokenize("match x { 1 => \"a\", } div {}").unwrap();
    let (node, next) = MatchNode::parse(&tokens, 0, tokens.len()).unwrap();
    assert_eq!(node.arms.len(), 1);
    assert!(node.arms[0].comma);
    assert_eq!(next, 9);
}

#[test]
fn expression_has_to_fill_its_parentheses() {
    assert_eq!(error("(a b)"), ParseError { at: 2, kind: ParseErrorKind::UnexpectedToken });
    assert_eq!(error("()"), ParseError { at: 1, kind: ParseErrorKind::ExpectedExpression });
    assert_eq!(error("(,)"), ParseError { at: 1, kind: ParseErrorKind::ExpectedExpression });
}

#[test]
fn group_has_to_be_closed() {
    let open = vec![Token::Open(Delimiter::Brace)];
    assert_eq!(
        Nodes::parse(&open),
        Err(ParseError { at: 0, kind: ParseErrorKind::UnbalancedGroup })
    );
    let crossed = vec![Token::Open(Delimiter::Brace), Token::Close(Delimiter::Parenthesis)];
    assert_eq!(
        Nodes::parse(&crossed),
        Err(ParseError { at: 0, kind: ParseErrorKind::UnbalancedGroup })
    );
    let open = vec![Token::Open(Delimiter::Parenthesis), Token::Ident("a".to_string())];
    assert_eq!(
        Nodes::parse(&open),
        Err(ParseError { at: 0, kind: ParseErrorKind::UnbalancedGroup })
    );
}

#[test]
fn closing_bracket_alone_is_no_node() {
    let close = vec![Token::Close(Delimiter::Brace)];
    assert_eq!(Nodes::parse(&close), Err(ParseError { at: 0, kind: ParseErrorKind::ExpectedPath }));
}

#[test]
fn parsing_twice_gives_the_same_template() {
    let source = "#[with(let a = 1;)] div(id=\"x\", on:click=f) { \"t\" (a) if a { } else { } \
                  for i in x { } match y { 1 => \"a\", _ => { } } }";
    let tokens = tokenize(source).unwrap();
    assert_eq!(Nodes::parse(&tokens), Nodes::parse(&tokens));
    assert_eq!(Nodes::parse(&tokens), Nodes::parse(&tokenize(source).unwrap()));
    let broken = tokenize("div { span }").unwrap();
    assert_eq!(Nodes::parse(&broken), Nodes::parse(&broken));
    assert_eq!(
        Nodes::parse(&broken),
        Err(ParseError { at: 3, kind: ParseErrorKind::ExpectedBraces })
    );
}

#[test]
fn messages_are_string_literals() {
    assert_eq!(ParseErrorKind::ExpectedPath.message(), "\"expected a path\"");
    assert_eq!(ParseErrorKind::ExpectedComma.message(), "\"expected `,`\"");
    assert_eq!(GenerateError::MalformedWith.message(), "\"expected one statement: #[with(...)]\"");
    for kind in [
        ParseErrorKind::ExpectedPath,
        ParseErrorKind::ExpectedExpression,
        ParseErrorKind::ExpectedPattern,
        ParseErrorKind::ExpectedIdentifier,
        ParseErrorKind::MalformedAnnotation,
        ParseErrorKind::ExpectedBraces,
        ParseErrorKind::UnbalancedGroup,
        ParseErrorKind::ExpectedIn,
        ParseErrorKind::ExpectedColon,
        ParseErrorKind::ExpectedEquals,
        ParseErrorKind::ExpectedFatArrow,
        ParseErrorKind::ExpectedComma,
        ParseErrorKind::UnexpectedToken,
    ] {
        let tokens = tokenize(kind.message()).unwrap();
        assert_eq!(tokens, vec![Token::Literal(kind.message().to_string())]);
    }
}
