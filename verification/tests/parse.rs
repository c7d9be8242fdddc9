use proc_macro2::{LexError, Spacing, TokenStream, TokenTree};
use rdml::attribute::AttributeName;
use rdml::block::Nodes;
use rdml::if_node::ElseNode;
use rdml::node::{Node, NodeType};
use rdml::token::{render, Delimiter, Token};
use std::str::FromStr;

fn flatten(stream: TokenStream, out: &mut Vec<Token>) {
    for tree in stream {
        match tree {
            TokenTree::Ident(ident) => out.push(Token::Ident(ident.to_string())),
            TokenTree::Punct(punct) => {
                out.push(Token::Punct(punct.as_char(), punct.spacing() == Spacing::Joint))
            }
            TokenTree::Literal(literal) => out.push(Token::Literal(literal.to_string())),
            TokenTree::Group(group) => {
                let delimiter = match group.delimiter() {
                    proc_macro2::Delimiter::Parenthesis => Delimiter::Parenthesis,
                    proc_macro2::Delimiter::Brace => Delimiter::Brace,
                    proc_macro2::Delimiter::Bracket => Delimiter::Bracket,
                    proc_macro2::Delimiter::None => panic!("a group without delimiters"),
                };
                out.push(Token::Open(delimiter));
                flatten(group.stream(), out);
                out.push(Token::Close(delimiter));
            }
        }
    }
}

fn tokenize(source: &str) -> Result<Vec<Token>, LexError> {
    let mut tokens = Vec::new();
    flatten(TokenStream::from_str(source)?, &mut tokens);
    Ok(tokens)
}

fn parse(source: &str) -> Nodes {
    let tokens = tokenize(source).unwrap();
    Nodes::parse(&tokens).unwrap()
}

fn text(tokens: &Vec<Token>) -> String {
    render(tokens, 0, tokens.len())
}

fn literal(node: &Node) -> &str {
    match &node.node {
        NodeType::Text(literal) => literal.as_str(),
        other => panic!("expected a text, found {:?}", other),
    }
}

#[test]
fn test_parse_empty() {
    let tokens = tokenize("").unwrap();
    let result = Nodes::parse(&tokens).unwrap();
    assert_eq!(result, Nodes { nodes: vec![] })
}

#[test]
fn test_parse_single_node() {
    let result = parse(
        "div {}
         ::full::path::to::div {}
         Component::<WithGenerics> {}",
    );
    assert_eq!(result.nodes.len(), 3);
    let paths: Vec<String> = result
        .nodes
        .iter()
        .map(|node| match &node.node {
            NodeType::Element(element) => {
                assert!(element.attributes.is_none());
                assert!(element.children.nodes.is_empty());
                assert!(node.attrs.is_empty());
                text(&element.path)
            }
            other => panic!("expected an element, found {:?}", other),
        })
        .collect();
    assert_eq!(paths, vec!["div ", ":: full :: path :: to :: div ", "Component ::< WithGenerics > "]);
}

#[test]
fn test_match_node() {
    let result = parse(
        "match expr {
            Some(X) | Some(Y) => {
                div {}
            }
            Some(A) | Some(B) if true => \"1\",
            Some(C) => \"2\",
            None => span {},
        }",
    );
    assert_eq!(result.nodes.len(), 1);
    let node = match &result.nodes[0].node {
        NodeType::Match(node) => node,
        other => panic!("expected a match, found {:?}", other),
    };
    assert_eq!(text(&node.expr), "expr ");
    assert_eq!(node.arms.len(), 4);

    assert_eq!(text(&node.arms[0].pat), "Some ( X ) | Some ( Y ) ");
    assert!(node.arms[0].guard.is_none());
    assert!(matches!(&node.arms[0].body.node, NodeType::Block(block) if block.nodes.len() == 1));
    assert!(!node.arms[0].comma);

    assert_eq!(text(&node.arms[1].pat), "Some ( A ) | Some ( B ) ");
    assert_eq!(text(node.arms[1].guard.as_ref().unwrap()), "true ");
    assert_eq!(literal(&node.arms[1].body), "\"1\"");
    assert!(node.arms[1].comma);

    assert_eq!(text(&node.arms[2].pat), "Some ( C ) ");
    assert!(node.arms[2].guard.is_none());
    assert_eq!(literal(&node.arms[2].body), "\"2\"");
    assert!(node.arms[2].comma);

    assert_eq!(text(&node.arms[3].pat), "None ");
    assert!(matches!(&node.arms[3].body.node, NodeType::Element(element) if text(&element.path) == "span "));
    assert!(node.arms[3].comma);
}

#[test]
fn test_parse_attributes() {
    let result = parse(
        "div(
            single=\"single\",
            \"quoted\"=\"quoted\",
            dir:ective=\"directive\",
            ::rdml::attribute::Attribute=\"leading non-directive path\",
            rdml::attribute::Attribute=\"non-directive path\",
            directive:rdml::attribute::Attribute=\"directive path\",
        ) {}",
    );
    assert_eq!(result.nodes.len(), 1);
    let element = match &result.nodes[0].node {
        NodeType::Element(element) => element,
        other => panic!("expected an element, found {:?}", other),
    };
    let attributes = &element.attributes.as_ref().unwrap().attributes;
    assert_eq!(attributes.len(), 6);

    assert!(matches!(&attributes[0].name, AttributeName::Single(path) if text(path) == "single "));
    assert_eq!(text(&attributes[0].value), "\"single\" ");

    assert!(matches!(&attributes[1].name, AttributeName::Quoted(name) if name == "\"quoted\""));
    assert_eq!(text(&attributes[1].value), "\"quoted\" ");

    match &attributes[2].name {
        AttributeName::Directive(name) => {
            assert_eq!(name.directive, "dir");
            assert_eq!(text(&name.path), "ective ");
        }
        other => panic!("expected a directive, found {:?}", other),
    }
    assert_eq!(text(&attributes[2].value), "\"directive\" ");

    assert!(matches!(
        &attributes[3].name,
        AttributeName::Single(path) if text(path) == ":: rdml :: attribute :: Attribute "
    ));
    assert_eq!(text(&attributes[3].value), "\"leading non-directive path\" ");

    assert!(matches!(
        &attributes[4].name,
        AttributeName::Single(path) if text(path) == "rdml :: attribute :: Attribute "
    ));
    assert_eq!(text(&attributes[4].value), "\"non-directive path\" ");

    match &attributes[5].name {
        AttributeName::Directive(name) => {
            assert_eq!(name.directive, "directive");
            assert_eq!(text(&name.path), "rdml :: attribute :: Attribute ");
        }
        other => panic!("expected a directive, found {:?}", other),
    }
    assert_eq!(text(&attributes[5].value), "\"directive path\" ");
}

#[test]
fn test_parse_literals() {
    let result = parse(
        "\"text here\"
         div {
             \"stuff inside of elements\"
         }
         (expr(here))",
    );
    assert_eq!(result.nodes.len(), 3);
    assert_eq!(literal(&result.nodes[0]), "\"text here\"");
    match &result.nodes[1].node {
        NodeType::Element(element) => {
            assert_eq!(text(&element.path), "div ");
            assert_eq!(element.children.nodes.len(), 1);
            assert_eq!(literal(&element.children.nodes[0]), "\"stuff inside of elements\"");
        }
        other => panic!("expected an element, found {:?}", other),
    }
    match &result.nodes[2].node {
        NodeType::Expr(node) => assert_eq!(text(&node.expr), "expr ( here ) "),
        other => panic!("expected an expression, found {:?}", other),
    }
}

#[test]
fn test_parse_node_attribute() {
    let result = parse(
        "#[attribute]
         div {}
         #[attribute(|| expr)]
         if true {}
         #[attribute]
         \"hello\"
         #[attribute]
         (expr)",
    );
    assert_eq!(result.nodes.len(), 4);
    for node in &result.nodes {
        assert_eq!(node.attrs.len(), 1);
        assert_eq!(node.attrs[0].name.as_deref(), Some("attribute"));
    }
    assert!(matches!(&result.nodes[0].node, NodeType::Element(_)));
    assert!(result.nodes[0].attrs[0].arguments.is_none());
    assert_eq!(text(&result.nodes[0].attrs[0].tokens), "# [ attribute ] ");

    assert!(matches!(&result.nodes[1].node, NodeType::If(_)));
    assert_eq!(text(result.nodes[1].attrs[0].arguments.as_ref().unwrap()), "|| expr ");
    assert_eq!(text(&result.nodes[1].attrs[0].tokens), "# [ attribute ( || expr ) ] ");

    assert_eq!(literal(&result.nodes[2]), "\"hello\"");
    assert!(matches!(&result.nodes[3].node, NodeType::Expr(node) if text(&node.expr) == "expr "));
}

#[test]
fn test_parse_for() {
    let result = parse(
        "for pattern in expr {
            \"for body\"
        }",
    );
    assert_eq!(result.nodes.len(), 1);
    match &result.nodes[0].node {
        NodeType::For(node) => {
            assert_eq!(text(&node.pat), "pattern ");
            assert_eq!(text(&node.expr), "expr ");
            assert_eq!(node.body.nodes.len(), 1);
            assert_eq!(literal(&node.body.nodes[0]), "\"for body\"");
        }
        other => panic!("expected a loop, found {:?}", other),
    }
}

#[test]
fn test_parse_if() {
    let result = parse(
        "if condition {
            \"if body\"
        }

        if condition && else_block {
            \"if body\"
        } else {
            \"else body\"
        }

        if condition && else_block {
            \"if body\"
        } else if condition && else_if_block {
            \"else if body\"
        } else {
            \"else body\"
        }",
    );
    assert_eq!(result.nodes.len(), 3);

    let first = match &result.nodes[0].node {
        NodeType::If(node) => node,
        other => panic!("expected a conditional, found {:?}", other),
    };
    assert_eq!(text(&first.cond), "condition ");
    assert_eq!(literal(&first.then_branch.nodes[0]), "\"if body\"");
    assert!(first.else_branch.is_none());

    let second = match &result.nodes[1].node {
        NodeType::If(node) => node,
        other => panic!("expected a conditional, found {:?}", other),
    };
    assert_eq!(text(&second.cond), "condition && else_block ");
    assert_eq!(literal(&second.then_branch.nodes[0]), "\"if body\"");
    match &second.else_branch {
        Some(ElseNode::Else(block)) => assert_eq!(literal(&block.nodes[0]), "\"else body\""),
        other => panic!("expected a final block, found {:?}", other),
    }

    let third = match &result.nodes[2].node {
        NodeType::If(node) => node,
        other => panic!("expected a conditional, found {:?}", other),
    };
    assert_eq!(text(&third.cond), "condition && else_block ");
    match &third.else_branch {
        Some(ElseNode::If(next)) => {
            assert_eq!(text(&next.cond), "condition && else_if_block ");
            assert_eq!(literal(&next.then_branch.nodes[0]), "\"else if body\"");
            match &next.else_branch {
                Some(ElseNode::Else(block)) => {
                    assert_eq!(literal(&block.nodes[0]), "\"else body\"")
                }
                other => panic!("expected a final block, found {:?}", other),
            }
        }
        other => panic!("expected another conditional, found {:?}", other),
    }
}
