use proc_macro2::{LexError, Spacing, TokenStream, TokenTree};
use rdml::block::Nodes;
use rdml::error::GenerateError;
use rdml::node::Annotation;
use rdml::resolve::{resolve_for, resolve_if, resolve_with, ForStrategy, IfStrategy};
use rdml::token::{render, Delimiter, Token};
use std::str::FromStr;

fn flatten(stream: TokenStream, out: &mut Vec<Token>) {
    for tree in stream {
        match tree {
            TokenTree::Ident(ident) => out.push(Token::Ident(ident.to_string())),
            TokenTree::Punct(punct) => {
                out.push(Token::Punct(punct.as_char(), punct.spacing() == Spacing::Joint))
            }
            TokenTree::Literal(literal) => out.push(Token::Literal(literal.to_string())),
            TokenTree::Group(group) => {
                let delimiter = match group.delimiter() {
                    proc_macro2::Delimiter::Parenthesis => Delimiter::Parenthesis,
                    proc_macro2::Delimiter::Brace => Delimiter::Brace,
                    proc_macro2::Delimiter::Bracket => Delimiter::Bracket,
                    proc_macro2::Delimiter::None => panic!("a group without delimiters"),
                };
                out.push(Token::Open(delimiter));
                flatten(group.stream(), out);
                out.push(Token::Close(delimiter));
            }
        }
    }
}

fn tokenize(source: &str) -> Result<Vec<Token>, LexError> {
    let mut tokens = Vec::new();
    flatten(TokenStream::from_str(source)?, &mut tokens);
    Ok(tokens)
}

fn annotations(source: &str) -> Vec<Annotation> {
    let tokens = tokenize(source).unwrap();
    Nodes::parse(&tokens).unwrap().nodes.remove(0).attrs
}

#[test]
fn conditional_is_a_closure_unless_shown() {
    assert_eq!(resolve_if(&annotations("if a {}")), IfStrategy::Closure);
    assert_eq!(resolve_if(&annotations("#[other] if a {}")), IfStrategy::Closure);
    assert_eq!(resolve_if(&annotations("#[show::me] if a {}")), IfStrategy::Closure);
    assert_eq!(resolve_if(&annotations("#[show] if a {}")), IfStrategy::Show);
    assert_eq!(resolve_if(&annotations("#[other] #[show] if a {}")), IfStrategy::Show);
    assert_eq!(resolve_if(&annotations("#[show(now)] if a {}")), IfStrategy::Show);
}

#[test]
fn loop_is_collected_unless_keyed() {
    assert_eq!(resolve_for(&annotations("for i in x {}")), Ok(ForStrategy::Collect));
    assert_eq!(resolve_for(&annotations("#[show] for i in x {}")), Ok(ForStrategy::Collect));
    match resolve_for(&annotations("#[other] #[key(i.id)] for i in x {}")) {
        Ok(ForStrategy::Keyed(key)) => assert_eq!(render(&key, 0, key.len()), "i . id "),
        other => panic!("expected a key, found {:?}", other),
    }
}

#[test]
fn key_has_to_be_one_expression() {
    assert_eq!(resolve_for(&annotations("#[key] for i in x {}")), Err(GenerateError::MalformedKey));
    assert_eq!(
        resolve_for(&annotations("#[key = 1] for i in x {}")),
        Err(GenerateError::MalformedKey)
    );
    assert_eq!(
        resolve_for(&annotations("#[key(1, 2)] for i in x {}")),
        Err(GenerateError::MalformedKey)
    );
    assert_eq!(
        resolve_for(&annotations("#[key(let a = 1;)] for i in x {}")),
        Err(GenerateError::MalformedKey)
    );
    match resolve_for(&annotations("#[key[i]] for i in x {}")) {
        Ok(ForStrategy::Keyed(key)) => assert_eq!(render(&key, 0, key.len()), "i "),
        other => panic!("expected a key, found {:?}", other),
    }
}

#[test]
fn scope_holds_the_statements_in_order() {
    assert_eq!(resolve_with(&annotations("div {}")), Ok(None));
    assert_eq!(resolve_with(&annotations("#[show] #[key(a)] div {}")), Ok(None));
    let scope = resolve_with(&annotations(
        "#[with(let a = 1;)] #[show] #[with(let b = a + 1;)] #[with(f();)] div {}",
    ))
    .unwrap()
    .unwrap();
    assert_eq!(render(&scope, 0, scope.len()), "let a = 1 ; let b = a + 1 ; f ( ) ; ");
}

#[test]
fn scope_needs_statements() {
    assert_eq!(resolve_with(&annotations("#[with] div {}")), Err(GenerateError::MalformedWith));
    assert_eq!(resolve_with(&annotations("#[with(f())] div {}")), Err(GenerateError::MalformedWith));
    assert_eq!(
        resolve_with(&annotations("#[with(let a = 1; let b = 2;)] div {}")),
        Err(GenerateError::MalformedWith)
    );
    assert_eq!(
        resolve_with(&annotations("#[with(let a = 1;)] #[with()] div {}")),
        Err(GenerateError::MalformedWith)
    );
}
