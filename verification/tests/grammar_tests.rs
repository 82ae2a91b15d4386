use extract_variant::errors::{CfgKey, ErrKind};
use extract_variant::grammar::parse_outer_attrs;
use extract_variant::tokens::{Delim, Ident, SrcSpan, Token};
use extract_variant::tree::AttrArgs;

fn sp(n: u64) -> SrcSpan {
    SrcSpan { id: n }
}

fn ident(s: &str, n: u64) -> Ident {
    Ident { text: s.to_string(), span: sp(n) }
}

fn id(s: &str, n: u64) -> Token {
    Token::Id(ident(s, n))
}

fn punct(c: char, n: u64) -> Token {
    Token::Punct { ch: c, span: sp(n) }
}

fn open(d: Delim, n: u64) -> Token {
    Token::OpenDelim { delim: d, span: sp(n) }
}

fn close(d: Delim, n: u64) -> Token {
    Token::CloseDelim { delim: d, span: sp(n) }
}

#[test]
fn an_attribute_list_parses_attribute_by_attribute() {
    // #[derive(Eq, Ord)] #[doc = "x"]
    let toks = vec![
        punct('#', 1),
        open(Delim::Bracket, 2),
        id("derive", 3),
        open(Delim::Paren, 4),
        id("Eq", 5),
        punct(',', 6),
        id("Ord", 7),
        close(Delim::Paren, 8),
        close(Delim::Bracket, 9),
        punct('#', 10),
        open(Delim::Bracket, 11),
        id("doc", 12),
        punct('=', 13),
        Token::Lit { text: "\"x\"".to_string(), span: sp(14) },
        close(Delim::Bracket, 15),
    ];
    let attrs = parse_outer_attrs(&toks, 0, sp(0)).unwrap();
    assert_eq!(attrs.len(), 2);
    assert_eq!(attrs[0].span, sp(1));
    assert_eq!(attrs[0].path.segments[0].text, "derive");
    match &attrs[0].args {
        AttrArgs::Paren(ts) => assert_eq!(ts.len(), 3),
        _ => panic!("parenthesized arguments are kept as such"),
    }
    assert_eq!(attrs[1].path.segments[0].text, "doc");
    match &attrs[1].args {
        AttrArgs::Other(ts) => assert_eq!(ts.len(), 2),
        _ => panic!("name-value arguments are kept verbatim"),
    }
}

#[test]
fn a_bare_attribute_has_empty_arguments() {
    let toks = vec![punct('#', 1), open(Delim::Bracket, 2), id("default", 3), close(Delim::Bracket, 4)];
    let attrs = parse_outer_attrs(&toks, 0, sp(0)).unwrap();
    assert_eq!(attrs.len(), 1);
    assert!(matches!(attrs[0].args, AttrArgs::Empty));
}

#[test]
fn a_qualified_attribute_path_is_parsed() {
    let toks = vec![
        punct('#', 1),
        open(Delim::Bracket, 2),
        id("serde", 3),
        punct(':', 4),
        punct(':', 5),
        id("rename", 6),
        close(Delim::Bracket, 7),
    ];
    let attrs = parse_outer_attrs(&toks, 0, sp(0)).unwrap();
    assert_eq!(attrs[0].path.segments.len(), 2);
    assert_eq!(attrs[0].path.segments[0].text, "serde");
    assert_eq!(attrs[0].path.segments[1].text, "rename");
}

#[test]
fn nested_groups_inside_arguments_are_balanced() {
    // #[a((x), y)]
    let toks = vec![
        punct('#', 1),
        open(Delim::Bracket, 2),
        id("a", 3),
        open(Delim::Paren, 4),
        open(Delim::Paren, 5),
        id("x", 6),
        close(Delim::Paren, 7),
        punct(',', 8),
        id("y", 9),
        close(Delim::Paren, 10),
        close(Delim::Bracket, 11),
    ];
    let attrs = parse_outer_attrs(&toks, 0, sp(0)).unwrap();
    assert_eq!(attrs.len(), 1);
    match &attrs[0].args {
        AttrArgs::Paren(ts) => assert_eq!(ts.len(), 5),
        _ => panic!("the outer parentheses delimit the arguments"),
    }
}

#[test]
fn an_empty_payload_declares_no_attributes() {
    let attrs = parse_outer_attrs(&vec![], 0, sp(0)).unwrap();
    assert!(attrs.is_empty());
}

#[test]
fn a_missing_pound_sign_is_rejected() {
    let toks = vec![id("derive", 3)];
    let err = parse_outer_attrs(&toks, 0, sp(0)).unwrap_err();
    assert_eq!(err.kind, ErrKind::MalformedArgs(CfgKey::VariantAttrs));
    assert_eq!(err.span, sp(3));
}

#[test]
fn an_unclosed_attribute_is_rejected() {
    let toks = vec![punct('#', 1), open(Delim::Bracket, 2), id("derive", 3)];
    let err = parse_outer_attrs(&toks, 0, sp(0)).unwrap_err();
    assert_eq!(err.kind, ErrKind::MalformedArgs(CfgKey::VariantAttrs));
    // The last token seen is the best position left to blame.
    assert_eq!(err.span, sp(3));
}
