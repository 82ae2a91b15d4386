use extract_variant::config::resolve_config;
use extract_variant::errors::{CfgKey, ErrKind};
use extract_variant::grammar::ExtractVariant;
use extract_variant::tokens::{Delim, Ident, SrcSpan, Token};
use extract_variant::tree::{Attr, AttrArgs, Path};

fn sp(n: u64) -> SrcSpan {
    SrcSpan { id: n }
}

fn ident(s: &str, n: u64) -> Ident {
    Ident { text: s.to_string(), span: sp(n) }
}

fn bare_attr(key: &str, n: u64) -> Attr {
    Attr { span: sp(n), path: Path { segments: vec![ident(key, n)] }, args: AttrArgs::Empty }
}

fn ident_attr(key: &str, arg: &str, n: u64) -> Attr {
    Attr {
        span: sp(n),
        path: Path { segments: vec![ident(key, n)] },
        args: AttrArgs::Paren(vec![Token::Id(ident(arg, n + 1))]),
    }
}

#[test]
fn single_prefix_is_accepted() {
    let cfg = resolve_config(&vec![ident_attr("prefix", "My", 1)]).unwrap();
    let (span, id) = cfg.prefix.unwrap();
    assert_eq!(span, sp(1));
    assert_eq!(id.text, "My");
    assert!(cfg.suffix.is_none());
    assert!(cfg.no_impl.is_none());
}

#[test]
fn duplicate_prefix_is_rejected() {
    let attrs = vec![ident_attr("prefix", "My", 1), ident_attr("prefix", "Other", 5)];
    let err = resolve_config(&attrs).unwrap_err();
    assert_eq!(err.kind, ErrKind::Duplicate(CfgKey::Prefix));
    assert_eq!(err.span, sp(5));
    assert_eq!(err.related, Some(sp(1)));
    assert_eq!(err.message(), "duplicate #[prefix] attribute");
}

#[test]
fn duplicate_prefix_is_rejected_with_declarations_apart() {
    let attrs = vec![
        ident_attr("prefix", "My", 1),
        bare_attr("serde", 2),
        ident_attr("suffix", "Tail", 3),
        ident_attr("prefix", "Other", 8),
    ];
    let err = resolve_config(&attrs).unwrap_err();
    assert_eq!(err.kind, ErrKind::Duplicate(CfgKey::Prefix));
    assert_eq!(err.span, sp(8));
    assert_eq!(err.related, Some(sp(1)));
}

#[test]
fn duplicate_suffix_is_rejected() {
    let attrs = vec![ident_attr("suffix", "A", 1), ident_attr("suffix", "B", 2)];
    let err = resolve_config(&attrs).unwrap_err();
    assert_eq!(err.kind, ErrKind::Duplicate(CfgKey::Suffix));
    assert_eq!(err.message(), "duplicate #[suffix] attribute");
}

#[test]
fn duplicate_no_impl_is_rejected() {
    let attrs = vec![bare_attr("no_impl", 1), bare_attr("no_impl", 2)];
    let err = resolve_config(&attrs).unwrap_err();
    assert_eq!(err.kind, ErrKind::Duplicate(CfgKey::NoImpl));
    assert_eq!(err.span, sp(2));
    assert_eq!(err.related, Some(sp(1)));
    assert_eq!(err.message(), "duplicate #[no_impl] attribute");
}

#[test]
fn prefix_without_arguments_is_rejected() {
    let attrs = vec![Attr {
        span: sp(1),
        path: Path { segments: vec![ident("prefix", 1)] },
        args: AttrArgs::Paren(vec![]),
    }];
    let err = resolve_config(&attrs).unwrap_err();
    assert_eq!(err.kind, ErrKind::MalformedArgs(CfgKey::Prefix));
    assert_eq!(err.span, sp(1));
    assert_eq!(err.message(), "expected exactly one identifier argument");
}

#[test]
fn prefix_with_two_arguments_is_rejected() {
    let attrs = vec![Attr {
        span: sp(1),
        path: Path { segments: vec![ident("prefix", 1)] },
        args: AttrArgs::Paren(vec![Token::Id(ident("A", 2)), Token::Id(ident("B", 3))]),
    }];
    let err = resolve_config(&attrs).unwrap_err();
    assert_eq!(err.kind, ErrKind::MalformedArgs(CfgKey::Prefix));
    // The second, surplus token is the one blamed.
    assert_eq!(err.span, sp(3));
}

#[test]
fn suffix_with_a_non_identifier_argument_is_rejected() {
    let attrs = vec![Attr {
        span: sp(1),
        path: Path { segments: vec![ident("suffix", 1)] },
        args: AttrArgs::Paren(vec![Token::Lit { text: "7".to_string(), span: sp(2) }]),
    }];
    let err = resolve_config(&attrs).unwrap_err();
    assert_eq!(err.kind, ErrKind::MalformedArgs(CfgKey::Suffix));
    assert_eq!(err.span, sp(2));
}

#[test]
fn bare_prefix_without_parentheses_is_rejected() {
    let attrs = vec![bare_attr("prefix", 1)];
    let err = resolve_config(&attrs).unwrap_err();
    assert_eq!(err.kind, ErrKind::MalformedArgs(CfgKey::Prefix));
    assert_eq!(err.span, sp(1));
}

#[test]
fn qualified_keys_are_not_recognized() {
    // An attribute written with a qualified path is not the plain `no_impl`.
    let attrs = vec![
        Attr {
            span: sp(1),
            path: Path { segments: vec![ident("cfg", 1), ident("no_impl", 2)] },
            args: AttrArgs::Empty,
        },
        bare_attr("no_impl", 3),
    ];
    let cfg = resolve_config(&attrs).unwrap();
    assert_eq!(cfg.no_impl, Some(sp(3)));
}

#[test]
fn config_list_parses_all_three_entries() {
    // (prefix(My) suffix(Tail) no_impl)
    let args = AttrArgs::Paren(vec![
        Token::Id(ident("prefix", 1)),
        Token::OpenDelim { delim: Delim::Paren, span: sp(2) },
        Token::Id(ident("My", 3)),
        Token::CloseDelim { delim: Delim::Paren, span: sp(4) },
        Token::Id(ident("suffix", 5)),
        Token::OpenDelim { delim: Delim::Paren, span: sp(6) },
        Token::Id(ident("Tail", 7)),
        Token::CloseDelim { delim: Delim::Paren, span: sp(8) },
        Token::Id(ident("no_impl", 9)),
    ]);
    let cfg = ExtractVariant::parse(&args, sp(0)).unwrap();
    assert_eq!(cfg.prefix.unwrap().text, "My");
    assert_eq!(cfg.suffix.unwrap().text, "Tail");
    assert!(cfg.no_impl);
}

#[test]
fn config_list_defaults_to_nothing() {
    let cfg = ExtractVariant::parse(&AttrArgs::Empty, sp(0)).unwrap();
    assert!(cfg.prefix.is_none());
    assert!(cfg.suffix.is_none());
    assert!(!cfg.no_impl);
}

#[test]
fn config_list_rejects_an_unknown_parameter() {
    let args = AttrArgs::Paren(vec![Token::Id(ident("prefx", 4))]);
    let err = ExtractVariant::parse(&args, sp(0)).unwrap_err();
    assert_eq!(err.kind, ErrKind::InvalidParameter);
    assert_eq!(err.span, sp(4));
    assert_eq!(err.message(), "invalid parameter name");
}

#[test]
fn config_list_rejects_other_argument_shapes() {
    let args = AttrArgs::Other(vec![Token::Punct { ch: '=', span: sp(2) }]);
    let err = ExtractVariant::parse(&args, sp(0)).unwrap_err();
    assert_eq!(err.kind, ErrKind::MalformedConfigList);
    assert_eq!(err.span, sp(2));
    assert_eq!(err.message(), "expected a parenthesized configuration list");
}

#[test]
fn config_list_rejects_a_malformed_prefix_entry() {
    let args = AttrArgs::Paren(vec![
        Token::Id(ident("prefix", 1)),
        Token::Id(ident("My", 2)),
    ]);
    let err = ExtractVariant::parse(&args, sp(0)).unwrap_err();
    assert_eq!(err.kind, ErrKind::MalformedArgs(CfgKey::Prefix));
    assert_eq!(err.span, sp(2));
}
