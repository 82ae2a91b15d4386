use extract_variant::errors::{CfgKey, ErrKind};
use extract_variant::extract_variant::doit;
use extract_variant::output::{BindPattern, ConvSig, MarkerSig, OutputItem};
use extract_variant::tokens::{Ident, SrcSpan, Token};
use extract_variant::tree::{Attr, AttrArgs, EnumDef, Field, Fields, Path, StructDef, VariantDef, Vis};

fn sp(n: u64) -> SrcSpan {
    SrcSpan { id: n }
}

fn ident(s: &str, n: u64) -> Ident {
    Ident { text: s.to_string(), span: sp(n) }
}

fn ty(s: &str) -> extract_variant::tree::Ty {
    extract_variant::tree::Ty { tokens: vec![Token::Id(ident(s, 0))] }
}

fn ufield(t: &str) -> Field {
    Field { vis: Vis::Inherited, name: None, ty: ty(t) }
}

fn nfield(n: &str, t: &str) -> Field {
    Field { vis: Vis::Inherited, name: Some(ident(n, 0)), ty: ty(t) }
}

fn bare_attr(key: &str, n: u64) -> Attr {
    Attr { span: sp(n), path: Path { segments: vec![ident(key, n)] }, args: AttrArgs::Empty }
}

fn ident_attr(key: &str, arg: &str, n: u64) -> Attr {
    Attr {
        span: sp(n),
        path: Path { segments: vec![ident(key, n)] },
        args: AttrArgs::Paren(vec![Token::Id(ident(arg, n + 1))]),
    }
}

fn three_variant_union() -> EnumDef {
    EnumDef {
        attrs: vec![],
        vis: Vis::Public,
        ident: ident("MyEnum", 1),
        generics_lt: None,
        variants: vec![
            VariantDef { attrs: vec![], ident: ident("Variant1", 10), fields: Fields::Unit },
            VariantDef {
                attrs: vec![],
                ident: ident("Variant2", 20),
                fields: Fields::Unnamed(vec![ufield("i32"), ufield("String")]),
            },
            VariantDef {
                attrs: vec![],
                ident: ident("Variant3", 30),
                fields: Fields::Named(vec![nfield("field1", "bool"), nfield("field2", "f32")]),
            },
        ],
    }
}

fn as_record(item: &OutputItem) -> &StructDef {
    match item {
        OutputItem::RecordDecl(s) => s,
        _ => panic!("expected a record declaration"),
    }
}

fn as_from(item: &OutputItem) -> &ConvSig {
    match item {
        OutputItem::FromImplDecl(c) => c,
        _ => panic!("expected the total conversion"),
    }
}

fn as_try_from(item: &OutputItem) -> &ConvSig {
    match item {
        OutputItem::TryFromImplDecl(c) => c,
        _ => panic!("expected the fallible conversion"),
    }
}

fn as_marker(item: &OutputItem) -> &MarkerSig {
    match item {
        OutputItem::MarkerImplDecl(m) => m,
        _ => panic!("expected the marker declaration"),
    }
}

fn single_segment(p: &Path) -> &str {
    assert_eq!(p.segments.len(), 1);
    &p.segments[0].text
}

#[test]
fn three_variant_union_yields_three_records() {
    let out = doit(&three_variant_union()).unwrap();
    assert_eq!(out.len(), 12);

    let records: Vec<&StructDef> = out
        .iter()
        .filter_map(|i| match i {
            OutputItem::RecordDecl(s) => Some(s),
            _ => None,
        })
        .collect();
    assert_eq!(records.len(), 3);
    assert_eq!(records[0].ident.text, "Variant1");
    assert_eq!(records[1].ident.text, "Variant2");
    assert_eq!(records[2].ident.text, "Variant3");

    let conversions = out
        .iter()
        .filter(|i| matches!(i, OutputItem::FromImplDecl(_) | OutputItem::TryFromImplDecl(_)))
        .count();
    assert_eq!(conversions, 6);
    let markers = out.iter().filter(|i| matches!(i, OutputItem::MarkerImplDecl(_))).count();
    assert_eq!(markers, 3);

    match &records[0].fields {
        Fields::Unit => {}
        _ => panic!("the fieldless alternative must yield a fieldless record"),
    }
    match &records[1].fields {
        Fields::Unnamed(fs) => {
            assert_eq!(fs.len(), 2);
            for f in fs {
                assert!(matches!(f.vis, Vis::Public));
                assert!(f.name.is_none());
            }
            assert!(matches!(&fs[0].ty.tokens[0], Token::Id(i) if i.text == "i32"));
            assert!(matches!(&fs[1].ty.tokens[0], Token::Id(i) if i.text == "String"));
        }
        _ => panic!("the positional alternative must yield a positional record"),
    }
    match &records[2].fields {
        Fields::Named(fs) => {
            assert_eq!(fs.len(), 2);
            assert_eq!(fs[0].name.as_ref().unwrap().text, "field1");
            assert_eq!(fs[1].name.as_ref().unwrap().text, "field2");
            assert!(matches!(&fs[0].ty.tokens[0], Token::Id(i) if i.text == "bool"));
            assert!(matches!(&fs[1].ty.tokens[0], Token::Id(i) if i.text == "f32"));
            for f in fs {
                assert!(matches!(f.vis, Vis::Public));
            }
        }
        _ => panic!("the named alternative must yield a named record"),
    }
}

#[test]
fn emission_order_is_declaration_order() {
    let out = doit(&three_variant_union()).unwrap();
    // Per alternative: record, total conversion, fallible conversion, marker.
    assert_eq!(as_record(&out[0]).ident.text, "Variant1");
    assert_eq!(as_from(&out[1]).variant.text, "Variant1");
    assert_eq!(as_try_from(&out[2]).variant.text, "Variant1");
    assert_eq!(single_segment(&as_marker(&out[3]).record), "Variant1");
    assert_eq!(as_record(&out[4]).ident.text, "Variant2");
    assert_eq!(as_from(&out[5]).variant.text, "Variant2");
    assert_eq!(as_try_from(&out[6]).variant.text, "Variant2");
    assert_eq!(single_segment(&as_marker(&out[7]).record), "Variant2");
    assert_eq!(as_record(&out[8]).ident.text, "Variant3");
    assert_eq!(single_segment(&as_marker(&out[11]).record), "Variant3");
    // Every conversion goes between the record and the union.
    assert_eq!(single_segment(&as_from(&out[1]).enum_path), "MyEnum");
    assert_eq!(single_segment(&as_from(&out[1]).record), "Variant1");
    assert_eq!(single_segment(&as_marker(&out[3]).enum_path), "MyEnum");
}

#[test]
fn binding_patterns_follow_the_shape() {
    let out = doit(&three_variant_union()).unwrap();
    assert!(matches!(as_from(&out[1]).binding, BindPattern::Unit));
    match &as_from(&out[5]).binding {
        BindPattern::Positional(ids) => {
            assert_eq!(ids.len(), 2);
            assert_eq!(ids[0].text, "_0");
            assert_eq!(ids[1].text, "_1");
        }
        _ => panic!("positional fields must bind positionally"),
    }
    match &as_try_from(&out[10]).binding {
        BindPattern::Named(ids) => {
            assert_eq!(ids.len(), 2);
            assert_eq!(ids[0].text, "field1");
            assert_eq!(ids[1].text, "field2");
        }
        _ => panic!("named fields must bind by name"),
    }
}

#[test]
fn prefix_renames_records() {
    let mut e = three_variant_union();
    e.attrs.push(ident_attr("prefix", "MyEnum", 100));
    let out = doit(&e).unwrap();
    let names: Vec<&str> = out
        .iter()
        .filter_map(|i| match i {
            OutputItem::RecordDecl(s) => Some(s.ident.text.as_str()),
            _ => None,
        })
        .collect();
    assert_eq!(names, vec!["MyEnumVariant1", "MyEnumVariant2", "MyEnumVariant3"]);
}

#[test]
fn suffix_renames_records() {
    let mut e = three_variant_union();
    e.attrs.push(ident_attr("suffix", "Tail", 100));
    let out = doit(&e).unwrap();
    assert_eq!(as_record(&out[0]).ident.text, "Variant1Tail");
}

#[test]
fn prefix_and_suffix_combine() {
    let mut e = three_variant_union();
    e.attrs.push(ident_attr("prefix", "My", 100));
    e.attrs.push(ident_attr("suffix", "Tail", 200));
    let out = doit(&e).unwrap();
    assert_eq!(as_record(&out[0]).ident.text, "MyVariant1Tail");
}

#[test]
fn record_name_keeps_the_alternative_position_without_customization() {
    let out = doit(&three_variant_union()).unwrap();
    assert_eq!(as_record(&out[0]).ident.span, sp(10));
    assert_eq!(as_record(&out[4]).ident.span, sp(20));
}

#[test]
fn record_name_takes_the_customization_position_with_a_prefix() {
    let mut e = three_variant_union();
    e.attrs.push(ident_attr("prefix", "My", 100));
    let out = doit(&e).unwrap();
    // The prefix identifier was written at position 101.
    assert_eq!(as_record(&out[0]).ident.span, sp(101));
}

#[test]
fn exclude_skips_alternative() {
    let mut e = three_variant_union();
    e.variants[1].attrs.push(bare_attr("exclude", 50));
    let out = doit(&e).unwrap();
    assert_eq!(out.len(), 8);
    let names: Vec<&str> = out
        .iter()
        .filter_map(|i| match i {
            OutputItem::RecordDecl(s) => Some(s.ident.text.as_str()),
            _ => None,
        })
        .collect();
    assert_eq!(names, vec!["Variant1", "Variant3"]);
    for item in &out {
        match item {
            OutputItem::RecordDecl(s) => assert_ne!(s.ident.text, "Variant2"),
            OutputItem::FromImplDecl(c) => assert_ne!(c.variant.text, "Variant2"),
            OutputItem::TryFromImplDecl(c) => assert_ne!(c.variant.text, "Variant2"),
            OutputItem::MarkerImplDecl(m) => assert_ne!(single_segment(&m.record), "Variant2"),
        }
    }
}

#[test]
fn no_impl_suppresses_conversions() {
    let mut e = three_variant_union();
    e.attrs.push(bare_attr("no_impl", 100));
    let out = doit(&e).unwrap();
    assert_eq!(out.len(), 3);
    for item in &out {
        assert!(matches!(item, OutputItem::RecordDecl(_)));
    }
}

#[test]
fn generic_union_is_rejected() {
    let mut e = three_variant_union();
    e.generics_lt = Some(sp(7));
    let err = doit(&e).unwrap_err();
    assert_eq!(err.kind, ErrKind::GenericParams);
    assert_eq!(err.span, sp(7));
    assert_eq!(err.message(), "`extract_variant` does not support generic parameters");
}

#[test]
fn unrecognized_keys_are_ignored() {
    let mut e = three_variant_union();
    e.attrs.push(bare_attr("serde", 100));
    e.variants[0].attrs.push(bare_attr("allow", 60));
    let out = doit(&e).unwrap();
    assert_eq!(out.len(), 12);
}

#[test]
fn derive_entries_are_inherited_from_the_union() {
    let mut e = three_variant_union();
    e.attrs.push(Attr {
        span: sp(100),
        path: Path { segments: vec![ident("derive", 100)] },
        args: AttrArgs::Paren(vec![Token::Id(ident("Debug", 101))]),
    });
    e.attrs.push(bare_attr("non_exhaustive", 110));
    let out = doit(&e).unwrap();
    let rec = as_record(&out[0]);
    // Exactly the derive entry is copied; other union metadata is not.
    assert_eq!(rec.attrs.len(), 1);
    assert_eq!(rec.attrs[0].path.segments[0].text, "derive");
    assert_eq!(rec.attrs[0].span, sp(100));
}

#[test]
fn doc_entries_are_inherited_from_the_alternative() {
    let mut e = three_variant_union();
    e.variants[0].attrs.push(Attr {
        span: sp(60),
        path: Path { segments: vec![ident("doc", 60)] },
        args: AttrArgs::Other(vec![
            Token::Punct { ch: '=', span: sp(61) },
            Token::Lit { text: "\"docs\"".to_string(), span: sp(62) },
        ]),
    });
    let out = doit(&e).unwrap();
    let rec = as_record(&out[0]);
    assert_eq!(rec.attrs.len(), 1);
    assert_eq!(rec.attrs[0].path.segments[0].text, "doc");
    // The other records inherit nothing.
    assert_eq!(as_record(&out[4]).attrs.len(), 0);
}

#[test]
fn variant_attrs_payload_is_spliced_first() {
    let mut e = three_variant_union();
    // #[variant_attrs(#[derive(Eq)])] on the first alternative.
    e.variants[0].attrs.push(Attr {
        span: sp(50),
        path: Path { segments: vec![ident("variant_attrs", 50)] },
        args: AttrArgs::Paren(vec![
            Token::Punct { ch: '#', span: sp(51) },
            Token::OpenDelim { delim: extract_variant::tokens::Delim::Bracket, span: sp(52) },
            Token::Id(ident("derive", 53)),
            Token::OpenDelim { delim: extract_variant::tokens::Delim::Paren, span: sp(54) },
            Token::Id(ident("Eq", 55)),
            Token::CloseDelim { delim: extract_variant::tokens::Delim::Paren, span: sp(56) },
            Token::CloseDelim { delim: extract_variant::tokens::Delim::Bracket, span: sp(57) },
        ]),
    });
    e.attrs.push(Attr {
        span: sp(100),
        path: Path { segments: vec![ident("derive", 100)] },
        args: AttrArgs::Paren(vec![Token::Id(ident("Debug", 101))]),
    });
    let out = doit(&e).unwrap();
    let rec = as_record(&out[0]);
    assert_eq!(rec.attrs.len(), 2);
    // The extra metadata comes first, the inherited derive after it.
    assert_eq!(rec.attrs[0].path.segments[0].text, "derive");
    assert_eq!(rec.attrs[0].span, sp(51));
    match &rec.attrs[0].args {
        AttrArgs::Paren(ts) => assert!(matches!(&ts[0], Token::Id(i) if i.text == "Eq")),
        _ => panic!("the spliced derive keeps its parenthesized arguments"),
    }
    assert_eq!(rec.attrs[1].span, sp(100));
}

#[test]
fn duplicate_variant_attrs_is_rejected() {
    let mut e = three_variant_union();
    e.variants[2].attrs.push(Attr {
        span: sp(50),
        path: Path { segments: vec![ident("variant_attrs", 50)] },
        args: AttrArgs::Paren(vec![]),
    });
    e.variants[2].attrs.push(Attr {
        span: sp(70),
        path: Path { segments: vec![ident("variant_attrs", 70)] },
        args: AttrArgs::Paren(vec![]),
    });
    let err = doit(&e).unwrap_err();
    assert_eq!(err.kind, ErrKind::Duplicate(CfgKey::VariantAttrs));
    assert_eq!(err.span, sp(70));
    assert_eq!(err.related, Some(sp(50)));
    assert_eq!(err.message(), "duplicate #[variant_attrs] attribute");
}

#[test]
fn duplicate_prefix_aborts_the_whole_pass() {
    let mut e = three_variant_union();
    e.attrs.push(ident_attr("prefix", "My", 100));
    e.attrs.push(ident_attr("prefix", "Other", 200));
    let err = doit(&e).unwrap_err();
    assert_eq!(err.kind, ErrKind::Duplicate(CfgKey::Prefix));
    assert_eq!(err.span, sp(200));
    assert_eq!(err.related, Some(sp(100)));
}

#[test]
fn malformed_variant_attrs_aborts_the_pass() {
    let mut e = three_variant_union();
    // The payload is not a parenthesized attribute list.
    e.variants[0].attrs.push(Attr {
        span: sp(50),
        path: Path { segments: vec![ident("variant_attrs", 50)] },
        args: AttrArgs::Empty,
    });
    let err = doit(&e).unwrap_err();
    assert_eq!(err.kind, ErrKind::MalformedArgs(CfgKey::VariantAttrs));
    assert_eq!(err.span, sp(50));
}

#[test]
fn an_excluded_alternative_is_never_examined() {
    // Exclusion filters the alternative out before its extra metadata is
    // parsed, so even a malformed payload there cannot abort the pass.
    let mut e = three_variant_union();
    e.variants[1].attrs.push(bare_attr("exclude", 50));
    e.variants[1].attrs.push(Attr {
        span: sp(51),
        path: Path { segments: vec![ident("variant_attrs", 51)] },
        args: AttrArgs::Empty,
    });
    let out = doit(&e).unwrap();
    assert_eq!(out.len(), 8);
}

#[test]
fn union_visibility_is_copied_to_records() {
    let mut e = three_variant_union();
    e.vis = Vis::Crate;
    let out = doit(&e).unwrap();
    assert!(matches!(as_record(&out[0]).vis, Vis::Crate));
}
