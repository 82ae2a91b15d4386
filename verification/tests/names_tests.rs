use extract_variant::names::{dec_string, positional_name, synthesize};
use extract_variant::tokens::{Ident, SrcSpan};

fn sp(n: u64) -> SrcSpan {
    SrcSpan { id: n }
}

fn ident(s: &str, n: u64) -> Ident {
    Ident { text: s.to_string(), span: sp(n) }
}

#[test]
fn synthesis_without_affixes_returns_the_base_unchanged() {
    let base = ident("Variant1", 42);
    let r = synthesize(None, &base, None);
    assert_eq!(r.text, "Variant1");
    // Including the identity of its source-position anchor.
    assert_eq!(r.span, sp(42));
}

#[test]
fn synthesis_concatenates_prefix_base_and_suffix() {
    let base = ident("Variant1", 42);
    let p = ident("My", 7);
    let s = ident("Tail", 8);
    let r = synthesize(Some(&p), &base, Some(&s));
    assert_eq!(r.text, "MyVariant1Tail");
    // The prefix supplied the customization, so its position anchors the name.
    assert_eq!(r.span, sp(7));
}

#[test]
fn synthesis_with_a_suffix_alone_anchors_at_the_suffix() {
    let base = ident("Variant1", 42);
    let s = ident("Tail", 8);
    let r = synthesize(None, &base, Some(&s));
    assert_eq!(r.text, "Variant1Tail");
    assert_eq!(r.span, sp(8));
}

#[test]
fn synthesis_is_stable() {
    let base = ident("Variant1", 42);
    let p = ident("My", 7);
    let a = synthesize(Some(&p), &base, None);
    let b = synthesize(Some(&p), &base, None);
    assert_eq!(a.text, b.text);
    assert_eq!(a.span, b.span);
}

#[test]
fn decimal_rendering_is_exact() {
    assert_eq!(dec_string(0), "0");
    assert_eq!(dec_string(7), "7");
    assert_eq!(dec_string(10), "10");
    assert_eq!(dec_string(42), "42");
    assert_eq!(dec_string(1023), "1023");
    assert_eq!(dec_string(u64::MAX), "18446744073709551615");
}

#[test]
fn positional_names_follow_the_canonical_scheme() {
    assert_eq!(positional_name(0).text, "_0");
    assert_eq!(positional_name(1).text, "_1");
    assert_eq!(positional_name(12).text, "_12");
    // Made-up names do not point into the user's source.
    assert_eq!(positional_name(0).span, sp(0));
}
