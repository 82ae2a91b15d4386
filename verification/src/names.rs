//! Name synthesis: building a generated record's identifier from an optional
//! prefix, the alternative's own name, and an optional suffix, and building
//! the canonical `_0`, `_1`, ... binding names for positional fields.

use vstd::prelude::*;

use crate::tokens::{Ident, IdentV, SrcSpan};

verus! {

/// The decimal digit character for `d`.
pub open spec fn dec_digit(d: nat) -> char
    recommends
        d < 10,
{
    if d == 0 {
        '0'
    } else if d == 1 {
        '1'
    } else if d == 2 {
        '2'
    } else if d == 3 {
        '3'
    } else if d == 4 {
        '4'
    } else if d == 5 {
        '5'
    } else if d == 6 {
        '6'
    } else if d == 7 {
        '7'
    } else if d == 8 {
        '8'
    } else {
        '9'
    }
}

/// The decimal representation of `n`, most significant digit first, with no
/// leading zeros (`0` itself is written as one digit).
pub open spec fn spec_dec(n: nat) -> Seq<char>
    decreases n,
{
    if n < 10 {
        seq![dec_digit(n)]
    } else {
        spec_dec(n / 10).push(dec_digit(n % 10))
    }
}

/// The one-character string for a decimal digit.
fn digit_str(d: u64) -> (r: &'static str)
    requires
        d < 10,
    ensures
        r@ == seq![dec_digit(d as nat)],
{
    let r: &'static str = if d == 0 {
        "0"
    } else if d == 1 {
        "1"
    } else if d == 2 {
        "2"
    } else if d == 3 {
        "3"
    } else if d == 4 {
        "4"
    } else if d == 5 {
        "5"
    } else if d == 6 {
        "6"
    } else if d == 7 {
        "7"
    } else if d == 8 {
        "8"
    } else {
        "9"
    };
    proof {
        reveal_strlit("0");
        reveal_strlit("1");
        reveal_strlit("2");
        reveal_strlit("3");
        reveal_strlit("4");
        reveal_strlit("5");
        reveal_strlit("6");
        reveal_strlit("7");
        reveal_strlit("8");
        reveal_strlit("9");
        assert(r@ =~= seq![dec_digit(d as nat)]);
    }
    r
}

/// Renders `n` in decimal.
pub fn dec_string(n: u64) -> (r: String)
    ensures
        r@ == spec_dec(n as nat),
    decreases n,
{
    if n < 10 {
        digit_str(n).to_owned()
    } else {
        let mut s = dec_string(n / 10);
        s.append(digit_str(n % 10));
        proof {
            assert(s@ =~= spec_dec((n / 10) as nat).push(dec_digit((n % 10) as nat)));
        }
        s
    }
}

/// The source position used for tokens the generator makes up itself, such as
/// the positional binding names: the conventional anchor that does not point
/// into the user's source.
pub open spec fn synthetic_span() -> SrcSpan {
    SrcSpan { id: 0 }
}

/// The canonical name of the `i`-th positional binding: `_i`.
pub open spec fn spec_positional_name(i: nat) -> IdentV {
    IdentV { text: seq!['_'] + spec_dec(i), span: synthetic_span() }
}

/// Builds the canonical `_i` binding identifier.
pub fn positional_name(i: u64) -> (r: Ident)
    ensures
        r@ == spec_positional_name(i as nat),
{
    let mut text: String = "_".to_owned();
    text.append(dec_string(i).as_str());
    proof {
        reveal_strlit("_");
        assert(text@ =~= seq!['_'] + spec_dec(i as nat));
    }
    Ident { text, span: SrcSpan { id: 0 } }
}

/// The text contributed by an optional affix: its characters when present,
/// nothing when absent.
pub open spec fn affix_text(o: Option<IdentV>) -> Seq<char> {
    match o {
        Option::Some(i) => i.text,
        Option::None => Seq::empty(),
    }
}

/// Synthesized record identifier. With no customization at all the base
/// identifier is returned unchanged, position included, so that diagnostics
/// keep pointing at the alternative's own name. With a prefix or suffix the
/// text is the plain concatenation, and the position is the one of the
/// customization that was supplied — the prefix's when present, otherwise the
/// suffix's — the best available diagnostic anchor.
pub open spec fn spec_synthesize(
    prefix: Option<IdentV>,
    base: IdentV,
    suffix: Option<IdentV>,
) -> IdentV {
    if prefix is None && suffix is None {
        base
    } else {
        IdentV {
            text: affix_text(prefix) + base.text + affix_text(suffix),
            span: match prefix {
                Option::Some(p) => p.span,
                Option::None => match suffix {
                    Option::Some(s) => s.span,
                    Option::None => base.span,
                },
            },
        }
    }
}

/// View of an optional borrowed identifier.
pub open spec fn opt_ref_ident_view(o: Option<&Ident>) -> Option<IdentV> {
    match o {
        Option::Some(i) => Option::Some(i@),
        Option::None => Option::None,
    }
}

/// Concatenates prefix, base and suffix into the generated record's
/// identifier; with both affixes absent, hands the base back unchanged.
pub fn synthesize(prefix: Option<&Ident>, base: &Ident, suffix: Option<&Ident>) -> (r: Ident)
    ensures
        r@ == spec_synthesize(opt_ref_ident_view(prefix), base@, opt_ref_ident_view(suffix)),
{
    match (prefix, suffix) {
        (Option::None, Option::None) => base.clone(),
        _ => {
            let mut text = String::new();
            let span: SrcSpan = match prefix {
                Option::Some(p) => {
                    text.append(p.text.as_str());
                    p.span
                },
                Option::None => match suffix {
                    Option::Some(s) => s.span,
                    Option::None => base.span,
                },
            };
            text.append(base.text.as_str());
            match suffix {
                Option::Some(s) => text.append(s.text.as_str()),
                Option::None => (),
            }
            proof {
                assert(text@ =~= affix_text(opt_ref_ident_view(prefix)) + base@.text + affix_text(
                    opt_ref_ident_view(suffix),
                ));
            }
            Ident { text, span }
        },
    }
}

/// Idempotence of naming: with no prefix and no suffix, synthesis returns the
/// base identifier itself — same text and the very same source-position
/// anchor.
pub proof fn lemma_synthesize_identity(base: IdentV)
    ensures
        spec_synthesize(Option::None, base, Option::None) == base,
{
}

/// Synthesis is injective in the base name: under one fixed prefix and suffix,
/// two alternatives' names synthesize to the same text only if the names
/// already had the same text.
pub proof fn lemma_synthesize_injective(
    prefix: Option<IdentV>,
    a: IdentV,
    b: IdentV,
    suffix: Option<IdentV>,
)
    requires
        spec_synthesize(prefix, a, suffix).text == spec_synthesize(prefix, b, suffix).text,
    ensures
        a.text == b.text,
{
    if prefix is None && suffix is None {
    } else {
        let p = affix_text(prefix);
        let s = affix_text(suffix);
        let ta = p + a.text + s;
        let tb = p + b.text + s;
        assert(ta.len() == tb.len());
        assert(a.text.len() == b.text.len());
        assert forall|i: int| 0 <= i < a.text.len() implies a.text[i] == b.text[i] by {
            assert(ta[p.len() + i] == a.text[i]);
            assert(tb[p.len() + i] == b.text[i]);
        }
        assert(a.text =~= b.text);
    }
}

} // verus!
