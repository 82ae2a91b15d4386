//! The attribute grammar: parsers for the argument tokens of the recognized
//! configuration keys, and for the generic outer-attribute-list grammar used
//! by the per-alternative extra-metadata key.
//!
//! Every parser consumes a flat token stream and reports, on failure, the
//! most specific source position available. Parsers return the number of
//! tokens they consumed, so that callers can continue after them.

use vstd::prelude::*;

use crate::errors::{CfgKey, ErrKind, GenError};
use crate::tokens::{token_span, tokens_view, Delim, Ident, IdentV, SrcSpan, Token, TokenV};
use crate::tokens::{copy_token_range, idents_view, lemma_tokens_view_subrange};
use crate::tree::{attrs_view, Attr, AttrArgs, AttrArgsV, AttrV, Path, PathV};

verus! {

/// Whether a token is the punctuation character `c`.
pub open spec fn is_punct(t: TokenV, c: char) -> bool {
    match t {
        TokenV::Punct { ch, .. } => ch == c,
        _ => false,
    }
}

/// Whether a token opens the delimiter `d`.
pub open spec fn is_open(t: TokenV, d: Delim) -> bool {
    match t {
        TokenV::OpenDelim { delim, .. } => delim == d,
        _ => false,
    }
}

/// Whether a token closes the delimiter `d`.
pub open spec fn is_close(t: TokenV, d: Delim) -> bool {
    match t {
        TokenV::CloseDelim { delim, .. } => delim == d,
        _ => false,
    }
}

/// The best position to blame when the token expected at `k` is missing:
/// the token itself when it exists, else the last token of the stream, else
/// the fallback `fb`.
pub open spec fn spec_span_at(ts: Seq<TokenV>, k: int, fb: SrcSpan) -> SrcSpan {
    if 0 <= k < ts.len() {
        token_span(ts[k])
    } else if ts.len() > 0 {
        token_span(ts[ts.len() - 1])
    } else {
        fb
    }
}

/// Reads a token's source position.
pub fn token_span_of(t: &Token) -> (s: SrcSpan)
    ensures
        s == token_span(t@),
{
    match t {
        Token::Id(i) => i.span,
        Token::Punct { span, .. } => *span,
        Token::Lit { span, .. } => *span,
        Token::OpenDelim { span, .. } => *span,
        Token::CloseDelim { span, .. } => *span,
    }
}

/// Computes [`spec_span_at`].
pub fn span_at(ts: &Vec<Token>, k: usize, fb: SrcSpan) -> (s: SrcSpan)
    ensures
        s == spec_span_at(tokens_view(ts@), k as int, fb),
{
    if k < ts.len() {
        token_span_of(&ts[k])
    } else if ts.len() > 0 {
        token_span_of(&ts[ts.len() - 1])
    } else {
        fb
    }
}

/// Tests whether a token is the punctuation character `c`.
pub fn tok_is_punct(t: &Token, c: char) -> (r: bool)
    ensures
        r == is_punct(t@, c),
{
    match t {
        Token::Punct { ch, .. } => *ch == c,
        _ => false,
    }
}

/// How many tokens lie between position `i` and the matching closing
/// delimiter, `depth` delimiter groups being open already: `Some(c)` when the
/// close stands at `i + c`, `None` when the stream ends first.
pub open spec fn spec_scan_close(ts: Seq<TokenV>, i: int, depth: nat) -> Option<nat>
    decreases ts.len() - i,
{
    if i < 0 || i >= ts.len() {
        Option::None
    } else {
        match ts[i] {
            TokenV::OpenDelim { .. } => match spec_scan_close(ts, i + 1, depth + 1) {
                Option::Some(c) => Option::Some((c + 1) as nat),
                Option::None => Option::None,
            },
            TokenV::CloseDelim { .. } => if depth == 0 {
                Option::Some(0)
            } else {
                match spec_scan_close(ts, i + 1, (depth - 1) as nat) {
                    Option::Some(c) => Option::Some((c + 1) as nat),
                    Option::None => Option::None,
                }
            },
            _ => match spec_scan_close(ts, i + 1, depth) {
                Option::Some(c) => Option::Some((c + 1) as nat),
                Option::None => Option::None,
            },
        }
    }
}

/// Scans for the closing delimiter matching the group that is currently open,
/// `depth` further groups being open inside it.
pub fn scan_close(ts: &Vec<Token>, i: usize, depth: usize) -> (r: Option<usize>)
    requires
        i <= ts@.len(),
        depth <= i,
    ensures
        match r {
            Option::Some(c) => spec_scan_close(tokens_view(ts@), i as int, depth as nat)
                == Option::Some(c as nat) && i + c < ts@.len(),
            Option::None => spec_scan_close(tokens_view(ts@), i as int, depth as nat)
                == Option::<nat>::None,
        },
    decreases ts@.len() - i,
{
    if i >= ts.len() {
        Option::None
    } else {
        match &ts[i] {
            Token::OpenDelim { .. } => match scan_close(ts, i + 1, depth + 1) {
                Option::Some(c) => Option::Some(c + 1),
                Option::None => Option::None,
            },
            Token::CloseDelim { .. } => {
                if depth == 0 {
                    Option::Some(0)
                } else {
                    match scan_close(ts, i + 1, depth - 1) {
                        Option::Some(c) => Option::Some(c + 1),
                        Option::None => Option::None,
                    }
                }
            },
            _ => match scan_close(ts, i + 1, depth) {
                Option::Some(c) => Option::Some(c + 1),
                Option::None => Option::None,
            },
        }
    }
}

/// Parses the continuation of a path after its first segment: a possibly
/// empty repetition of `::` followed by an identifier. Returns the segments
/// gathered so far plus the parsed ones, and the number of tokens consumed.
pub open spec fn spec_path_rest(
    ts: Seq<TokenV>,
    i: int,
    acc: Seq<IdentV>,
    key: CfgKey,
    fb: SrcSpan,
) -> Result<(Seq<IdentV>, nat), GenError>
    decreases ts.len() - i,
{
    if 0 <= i && i + 1 < ts.len() && is_punct(ts[i], ':') && is_punct(ts[i + 1], ':') {
        if i + 2 < ts.len() {
            match ts[i + 2] {
                TokenV::Id(id) => match spec_path_rest(ts, i + 3, acc.push(id), key, fb) {
                    Ok(r) => Ok((r.0, (r.1 + 3) as nat)),
                    Err(e) => Err(e),
                },
                _ => Err(
                    GenError {
                        kind: ErrKind::MalformedArgs(key),
                        span: token_span(ts[i + 2]),
                        related: Option::None,
                    },
                ),
            }
        } else {
            Err(
                GenError {
                    kind: ErrKind::MalformedArgs(key),
                    span: spec_span_at(ts, i + 2, fb),
                    related: Option::None,
                },
            )
        }
    } else {
        Ok((acc, 0))
    }
}

/// Parses a whole path: an identifier followed by any number of
/// `::`-identifier pairs.
pub open spec fn spec_parse_path(ts: Seq<TokenV>, i: int, key: CfgKey, fb: SrcSpan) -> Result<
    (Seq<IdentV>, nat),
    GenError,
> {
    if 0 <= i < ts.len() {
        match ts[i] {
            TokenV::Id(id) => match spec_path_rest(ts, i + 1, seq![id], key, fb) {
                Ok(r) => Ok((r.0, (r.1 + 1) as nat)),
                Err(e) => Err(e),
            },
            _ => Err(
                GenError {
                    kind: ErrKind::MalformedArgs(key),
                    span: token_span(ts[i]),
                    related: Option::None,
                },
            ),
        }
    } else {
        Err(
            GenError {
                kind: ErrKind::MalformedArgs(key),
                span: spec_span_at(ts, i, fb),
                related: Option::None,
            },
        )
    }
}

fn path_rest(ts: &Vec<Token>, i: usize, acc: Vec<Ident>, key: CfgKey, fb: SrcSpan) -> (r: Result<
    (Vec<Ident>, usize),
    GenError,
>)
    requires
        i <= ts@.len(),
    ensures
        match r {
            Ok(p) => spec_path_rest(tokens_view(ts@), i as int, idents_view(acc@), key, fb) == Ok::<
                _,
                GenError,
            >((idents_view(p.0@), p.1 as nat)) && i + p.1 <= ts@.len(),
            Err(e) => spec_path_rest(tokens_view(ts@), i as int, idents_view(acc@), key, fb)
                == Err::<(Seq<IdentV>, nat), GenError>(e),
        },
    decreases ts@.len() - i,
{
    if ts.len() - i > 1 && tok_is_punct(&ts[i], ':') && tok_is_punct(&ts[i + 1], ':') {
        if i + 2 < ts.len() {
            match &ts[i + 2] {
                Token::Id(id) => {
                    let mut acc = acc;
                    let ghost old_acc = acc@;
                    acc.push(id.clone());
                    proof {
                        assert(idents_view(acc@) =~= idents_view(old_acc).push(id@));
                    }
                    match path_rest(ts, i + 3, acc, key, fb) {
                        Ok((segs, c)) => Ok((segs, c + 3)),
                        Err(e) => Err(e),
                    }
                },
                t => Err(
                    GenError {
                        kind: ErrKind::MalformedArgs(key),
                        span: token_span_of(t),
                        related: Option::None,
                    },
                ),
            }
        } else {
            Err(
                GenError {
                    kind: ErrKind::MalformedArgs(key),
                    span: span_at(ts, i + 2, fb),
                    related: Option::None,
                },
            )
        }
    } else {
        Ok((acc, 0))
    }
}

/// Parses a path out of a token stream, reporting malformed input against the
/// configuration key `key`.
pub fn parse_path(ts: &Vec<Token>, i: usize, key: CfgKey, fb: SrcSpan) -> (r: Result<
    (Vec<Ident>, usize),
    GenError,
>)
    requires
        i <= ts@.len(),
    ensures
        match r {
            Ok(p) => spec_parse_path(tokens_view(ts@), i as int, key, fb) == Ok::<_, GenError>(
                (idents_view(p.0@), p.1 as nat),
            ) && 1 <= p.1 && i + p.1 <= ts@.len(),
            Err(e) => spec_parse_path(tokens_view(ts@), i as int, key, fb) == Err::<
                (Seq<IdentV>, nat),
                GenError,
            >(e),
        },
{
    if i < ts.len() {
        match &ts[i] {
            Token::Id(id) => {
                let mut acc: Vec<Ident> = Vec::new();
                acc.push(id.clone());
                proof {
                    assert(idents_view(acc@) =~= seq![id@]);
                }
                match path_rest(ts, i + 1, acc, key, fb) {
                    Ok((segs, c)) => Ok((segs, c + 1)),
                    Err(e) => Err(e),
                }
            },
            t => Err(
                GenError {
                    kind: ErrKind::MalformedArgs(key),
                    span: token_span_of(t),
                    related: Option::None,
                },
            ),
        }
    } else {
        Err(
            GenError {
                kind: ErrKind::MalformedArgs(key),
                span: span_at(ts, i, fb),
                related: Option::None,
            },
        )
    }
}

/// The `prefix` / `suffix` argument grammar: exactly one identifier, written
/// in parentheses. Anything else is a parse error at the offending token.
pub open spec fn spec_parse_ident_arg(key: CfgKey, a: AttrV) -> Result<IdentV, GenError> {
    match a.args {
        AttrArgsV::Paren(ts) => {
            if ts.len() == 1 {
                match ts[0] {
                    TokenV::Id(id) => Ok(id),
                    _ => Err(
                        GenError {
                            kind: ErrKind::MalformedArgs(key),
                            span: token_span(ts[0]),
                            related: Option::None,
                        },
                    ),
                }
            } else if ts.len() == 0 {
                Err(GenError { kind: ErrKind::MalformedArgs(key), span: a.span, related: Option::None })
            } else {
                Err(
                    GenError {
                        kind: ErrKind::MalformedArgs(key),
                        span: token_span(ts[1]),
                        related: Option::None,
                    },
                )
            }
        },
        _ => Err(GenError { kind: ErrKind::MalformedArgs(key), span: a.span, related: Option::None }),
    }
}

/// Parses the single-identifier argument of a `prefix` or `suffix`
/// declaration.
pub fn parse_ident_arg(key: CfgKey, a: &Attr) -> (r: Result<Ident, GenError>)
    ensures
        match r {
            Ok(id) => spec_parse_ident_arg(key, a@) == Ok::<_, GenError>(id@),
            Err(e) => spec_parse_ident_arg(key, a@) == Err::<IdentV, GenError>(e),
        },
{
    match &a.args {
        AttrArgs::Paren(ts) => {
            if ts.len() == 1 {
                match &ts[0] {
                    Token::Id(id) => Ok(id.clone()),
                    t => Err(
                        GenError {
                            kind: ErrKind::MalformedArgs(key),
                            span: token_span_of(t),
                            related: Option::None,
                        },
                    ),
                }
            } else if ts.len() == 0 {
                Err(GenError { kind: ErrKind::MalformedArgs(key), span: a.span, related: Option::None })
            } else {
                Err(
                    GenError {
                        kind: ErrKind::MalformedArgs(key),
                        span: token_span_of(&ts[1]),
                        related: Option::None,
                    },
                )
            }
        },
        _ => Err(GenError { kind: ErrKind::MalformedArgs(key), span: a.span, related: Option::None }),
    }
}

/// The `variant_of` argument grammar: a path to the union's declaration,
/// optionally followed by a comma and the alternative's name, written in
/// parentheses.
pub open spec fn spec_parse_variant_of(a: AttrV) -> Result<(PathV, Option<IdentV>), GenError> {
    match a.args {
        AttrArgsV::Paren(ts) => match spec_parse_path(ts, 0, CfgKey::VariantOf, a.span) {
            Err(e) => Err(e),
            Ok(p) => {
                let segs = p.0;
                let k = p.1 as int;
                if k == ts.len() {
                    Ok((PathV { segments: segs }, Option::None))
                } else if is_punct(ts[k], ',') {
                    if k + 2 == ts.len() {
                        match ts[k + 1] {
                            TokenV::Id(id) => Ok((PathV { segments: segs }, Option::Some(id))),
                            _ => Err(
                                GenError {
                                    kind: ErrKind::MalformedArgs(CfgKey::VariantOf),
                                    span: token_span(ts[k + 1]),
                                    related: Option::None,
                                },
                            ),
                        }
                    } else {
                        Err(
                            GenError {
                                kind: ErrKind::MalformedArgs(CfgKey::VariantOf),
                                span: spec_span_at(ts, k + 1, a.span),
                                related: Option::None,
                            },
                        )
                    }
                } else {
                    Err(
                        GenError {
                            kind: ErrKind::MalformedArgs(CfgKey::VariantOf),
                            span: token_span(ts[k]),
                            related: Option::None,
                        },
                    )
                }
            },
        },
        _ => Err(
            GenError {
                kind: ErrKind::MalformedArgs(CfgKey::VariantOf),
                span: a.span,
                related: Option::None,
            },
        ),
    }
}

/// A parsed `variant_of` link: the path to the union's declaration and, when
/// the record's own name is not the alternative's, the alternative's name.
#[derive(Debug)]
pub struct VariantOf {
    pub enum_path: Path,
    pub variant_ident: Option<Ident>,
}

/// Mathematical value of a [`VariantOf`].
pub struct VariantOfV {
    pub enum_path: PathV,
    pub variant_ident: Option<IdentV>,
}

impl View for VariantOf {
    type V = VariantOfV;

    open spec fn view(&self) -> VariantOfV {
        VariantOfV {
            enum_path: self.enum_path@,
            variant_ident: crate::tree::opt_ident_view(self.variant_ident),
        }
    }
}

impl VariantOf {
    /// Parses a whole `variant_of` declaration's arguments.
    pub fn parse(a: &Attr) -> (r: Result<VariantOf, GenError>)
        ensures
            match r {
                Ok(v) => spec_parse_variant_of(a@) == Ok::<_, GenError>(
                    (v@.enum_path, v@.variant_ident),
                ),
                Err(e) => spec_parse_variant_of(a@) == Err::<(PathV, Option<IdentV>), GenError>(e),
            },
    {
        match parse_variant_of(a) {
            Ok((enum_path, variant_ident)) => Ok(VariantOf { enum_path, variant_ident }),
            Err(e) => Err(e),
        }
    }
}

/// Parses the arguments of a `variant_of` declaration.
pub fn parse_variant_of(a: &Attr) -> (r: Result<(Path, Option<Ident>), GenError>)
    ensures
        match r {
            Ok(p) => spec_parse_variant_of(a@) == Ok::<_, GenError>(
                (
                    p.0@,
                    match p.1 {
                        Option::Some(id) => Option::Some(id@),
                        Option::None => Option::None,
                    },
                ),
            ),
            Err(e) => spec_parse_variant_of(a@) == Err::<(PathV, Option<IdentV>), GenError>(e),
        },
{
    match &a.args {
        AttrArgs::Paren(ts) => match parse_path(ts, 0, CfgKey::VariantOf, a.span) {
            Err(e) => Err(e),
            Ok((segs, k)) => {
                if k == ts.len() {
                    Ok((Path { segments: segs }, Option::None))
                } else if tok_is_punct(&ts[k], ',') {
                    if ts.len() - k == 2 {
                        match &ts[k + 1] {
                            Token::Id(id) => Ok((Path { segments: segs }, Option::Some(id.clone()))),
                            t => Err(
                                GenError {
                                    kind: ErrKind::MalformedArgs(CfgKey::VariantOf),
                                    span: token_span_of(t),
                                    related: Option::None,
                                },
                            ),
                        }
                    } else {
                        Err(
                            GenError {
                                kind: ErrKind::MalformedArgs(CfgKey::VariantOf),
                                span: span_at(ts, k + 1, a.span),
                                related: Option::None,
                            },
                        )
                    }
                } else {
                    Err(
                        GenError {
                            kind: ErrKind::MalformedArgs(CfgKey::VariantOf),
                            span: token_span_of(&ts[k]),
                            related: Option::None,
                        },
                    )
                }
            },
        },
        _ => Err(
            GenError {
                kind: ErrKind::MalformedArgs(CfgKey::VariantOf),
                span: a.span,
                related: Option::None,
            },
        ),
    }
}

/// Parses one attribute of the generic outer-attribute-list grammar,
/// `# [ path ]`, `# [ path ( tokens ) ]` or `# [ path tokens ]`, starting at
/// position `i`. Returns the attribute and the number of tokens consumed.
/// The attribute's anchor is its `#` token.
pub open spec fn spec_parse_one_attr(ts: Seq<TokenV>, i: int, fb: SrcSpan) -> Result<
    (AttrV, nat),
    GenError,
> {
    let key = CfgKey::VariantAttrs;
    if !(0 <= i < ts.len()) {
        Err(
            GenError {
                kind: ErrKind::MalformedArgs(key),
                span: spec_span_at(ts, i, fb),
                related: Option::None,
            },
        )
    } else if !is_punct(ts[i], '#') {
        Err(
            GenError {
                kind: ErrKind::MalformedArgs(key),
                span: token_span(ts[i]),
                related: Option::None,
            },
        )
    } else if !(i + 1 < ts.len()) {
        Err(
            GenError {
                kind: ErrKind::MalformedArgs(key),
                span: spec_span_at(ts, i + 1, fb),
                related: Option::None,
            },
        )
    } else if !is_open(ts[i + 1], Delim::Bracket) {
        Err(
            GenError {
                kind: ErrKind::MalformedArgs(key),
                span: token_span(ts[i + 1]),
                related: Option::None,
            },
        )
    } else {
        match spec_parse_path(ts, i + 2, key, fb) {
            Err(e) => Err(e),
            Ok(p) => {
                let segs = p.0;
                let k = i + 2 + p.1;
                let anchor = token_span(ts[i]);
                if !(k < ts.len()) {
                    Err(
                        GenError {
                            kind: ErrKind::MalformedArgs(key),
                            span: spec_span_at(ts, k, fb),
                            related: Option::None,
                        },
                    )
                } else if is_close(ts[k], Delim::Bracket) {
                    Ok(
                        (
                            AttrV {
                                span: anchor,
                                path: PathV { segments: segs },
                                args: AttrArgsV::Empty,
                            },
                            (k + 1 - i) as nat,
                        ),
                    )
                } else if is_open(ts[k], Delim::Paren) {
                    match spec_scan_close(ts, k + 1, 0) {
                        Option::None => Err(
                            GenError {
                                kind: ErrKind::MalformedArgs(key),
                                span: spec_span_at(ts, ts.len() as int, fb),
                                related: Option::None,
                            },
                        ),
                        Option::Some(c) => {
                            let close = k + 1 + c;
                            if !is_close(ts[close], Delim::Paren) {
                                Err(
                                    GenError {
                                        kind: ErrKind::MalformedArgs(key),
                                        span: token_span(ts[close]),
                                        related: Option::None,
                                    },
                                )
                            } else if !(close + 1 < ts.len()) {
                                Err(
                                    GenError {
                                        kind: ErrKind::MalformedArgs(key),
                                        span: spec_span_at(ts, close + 1, fb),
                                        related: Option::None,
                                    },
                                )
                            } else if !is_close(ts[close + 1], Delim::Bracket) {
                                Err(
                                    GenError {
                                        kind: ErrKind::MalformedArgs(key),
                                        span: token_span(ts[close + 1]),
                                        related: Option::None,
                                    },
                                )
                            } else {
                                Ok(
                                    (
                                        AttrV {
                                            span: anchor,
                                            path: PathV { segments: segs },
                                            args: AttrArgsV::Paren(ts.subrange(k + 1, close)),
                                        },
                                        (close + 2 - i) as nat,
                                    ),
                                )
                            }
                        },
                    }
                } else {
                    match spec_scan_close(ts, k, 0) {
                        Option::None => Err(
                            GenError {
                                kind: ErrKind::MalformedArgs(key),
                                span: spec_span_at(ts, ts.len() as int, fb),
                                related: Option::None,
                            },
                        ),
                        Option::Some(c) => {
                            let close = k + c;
                            if is_close(ts[close], Delim::Bracket) {
                                Ok(
                                    (
                                        AttrV {
                                            span: anchor,
                                            path: PathV { segments: segs },
                                            args: AttrArgsV::Other(ts.subrange(k, close)),
                                        },
                                        (close + 1 - i) as nat,
                                    ),
                                )
                            } else {
                                Err(
                                    GenError {
                                        kind: ErrKind::MalformedArgs(key),
                                        span: token_span(ts[close]),
                                        related: Option::None,
                                    },
                                )
                            }
                        },
                    }
                }
            },
        }
    }
}

/// Parses one attribute out of an outer-attribute list.
pub fn parse_one_attr(ts: &Vec<Token>, i: usize, fb: SrcSpan) -> (r: Result<(Attr, usize), GenError>)
    requires
        i <= ts@.len(),
    ensures
        match r {
            Ok(p) => spec_parse_one_attr(tokens_view(ts@), i as int, fb) == Ok::<_, GenError>(
                (p.0@, p.1 as nat),
            ) && 1 <= p.1 && i + p.1 <= ts@.len(),
            Err(e) => spec_parse_one_attr(tokens_view(ts@), i as int, fb) == Err::<
                (AttrV, nat),
                GenError,
            >(e),
        },
{
    let key = CfgKey::VariantAttrs;
    if !(i < ts.len()) {
        Err(
            GenError {
                kind: ErrKind::MalformedArgs(key),
                span: span_at(ts, i, fb),
                related: Option::None,
            },
        )
    } else if !tok_is_punct(&ts[i], '#') {
        Err(
            GenError {
                kind: ErrKind::MalformedArgs(key),
                span: token_span_of(&ts[i]),
                related: Option::None,
            },
        )
    } else if !(i + 1 < ts.len()) {
        Err(
            GenError {
                kind: ErrKind::MalformedArgs(key),
                span: span_at(ts, i + 1, fb),
                related: Option::None,
            },
        )
    } else {
        let bracket_open = match &ts[i + 1] {
            Token::OpenDelim { delim: Delim::Bracket, .. } => true,
            _ => false,
        };
        if !bracket_open {
            return Err(
                GenError {
                    kind: ErrKind::MalformedArgs(key),
                    span: token_span_of(&ts[i + 1]),
                    related: Option::None,
                },
            );
        }
        match parse_path(ts, i + 2, key, fb) {
            Err(e) => Err(e),
            Ok((segs, pc)) => {
                let k = i + 2 + pc;
                let anchor = token_span_of(&ts[i]);
                if !(k < ts.len()) {
                    return Err(
                        GenError {
                            kind: ErrKind::MalformedArgs(key),
                            span: span_at(ts, k, fb),
                            related: Option::None,
                        },
                    );
                }
                let close_bracket = match &ts[k] {
                    Token::CloseDelim { delim: Delim::Bracket, .. } => true,
                    _ => false,
                };
                let open_paren = match &ts[k] {
                    Token::OpenDelim { delim: Delim::Paren, .. } => true,
                    _ => false,
                };
                if close_bracket {
                    Ok(
                        (
                            Attr {
                                span: anchor,
                                path: Path { segments: segs },
                                args: AttrArgs::Empty,
                            },
                            k + 1 - i,
                        ),
                    )
                } else if open_paren {
                    match scan_close(ts, k + 1, 0) {
                        Option::None => Err(
                            GenError {
                                kind: ErrKind::MalformedArgs(key),
                                span: span_at(ts, ts.len(), fb),
                                related: Option::None,
                            },
                        ),
                        Option::Some(c) => {
                            let close = k + 1 + c;
                            let close_is_paren = match &ts[close] {
                                Token::CloseDelim { delim: Delim::Paren, .. } => true,
                                _ => false,
                            };
                            if !close_is_paren {
                                return Err(
                                    GenError {
                                        kind: ErrKind::MalformedArgs(key),
                                        span: token_span_of(&ts[close]),
                                        related: Option::None,
                                    },
                                );
                            }
                            if !(close + 1 < ts.len()) {
                                return Err(
                                    GenError {
                                        kind: ErrKind::MalformedArgs(key),
                                        span: span_at(ts, close + 1, fb),
                                        related: Option::None,
                                    },
                                );
                            }
                            let next_is_bracket = match &ts[close + 1] {
                                Token::CloseDelim { delim: Delim::Bracket, .. } => true,
                                _ => false,
                            };
                            if !next_is_bracket {
                                return Err(
                                    GenError {
                                        kind: ErrKind::MalformedArgs(key),
                                        span: token_span_of(&ts[close + 1]),
                                        related: Option::None,
                                    },
                                );
                            }
                            let inner = copy_token_range(ts, k + 1, close);
                            proof {
                                lemma_tokens_view_subrange(ts@, k + 1, close as int);
                            }
                            Ok(
                                (
                                    Attr {
                                        span: anchor,
                                        path: Path { segments: segs },
                                        args: AttrArgs::Paren(inner),
                                    },
                                    close + 2 - i,
                                ),
                            )
                        },
                    }
                } else {
                    match scan_close(ts, k, 0) {
                        Option::None => Err(
                            GenError {
                                kind: ErrKind::MalformedArgs(key),
                                span: span_at(ts, ts.len(), fb),
                                related: Option::None,
                            },
                        ),
                        Option::Some(c) => {
                            let close = k + c;
                            let close_is_bracket = match &ts[close] {
                                Token::CloseDelim { delim: Delim::Bracket, .. } => true,
                                _ => false,
                            };
                            if close_is_bracket {
                                let inner = copy_token_range(ts, k, close);
                                proof {
                                    lemma_tokens_view_subrange(ts@, k as int, close as int);
                                }
                                Ok(
                                    (
                                        Attr {
                                            span: anchor,
                                            path: Path { segments: segs },
                                            args: AttrArgs::Other(inner),
                                        },
                                        close + 1 - i,
                                    ),
                                )
                            } else {
                                Err(
                                    GenError {
                                        kind: ErrKind::MalformedArgs(key),
                                        span: token_span_of(&ts[close]),
                                        related: Option::None,
                                    },
                                )
                            }
                        },
                    }
                }
            },
        }
    }
}

/// Parses a whole outer-attribute list: attribute after attribute until the
/// stream ends. This is the grammar of the extra-metadata payload,
/// `variant_attrs(#[...] #[...])`.
pub open spec fn spec_parse_outer_attrs(ts: Seq<TokenV>, i: int, fb: SrcSpan) -> Result<
    Seq<AttrV>,
    GenError,
>
    decreases ts.len() - i,
{
    if !(0 <= i < ts.len()) {
        Ok(Seq::empty())
    } else {
        match spec_parse_one_attr(ts, i, fb) {
            Err(e) => Err(e),
            Ok(p) => {
                // An attribute always occupies at least one token and at most
                // the rest of the stream; the bounds below only guard the
                // termination measure.
                let c = p.1 as int;
                let step = if c < 1 {
                    1
                } else if c > ts.len() - i {
                    ts.len() - i
                } else {
                    c
                };
                match spec_parse_outer_attrs(ts, i + step, fb) {
                    Err(e) => Err(e),
                    Ok(rest) => Ok(seq![p.0] + rest),
                }
            },
        }
    }
}

/// A parsed configuration list: the optional naming affixes and the
/// conversion-suppression flag, as written in one parenthesized list such as
/// `(prefix(Name) suffix(Tail) no_impl)`.
#[derive(Debug)]
pub struct ExtractVariant {
    pub prefix: Option<Ident>,
    pub suffix: Option<Ident>,
    pub no_impl: bool,
}

/// Mathematical value of an [`ExtractVariant`].
pub struct ExtractVariantV {
    pub prefix: Option<IdentV>,
    pub suffix: Option<IdentV>,
    pub no_impl: bool,
}

impl View for ExtractVariant {
    type V = ExtractVariantV;

    open spec fn view(&self) -> ExtractVariantV {
        ExtractVariantV {
            prefix: crate::tree::opt_ident_view(self.prefix),
            suffix: crate::tree::opt_ident_view(self.suffix),
            no_impl: self.no_impl,
        }
    }
}

/// Parses the entries of a configuration list from position `i` on: each
/// entry is `prefix(ident)`, `suffix(ident)` or `no_impl`, and a later entry
/// for the same slot replaces an earlier one. Any other entry name is
/// rejected.
pub open spec fn spec_config_entries(ts: Seq<TokenV>, i: int, acc: ExtractVariantV, fb: SrcSpan) -> Result<
    ExtractVariantV,
    GenError,
>
    decreases ts.len() - i,
{
    if !(0 <= i < ts.len()) {
        Ok(acc)
    } else {
        match ts[i] {
            TokenV::Id(id) => {
                if id.text == "prefix"@ || id.text == "suffix"@ {
                    let key = if id.text == "prefix"@ {
                        CfgKey::Prefix
                    } else {
                        CfgKey::Suffix
                    };
                    if !(i + 1 < ts.len()) {
                        Err(
                            GenError {
                                kind: ErrKind::MalformedArgs(key),
                                span: spec_span_at(ts, i + 1, fb),
                                related: Option::None,
                            },
                        )
                    } else if !is_open(ts[i + 1], Delim::Paren) {
                        Err(
                            GenError {
                                kind: ErrKind::MalformedArgs(key),
                                span: token_span(ts[i + 1]),
                                related: Option::None,
                            },
                        )
                    } else if !(i + 2 < ts.len()) {
                        Err(
                            GenError {
                                kind: ErrKind::MalformedArgs(key),
                                span: spec_span_at(ts, i + 2, fb),
                                related: Option::None,
                            },
                        )
                    } else {
                        match ts[i + 2] {
                            TokenV::Id(arg) => {
                                if !(i + 3 < ts.len()) {
                                    Err(
                                        GenError {
                                            kind: ErrKind::MalformedArgs(key),
                                            span: spec_span_at(ts, i + 3, fb),
                                            related: Option::None,
                                        },
                                    )
                                } else if !is_close(ts[i + 3], Delim::Paren) {
                                    Err(
                                        GenError {
                                            kind: ErrKind::MalformedArgs(key),
                                            span: token_span(ts[i + 3]),
                                            related: Option::None,
                                        },
                                    )
                                } else {
                                    let acc2 = if key == CfgKey::Prefix {
                                        ExtractVariantV {
                                            prefix: Option::Some(arg),
                                            suffix: acc.suffix,
                                            no_impl: acc.no_impl,
                                        }
                                    } else {
                                        ExtractVariantV {
                                            prefix: acc.prefix,
                                            suffix: Option::Some(arg),
                                            no_impl: acc.no_impl,
                                        }
                                    };
                                    spec_config_entries(ts, i + 4, acc2, fb)
                                }
                            },
                            _ => Err(
                                GenError {
                                    kind: ErrKind::MalformedArgs(key),
                                    span: token_span(ts[i + 2]),
                                    related: Option::None,
                                },
                            ),
                        }
                    }
                } else if id.text == "no_impl"@ {
                    spec_config_entries(
                        ts,
                        i + 1,
                        ExtractVariantV { prefix: acc.prefix, suffix: acc.suffix, no_impl: true },
                        fb,
                    )
                } else {
                    Err(
                        GenError {
                            kind: ErrKind::InvalidParameter,
                            span: id.span,
                            related: Option::None,
                        },
                    )
                }
            },
            _ => Err(
                GenError {
                    kind: ErrKind::InvalidParameter,
                    span: token_span(ts[i]),
                    related: Option::None,
                },
            ),
        }
    }
}

/// The whole configuration-list grammar: no arguments at all yield the
/// default configuration; a parenthesized list is parsed entry by entry; any
/// other argument shape is rejected.
pub open spec fn spec_parse_config_list(args: AttrArgsV, fb: SrcSpan) -> Result<
    ExtractVariantV,
    GenError,
> {
    let dflt = ExtractVariantV { prefix: Option::None, suffix: Option::None, no_impl: false };
    match args {
        AttrArgsV::Empty => Ok(dflt),
        AttrArgsV::Paren(ts) => spec_config_entries(ts, 0, dflt, fb),
        AttrArgsV::Other(ts) => Err(
            GenError {
                kind: ErrKind::MalformedConfigList,
                span: spec_span_at(ts, 0, fb),
                related: Option::None,
            },
        ),
    }
}

fn config_entries(ts: &Vec<Token>, i: usize, acc: ExtractVariant, fb: SrcSpan) -> (r: Result<
    ExtractVariant,
    GenError,
>)
    requires
        i <= ts@.len(),
    ensures
        match r {
            Ok(c) => spec_config_entries(tokens_view(ts@), i as int, acc@, fb) == Ok::<_, GenError>(
                c@,
            ),
            Err(e) => spec_config_entries(tokens_view(ts@), i as int, acc@, fb) == Err::<
                ExtractVariantV,
                GenError,
            >(e),
        },
    decreases ts@.len() - i,
{
    if !(i < ts.len()) {
        Ok(acc)
    } else {
        match &ts[i] {
            Token::Id(id) => {
                let is_prefix = id.text == "prefix".to_owned();
                let is_suffix = id.text == "suffix".to_owned();
                if is_prefix || is_suffix {
                    let key = if is_prefix {
                        CfgKey::Prefix
                    } else {
                        CfgKey::Suffix
                    };
                    if !(i + 1 < ts.len()) {
                        Err(
                            GenError {
                                kind: ErrKind::MalformedArgs(key),
                                span: span_at(ts, i + 1, fb),
                                related: Option::None,
                            },
                        )
                    } else {
                        let open_ok = match &ts[i + 1] {
                            Token::OpenDelim { delim: Delim::Paren, .. } => true,
                            _ => false,
                        };
                        if !open_ok {
                            return Err(
                                GenError {
                                    kind: ErrKind::MalformedArgs(key),
                                    span: token_span_of(&ts[i + 1]),
                                    related: Option::None,
                                },
                            );
                        }
                        if !(i + 2 < ts.len()) {
                            return Err(
                                GenError {
                                    kind: ErrKind::MalformedArgs(key),
                                    span: span_at(ts, i + 2, fb),
                                    related: Option::None,
                                },
                            );
                        }
                        match &ts[i + 2] {
                            Token::Id(arg) => {
                                if !(i + 3 < ts.len()) {
                                    return Err(
                                        GenError {
                                            kind: ErrKind::MalformedArgs(key),
                                            span: span_at(ts, i + 3, fb),
                                            related: Option::None,
                                        },
                                    );
                                }
                                let close_ok = match &ts[i + 3] {
                                    Token::CloseDelim { delim: Delim::Paren, .. } => true,
                                    _ => false,
                                };
                                if !close_ok {
                                    return Err(
                                        GenError {
                                            kind: ErrKind::MalformedArgs(key),
                                            span: token_span_of(&ts[i + 3]),
                                            related: Option::None,
                                        },
                                    );
                                }
                                let acc2 = if is_prefix {
                                    ExtractVariant {
                                        prefix: Option::Some(arg.clone()),
                                        suffix: acc.suffix,
                                        no_impl: acc.no_impl,
                                    }
                                } else {
                                    ExtractVariant {
                                        prefix: acc.prefix,
                                        suffix: Option::Some(arg.clone()),
                                        no_impl: acc.no_impl,
                                    }
                                };
                                config_entries(ts, i + 4, acc2, fb)
                            },
                            t => Err(
                                GenError {
                                    kind: ErrKind::MalformedArgs(key),
                                    span: token_span_of(t),
                                    related: Option::None,
                                },
                            ),
                        }
                    }
                } else if id.text == "no_impl".to_owned() {
                    config_entries(
                        ts,
                        i + 1,
                        ExtractVariant { prefix: acc.prefix, suffix: acc.suffix, no_impl: true },
                        fb,
                    )
                } else {
                    Err(
                        GenError {
                            kind: ErrKind::InvalidParameter,
                            span: id.span,
                            related: Option::None,
                        },
                    )
                }
            },
            t => Err(
                GenError {
                    kind: ErrKind::InvalidParameter,
                    span: token_span_of(t),
                    related: Option::None,
                },
            ),
        }
    }
}

impl ExtractVariant {
    /// Parses a whole configuration list out of an attribute's arguments.
    pub fn parse(args: &AttrArgs, fb: SrcSpan) -> (r: Result<ExtractVariant, GenError>)
        ensures
            match r {
                Ok(c) => spec_parse_config_list(args@, fb) == Ok::<_, GenError>(c@),
                Err(e) => spec_parse_config_list(args@, fb) == Err::<ExtractVariantV, GenError>(e),
            },
    {
        let dflt = ExtractVariant { prefix: Option::None, suffix: Option::None, no_impl: false };
        match args {
            AttrArgs::Empty => Ok(dflt),
            AttrArgs::Paren(ts) => config_entries(ts, 0, dflt, fb),
            AttrArgs::Other(ts) => Err(
                GenError {
                    kind: ErrKind::MalformedConfigList,
                    span: span_at(ts, 0, fb),
                    related: Option::None,
                },
            ),
        }
    }
}

/// Parses the extra-metadata payload into the attributes it declares.
pub fn parse_outer_attrs(ts: &Vec<Token>, i: usize, fb: SrcSpan) -> (r: Result<Vec<Attr>, GenError>)
    requires
        i <= ts@.len(),
    ensures
        match r {
            Ok(attrs) => spec_parse_outer_attrs(tokens_view(ts@), i as int, fb) == Ok::<_, GenError>(
                attrs_view(attrs@),
            ),
            Err(e) => spec_parse_outer_attrs(tokens_view(ts@), i as int, fb) == Err::<
                Seq<AttrV>,
                GenError,
            >(e),
        },
    decreases ts@.len() - i,
{
    if !(i < ts.len()) {
        let r: Vec<Attr> = Vec::new();
        proof {
            assert(attrs_view(r@) =~= Seq::<AttrV>::empty());
        }
        Ok(r)
    } else {
        match parse_one_attr(ts, i, fb) {
            Err(e) => Err(e),
            Ok((a, c)) => match parse_outer_attrs(ts, i + c, fb) {
                Err(e) => Err(e),
                Ok(rest) => {
                    let mut rest = rest;
                    let ghost old_rest = rest@;
                    rest.insert(0, a);
                    proof {
                        assert(attrs_view(rest@) =~= seq![a@] + attrs_view(old_rest));
                    }
                    Ok(rest)
                },
            },
        }
    }
}

} // verus!
