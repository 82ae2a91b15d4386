//! Token-level model of the host language's syntax: source positions,
//! identifiers, and flat token streams in which delimited groups appear as
//! balanced open/close tokens.

use vstd::prelude::*;

verus! {

/// A source-position anchor. The engine never looks inside a position; it
/// only carries positions along so that every generated declaration and every
/// error can point back at the user's source.
#[derive(Clone, Copy, PartialEq, Eq, Structural, Debug)]
pub struct SrcSpan {
    pub id: u64,
}

/// The kind of a delimiter pair in a token stream.
#[derive(Clone, Copy, PartialEq, Eq, Structural, Debug)]
pub enum Delim {
    Paren,
    Bracket,
    Brace,
}

/// An identifier together with the source position it was written at.
#[derive(Debug)]
pub struct Ident {
    pub text: String,
    pub span: SrcSpan,
}

/// Mathematical value of an [`Ident`].
pub struct IdentV {
    pub text: Seq<char>,
    pub span: SrcSpan,
}

impl View for Ident {
    type V = IdentV;

    open spec fn view(&self) -> IdentV {
        IdentV { text: self.text@, span: self.span }
    }
}

impl Clone for Ident {
    fn clone(&self) -> (r: Self)
        ensures
            r@ == self@,
    {
        Ident { text: self.text.clone(), span: self.span }
    }
}

/// One token of a flat token stream. A delimited group is written as an
/// opening token, the tokens inside it, and a closing token, so that a whole
/// stream is a plain sequence.
#[derive(Debug)]
pub enum Token {
    Id(Ident),
    Punct { ch: char, span: SrcSpan },
    Lit { text: String, span: SrcSpan },
    OpenDelim { delim: Delim, span: SrcSpan },
    CloseDelim { delim: Delim, span: SrcSpan },
}

/// Mathematical value of a [`Token`].
pub enum TokenV {
    Id(IdentV),
    Punct { ch: char, span: SrcSpan },
    Lit { text: Seq<char>, span: SrcSpan },
    OpenDelim { delim: Delim, span: SrcSpan },
    CloseDelim { delim: Delim, span: SrcSpan },
}

impl View for Token {
    type V = TokenV;

    open spec fn view(&self) -> TokenV {
        match self {
            Token::Id(i) => TokenV::Id(i@),
            Token::Punct { ch, span } => TokenV::Punct { ch: *ch, span: *span },
            Token::Lit { text, span } => TokenV::Lit { text: text@, span: *span },
            Token::OpenDelim { delim, span } => TokenV::OpenDelim { delim: *delim, span: *span },
            Token::CloseDelim { delim, span } => TokenV::CloseDelim { delim: *delim, span: *span },
        }
    }
}

impl Clone for Token {
    fn clone(&self) -> (r: Self)
        ensures
            r@ == self@,
    {
        match self {
            Token::Id(i) => Token::Id(i.clone()),
            Token::Punct { ch, span } => Token::Punct { ch: *ch, span: *span },
            Token::Lit { text, span } => Token::Lit { text: text.clone(), span: *span },
            Token::OpenDelim { delim, span } => Token::OpenDelim { delim: *delim, span: *span },
            Token::CloseDelim { delim, span } => Token::CloseDelim { delim: *delim, span: *span },
        }
    }
}

/// The source position a token was written at.
pub open spec fn token_span(t: TokenV) -> SrcSpan {
    match t {
        TokenV::Id(i) => i.span,
        TokenV::Punct { span, .. } => span,
        TokenV::Lit { span, .. } => span,
        TokenV::OpenDelim { span, .. } => span,
        TokenV::CloseDelim { span, .. } => span,
    }
}

/// View of a sequence of identifiers.
pub open spec fn idents_view(s: Seq<Ident>) -> Seq<IdentV> {
    s.map_values(|i: Ident| i@)
}

/// View of a sequence of tokens.
pub open spec fn tokens_view(s: Seq<Token>) -> Seq<TokenV> {
    s.map_values(|t: Token| t@)
}

/// Viewing tokens commutes with taking a subrange.
pub proof fn lemma_tokens_view_subrange(s: Seq<Token>, a: int, b: int)
    requires
        0 <= a <= b <= s.len(),
    ensures
        tokens_view(s.subrange(a, b)) == tokens_view(s).subrange(a, b),
{
    assert forall|j: int| 0 <= j < b - a implies tokens_view(s.subrange(a, b))[j] == tokens_view(
        s,
    ).subrange(a, b)[j] by {
        assert(tokens_view(s.subrange(a, b))[j] == s.subrange(a, b)[j]@);
        assert(tokens_view(s)[a + j] == s[a + j]@);
    }
    assert(tokens_view(s.subrange(a, b)) =~= tokens_view(s).subrange(a, b));
}

/// Copies the token range `[from, to)` out of a stream.
pub fn copy_token_range(toks: &Vec<Token>, from: usize, to: usize) -> (r: Vec<Token>)
    requires
        from <= to <= toks@.len(),
    ensures
        tokens_view(r@) == tokens_view(toks@.subrange(from as int, to as int)),
{
    let mut r: Vec<Token> = Vec::new();
    let mut i: usize = from;
    while i < to
        invariant
            from <= i <= to <= toks@.len(),
            tokens_view(r@) =~= tokens_view(toks@.subrange(from as int, i as int)),
        decreases to - i,
    {
        let ghost old_r = r@;
        let ghost old_i = i as int;
        let t = toks[i].clone();
        r.push(t);
        i += 1;
        proof {
            let old_sub = toks@.subrange(from as int, old_i);
            let sub = toks@.subrange(from as int, i as int);
            assert(tokens_view(old_r).len() == old_r.len());
            assert(tokens_view(old_sub).len() == old_sub.len());
            assert(old_r.len() == old_i - from);
            assert(r@.len() == sub.len());
            assert forall|j: int| 0 <= j < r@.len() implies tokens_view(r@)[j] == tokens_view(
                sub,
            )[j] by {
                if j < old_r.len() {
                    assert(r@[j] == old_r[j]);
                    assert(sub[j] == old_sub[j]);
                    assert(tokens_view(old_r)[j] == tokens_view(old_sub)[j]);
                } else {
                    assert(r@[j] == t);
                    assert(sub[j] == toks@[old_i]);
                }
            }
            assert(tokens_view(r@) =~= tokens_view(sub));
        }
    }
    proof {
        assert(tokens_view(r@) =~= tokens_view(toks@.subrange(from as int, to as int)));
    }
    r
}

/// Clones a whole token stream.
pub fn clone_tokens(toks: &Vec<Token>) -> (r: Vec<Token>)
    ensures
        tokens_view(r@) == tokens_view(toks@),
{
    let r = copy_token_range(toks, 0, toks.len());
    proof {
        assert(toks@.subrange(0, toks@.len() as int) =~= toks@);
    }
    r
}

/// Clones a sequence of identifiers.
pub fn clone_idents(ids: &Vec<Ident>) -> (r: Vec<Ident>)
    ensures
        idents_view(r@) == idents_view(ids@),
{
    let mut r: Vec<Ident> = Vec::new();
    let mut i: usize = 0;
    while i < ids.len()
        invariant
            i <= ids@.len(),
            idents_view(r@) =~= idents_view(ids@.subrange(0, i as int)),
        decreases ids@.len() - i,
    {
        let ghost old_r = r@;
        let ghost old_i = i as int;
        let t = ids[i].clone();
        r.push(t);
        i += 1;
        proof {
            let old_sub = ids@.subrange(0, old_i);
            let sub = ids@.subrange(0, i as int);
            assert(idents_view(old_r).len() == old_r.len());
            assert(idents_view(old_sub).len() == old_sub.len());
            assert(old_r.len() == old_i);
            assert(r@.len() == sub.len());
            assert forall|j: int| 0 <= j < r@.len() implies idents_view(r@)[j] == idents_view(
                sub,
            )[j] by {
                if j < old_r.len() {
                    assert(r@[j] == old_r[j]);
                    assert(sub[j] == old_sub[j]);
                    assert(idents_view(old_r)[j] == idents_view(old_sub)[j]);
                } else {
                    assert(r@[j] == t);
                    assert(sub[j] == ids@[old_i]);
                }
            }
            assert(idents_view(r@) =~= idents_view(sub));
        }
    }
    proof {
        assert(ids@.subrange(0, ids@.len() as int) =~= ids@);
        assert(idents_view(r@) =~= idents_view(ids@));
    }
    r
}

} // verus!
