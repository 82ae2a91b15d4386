//! Tree-level model of the declarations the engine reads and writes:
//! attributes, visibilities, fields, and enum / struct declarations.

use vstd::prelude::*;

use crate::tokens::{
    clone_idents, clone_tokens, idents_view, tokens_view, Ident, IdentV, SrcSpan, Token, TokenV,
};

verus! {

/// A (possibly qualified) path: one or more identifiers.
#[derive(Debug)]
pub struct Path {
    pub segments: Vec<Ident>,
}

/// Mathematical value of a [`Path`].
pub struct PathV {
    pub segments: Seq<IdentV>,
}

impl View for Path {
    type V = PathV;

    open spec fn view(&self) -> PathV {
        PathV { segments: idents_view(self.segments@) }
    }
}

impl Clone for Path {
    fn clone(&self) -> (r: Self)
        ensures
            r@ == self@,
    {
        Path { segments: clone_idents(&self.segments) }
    }
}

impl Path {
    /// The path consisting of the one given identifier.
    pub fn from_ident(ident: Ident) -> (r: Path)
        ensures
            r@.segments =~= seq![ident@],
    {
        let mut segments: Vec<Ident> = Vec::new();
        segments.push(ident);
        Path { segments }
    }
}

/// The argument tokens of an attribute.
#[derive(Debug)]
pub enum AttrArgs {
    /// The attribute has no arguments at all, as in `#[exclude]`.
    Empty,
    /// The arguments were written in parentheses, as in `#[prefix(Name)]`;
    /// the tokens are the ones inside the parentheses.
    Paren(Vec<Token>),
    /// Any other argument form, such as `#[doc = "..."]`; the tokens are
    /// everything following the attribute's path, kept verbatim.
    Other(Vec<Token>),
}

/// Mathematical value of [`AttrArgs`].
pub enum AttrArgsV {
    Empty,
    Paren(Seq<TokenV>),
    Other(Seq<TokenV>),
}

impl View for AttrArgs {
    type V = AttrArgsV;

    open spec fn view(&self) -> AttrArgsV {
        match self {
            AttrArgs::Empty => AttrArgsV::Empty,
            AttrArgs::Paren(ts) => AttrArgsV::Paren(tokens_view(ts@)),
            AttrArgs::Other(ts) => AttrArgsV::Other(tokens_view(ts@)),
        }
    }
}

impl Clone for AttrArgs {
    fn clone(&self) -> (r: Self)
        ensures
            r@ == self@,
    {
        match self {
            AttrArgs::Empty => AttrArgs::Empty,
            AttrArgs::Paren(ts) => AttrArgs::Paren(clone_tokens(ts)),
            AttrArgs::Other(ts) => AttrArgs::Other(clone_tokens(ts)),
        }
    }
}

/// One metadata entry (attribute) attached to a declaration.
#[derive(Debug)]
pub struct Attr {
    /// Anchor of the whole attribute, for diagnostics.
    pub span: SrcSpan,
    /// The attribute's key, e.g. `derive` or `prefix`.
    pub path: Path,
    /// The attribute's argument tokens.
    pub args: AttrArgs,
}

/// Mathematical value of an [`Attr`].
pub struct AttrV {
    pub span: SrcSpan,
    pub path: PathV,
    pub args: AttrArgsV,
}

impl View for Attr {
    type V = AttrV;

    open spec fn view(&self) -> AttrV {
        AttrV { span: self.span, path: self.path@, args: self.args@ }
    }
}

impl Clone for Attr {
    fn clone(&self) -> (r: Self)
        ensures
            r@ == self@,
    {
        Attr { span: self.span, path: self.path.clone(), args: self.args.clone() }
    }
}

/// View of a sequence of attributes.
pub open spec fn attrs_view(s: Seq<Attr>) -> Seq<AttrV> {
    s.map_values(|a: Attr| a@)
}

/// Viewing attributes commutes with concatenation.
pub proof fn lemma_attrs_view_add(a: Seq<Attr>, b: Seq<Attr>)
    ensures
        attrs_view(a + b) == attrs_view(a) + attrs_view(b),
{
    assert forall|j: int| 0 <= j < a.len() + b.len() implies attrs_view(a + b)[j] == (attrs_view(a)
        + attrs_view(b))[j] by {
        if j < a.len() {
            assert((a + b)[j] == a[j]);
            assert(attrs_view(a)[j] == a[j]@);
        } else {
            assert((a + b)[j] == b[j - a.len()]);
            assert(attrs_view(b)[j - a.len()] == b[j - a.len()]@);
        }
    }
    assert(attrs_view(a + b) =~= attrs_view(a) + attrs_view(b));
}

/// The key of an attribute whose path is a single plain identifier, if so.
pub open spec fn attr_key(a: AttrV) -> Option<Seq<char>> {
    if a.path.segments.len() == 1 {
        Option::Some(a.path.segments[0].text)
    } else {
        Option::None
    }
}

/// Whether an attribute's key is exactly the single identifier `k`.
pub open spec fn is_key(a: AttrV, k: Seq<char>) -> bool {
    attr_key(a) == Option::Some(k)
}

/// Tests whether an attribute's key is exactly the single identifier `k`.
pub fn has_path_key(a: &Attr, k: &str) -> (r: bool)
    ensures
        r == is_key(a@, k@),
{
    if a.path.segments.len() == 1 {
        let kw: String = k.to_owned();
        let r = a.path.segments[0].text == kw;
        proof {
            assert(a@.path.segments[0] == a.path.segments@[0]@);
        }
        r
    } else {
        false
    }
}

/// The visibility of a declaration.
#[derive(Debug)]
pub enum Vis {
    /// `pub`
    Public,
    /// `pub(crate)`
    Crate,
    /// `pub(in some::path)`, `pub(super)` and the like.
    Restricted(Path),
    /// No visibility written at all.
    Inherited,
}

/// Mathematical value of a [`Vis`].
pub enum VisV {
    Public,
    Crate,
    Restricted(PathV),
    Inherited,
}

impl View for Vis {
    type V = VisV;

    open spec fn view(&self) -> VisV {
        match self {
            Vis::Public => VisV::Public,
            Vis::Crate => VisV::Crate,
            Vis::Restricted(p) => VisV::Restricted(p@),
            Vis::Inherited => VisV::Inherited,
        }
    }
}

impl Clone for Vis {
    fn clone(&self) -> (r: Self)
        ensures
            r@ == self@,
    {
        match self {
            Vis::Public => Vis::Public,
            Vis::Crate => Vis::Crate,
            Vis::Restricted(p) => Vis::Restricted(p.clone()),
            Vis::Inherited => Vis::Inherited,
        }
    }
}

/// A field's type, kept as the verbatim tokens it was written with. The
/// engine never looks inside a type; it only copies it.
#[derive(Debug)]
pub struct Ty {
    pub tokens: Vec<Token>,
}

/// Mathematical value of a [`Ty`].
pub struct TyV {
    pub tokens: Seq<TokenV>,
}

impl View for Ty {
    type V = TyV;

    open spec fn view(&self) -> TyV {
        TyV { tokens: tokens_view(self.tokens@) }
    }
}

impl Clone for Ty {
    fn clone(&self) -> (r: Self)
        ensures
            r@ == self@,
    {
        Ty { tokens: clone_tokens(&self.tokens) }
    }
}

/// One field of an alternative or of a record declaration. An unnamed
/// (positional) field has no name.
#[derive(Debug)]
pub struct Field {
    pub vis: Vis,
    pub name: Option<Ident>,
    pub ty: Ty,
}

/// Mathematical value of a [`Field`].
pub struct FieldV {
    pub vis: VisV,
    pub name: Option<IdentV>,
    pub ty: TyV,
}

/// View of an optional identifier.
pub open spec fn opt_ident_view(o: Option<Ident>) -> Option<IdentV> {
    match o {
        Option::Some(i) => Option::Some(i@),
        Option::None => Option::None,
    }
}

impl View for Field {
    type V = FieldV;

    open spec fn view(&self) -> FieldV {
        FieldV { vis: self.vis@, name: opt_ident_view(self.name), ty: self.ty@ }
    }
}

impl Clone for Field {
    fn clone(&self) -> (r: Self)
        ensures
            r@ == self@,
    {
        let name = match &self.name {
            Option::Some(i) => Option::Some(i.clone()),
            Option::None => Option::None,
        };
        Field { vis: self.vis.clone(), name, ty: self.ty.clone() }
    }
}

/// View of a sequence of fields.
pub open spec fn fields_view(s: Seq<Field>) -> Seq<FieldV> {
    s.map_values(|f: Field| f@)
}

/// The structural shape of an alternative or record: no fields, ordered
/// unnamed fields, or named fields.
#[derive(Debug)]
pub enum Fields {
    Unit,
    Unnamed(Vec<Field>),
    Named(Vec<Field>),
}

/// Mathematical value of a [`Fields`].
pub enum FieldsV {
    Unit,
    Unnamed(Seq<FieldV>),
    Named(Seq<FieldV>),
}

impl View for Fields {
    type V = FieldsV;

    open spec fn view(&self) -> FieldsV {
        match self {
            Fields::Unit => FieldsV::Unit,
            Fields::Unnamed(fs) => FieldsV::Unnamed(fields_view(fs@)),
            Fields::Named(fs) => FieldsV::Named(fields_view(fs@)),
        }
    }
}

/// Well-formedness of a field list: named shapes name every field, unnamed
/// shapes name none.
pub open spec fn wf_fields(f: FieldsV) -> bool {
    match f {
        FieldsV::Unit => true,
        FieldsV::Unnamed(fs) => forall|i: int| 0 <= i < fs.len() ==> fs[i].name is None,
        FieldsV::Named(fs) => forall|i: int| 0 <= i < fs.len() ==> fs[i].name is Some,
    }
}

/// One alternative of a union declaration.
#[derive(Debug)]
pub struct VariantDef {
    pub attrs: Vec<Attr>,
    pub ident: Ident,
    pub fields: Fields,
}

/// Mathematical value of a [`VariantDef`].
pub struct VariantDefV {
    pub attrs: Seq<AttrV>,
    pub ident: IdentV,
    pub fields: FieldsV,
}

impl View for VariantDef {
    type V = VariantDefV;

    open spec fn view(&self) -> VariantDefV {
        VariantDefV { attrs: attrs_view(self.attrs@), ident: self.ident@, fields: self.fields@ }
    }
}

/// View of a sequence of alternatives.
pub open spec fn variants_view(s: Seq<VariantDef>) -> Seq<VariantDefV> {
    s.map_values(|v: VariantDef| v@)
}

/// A union (tagged-union) declaration: the input of the derive-from-union
/// entry point.
#[derive(Debug)]
pub struct EnumDef {
    pub attrs: Vec<Attr>,
    pub vis: Vis,
    pub ident: Ident,
    /// Position of the opening `<` of a generic-parameter list, when the
    /// declaration has one. Such declarations are rejected.
    pub generics_lt: Option<SrcSpan>,
    pub variants: Vec<VariantDef>,
}

/// Mathematical value of an [`EnumDef`].
pub struct EnumDefV {
    pub attrs: Seq<AttrV>,
    pub vis: VisV,
    pub ident: IdentV,
    pub generics_lt: Option<SrcSpan>,
    pub variants: Seq<VariantDefV>,
}

impl View for EnumDef {
    type V = EnumDefV;

    open spec fn view(&self) -> EnumDefV {
        EnumDefV {
            attrs: attrs_view(self.attrs@),
            vis: self.vis@,
            ident: self.ident@,
            generics_lt: self.generics_lt,
            variants: variants_view(self.variants@),
        }
    }
}

/// A record (struct) declaration: both the output of the record generator and
/// the input of the link-manual-record entry point.
#[derive(Debug)]
pub struct StructDef {
    pub attrs: Vec<Attr>,
    pub vis: Vis,
    pub ident: Ident,
    pub fields: Fields,
}

/// Mathematical value of a [`StructDef`].
pub struct StructDefV {
    pub attrs: Seq<AttrV>,
    pub vis: VisV,
    pub ident: IdentV,
    pub fields: FieldsV,
}

impl View for StructDef {
    type V = StructDefV;

    open spec fn view(&self) -> StructDefV {
        StructDefV {
            attrs: attrs_view(self.attrs@),
            vis: self.vis@,
            ident: self.ident@,
            fields: self.fields@,
        }
    }
}

/// Well-formedness of an alternative.
pub open spec fn wf_variant(v: VariantDefV) -> bool {
    wf_fields(v.fields)
}

/// Well-formedness of a union declaration: every alternative is well-formed.
pub open spec fn wf_enum(e: EnumDefV) -> bool {
    forall|i: int| 0 <= i < e.variants.len() ==> wf_variant(#[trigger] e.variants[i])
}

/// Well-formedness of a record declaration.
pub open spec fn wf_struct(s: StructDefV) -> bool {
    wf_fields(s.fields)
}

} // verus!
