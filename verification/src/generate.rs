//! The record generator and the conversion derivation: building one record
//! declaration per alternative, with its inherited metadata, and the pair of
//! conversion declarations plus the marker for each record.

use vstd::prelude::*;

use crate::errors::{CfgKey, ErrKind, GenError};
use crate::grammar::{parse_outer_attrs, spec_parse_outer_attrs};
use crate::names::{positional_name, spec_positional_name};
use crate::output::{
    output_view, BindPattern, BindPatternV, ConvSig, ConvSigV, MarkerSig, MarkerSigV, OutputItem,
    OutputItemV,
};
use crate::tokens::{idents_view, Ident, IdentV};
use crate::tree::{
    attrs_view, fields_view, has_path_key, is_key, lemma_attrs_view_add, opt_ident_view, wf_fields,
    wf_struct, wf_variant, Attr, AttrArgs, AttrArgsV, AttrV, EnumDef, EnumDefV, Field, FieldV,
    Fields, FieldsV, Path, PathV, StructDef, StructDefV, VariantDef, VariantDefV, Vis, VisV,
};

verus! {

/// A field list with every field made externally accessible, everything else
/// kept as it stands.
pub open spec fn spec_publicize_fields(fs: Seq<FieldV>) -> Seq<FieldV> {
    fs.map_values(|f: FieldV| FieldV { vis: VisV::Public, name: f.name, ty: f.ty })
}

/// The shape of a generated record: the alternative's shape with every field
/// made externally accessible.
pub open spec fn spec_publicize(f: FieldsV) -> FieldsV {
    match f {
        FieldsV::Unit => FieldsV::Unit,
        FieldsV::Unnamed(fs) => FieldsV::Unnamed(spec_publicize_fields(fs)),
        FieldsV::Named(fs) => FieldsV::Named(spec_publicize_fields(fs)),
    }
}

fn publicize_field_vec(fs: &Vec<Field>) -> (r: Vec<Field>)
    ensures
        fields_view(r@) == spec_publicize_fields(fields_view(fs@)),
{
    let mut r: Vec<Field> = Vec::new();
    let mut i: usize = 0;
    while i < fs.len()
        invariant
            i <= fs@.len(),
            fields_view(r@) =~= spec_publicize_fields(fields_view(fs@)).take(i as int),
        decreases fs@.len() - i,
    {
        let ghost old_r = r@;
        let f = &fs[i];
        let name = match &f.name {
            Option::Some(n) => Option::Some(n.clone()),
            Option::None => Option::None,
        };
        let nf = Field { vis: Vis::Public, name, ty: f.ty.clone() };
        r.push(nf);
        i += 1;
        proof {
            let target = spec_publicize_fields(fields_view(fs@));
            assert(fields_view(old_r).len() == old_r.len());
            assert(fields_view(fs@).len() == fs@.len());
            assert(target.len() == fs@.len());
            assert(old_r.len() == i - 1);
            assert forall|j: int| 0 <= j < r@.len() implies fields_view(r@)[j] == target.take(
                i as int,
            )[j] by {
                if j < old_r.len() {
                    assert(r@[j] == old_r[j]);
                    assert(fields_view(old_r)[j] == target.take(i - 1)[j]);
                } else {
                    assert(r@[j] == nf);
                    assert(fields_view(fs@)[j] == fs@[j]@);
                    assert(target[j] == FieldV {
                        vis: VisV::Public,
                        name: fs@[j]@.name,
                        ty: fs@[j]@.ty,
                    });
                    assert(nf@.name == fs@[j]@.name);
                    assert(nf@.ty == fs@[j]@.ty);
                }
            }
            assert(fields_view(r@) =~= target.take(i as int));
        }
    }
    proof {
        assert(spec_publicize_fields(fields_view(fs@)).take(fs@.len() as int)
            =~= spec_publicize_fields(fields_view(fs@)));
    }
    r
}

/// Copies a field shape, making every field externally accessible.
pub fn publicize(f: &Fields) -> (r: Fields)
    ensures
        r@ == spec_publicize(f@),
{
    match f {
        Fields::Unit => Fields::Unit,
        Fields::Unnamed(fs) => Fields::Unnamed(publicize_field_vec(fs)),
        Fields::Named(fs) => Fields::Named(publicize_field_vec(fs)),
    }
}

/// Making fields accessible keeps the shape well-formed: no field name is
/// touched.
pub proof fn lemma_publicize_wf(f: FieldsV)
    requires
        wf_fields(f),
    ensures
        wf_fields(spec_publicize(f)),
{
    match f {
        FieldsV::Unit => {},
        FieldsV::Unnamed(fs) => {
            assert forall|i: int| 0 <= i < fs.len() implies spec_publicize_fields(fs)[i].name
                is None by {
                assert(fs[i].name is None);
            }
        },
        FieldsV::Named(fs) => {
            assert forall|i: int| 0 <= i < fs.len() implies spec_publicize_fields(fs)[i].name
                is Some by {
                assert(fs[i].name is Some);
            }
        },
    }
}

/// The bare generated record for one alternative: the union's visibility, the
/// synthesized name (or the alternative's own name), the alternative's shape
/// with all fields accessible, and no metadata yet.
pub open spec fn spec_generate_variant(e: EnumDefV, v: VariantDefV, name: Option<IdentV>) -> StructDefV {
    StructDefV {
        attrs: Seq::empty(),
        vis: e.vis,
        ident: match name {
            Option::Some(n) => n,
            Option::None => v.ident,
        },
        fields: spec_publicize(v.fields),
    }
}

/// Builds the bare record declaration for one alternative.
pub fn generate_variant(e: &EnumDef, v: &VariantDef, name: Option<Ident>) -> (r: StructDef)
    ensures
        r@ == spec_generate_variant(e@, v@, opt_ident_view(name)),
{
    let ident = match name {
        Option::Some(n) => n,
        Option::None => v.ident.clone(),
    };
    let r = StructDef { attrs: Vec::new(), vis: e.vis.clone(), ident, fields: publicize(&v.fields) };
    proof {
        assert(attrs_view(Seq::<Attr>::empty()) =~= Seq::<AttrV>::empty());
        assert(r@.attrs =~= Seq::<AttrV>::empty());
    }
    r
}

/// How a conversion binds a record's fields: no binding for a fieldless
/// record, the canonical `_0`, `_1`, ... names for positional fields, and the
/// declared names for named fields.
pub open spec fn spec_fields_stream(f: FieldsV) -> BindPatternV {
    match f {
        FieldsV::Unit => BindPatternV::Unit,
        FieldsV::Unnamed(fs) => BindPatternV::Positional(
            Seq::new(fs.len(), |i: int| spec_positional_name(i as nat)),
        ),
        FieldsV::Named(fs) => BindPatternV::Named(fs.map_values(|fd: FieldV| fd.name.unwrap())),
    }
}

/// Derives the binding pattern of a record's fields.
pub fn fields_stream(f: &Fields) -> (r: BindPattern)
    requires
        wf_fields(f@),
    ensures
        r@ == spec_fields_stream(f@),
{
    match f {
        Fields::Unit => BindPattern::Unit,
        Fields::Unnamed(fs) => {
            let mut ids: Vec<Ident> = Vec::new();
            let mut i: usize = 0;
            while i < fs.len()
                invariant
                    i <= fs@.len(),
                    i == ids@.len(),
                    forall|j: int| #![auto]
                        0 <= j < i ==> idents_view(ids@)[j] == spec_positional_name(j as nat),
                decreases fs@.len() - i,
            {
                let ghost old_ids = ids@;
                let id = positional_name(i as u64);
                ids.push(id);
                i += 1;
                proof {
                    assert forall|j: int| #![auto] 0 <= j < i implies idents_view(ids@)[j]
                        == spec_positional_name(j as nat) by {
                        if j < old_ids.len() {
                            assert(ids@[j] == old_ids[j]);
                            assert(idents_view(old_ids)[j] == spec_positional_name(j as nat));
                        } else {
                            assert(ids@[j] == id);
                        }
                    }
                }
            }
            let r = BindPattern::Positional(ids);
            proof {
                let target = Seq::new(
                    fields_view(fs@).len(),
                    |i: int| spec_positional_name(i as nat),
                );
                assert(idents_view(ids@) =~= target);
            }
            r
        },
        Fields::Named(fs) => {
            let mut ids: Vec<Ident> = Vec::new();
            let mut i: usize = 0;
            while i < fs.len()
                invariant
                    i <= fs@.len(),
                    i == ids@.len(),
                    wf_fields(FieldsV::Named(fields_view(fs@))),
                    forall|j: int| #![auto]
                        0 <= j < i ==> idents_view(ids@)[j] == fields_view(fs@)[j].name.unwrap(),
                decreases fs@.len() - i,
            {
                let ghost old_ids = ids@;
                proof {
                    assert(fields_view(fs@)[i as int] == fs@[i as int]@);
                    assert(fields_view(fs@)[i as int].name is Some);
                }
                match &fs[i].name {
                    Option::Some(n) => {
                        let id = n.clone();
                        ids.push(id);
                        proof {
                            assert forall|j: int| #![auto] 0 <= j < i + 1 implies idents_view(
                                ids@,
                            )[j] == fields_view(fs@)[j].name.unwrap() by {
                                if j < old_ids.len() {
                                    assert(ids@[j] == old_ids[j]);
                                    assert(idents_view(old_ids)[j] == fields_view(
                                        fs@,
                                    )[j].name.unwrap());
                                } else {
                                    assert(ids@[j] == id);
                                }
                            }
                        }
                    },
                    Option::None => {
                        proof {
                            assert(false);
                        }
                    },
                }
                i += 1;
            }
            let r = BindPattern::Named(ids);
            proof {
                let target = fields_view(fs@).map_values(|fd: FieldV| fd.name.unwrap());
                assert(idents_view(ids@) =~= target);
            }
            r
        },
    }
}

/// The two conversion declarations for one record/union/alternative triple:
/// the total conversion into the union, then the fallible conversion out of
/// it, both binding the fields with the same pattern.
pub open spec fn spec_impl_froms(
    record: PathV,
    enum_path: PathV,
    variant: IdentV,
    binding: BindPatternV,
) -> Seq<OutputItemV> {
    let sig = ConvSigV { record, enum_path, variant, binding };
    seq![OutputItemV::FromImplDecl(sig), OutputItemV::TryFromImplDecl(sig)]
}

/// Builds the two conversion declarations.
pub fn impl_froms(record: &Path, enum_path: &Path, variant: &Ident, binding: &BindPattern) -> (r:
    Vec<OutputItem>)
    ensures
        output_view(r@) == spec_impl_froms(record@, enum_path@, variant@, binding@),
{
    let mut r: Vec<OutputItem> = Vec::new();
    r.push(
        OutputItem::FromImplDecl(
            ConvSig {
                record: record.clone(),
                enum_path: enum_path.clone(),
                variant: variant.clone(),
                binding: binding.clone(),
            },
        ),
    );
    r.push(
        OutputItem::TryFromImplDecl(
            ConvSig {
                record: record.clone(),
                enum_path: enum_path.clone(),
                variant: variant.clone(),
                binding: binding.clone(),
            },
        ),
    );
    proof {
        assert(output_view(r@) =~= spec_impl_froms(record@, enum_path@, variant@, binding@));
    }
    r
}

/// The whole conversion block for one record: the two conversions and the
/// marker declaration claiming the validated pairing. When no alternative
/// name is given, the record's own name is the alternative's.
pub open spec fn spec_impl_variant(
    record: StructDefV,
    enum_path: PathV,
    variant_ident: Option<IdentV>,
) -> Seq<OutputItemV> {
    let struct_path = PathV { segments: seq![record.ident] };
    let variant = match variant_ident {
        Option::Some(v) => v,
        Option::None => record.ident,
    };
    spec_impl_froms(struct_path, enum_path, variant, spec_fields_stream(record.fields)) + seq![
        OutputItemV::MarkerImplDecl(MarkerSigV { record: struct_path, enum_path }),
    ]
}

/// Builds the conversion block for one record.
pub fn impl_variant(record: &StructDef, enum_path: &Path, variant_ident: Option<&Ident>) -> (r: Vec<
    OutputItem,
>)
    requires
        wf_struct(record@),
    ensures
        output_view(r@) == spec_impl_variant(record@, enum_path@, crate::names::opt_ref_ident_view(variant_ident)),
{
    let struct_path = Path::from_ident(record.ident.clone());
    let variant: Ident = match variant_ident {
        Option::Some(v) => v.clone(),
        Option::None => record.ident.clone(),
    };
    let binding = fields_stream(&record.fields);
    let mut r = impl_froms(&struct_path, enum_path, &variant, &binding);
    r.push(
        OutputItem::MarkerImplDecl(
            MarkerSig { record: struct_path, enum_path: enum_path.clone() },
        ),
    );
    proof {
        assert(output_view(r@) =~= spec_impl_variant(
            record@,
            enum_path@,
            crate::names::opt_ref_ident_view(variant_ident),
        ));
    }
    r
}

/// The attributes from position `i` on whose key is exactly `k`, in order.
pub open spec fn spec_filter_key_from(attrs: Seq<AttrV>, i: int, k: Seq<char>) -> Seq<AttrV>
    decreases attrs.len() - i,
{
    if !(0 <= i < attrs.len()) {
        Seq::empty()
    } else {
        let rest = spec_filter_key_from(attrs, i + 1, k);
        if is_key(attrs[i], k) {
            seq![attrs[i]] + rest
        } else {
            rest
        }
    }
}

/// Copies the attributes whose key is exactly `k`, in their original order.
pub fn filter_attrs_key(attrs: &Vec<Attr>, i: usize, k: &str) -> (r: Vec<Attr>)
    requires
        i <= attrs@.len(),
    ensures
        attrs_view(r@) == spec_filter_key_from(attrs_view(attrs@), i as int, k@),
    decreases attrs@.len() - i,
{
    if !(i < attrs.len()) {
        let r: Vec<Attr> = Vec::new();
        proof {
            assert(attrs_view(r@) =~= Seq::<AttrV>::empty());
        }
        r
    } else {
        let mut rest = filter_attrs_key(attrs, i + 1, k);
        proof {
            assert(attrs_view(attrs@)[i as int] == attrs@[i as int]@);
        }
        if has_path_key(&attrs[i], k) {
            let ghost old_rest = rest@;
            rest.insert(0, attrs[i].clone());
            proof {
                assert(attrs_view(rest@) =~= seq![attrs@[i as int]@] + attrs_view(old_rest));
            }
        }
        rest
    }
}

/// The position of the first attribute at or after `i` whose key is exactly
/// `k`, if any.
pub open spec fn spec_find_key(attrs: Seq<AttrV>, k: Seq<char>, i: int) -> Option<int>
    decreases attrs.len() - i,
{
    if !(0 <= i < attrs.len()) {
        Option::None
    } else if is_key(attrs[i], k) {
        Option::Some(i)
    } else {
        spec_find_key(attrs, k, i + 1)
    }
}

/// Finds the first attribute at or after `i` whose key is exactly `k`.
pub fn find_key(attrs: &Vec<Attr>, k: &str, i: usize) -> (r: Option<usize>)
    requires
        i <= attrs@.len(),
    ensures
        match r {
            Option::Some(j) => spec_find_key(attrs_view(attrs@), k@, i as int) == Option::Some(
                j as int,
            ) && i <= j < attrs@.len(),
            Option::None => spec_find_key(attrs_view(attrs@), k@, i as int) == Option::<int>::None,
        },
    decreases attrs@.len() - i,
{
    if !(i < attrs.len()) {
        Option::None
    } else {
        proof {
            assert(attrs_view(attrs@)[i as int] == attrs@[i as int]@);
        }
        if has_path_key(&attrs[i], k) {
            Option::Some(i)
        } else {
            find_key(attrs, k, i + 1)
        }
    }
}

/// The extra metadata one alternative asks for: the parsed payload of its
/// `variant_attrs` declaration, nothing when the declaration is absent, a
/// duplicate error naming both positions when it appears twice, and the
/// payload's own parse failure otherwise.
pub open spec fn spec_variant_extra_attrs(v_attrs: Seq<AttrV>) -> Result<Seq<AttrV>, GenError> {
    match spec_find_key(v_attrs, "variant_attrs"@, 0) {
        Option::None => Ok(Seq::empty()),
        Option::Some(i) => match spec_find_key(v_attrs, "variant_attrs"@, i + 1) {
            Option::Some(j) => Err(
                GenError {
                    kind: ErrKind::Duplicate(CfgKey::VariantAttrs),
                    span: v_attrs[j].span,
                    related: Option::Some(v_attrs[i].span),
                },
            ),
            Option::None => match v_attrs[i].args {
                AttrArgsV::Paren(ts) => spec_parse_outer_attrs(ts, 0, v_attrs[i].span),
                _ => Err(
                    GenError {
                        kind: ErrKind::MalformedArgs(CfgKey::VariantAttrs),
                        span: v_attrs[i].span,
                        related: Option::None,
                    },
                ),
            },
        },
    }
}

/// Resolves one alternative's `variant_attrs` declaration.
pub fn variant_extra_attrs(v_attrs: &Vec<Attr>) -> (r: Result<Vec<Attr>, GenError>)
    ensures
        match r {
            Ok(extra) => spec_variant_extra_attrs(attrs_view(v_attrs@)) == Ok::<_, GenError>(
                attrs_view(extra@),
            ),
            Err(e) => spec_variant_extra_attrs(attrs_view(v_attrs@)) == Err::<Seq<AttrV>, GenError>(
                e,
            ),
        },
{
    match find_key(v_attrs, "variant_attrs", 0) {
        Option::None => {
            let r: Vec<Attr> = Vec::new();
            proof {
                assert(attrs_view(r@) =~= Seq::<AttrV>::empty());
            }
            Ok(r)
        },
        Option::Some(i) => {
            let n = v_attrs.len();
            match find_key(v_attrs, "variant_attrs", i + 1) {
            Option::Some(j) => Err(
                GenError {
                    kind: ErrKind::Duplicate(CfgKey::VariantAttrs),
                    span: v_attrs[j].span,
                    related: Option::Some(v_attrs[i].span),
                },
            ),
            Option::None => {
                proof {
                    assert(attrs_view(v_attrs@)[i as int] == v_attrs@[i as int]@);
                }
                match &v_attrs[i].args {
                    AttrArgs::Paren(ts) => parse_outer_attrs(ts, 0, v_attrs[i].span),
                    _ => Err(
                        GenError {
                            kind: ErrKind::MalformedArgs(CfgKey::VariantAttrs),
                            span: v_attrs[i].span,
                            related: Option::None,
                        },
                    ),
                }
            },
        }
        },
    }
}

/// The finished record declaration for one alternative: the bare generated
/// record carrying, in order, the alternative's extra metadata, the union's
/// inherited `derive` entries, and the alternative's documentation entries.
pub open spec fn spec_full_record(
    e: EnumDefV,
    v: VariantDefV,
    name: Option<IdentV>,
    extra: Seq<AttrV>,
) -> StructDefV {
    let bare = spec_generate_variant(e, v, name);
    StructDefV {
        attrs: extra + spec_filter_key_from(e.attrs, 0, "derive"@) + spec_filter_key_from(
            v.attrs,
            0,
            "doc"@,
        ),
        vis: bare.vis,
        ident: bare.ident,
        fields: bare.fields,
    }
}

/// A record's field shape mirrors an alternative's: same structural kind,
/// same field names and types in the same order, and every field externally
/// accessible.
pub open spec fn same_shape_public(rf: FieldsV, vf: FieldsV) -> bool {
    match (rf, vf) {
        (FieldsV::Unit, FieldsV::Unit) => true,
        (FieldsV::Unnamed(rs), FieldsV::Unnamed(vs)) => rs.len() == vs.len() && forall|j: int|
            0 <= j < rs.len() ==> (#[trigger] rs[j]).name == vs[j].name && rs[j].ty == vs[j].ty
                && rs[j].vis == VisV::Public,
        (FieldsV::Named(rs), FieldsV::Named(vs)) => rs.len() == vs.len() && forall|j: int|
            0 <= j < rs.len() ==> (#[trigger] rs[j]).name == vs[j].name && rs[j].ty == vs[j].ty
                && rs[j].vis == VisV::Public,
        _ => false,
    }
}

/// Making an alternative's fields accessible yields exactly a mirrored,
/// fully accessible shape.
pub proof fn lemma_publicize_shape(f: FieldsV)
    ensures
        same_shape_public(spec_publicize(f), f),
{
    match f {
        FieldsV::Unit => {},
        FieldsV::Unnamed(fs) => {
            assert(spec_publicize_fields(fs).len() == fs.len());
        },
        FieldsV::Named(fs) => {
            assert(spec_publicize_fields(fs).len() == fs.len());
        },
    }
}

/// Everything the pass emits for one non-excluded alternative: the record
/// declaration carrying its extra metadata and inherited entries, followed —
/// unless conversions are suppressed — by the conversion pair and the marker.
pub open spec fn spec_generate_code(
    e: EnumDefV,
    v: VariantDefV,
    name: Option<IdentV>,
    no_impl: bool,
    enum_path: PathV,
) -> Result<Seq<OutputItemV>, GenError> {
    match spec_variant_extra_attrs(v.attrs) {
        Err(er) => Err(er),
        Ok(extra) => {
            let record = spec_full_record(e, v, name, extra);
            if !no_impl {
                Ok(
                    seq![OutputItemV::RecordDecl(record)] + spec_impl_variant(
                        record,
                        enum_path,
                        Option::Some(v.ident),
                    ),
                )
            } else {
                Ok(seq![OutputItemV::RecordDecl(record)])
            }
        },
    }
}

/// Generates the record and, unless suppressed, the conversion block for one
/// alternative.
pub fn generate_code(
    e: &EnumDef,
    v: &VariantDef,
    name: Option<Ident>,
    no_impl: bool,
    enum_path: &Path,
) -> (r: Result<Vec<OutputItem>, GenError>)
    requires
        wf_variant(v@),
    ensures
        match r {
            Ok(items) => spec_generate_code(e@, v@, opt_ident_view(name), no_impl, enum_path@)
                == Ok::<_, GenError>(output_view(items@)),
            Err(er) => spec_generate_code(e@, v@, opt_ident_view(name), no_impl, enum_path@)
                == Err::<Seq<OutputItemV>, GenError>(er),
        },
{
    let mut record = generate_variant(e, v, name);
    let mut attrs = match variant_extra_attrs(&v.attrs) {
        Ok(a) => a,
        Err(er) => {
            return Err(er);
        },
    };
    let ghost extra_v = attrs_view(attrs@);
    let mut derives = filter_attrs_key(&e.attrs, 0, "derive");
    let mut docs = filter_attrs_key(&v.attrs, 0, "doc");
    proof {
        lemma_attrs_view_add(attrs@, derives@);
    }
    let ghost first_two = attrs@ + derives@;
    attrs.append(&mut derives);
    proof {
        lemma_attrs_view_add(first_two, docs@);
    }
    attrs.append(&mut docs);
    record.attrs = attrs;
    proof {
        assert(record@.attrs =~= extra_v + spec_filter_key_from(attrs_view(e.attrs@), 0, "derive"@)
            + spec_filter_key_from(attrs_view(v.attrs@), 0, "doc"@));
        lemma_publicize_wf(v@.fields);
    }
    let mut out: Vec<OutputItem> = Vec::new();
    if !no_impl {
        let mut impls = impl_variant(&record, enum_path, Option::Some(&v.ident));
        let ghost record_v = record@;
        let ghost impls_v = output_view(impls@);
        out.push(OutputItem::RecordDecl(record));
        out.append(&mut impls);
        proof {
            assert(output_view(out@) =~= seq![OutputItemV::RecordDecl(record_v)] + impls_v);
        }
        Ok(out)
    } else {
        let ghost record_v = record@;
        out.push(OutputItem::RecordDecl(record));
        proof {
            assert(output_view(out@) =~= seq![OutputItemV::RecordDecl(record_v)]);
        }
        Ok(out)
    }
}

} // verus!
