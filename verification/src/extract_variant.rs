//! The derive-from-union entry point: given a whole union declaration, emit
//! one record per non-excluded alternative, each followed — unless suppressed
//! — by its conversion pair and marker, all in declaration order.

use vstd::prelude::*;

use crate::config::{resolve_config, spec_resolve_config, Config, ConfigV};
use crate::errors::{ErrKind, GenError};
use crate::generate::{generate_code, spec_find_key, spec_generate_code, find_key};
use crate::names::{opt_ref_ident_view, spec_synthesize, synthesize};
use crate::output::{lemma_output_view_add, output_view, OutputItem, OutputItemV};
use crate::tokens::{Ident, IdentV};
use crate::tree::{
    is_key, opt_ident_view, variants_view, wf_enum, wf_variant, AttrV, EnumDef, EnumDefV, Path,
    PathV, VariantDef, VariantDefV,
};

verus! {

/// Whether an alternative is marked `exclude`: such an alternative is skipped
/// entirely, while staying part of the re-emitted union.
pub open spec fn spec_excluded(v: VariantDefV) -> bool {
    exists|j: int| 0 <= j < v.attrs.len() && is_key(#[trigger] v.attrs[j], "exclude"@)
}

/// A found key is a witness, and an exhausted search a refutation, of the
/// existence of an attribute with that key.
pub proof fn lemma_find_key_exists(attrs: Seq<AttrV>, k: Seq<char>, i: int)
    requires
        0 <= i <= attrs.len(),
    ensures
        (spec_find_key(attrs, k, i) is Some) <==> (exists|j: int|
            i <= j < attrs.len() && is_key(#[trigger] attrs[j], k)),
    decreases attrs.len() - i,
{
    if i < attrs.len() {
        if is_key(attrs[i], k) {
        } else {
            lemma_find_key_exists(attrs, k, i + 1);
        }
    }
}

/// Tests whether an alternative is marked `exclude`.
pub fn excluded(v: &VariantDef) -> (r: bool)
    ensures
        r == spec_excluded(v@),
{
    let found = find_key(&v.attrs, "exclude", 0);
    proof {
        lemma_find_key_exists(v@.attrs, "exclude"@, 0);
    }
    found.is_some()
}

/// The prefix identifier a configuration declares, if any.
pub open spec fn spec_cfg_prefix_ident(cfg: ConfigV) -> Option<IdentV> {
    match cfg.prefix {
        Option::Some(p) => Option::Some(p.1),
        Option::None => Option::None,
    }
}

/// The suffix identifier a configuration declares, if any.
pub open spec fn spec_cfg_suffix_ident(cfg: ConfigV) -> Option<IdentV> {
    match cfg.suffix {
        Option::Some(p) => Option::Some(p.1),
        Option::None => Option::None,
    }
}

/// The name a configuration gives one alternative's record: none at all when
/// no prefix or suffix was declared — the alternative's own identifier is
/// then reused verbatim — and the synthesized identifier otherwise.
pub open spec fn spec_struct_name(cfg: ConfigV, v: VariantDefV) -> Option<IdentV> {
    if cfg.prefix is None && cfg.suffix is None {
        Option::None
    } else {
        Option::Some(
            spec_synthesize(spec_cfg_prefix_ident(cfg), v.ident, spec_cfg_suffix_ident(cfg)),
        )
    }
}

/// Builds the configured record name for one alternative.
pub fn struct_name(cfg: &Config, v: &VariantDef) -> (r: Option<Ident>)
    ensures
        opt_ident_view(r) == spec_struct_name(cfg@, v@),
{
    let customized = cfg.prefix.is_some() || cfg.suffix.is_some();
    if !customized {
        Option::None
    } else {
        let p: Option<&Ident> = match &cfg.prefix {
            Option::Some(pr) => Option::Some(&pr.1),
            Option::None => Option::None,
        };
        let s: Option<&Ident> = match &cfg.suffix {
            Option::Some(su) => Option::Some(&su.1),
            Option::None => Option::None,
        };
        let id = synthesize(p, &v.ident, s);
        proof {
            assert(opt_ref_ident_view(p) == spec_cfg_prefix_ident(cfg@));
            assert(opt_ref_ident_view(s) == spec_cfg_suffix_ident(cfg@));
        }
        Option::Some(id)
    }
}

/// Everything the pass emits for the alternatives from position `i` on:
/// excluded alternatives contribute nothing, every other alternative its
/// record and conversion block, and the first failure aborts the whole pass.
pub open spec fn spec_items_from(e: EnumDefV, cfg: ConfigV, enum_path: PathV, i: int) -> Result<
    Seq<OutputItemV>,
    GenError,
>
    decreases e.variants.len() - i,
{
    if !(0 <= i < e.variants.len()) {
        Ok(Seq::empty())
    } else {
        let v = e.variants[i];
        if spec_excluded(v) {
            spec_items_from(e, cfg, enum_path, i + 1)
        } else {
            match spec_generate_code(e, v, spec_struct_name(cfg, v), cfg.no_impl is Some, enum_path) {
                Err(er) => Err(er),
                Ok(items) => match spec_items_from(e, cfg, enum_path, i + 1) {
                    Err(er) => Err(er),
                    Ok(rest) => Ok(items + rest),
                },
            }
        }
    }
}

/// The whole derive-from-union pass: a union with generic parameters is
/// rejected outright; then the configuration is resolved, and every
/// non-excluded alternative processed in declaration order.
pub open spec fn spec_doit(e: EnumDefV) -> Result<Seq<OutputItemV>, GenError> {
    match e.generics_lt {
        Option::Some(s) => Err(
            GenError { kind: ErrKind::GenericParams, span: s, related: Option::None },
        ),
        Option::None => match spec_resolve_config(e.attrs) {
            Err(er) => Err(er),
            Ok(cfg) => spec_items_from(e, cfg, PathV { segments: seq![e.ident] }, 0),
        },
    }
}

fn items_from(e: &EnumDef, cfg: &Config, enum_path: &Path, i: usize) -> (r: Result<
    Vec<OutputItem>,
    GenError,
>)
    requires
        wf_enum(e@),
        i <= e.variants@.len(),
    ensures
        match r {
            Ok(items) => spec_items_from(e@, cfg@, enum_path@, i as int) == Ok::<_, GenError>(
                output_view(items@),
            ),
            Err(er) => spec_items_from(e@, cfg@, enum_path@, i as int) == Err::<
                Seq<OutputItemV>,
                GenError,
            >(er),
        },
    decreases e.variants@.len() - i,
{
    if !(i < e.variants.len()) {
        let r: Vec<OutputItem> = Vec::new();
        proof {
            assert(output_view(r@) =~= Seq::<OutputItemV>::empty());
        }
        Ok(r)
    } else {
        let v = &e.variants[i];
        proof {
            assert(variants_view(e.variants@)[i as int] == e.variants@[i as int]@);
            assert(wf_variant(e@.variants[i as int]));
        }
        if excluded(v) {
            items_from(e, cfg, enum_path, i + 1)
        } else {
            let name = struct_name(cfg, v);
            let no_impl = cfg.no_impl.is_some();
            let mut items = match generate_code(e, v, name, no_impl, enum_path) {
                Ok(it) => it,
                Err(er) => {
                    return Err(er);
                },
            };
            match items_from(e, cfg, enum_path, i + 1) {
                Err(er) => Err(er),
                Ok(rest) => {
                    let ghost items_v = items@;
                    let ghost rest_v = rest@;
                    let mut rest = rest;
                    items.append(&mut rest);
                    proof {
                        lemma_output_view_add(items_v, rest_v);
                    }
                    Ok(items)
                },
            }
        }
    }
}

/// Runs the derive-from-union pass over a whole union declaration.
pub fn doit(e: &EnumDef) -> (r: Result<Vec<OutputItem>, GenError>)
    requires
        wf_enum(e@),
    ensures
        match r {
            Ok(items) => spec_doit(e@) == Ok::<_, GenError>(output_view(items@)),
            Err(er) => spec_doit(e@) == Err::<Seq<OutputItemV>, GenError>(er),
        },
{
    match &e.generics_lt {
        Option::Some(s) => Err(
            GenError { kind: ErrKind::GenericParams, span: *s, related: Option::None },
        ),
        Option::None => {
            let cfg = match resolve_config(&e.attrs) {
                Ok(c) => c,
                Err(er) => {
                    return Err(er);
                },
            };
            let enum_path = Path::from_ident(e.ident.clone());
            proof {
                assert(enum_path@.segments =~= seq![e@.ident]);
                assert(enum_path@ == PathV { segments: seq![e@.ident] });
            }
            items_from(e, &cfg, &enum_path, 0)
        },
    }
}

/// Whether an output item is the record declaration owed to the alternative
/// `v`: mirrored, fully accessible fields, the union's visibility, and the
/// configured name.
pub open spec fn is_record_for(item: OutputItemV, e: EnumDefV, cfg: ConfigV, v: VariantDefV) -> bool {
    match item {
        OutputItemV::RecordDecl(rec) => crate::generate::same_shape_public(rec.fields, v.fields)
            && rec.vis == e.vis && rec.ident == (match spec_struct_name(cfg, v) {
            Option::Some(nm) => nm,
            Option::None => v.ident,
        }),
        _ => false,
    }
}

/// Every alternative not marked `exclude` has, among the emitted
/// declarations, a record whose field shape and field types are structurally
/// identical to the alternative's, in the same order, with every field
/// externally accessible, under the configured name and the union's
/// visibility.
pub proof fn lemma_record_for_each_alternative(
    e: EnumDefV,
    cfg: ConfigV,
    enum_path: PathV,
    i: int,
    out: Seq<OutputItemV>,
    k: int,
)
    requires
        spec_items_from(e, cfg, enum_path, i) == Ok::<Seq<OutputItemV>, GenError>(out),
        0 <= i <= k < e.variants.len(),
        !spec_excluded(e.variants[k]),
    ensures
        exists|n: int| 0 <= n < out.len() && is_record_for(#[trigger] out[n], e, cfg, e.variants[k]),
    decreases k - i,
{
    let v = e.variants[i];
    if spec_excluded(v) {
        lemma_record_for_each_alternative(e, cfg, enum_path, i + 1, out, k);
    } else {
        let code = crate::generate::spec_generate_code(
            e,
            v,
            spec_struct_name(cfg, v),
            cfg.no_impl is Some,
            enum_path,
        );
        match code {
            Ok(items) => match spec_items_from(e, cfg, enum_path, i + 1) {
                Ok(rest) => {
                    assert(out == items + rest);
                    match crate::generate::spec_variant_extra_attrs(v.attrs) {
                        Ok(extra) => {
                            let record = crate::generate::spec_full_record(
                                e,
                                v,
                                spec_struct_name(cfg, v),
                                extra,
                            );
                            assert(items[0] == OutputItemV::RecordDecl(record));
                            if i == k {
                                crate::generate::lemma_publicize_shape(v.fields);
                                assert(out[0] == OutputItemV::RecordDecl(record));
                                assert(is_record_for(out[0], e, cfg, e.variants[k]));
                            } else {
                                lemma_record_for_each_alternative(e, cfg, enum_path, i + 1, rest, k);
                                let n = choose|n: int|
                                    0 <= n < rest.len() && is_record_for(
                                        #[trigger] rest[n],
                                        e,
                                        cfg,
                                        e.variants[k],
                                    );
                                assert(out[items.len() + n] == rest[n]);
                                assert(is_record_for(out[items.len() + n], e, cfg, e.variants[k]));
                            }
                        },
                        Err(_) => {
                            assert(false);
                        },
                    }
                },
                Err(_) => {
                    assert(false);
                },
            },
            Err(_) => {
                assert(false);
            },
        }
    }
}

/// Suppression: with `no_impl` declared, every emitted declaration is a
/// record declaration — no conversion and no marker is emitted for any
/// alternative.
pub proof fn lemma_no_impl_suppresses(
    e: EnumDefV,
    cfg: ConfigV,
    enum_path: PathV,
    i: int,
    out: Seq<OutputItemV>,
)
    requires
        spec_items_from(e, cfg, enum_path, i) == Ok::<Seq<OutputItemV>, GenError>(out),
        cfg.no_impl is Some,
    ensures
        forall|n: int| 0 <= n < out.len() ==> #[trigger] out[n] is RecordDecl,
    decreases e.variants.len() - i,
{
    if !(0 <= i < e.variants.len()) {
    } else {
        let v = e.variants[i];
        if spec_excluded(v) {
            lemma_no_impl_suppresses(e, cfg, enum_path, i + 1, out);
        } else {
            let code = crate::generate::spec_generate_code(
                e,
                v,
                spec_struct_name(cfg, v),
                cfg.no_impl is Some,
                enum_path,
            );
            match code {
                Ok(items) => match spec_items_from(e, cfg, enum_path, i + 1) {
                    Ok(rest) => {
                        assert(out == items + rest);
                        lemma_no_impl_suppresses(e, cfg, enum_path, i + 1, rest);
                        assert forall|n: int| 0 <= n < out.len() implies #[trigger] out[n]
                            is RecordDecl by {
                            if n < items.len() {
                                assert(out[n] == items[n]);
                            } else {
                                assert(out[n] == rest[n - items.len()]);
                            }
                        }
                    },
                    Err(_) => {
                        assert(false);
                    },
                },
                Err(_) => {
                    assert(false);
                },
            }
        }
    }
}

/// The record name the configuration gives an alternative, whether or not
/// any customization was declared.
pub open spec fn spec_record_name(cfg: ConfigV, v: VariantDefV) -> IdentV {
    spec_synthesize(spec_cfg_prefix_ident(cfg), v.ident, spec_cfg_suffix_ident(cfg))
}

/// Whether an output item belongs to the alternative `v`: its record
/// declaration, one of its two conversions, or its marker.
pub open spec fn concerns_alternative(item: OutputItemV, cfg: ConfigV, v: VariantDefV) -> bool {
    match item {
        OutputItemV::RecordDecl(rec) => rec.ident.text == spec_record_name(cfg, v).text,
        OutputItemV::FromImplDecl(c) => c.variant.text == v.ident.text || (c.record.segments.len()
            == 1 && c.record.segments[0].text == spec_record_name(cfg, v).text),
        OutputItemV::TryFromImplDecl(c) => c.variant.text == v.ident.text || (
        c.record.segments.len() == 1 && c.record.segments[0].text == spec_record_name(cfg, v).text),
        OutputItemV::MarkerImplDecl(m) => m.record.segments.len() == 1 && m.record.segments[0].text
            == spec_record_name(cfg, v).text,
    }
}

/// All alternatives of a union carry distinct names.
pub open spec fn distinct_variant_names(e: EnumDefV) -> bool {
    forall|a: int, b: int|
        0 <= a < b < e.variants.len() ==> (#[trigger] e.variants[a].ident).text != (
        #[trigger] e.variants[b].ident).text
}

/// Exclusion: for an alternative marked `exclude`, nothing is emitted — no
/// record under its configured name, no conversion naming it, and no marker
/// for its record.
pub proof fn lemma_excluded_leaves_nothing(
    e: EnumDefV,
    cfg: ConfigV,
    enum_path: PathV,
    i: int,
    out: Seq<OutputItemV>,
    k: int,
)
    requires
        spec_items_from(e, cfg, enum_path, i) == Ok::<Seq<OutputItemV>, GenError>(out),
        0 <= i <= e.variants.len(),
        0 <= k < e.variants.len(),
        spec_excluded(e.variants[k]),
        distinct_variant_names(e),
    ensures
        forall|n: int|
            0 <= n < out.len() ==> !concerns_alternative(#[trigger] out[n], cfg, e.variants[k]),
    decreases e.variants.len() - i,
{
    if !(0 <= i < e.variants.len()) {
    } else {
        let v = e.variants[i];
        if spec_excluded(v) {
            lemma_excluded_leaves_nothing(e, cfg, enum_path, i + 1, out, k);
        } else {
            let code = crate::generate::spec_generate_code(
                e,
                v,
                spec_struct_name(cfg, v),
                cfg.no_impl is Some,
                enum_path,
            );
            match code {
                Ok(items) => match spec_items_from(e, cfg, enum_path, i + 1) {
                    Ok(rest) => {
                        assert(out == items + rest);
                        lemma_excluded_leaves_nothing(e, cfg, enum_path, i + 1, rest, k);
                        // `v` is not `e.variants[k]`: one is excluded, the other not.
                        assert(i != k);
                        assert(v.ident.text != e.variants[k].ident.text);
                        // The record emitted for `v` carries `v`'s configured
                        // name, which differs from `k`'s by injectivity of
                        // synthesis under one fixed prefix and suffix.
                        let name_v = spec_record_name(cfg, v);
                        let name_k = spec_record_name(cfg, e.variants[k]);
                        if name_v.text == name_k.text {
                            crate::names::lemma_synthesize_injective(
                                spec_cfg_prefix_ident(cfg),
                                v.ident,
                                e.variants[k].ident,
                                spec_cfg_suffix_ident(cfg),
                            );
                            assert(false);
                        }
                        match crate::generate::spec_variant_extra_attrs(v.attrs) {
                            Ok(extra) => {
                                let record = crate::generate::spec_full_record(
                                    e,
                                    v,
                                    spec_struct_name(cfg, v),
                                    extra,
                                );
                                assert(record.ident == (match spec_struct_name(cfg, v) {
                                    Option::Some(nm) => nm,
                                    Option::None => v.ident,
                                }));
                                assert(record.ident.text == name_v.text);
                                assert forall|n: int| 0 <= n < out.len() implies !concerns_alternative(
                                    #[trigger] out[n],
                                    cfg,
                                    e.variants[k],
                                ) by {
                                    if n < items.len() {
                                        assert(out[n] == items[n]);
                                        assert(items[0] == OutputItemV::RecordDecl(record));
                                    } else {
                                        assert(out[n] == rest[n - items.len()]);
                                    }
                                }
                            },
                            Err(_) => {
                                assert(false);
                            },
                        }
                    },
                    Err(_) => {
                        assert(false);
                    },
                },
                Err(_) => {
                    assert(false);
                },
            }
        }
    }
}

/// The record-existence law at the entry point: whenever the pass succeeds,
/// every alternative not marked `exclude` has its record among the emitted
/// declarations.
pub proof fn lemma_doit_record_for_each_alternative(
    e: EnumDefV,
    cfg: ConfigV,
    out: Seq<OutputItemV>,
    k: int,
)
    requires
        spec_doit(e) == Ok::<Seq<OutputItemV>, GenError>(out),
        spec_resolve_config(e.attrs) == Ok::<ConfigV, GenError>(cfg),
        0 <= k < e.variants.len(),
        !spec_excluded(e.variants[k]),
    ensures
        exists|n: int| 0 <= n < out.len() && is_record_for(#[trigger] out[n], e, cfg, e.variants[k]),
{
    lemma_record_for_each_alternative(e, cfg, PathV { segments: seq![e.ident] }, 0, out, k);
}

/// The suppression law at the entry point: whenever the pass succeeds under a
/// `no_impl` declaration, nothing but record declarations is emitted.
pub proof fn lemma_doit_no_impl_suppresses(e: EnumDefV, cfg: ConfigV, out: Seq<OutputItemV>)
    requires
        spec_doit(e) == Ok::<Seq<OutputItemV>, GenError>(out),
        spec_resolve_config(e.attrs) == Ok::<ConfigV, GenError>(cfg),
        cfg.no_impl is Some,
    ensures
        forall|n: int| 0 <= n < out.len() ==> #[trigger] out[n] is RecordDecl,
{
    lemma_no_impl_suppresses(e, cfg, PathV { segments: seq![e.ident] }, 0, out);
}

/// The exclusion law at the entry point: whenever the pass succeeds, nothing
/// is emitted for an alternative marked `exclude`.
pub proof fn lemma_doit_excluded_leaves_nothing(
    e: EnumDefV,
    cfg: ConfigV,
    out: Seq<OutputItemV>,
    k: int,
)
    requires
        spec_doit(e) == Ok::<Seq<OutputItemV>, GenError>(out),
        spec_resolve_config(e.attrs) == Ok::<ConfigV, GenError>(cfg),
        0 <= k < e.variants.len(),
        spec_excluded(e.variants[k]),
        distinct_variant_names(e),
    ensures
        forall|n: int|
            0 <= n < out.len() ==> !concerns_alternative(#[trigger] out[n], cfg, e.variants[k]),
{
    lemma_excluded_leaves_nothing(e, cfg, PathV { segments: seq![e.ident] }, 0, out, k);
}

} // verus!
