//! The configuration resolver: one left-to-right scan over a union
//! declaration's metadata entries, recording the first `prefix`, `suffix` and
//! `no_impl` declaration each and rejecting any repeated declaration of the
//! same key. Unrecognized keys are ignored.

use vstd::prelude::*;

use crate::errors::{CfgKey, ErrKind, GenError};
use crate::grammar::{parse_ident_arg, spec_parse_ident_arg};
use crate::tokens::{Ident, IdentV, SrcSpan};
use crate::tree::{attrs_view, has_path_key, is_key, Attr, AttrV};

verus! {

/// The resolved per-union configuration: at most one prefix, one suffix and
/// one suppression flag, each remembered together with the position of the
/// attribute that declared it.
#[derive(Debug)]
pub struct Config {
    pub prefix: Option<(SrcSpan, Ident)>,
    pub suffix: Option<(SrcSpan, Ident)>,
    pub no_impl: Option<SrcSpan>,
}

/// Mathematical value of a [`Config`].
pub struct ConfigV {
    pub prefix: Option<(SrcSpan, IdentV)>,
    pub suffix: Option<(SrcSpan, IdentV)>,
    pub no_impl: Option<SrcSpan>,
}

impl View for Config {
    type V = ConfigV;

    open spec fn view(&self) -> ConfigV {
        ConfigV {
            prefix: match self.prefix {
                Option::Some((s, i)) => Option::Some((s, i@)),
                Option::None => Option::None,
            },
            suffix: match self.suffix {
                Option::Some((s, i)) => Option::Some((s, i@)),
                Option::None => Option::None,
            },
            no_impl: self.no_impl,
        }
    }
}

/// The configuration with nothing declared.
pub open spec fn empty_config() -> ConfigV {
    ConfigV { prefix: Option::None, suffix: Option::None, no_impl: Option::None }
}

/// Records a `prefix` declaration: a second declaration is a duplicate error
/// naming both positions; otherwise the argument is parsed and remembered
/// with the attribute's position.
pub open spec fn spec_fill_prefix(cfg: ConfigV, a: AttrV) -> Result<ConfigV, GenError> {
    match cfg.prefix {
        Option::Some(p) => Err(
            GenError {
                kind: ErrKind::Duplicate(CfgKey::Prefix),
                span: a.span,
                related: Option::Some(p.0),
            },
        ),
        Option::None => match spec_parse_ident_arg(CfgKey::Prefix, a) {
            Ok(id) => Ok(
                ConfigV {
                    prefix: Option::Some((a.span, id)),
                    suffix: cfg.suffix,
                    no_impl: cfg.no_impl,
                },
            ),
            Err(e) => Err(e),
        },
    }
}

/// Records a `suffix` declaration, as [`spec_fill_prefix`] does for `prefix`.
pub open spec fn spec_fill_suffix(cfg: ConfigV, a: AttrV) -> Result<ConfigV, GenError> {
    match cfg.suffix {
        Option::Some(p) => Err(
            GenError {
                kind: ErrKind::Duplicate(CfgKey::Suffix),
                span: a.span,
                related: Option::Some(p.0),
            },
        ),
        Option::None => match spec_parse_ident_arg(CfgKey::Suffix, a) {
            Ok(id) => Ok(
                ConfigV {
                    prefix: cfg.prefix,
                    suffix: Option::Some((a.span, id)),
                    no_impl: cfg.no_impl,
                },
            ),
            Err(e) => Err(e),
        },
    }
}

/// Records a `no_impl` declaration; its arguments, if any, are not examined.
pub open spec fn spec_fill_no_impl(cfg: ConfigV, a: AttrV) -> Result<ConfigV, GenError> {
    match cfg.no_impl {
        Option::Some(s) => Err(
            GenError {
                kind: ErrKind::Duplicate(CfgKey::NoImpl),
                span: a.span,
                related: Option::Some(s),
            },
        ),
        Option::None => Ok(
            ConfigV { prefix: cfg.prefix, suffix: cfg.suffix, no_impl: Option::Some(a.span) },
        ),
    }
}

impl Config {
    /// The configuration with nothing declared.
    pub fn empty() -> (r: Config)
        ensures
            r@ == empty_config(),
    {
        Config { prefix: Option::None, suffix: Option::None, no_impl: Option::None }
    }

    /// Records a `prefix` declaration, rejecting a second one.
    pub fn fill_prefix(&mut self, a: &Attr) -> (r: Result<(), GenError>)
        ensures
            match r {
                Ok(_) => spec_fill_prefix(old(self)@, a@) == Ok::<ConfigV, GenError>(final(self)@),
                Err(e) => spec_fill_prefix(old(self)@, a@) == Err::<ConfigV, GenError>(e) && final(self)@ == old(self)@,
            },
    {
        match &self.prefix {
            Option::Some(p) => Err(
                GenError {
                    kind: ErrKind::Duplicate(CfgKey::Prefix),
                    span: a.span,
                    related: Option::Some(p.0),
                },
            ),
            Option::None => match parse_ident_arg(CfgKey::Prefix, a) {
                Ok(id) => {
                    self.prefix = Option::Some((a.span, id));
                    Ok(())
                },
                Err(e) => Err(e),
            },
        }
    }

    /// Records a `suffix` declaration, rejecting a second one.
    pub fn fill_suffix(&mut self, a: &Attr) -> (r: Result<(), GenError>)
        ensures
            match r {
                Ok(_) => spec_fill_suffix(old(self)@, a@) == Ok::<ConfigV, GenError>(final(self)@),
                Err(e) => spec_fill_suffix(old(self)@, a@) == Err::<ConfigV, GenError>(e) && final(self)@ == old(self)@,
            },
    {
        match &self.suffix {
            Option::Some(p) => Err(
                GenError {
                    kind: ErrKind::Duplicate(CfgKey::Suffix),
                    span: a.span,
                    related: Option::Some(p.0),
                },
            ),
            Option::None => match parse_ident_arg(CfgKey::Suffix, a) {
                Ok(id) => {
                    self.suffix = Option::Some((a.span, id));
                    Ok(())
                },
                Err(e) => Err(e),
            },
        }
    }

    /// Records a `no_impl` declaration, rejecting a second one.
    pub fn fill_no_impl(&mut self, a: &Attr) -> (r: Result<(), GenError>)
        ensures
            match r {
                Ok(_) => spec_fill_no_impl(old(self)@, a@) == Ok::<ConfigV, GenError>(final(self)@),
                Err(e) => spec_fill_no_impl(old(self)@, a@) == Err::<ConfigV, GenError>(e) && final(self)@ == old(self)@,
            },
    {
        match &self.no_impl {
            Option::Some(s) => Err(
                GenError {
                    kind: ErrKind::Duplicate(CfgKey::NoImpl),
                    span: a.span,
                    related: Option::Some(*s),
                },
            ),
            Option::None => {
                self.no_impl = Option::Some(a.span);
                Ok(())
            },
        }
    }
}

/// One step of the resolver's scan: classify the attribute at `i` by its key,
/// record it or fail, and go on. Attributes whose key is not a single
/// recognized identifier are passed over.
pub open spec fn spec_resolve_from(attrs: Seq<AttrV>, i: int, cfg: ConfigV) -> Result<
    ConfigV,
    GenError,
>
    decreases attrs.len() - i,
{
    if !(0 <= i < attrs.len()) {
        Ok(cfg)
    } else {
        let a = attrs[i];
        if is_key(a, "prefix"@) {
            match spec_fill_prefix(cfg, a) {
                Ok(c) => spec_resolve_from(attrs, i + 1, c),
                Err(e) => Err(e),
            }
        } else if is_key(a, "suffix"@) {
            match spec_fill_suffix(cfg, a) {
                Ok(c) => spec_resolve_from(attrs, i + 1, c),
                Err(e) => Err(e),
            }
        } else if is_key(a, "no_impl"@) {
            match spec_fill_no_impl(cfg, a) {
                Ok(c) => spec_resolve_from(attrs, i + 1, c),
                Err(e) => Err(e),
            }
        } else {
            spec_resolve_from(attrs, i + 1, cfg)
        }
    }
}

/// The whole resolution of a union's metadata entries.
pub open spec fn spec_resolve_config(attrs: Seq<AttrV>) -> Result<ConfigV, GenError> {
    spec_resolve_from(attrs, 0, empty_config())
}

/// Scans a union declaration's metadata entries once, left to right, and
/// assembles the resolved configuration; the second declaration of any one of
/// the three recognized keys is a duplicate error naming both positions.
pub fn resolve_config(attrs: &Vec<Attr>) -> (r: Result<Config, GenError>)
    ensures
        match r {
            Ok(cfg) => spec_resolve_config(attrs_view(attrs@)) == Ok::<ConfigV, GenError>(cfg@),
            Err(e) => spec_resolve_config(attrs_view(attrs@)) == Err::<ConfigV, GenError>(e),
        },
{
    let mut cfg = Config::empty();
    let mut i: usize = 0;
    while i < attrs.len()
        invariant
            i <= attrs@.len(),
            spec_resolve_config(attrs_view(attrs@)) == spec_resolve_from(
                attrs_view(attrs@),
                i as int,
                cfg@,
            ),
        decreases attrs@.len() - i,
    {
        let a = &attrs[i];
        proof {
            assert(attrs_view(attrs@)[i as int] == attrs@[i as int]@);
        }
        if has_path_key(a, "prefix") {
            match cfg.fill_prefix(a) {
                Ok(_) => (),
                Err(e) => {
                    return Err(e);
                },
            }
        } else if has_path_key(a, "suffix") {
            match cfg.fill_suffix(a) {
                Ok(_) => (),
                Err(e) => {
                    return Err(e);
                },
            }
        } else if has_path_key(a, "no_impl") {
            match cfg.fill_no_impl(a) {
                Ok(_) => (),
                Err(e) => {
                    return Err(e);
                },
            }
        }
        i += 1;
    }
    Ok(cfg)
}

proof fn lemma_resolve_err_after_prefix(attrs: Seq<AttrV>, k: int, cfg: ConfigV, j: int)
    requires
        0 <= k <= j < attrs.len(),
        is_key(attrs[j], "prefix"@),
        cfg.prefix is Some,
    ensures
        spec_resolve_from(attrs, k, cfg) is Err,
    decreases j - k,
{
    let a = attrs[k];
    if k == j {
    } else {
        if is_key(a, "prefix"@) {
        } else if is_key(a, "suffix"@) {
            match spec_fill_suffix(cfg, a) {
                Ok(c) => {
                    assert(c.prefix == cfg.prefix);
                    lemma_resolve_err_after_prefix(attrs, k + 1, c, j);
                },
                Err(_) => {},
            }
        } else if is_key(a, "no_impl"@) {
            match spec_fill_no_impl(cfg, a) {
                Ok(c) => {
                    assert(c.prefix == cfg.prefix);
                    lemma_resolve_err_after_prefix(attrs, k + 1, c, j);
                },
                Err(_) => {},
            }
        } else {
            lemma_resolve_err_after_prefix(attrs, k + 1, cfg, j);
        }
    }
}

proof fn lemma_duplicate_prefix_from(attrs: Seq<AttrV>, k: int, cfg: ConfigV, i: int, j: int)
    requires
        0 <= k <= i < j < attrs.len(),
        is_key(attrs[i], "prefix"@),
        is_key(attrs[j], "prefix"@),
        cfg.prefix is None,
    ensures
        spec_resolve_from(attrs, k, cfg) is Err,
    decreases i - k,
{
    let a = attrs[k];
    if is_key(a, "prefix"@) {
        match spec_fill_prefix(cfg, a) {
            Ok(c) => {
                assert(c.prefix is Some);
                lemma_resolve_err_after_prefix(attrs, k + 1, c, j);
            },
            Err(_) => {},
        }
    } else if is_key(a, "suffix"@) {
        match spec_fill_suffix(cfg, a) {
            Ok(c) => {
                assert(c.prefix == cfg.prefix);
                lemma_duplicate_prefix_from(attrs, k + 1, c, i, j);
            },
            Err(_) => {},
        }
    } else if is_key(a, "no_impl"@) {
        match spec_fill_no_impl(cfg, a) {
            Ok(c) => {
                assert(c.prefix == cfg.prefix);
                lemma_duplicate_prefix_from(attrs, k + 1, c, i, j);
            },
            Err(_) => {},
        }
    } else {
        lemma_duplicate_prefix_from(attrs, k + 1, cfg, i, j);
    }
}

/// Duplicate detection, rejecting half: a scope declaring `prefix` twice —
/// in any combination of positions — never resolves; the pass is aborted
/// with an error.
pub proof fn lemma_duplicate_prefix_rejected(attrs: Seq<AttrV>, i: int, j: int)
    requires
        0 <= i < j < attrs.len(),
        is_key(attrs[i], "prefix"@),
        is_key(attrs[j], "prefix"@),
    ensures
        spec_resolve_config(attrs) is Err,
{
    lemma_duplicate_prefix_from(attrs, 0, empty_config(), i, j);
}

proof fn lemma_resolve_skips(attrs: Seq<AttrV>, k: int, cfg: ConfigV)
    requires
        0 <= k <= attrs.len(),
        forall|j: int|
            k <= j < attrs.len() ==> !is_key(#[trigger] attrs[j], "prefix"@) && !is_key(
                attrs[j],
                "suffix"@,
            ) && !is_key(attrs[j], "no_impl"@),
    ensures
        spec_resolve_from(attrs, k, cfg) == Ok::<ConfigV, GenError>(cfg),
    decreases attrs.len() - k,
{
    if k < attrs.len() {
        lemma_resolve_skips(attrs, k + 1, cfg);
    }
}

/// Duplicate detection, accepting half: one well-formed `prefix` declaration
/// alone — no other naming or suppression declaration anywhere in the scope
/// — resolves to the configuration holding exactly that prefix.
pub proof fn lemma_single_prefix_accepted(attrs: Seq<AttrV>, i: int, id: IdentV)
    requires
        0 <= i < attrs.len(),
        is_key(attrs[i], "prefix"@),
        spec_parse_ident_arg(CfgKey::Prefix, attrs[i]) == Ok::<IdentV, GenError>(id),
        forall|j: int|
            0 <= j < attrs.len() && j != i ==> !is_key(#[trigger] attrs[j], "prefix"@) && !is_key(
                attrs[j],
                "suffix"@,
            ) && !is_key(attrs[j], "no_impl"@),
    ensures
        spec_resolve_config(attrs) == Ok::<ConfigV, GenError>(
            ConfigV {
                prefix: Option::Some((attrs[i].span, id)),
                suffix: Option::None,
                no_impl: Option::None,
            },
        ),
{
    lemma_single_prefix_from(attrs, 0, i, id);
}

proof fn lemma_single_prefix_from(attrs: Seq<AttrV>, k: int, i: int, id: IdentV)
    requires
        0 <= k <= i < attrs.len(),
        is_key(attrs[i], "prefix"@),
        spec_parse_ident_arg(CfgKey::Prefix, attrs[i]) == Ok::<IdentV, GenError>(id),
        forall|j: int|
            k <= j < attrs.len() && j != i ==> !is_key(#[trigger] attrs[j], "prefix"@) && !is_key(
                attrs[j],
                "suffix"@,
            ) && !is_key(attrs[j], "no_impl"@),
    ensures
        spec_resolve_from(attrs, k, empty_config()) == Ok::<ConfigV, GenError>(
            ConfigV {
                prefix: Option::Some((attrs[i].span, id)),
                suffix: Option::None,
                no_impl: Option::None,
            },
        ),
    decreases i - k,
{
    if k == i {
        match spec_fill_prefix(empty_config(), attrs[i]) {
            Ok(c) => {
                lemma_resolve_skips(attrs, i + 1, c);
            },
            Err(_) => {
                assert(false);
            },
        }
    } else {
        lemma_single_prefix_from(attrs, k + 1, i, id);
    }
}

} // verus!
