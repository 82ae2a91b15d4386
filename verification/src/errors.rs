//! The engine's error taxonomy. Every error is fail-fast: it aborts the
//! whole generation pass and is surfaced as a compile diagnostic anchored at
//! the most specific source position available.

use vstd::prelude::*;

use crate::tokens::SrcSpan;

verus! {

/// The recognized configuration keys that can be declared at most once per
/// scope and whose arguments have a fixed grammar.
#[derive(Clone, Copy, PartialEq, Eq, Structural, Debug)]
pub enum CfgKey {
    Prefix,
    Suffix,
    NoImpl,
    VariantAttrs,
    VariantOf,
}

/// What went wrong.
#[derive(Clone, Copy, PartialEq, Eq, Structural, Debug)]
pub enum ErrKind {
    /// The union declaration carries generic parameters.
    GenericParams,
    /// The same configuration key was declared twice in one scope.
    Duplicate(CfgKey),
    /// A recognized key was given arguments of the wrong count or shape.
    MalformedArgs(CfgKey),
    /// An unrecognized parameter name inside a configuration list.
    InvalidParameter,
    /// A configuration list that is not a parenthesized group.
    MalformedConfigList,
    /// A record was declared as a manual variant without the required link
    /// attribute.
    MissingVariantOf,
}

/// A generation error: what went wrong, where, and (for duplicates) where the
/// first of the two clashing declarations stood.
#[derive(Clone, Copy, PartialEq, Eq, Debug)]
pub struct GenError {
    pub kind: ErrKind,
    /// The offending position: the duplicate occurrence, the malformed token,
    /// or the rejected declaration.
    pub span: SrcSpan,
    /// For duplicate declarations, the position of the first occurrence.
    pub related: Option<SrcSpan>,
}

/// The user-facing description of each error kind.
pub open spec fn spec_message(k: ErrKind) -> Seq<char> {
    match k {
        ErrKind::GenericParams => "`extract_variant` does not support generic parameters"@,
        ErrKind::Duplicate(CfgKey::Prefix) => "duplicate #[prefix] attribute"@,
        ErrKind::Duplicate(CfgKey::Suffix) => "duplicate #[suffix] attribute"@,
        ErrKind::Duplicate(CfgKey::NoImpl) => "duplicate #[no_impl] attribute"@,
        ErrKind::Duplicate(CfgKey::VariantAttrs) => "duplicate #[variant_attrs] attribute"@,
        ErrKind::Duplicate(CfgKey::VariantOf) => "duplicate #[variant_of] attribute"@,
        ErrKind::MalformedArgs(CfgKey::Prefix) => "expected exactly one identifier argument"@,
        ErrKind::MalformedArgs(CfgKey::Suffix) => "expected exactly one identifier argument"@,
        ErrKind::MalformedArgs(CfgKey::NoImpl) => "expected no arguments"@,
        ErrKind::MalformedArgs(CfgKey::VariantAttrs) => "expected a parenthesized attribute list"@,
        ErrKind::MalformedArgs(
            CfgKey::VariantOf,
        ) => "expected a path, optionally followed by a comma and a variant name"@,
        ErrKind::InvalidParameter => "invalid parameter name"@,
        ErrKind::MalformedConfigList => "expected a parenthesized configuration list"@,
        ErrKind::MissingVariantOf => "Variant require #[variant_of] attribute"@,
    }
}

impl GenError {
    /// Renders the error's description, self-contained enough to act on.
    pub fn message(&self) -> (r: &'static str)
        ensures
            r@ == spec_message(self.kind),
    {
        match self.kind {
            ErrKind::GenericParams => "`extract_variant` does not support generic parameters",
            ErrKind::Duplicate(CfgKey::Prefix) => "duplicate #[prefix] attribute",
            ErrKind::Duplicate(CfgKey::Suffix) => "duplicate #[suffix] attribute",
            ErrKind::Duplicate(CfgKey::NoImpl) => "duplicate #[no_impl] attribute",
            ErrKind::Duplicate(CfgKey::VariantAttrs) => "duplicate #[variant_attrs] attribute",
            ErrKind::Duplicate(CfgKey::VariantOf) => "duplicate #[variant_of] attribute",
            ErrKind::MalformedArgs(CfgKey::Prefix) => "expected exactly one identifier argument",
            ErrKind::MalformedArgs(CfgKey::Suffix) => "expected exactly one identifier argument",
            ErrKind::MalformedArgs(CfgKey::NoImpl) => "expected no arguments",
            ErrKind::MalformedArgs(CfgKey::VariantAttrs) => "expected a parenthesized attribute list",
            ErrKind::MalformedArgs(
                CfgKey::VariantOf,
            ) => "expected a path, optionally followed by a comma and a variant name",
            ErrKind::InvalidParameter => "invalid parameter name",
            ErrKind::MalformedConfigList => "expected a parenthesized configuration list",
            ErrKind::MissingVariantOf => "Variant require #[variant_of] attribute",
        }
    }
}

} // verus!
