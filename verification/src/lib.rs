//! Compile-time generation of standalone record types from the alternatives of
//! a tagged union, together with reversible conversions between each record and
//! the union.
//!
//! The engine works on a plain model of the host language's syntax tree: token
//! streams, attributes, enum and struct declarations. Given an enum
//! declaration it derives, for every alternative that is not excluded, a
//! record declaration mirroring the alternative's fields, and (unless
//! suppressed) a pair of conversion declarations plus a marker declaration
//! stating that the pair forms a validated bidirectional mapping.

use vstd::prelude::*;

pub mod tokens;
pub mod tree;
pub mod errors;
pub mod output;
pub mod names;
pub mod grammar;
pub mod config;
pub mod generate;
pub mod extract_variant;
pub mod variant_of;
pub mod conversions;

verus! {

/// Marker trait stating that a record type is a validated bidirectional
/// counterpart of the union type `Enum`: it can always be converted into the
/// union, and fallibly recovered from it, the failure value being the original
/// union value. The trait itself has no methods; implementing it only claims
/// that both conversions exist.
pub trait Variant<Enum>: Into<Enum> + TryFrom<Enum, Error = Enum> {
}

} // verus!
