//! The link-manual-record entry point: given a user-authored record
//! declaration carrying a `variant_of` link, emit the conversion pair and the
//! marker for the named union alternative — no record is generated, the
//! record already exists.

use vstd::prelude::*;

use crate::errors::{ErrKind, GenError};
use crate::generate::{find_key, impl_variant, spec_find_key, spec_impl_variant};
use crate::grammar::{spec_parse_variant_of, VariantOf};
use crate::output::{output_view, OutputItem, OutputItemV};
use crate::tree::{attrs_view, wf_struct, StructDef, StructDefV};

verus! {

/// The whole link-manual-record pass: find the record's `variant_of`
/// declaration — its absence is a terminal error at the record's own position
/// — parse the union path and the optional alternative name out of it, and
/// derive the conversion block. The alternative's name defaults to the
/// record's own identifier.
pub open spec fn spec_doit(s: StructDefV) -> Result<Seq<OutputItemV>, GenError> {
    match spec_find_key(s.attrs, "variant_of"@, 0) {
        Option::None => Err(
            GenError { kind: ErrKind::MissingVariantOf, span: s.ident.span, related: Option::None },
        ),
        Option::Some(i) => match spec_parse_variant_of(s.attrs[i]) {
            Err(e) => Err(e),
            Ok(p) => Ok(spec_impl_variant(s, p.0, p.1)),
        },
    }
}

/// Runs the link-manual-record pass over a record declaration.
pub fn doit(s: &StructDef) -> (r: Result<Vec<OutputItem>, GenError>)
    requires
        wf_struct(s@),
    ensures
        match r {
            Ok(items) => spec_doit(s@) == Ok::<_, GenError>(output_view(items@)),
            Err(er) => spec_doit(s@) == Err::<Seq<OutputItemV>, GenError>(er),
        },
{
    match find_key(&s.attrs, "variant_of", 0) {
        Option::None => Err(
            GenError { kind: ErrKind::MissingVariantOf, span: s.ident.span, related: Option::None },
        ),
        Option::Some(i) => {
            proof {
                assert(attrs_view(s.attrs@)[i as int] == s.attrs@[i as int]@);
            }
            match VariantOf::parse(&s.attrs[i]) {
                Err(e) => Err(e),
                Ok(link) => {
                    let vi = match &link.variant_ident {
                        Option::Some(id) => Option::Some(id),
                        Option::None => Option::None,
                    };
                    let items = impl_variant(s, &link.enum_path, vi);
                    Ok(items)
                },
            }
        },
    }
}

} // verus!
