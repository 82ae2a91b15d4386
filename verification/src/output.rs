//! Model of the declarations the engine emits: generated records, the two
//! conversion implementations, and the marker implementation.

use vstd::prelude::*;

use crate::tokens::{clone_idents, idents_view, Ident, IdentV};
use crate::tree::{Path, PathV, StructDef, StructDefV};

verus! {

/// How the fields of a record are bound when a conversion destructures or
/// rebuilds a value: not at all, positionally with the canonical `_0`, `_1`,
/// ... names, or by the declared field names.
#[derive(Debug)]
pub enum BindPattern {
    Unit,
    Positional(Vec<Ident>),
    Named(Vec<Ident>),
}

/// Mathematical value of a [`BindPattern`].
pub enum BindPatternV {
    Unit,
    Positional(Seq<IdentV>),
    Named(Seq<IdentV>),
}

impl View for BindPattern {
    type V = BindPatternV;

    open spec fn view(&self) -> BindPatternV {
        match self {
            BindPattern::Unit => BindPatternV::Unit,
            BindPattern::Positional(ids) => BindPatternV::Positional(idents_view(ids@)),
            BindPattern::Named(ids) => BindPatternV::Named(idents_view(ids@)),
        }
    }
}

impl Clone for BindPattern {
    fn clone(&self) -> (r: Self)
        ensures
            r@ == self@,
    {
        match self {
            BindPattern::Unit => BindPattern::Unit,
            BindPattern::Positional(ids) => BindPattern::Positional(clone_idents(ids)),
            BindPattern::Named(ids) => BindPattern::Named(clone_idents(ids)),
        }
    }
}

/// The signature of one derived conversion: which record, which union, which
/// alternative, and how the fields are bound in the conversion's body.
#[derive(Debug)]
pub struct ConvSig {
    pub record: Path,
    pub enum_path: Path,
    pub variant: Ident,
    pub binding: BindPattern,
}

/// Mathematical value of a [`ConvSig`].
pub struct ConvSigV {
    pub record: PathV,
    pub enum_path: PathV,
    pub variant: IdentV,
    pub binding: BindPatternV,
}

impl View for ConvSig {
    type V = ConvSigV;

    open spec fn view(&self) -> ConvSigV {
        ConvSigV {
            record: self.record@,
            enum_path: self.enum_path@,
            variant: self.variant@,
            binding: self.binding@,
        }
    }
}

impl Clone for ConvSig {
    fn clone(&self) -> (r: Self)
        ensures
            r@ == self@,
    {
        ConvSig {
            record: self.record.clone(),
            enum_path: self.enum_path.clone(),
            variant: self.variant.clone(),
            binding: self.binding.clone(),
        }
    }
}

/// The signature of the emitted marker implementation: which record claims to
/// be a validated counterpart of which union.
#[derive(Debug)]
pub struct MarkerSig {
    pub record: Path,
    pub enum_path: Path,
}

/// Mathematical value of a [`MarkerSig`].
pub struct MarkerSigV {
    pub record: PathV,
    pub enum_path: PathV,
}

impl View for MarkerSig {
    type V = MarkerSigV;

    open spec fn view(&self) -> MarkerSigV {
        MarkerSigV { record: self.record@, enum_path: self.enum_path@ }
    }
}

/// One declaration of the generated output unit, in emission order.
#[derive(Debug)]
pub enum OutputItem {
    /// A generated record declaration.
    RecordDecl(StructDef),
    /// The total conversion: an implementation converting the record into the
    /// union value of its alternative.
    FromImplDecl(ConvSig),
    /// The fallible conversion: an implementation recovering the record from
    /// the union, handing the union value back unchanged on mismatch.
    TryFromImplDecl(ConvSig),
    /// The marker stating that the pair above forms a validated mapping.
    MarkerImplDecl(MarkerSig),
}

/// Mathematical value of an [`OutputItem`].
pub enum OutputItemV {
    RecordDecl(StructDefV),
    FromImplDecl(ConvSigV),
    TryFromImplDecl(ConvSigV),
    MarkerImplDecl(MarkerSigV),
}

impl View for OutputItem {
    type V = OutputItemV;

    open spec fn view(&self) -> OutputItemV {
        match self {
            OutputItem::RecordDecl(s) => OutputItemV::RecordDecl(s@),
            OutputItem::FromImplDecl(c) => OutputItemV::FromImplDecl(c@),
            OutputItem::TryFromImplDecl(c) => OutputItemV::TryFromImplDecl(c@),
            OutputItem::MarkerImplDecl(m) => OutputItemV::MarkerImplDecl(m@),
        }
    }
}

/// View of a sequence of output items.
pub open spec fn output_view(s: Seq<OutputItem>) -> Seq<OutputItemV> {
    s.map_values(|o: OutputItem| o@)
}

/// Viewing output items commutes with concatenation.
pub proof fn lemma_output_view_add(a: Seq<OutputItem>, b: Seq<OutputItem>)
    ensures
        output_view(a + b) == output_view(a) + output_view(b),
{
    assert forall|j: int| 0 <= j < a.len() + b.len() implies output_view(a + b)[j] == (output_view(
        a,
    ) + output_view(b))[j] by {
        if j < a.len() {
            assert((a + b)[j] == a[j]);
            assert(output_view(a)[j] == a[j]@);
        } else {
            assert((a + b)[j] == b[j - a.len()]);
            assert(output_view(b)[j - a.len()] == b[j - a.len()]@);
        }
    }
    assert(output_view(a + b) =~= output_view(a) + output_view(b));
}

} // verus!
