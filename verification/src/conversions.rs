//! The runtime meaning of the derived conversions. The generator emits
//! declarations; the two functions here perform, on a model of union and
//! record values, exactly what those declarations' bodies do: the total
//! conversion moves the record's fields into the union alternative's slots,
//! and the fallible conversion destructures them back out when the active
//! alternative matches, handing the union value back untouched when it does
//! not. The lemmas state the round-trip guarantee the pairing is meant to
//! give.

use vstd::prelude::*;

use crate::tokens::Ident;

verus! {

/// A union value: the name of its active alternative and that alternative's
/// field payload, in field order.
pub struct UnionValue<V> {
    pub case: Ident,
    pub fields: Vec<V>,
}

/// A record value: the field payload of one alternative, standing alone.
pub struct RecordValue<V> {
    pub fields: Vec<V>,
}

/// Mathematical value of a [`UnionValue`]: the active alternative's name and
/// the payload.
pub struct UnionVal<V> {
    pub case: Seq<char>,
    pub fields: Seq<V>,
}

/// Mathematical value of a [`RecordValue`].
pub struct RecordVal<V> {
    pub fields: Seq<V>,
}

impl<V> View for UnionValue<V> {
    type V = UnionVal<V>;

    open spec fn view(&self) -> UnionVal<V> {
        UnionVal { case: self.case.text@, fields: self.fields@ }
    }
}

impl<V> View for RecordValue<V> {
    type V = RecordVal<V>;

    open spec fn view(&self) -> RecordVal<V> {
        RecordVal { fields: self.fields@ }
    }
}

/// What the total conversion computes: the union value of the named
/// alternative, carrying the record's fields.
pub open spec fn spec_record_to_union<V>(r: RecordVal<V>, case: Seq<char>) -> UnionVal<V> {
    UnionVal { case, fields: r.fields }
}

/// What the fallible conversion computes: the record when the active
/// alternative is the named one, and the whole union value — unchanged —
/// when it is not.
pub open spec fn spec_union_to_record<V>(u: UnionVal<V>, case: Seq<char>) -> Result<
    RecordVal<V>,
    UnionVal<V>,
> {
    if u.case == case {
        Ok(RecordVal { fields: u.fields })
    } else {
        Err(u)
    }
}

/// The total conversion, record to union: always succeeds, moving the
/// record's fields into the named alternative's slots.
pub fn record_to_union<V>(r: RecordValue<V>, case: Ident) -> (u: UnionValue<V>)
    ensures
        u@ == spec_record_to_union(r@, case@.text),
{
    UnionValue { case, fields: r.fields }
}

/// The fallible conversion, union to record: succeeds exactly when the union
/// value's active alternative is the named one; on failure the original
/// union value itself is the error — nothing is lost or consumed.
pub fn union_to_record<V>(u: UnionValue<V>, case: &Ident) -> (res: Result<
    RecordValue<V>,
    UnionValue<V>,
>)
    ensures
        match res {
            Ok(rec) => spec_union_to_record(u@, case@.text) == Ok::<RecordVal<V>, UnionVal<V>>(
                rec@,
            ),
            Err(u2) => spec_union_to_record(u@, case@.text) == Err::<RecordVal<V>, UnionVal<V>>(
                u2@,
            ),
        },
        u@.case != case@.text ==> res == Result::<RecordValue<V>, UnionValue<V>>::Err(u),
{
    if u.case.text == case.text {
        Ok(RecordValue { fields: u.fields })
    } else {
        Err(u)
    }
}

/// Round-trip law: for any record value, converting it into its union
/// alternative and back succeeds and returns the record unchanged,
/// field for field.
pub proof fn lemma_round_trip<V>(r: RecordVal<V>, case: Seq<char>)
    ensures
        spec_union_to_record(spec_record_to_union(r, case), case) == Ok::<
            RecordVal<V>,
            UnionVal<V>,
        >(r),
{
}

/// Non-destructive failure: for any union value whose active alternative is
/// not the named one, the fallible conversion returns exactly that union
/// value as its error.
pub proof fn lemma_mismatch_preserved<V>(u: UnionVal<V>, case: Seq<char>)
    requires
        u.case != case,
    ensures
        spec_union_to_record(u, case) == Err::<RecordVal<V>, UnionVal<V>>(u),
{
}

} // verus!
