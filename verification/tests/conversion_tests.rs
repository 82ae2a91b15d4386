use extract_variant::conversions::{record_to_union, union_to_record, RecordValue, UnionValue};
use extract_variant::tokens::{Ident, SrcSpan};

fn ident(s: &str) -> Ident {
    Ident { text: s.to_string(), span: SrcSpan { id: 0 } }
}

#[test]
fn round_trip_returns_the_record_unchanged() {
    let r = RecordValue { fields: vec![1, 2, 3] };
    let u = record_to_union(r, ident("Variant2"));
    assert_eq!(u.case.text, "Variant2");
    let back = union_to_record(u, &ident("Variant2")).map_err(|_| ()).unwrap();
    assert_eq!(back.fields, vec![1, 2, 3]);
}

#[test]
fn round_trip_of_a_fieldless_record() {
    let r: RecordValue<i32> = RecordValue { fields: vec![] };
    let u = record_to_union(r, ident("Variant1"));
    let back = union_to_record(u, &ident("Variant1")).map_err(|_| ()).unwrap();
    assert!(back.fields.is_empty());
}

#[test]
fn mismatched_alternative_fails_without_loss() {
    let u = UnionValue { case: ident("Variant1"), fields: vec![9, 8] };
    match union_to_record(u, &ident("Variant2")) {
        Err(back) => {
            // The original union value comes back untouched.
            assert_eq!(back.case.text, "Variant1");
            assert_eq!(back.fields, vec![9, 8]);
        }
        Ok(_) => panic!("a mismatched alternative must not convert"),
    }
}

#[test]
fn a_second_candidate_can_be_tried_after_a_failure() {
    let u = UnionValue { case: ident("B"), fields: vec![5] };
    let u = match union_to_record(u, &ident("A")) {
        Err(original) => original,
        Ok(_) => panic!("the active alternative is B, not A"),
    };
    let rec = union_to_record(u, &ident("B")).map_err(|_| ()).unwrap();
    assert_eq!(rec.fields, vec![5]);
}
