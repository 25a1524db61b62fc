//! Decomposition, metadata and recomposition of the example types.

use destruct::examples::basic::{
    A, AFirstMeta, AMeta, ASecondMeta, AThirdMeta, B, BField0Meta, BField1Meta, BMeta, TestEnum,
    TestEnumMeta, TestEnumVariantAMeta, TestEnumVariantBMeta, TestEnumVariantCMeta,
};
use destruct::{
    parse_structural, Cursor, Destruct, DestructEnd, DestructEnumMetadata,
    DestructEnumVariantMetadata, DestructFieldMetadata, DestructMetadata, Parsable,
};

#[test]
fn test_meta() {
    let a = A {
        first: b'a',
        second: b'b',
        third: b'c',
    };
    let d = a.destruct();
    let name = d.struct_name();
    assert_eq!(name, "A");
    let name = d.fields.field_name();
    assert_eq!(name, "first");
    let name = d.fields.tail.field_name();
    assert_eq!(name, "second");
    let name = d.fields.tail.tail.field_name();
    assert_eq!(name, "third");
}

#[test]
fn test_parse_struct() {
    let mut src = Cursor::new(b"abc".to_vec());
    let a: A = A::construct(<A as Destruct>::DestructType::parse(&mut src).unwrap());
    assert_eq!(
        a,
        A {
            first: b'a',
            second: b'b',
            third: b'c'
        }
    )
}

#[test]
fn test_parse_unnamed_struct() {
    let mut src = Cursor::new(b"ab".to_vec());
    let b: B = B::construct(<B as Destruct>::DestructType::parse(&mut src).unwrap());
    assert_eq!(b, B(b'a', b'b'))
}

#[test]
fn test_enum() {
    let e = TestEnum::construct(TestEnum::A.destruct());
    assert_eq!(e, TestEnum::A);
    let e = TestEnum::construct(TestEnum::B.destruct());
    assert_eq!(e, TestEnum::B);
}

#[test]
fn test_field_indices_follow_declaration_order() {
    let a = A {
        first: b'x',
        second: b'y',
        third: b'z',
    };
    let d = a.destruct();
    assert_eq!(d.fields.field_index(), 0);
    assert_eq!(d.fields.tail.field_index(), 1);
    assert_eq!(d.fields.tail.tail.field_index(), 2);
    assert_eq!(d.fields.head, b'x');
    assert_eq!(d.fields.tail.head, b'y');
    assert_eq!(d.fields.tail.tail.head, b'z');
    assert_eq!(d.fields.tail.tail.tail.struct_name(), "A");
    assert!(AMeta::named_fields());
    assert_eq!(AFirstMeta::field_name(), "first");
    assert_eq!(ASecondMeta::field_name(), "second");
    assert_eq!(AThirdMeta::field_name(), "third");
}

#[test]
fn test_positional_field_metadata() {
    let b = B(b'p', b'q');
    let d = b.destruct();
    assert_eq!(d.struct_name(), "B");
    assert!(!BMeta::named_fields());
    assert_eq!(d.fields.field_name(), "unnamed_0");
    assert_eq!(d.fields.field_index(), 0);
    assert_eq!(d.fields.tail.field_name(), "unnamed_1");
    assert_eq!(d.fields.tail.field_index(), 1);
    assert_eq!(BField0Meta::field_index(), 0);
    assert_eq!(BField1Meta::field_index(), 1);
    assert_eq!(d.fields.head, b'p');
    assert_eq!(d.fields.tail.head, b'q');
}

#[test]
fn test_enum_metadata() {
    assert_eq!(TestEnumMeta::enum_name(), "TestEnum");
    assert_eq!(TestEnumVariantAMeta::variant_name(), "TestEnum::A");
    assert_eq!(TestEnumVariantAMeta::variant_index(), 0);
    assert_eq!(TestEnumVariantBMeta::variant_name(), "TestEnum::B");
    assert_eq!(TestEnumVariantBMeta::variant_index(), 1);
    assert_eq!(TestEnumVariantCMeta::variant_name(), "TestEnum::C");
    assert_eq!(TestEnumVariantCMeta::variant_index(), 2);
    assert_eq!(TestEnumVariantCMeta::enum_name(), "TestEnum");
}

#[test]
fn test_round_trip_struct() {
    let a = A {
        first: 1,
        second: 200,
        third: 42,
    };
    assert_eq!(A::construct(a.clone().destruct()), a);
    let b = B(0, 255);
    assert_eq!(B::construct(b.clone().destruct()), b);
}

#[test]
fn test_round_trip_enum_all_variants() {
    assert_eq!(TestEnum::construct(TestEnum::A.destruct()), TestEnum::A);
    assert_eq!(TestEnum::construct(TestEnum::B.destruct()), TestEnum::B);
    assert_eq!(TestEnum::construct(TestEnum::C.destruct()), TestEnum::C);
}

#[test]
fn test_round_trip_decomposition() {
    let a = A {
        first: b'1',
        second: b'2',
        third: b'3',
    };
    let d = a.clone().destruct();
    let d2 = A::construct(d).destruct();
    assert_eq!(d2, a.destruct());
}

#[test]
fn test_zero_width_variants_pick_first() {
    // Every variant of this enum is a unit variant, so each parses after
    // consuming nothing; first-match-wins makes the first declared
    // variant the result, whatever the input holds.
    let mut cur = Cursor::new(b"anything".to_vec());
    let e: TestEnum = parse_structural(&mut cur).unwrap();
    assert_eq!(e, TestEnum::A);
    assert_eq!(cur.mark(), 0);
}

#[test]
fn test_repetition_of_zero_width_elements_stops() {
    // An element that succeeds without consuming anything ends the
    // repetition at once instead of repeating forever.
    let mut cur = Cursor::new(b"abc".to_vec());
    let r = Vec::<DestructEnd<AMeta>>::parse(&mut cur).unwrap();
    assert_eq!(r.len(), 0);
    assert_eq!(cur.mark(), 0);
}
