//! Plain byte records and a unit-variant union, decomposed but not tied
//! to any validator.

use vstd::prelude::*;

use core::marker::PhantomData;

use crate::chain::DestructBegin;
use crate::chain::DestructEnd;
use crate::chain::DestructEnumBegin;
use crate::chain::DestructEnumEnd;
use crate::chain::DestructEnumVariant;
use crate::chain::DestructField;
use crate::convert::Destruct;
use crate::meta::DestructEnumMetadata;
use crate::meta::DestructEnumVariantMetadata;
use crate::meta::DestructFieldMetadata;
use crate::meta::DestructMetadata;

verus! {

/// A record with three named byte fields.
#[derive(Clone, Debug, PartialEq, Eq)]
pub struct A {
    /// The first declared field.
    pub first: u8,
    /// The second declared field.
    pub second: u8,
    /// The third declared field.
    pub third: u8,
}

/// Metadata of the struct `A`.
#[derive(Debug, PartialEq, Eq)]
pub struct AMeta;

impl DestructMetadata for AMeta {
    open spec fn spec_struct_name() -> Seq<char> {
        "A"@
    }

    open spec fn spec_named_fields() -> bool {
        true
    }

    fn struct_name() -> (r: &'static str) {
        "A"
    }

    fn named_fields() -> (r: bool) {
        true
    }
}

/// Metadata of field `first` of `A`.
#[derive(Debug, PartialEq, Eq)]
pub struct AFirstMeta;

impl DestructMetadata for AFirstMeta {
    open spec fn spec_struct_name() -> Seq<char> {
        "A"@
    }

    open spec fn spec_named_fields() -> bool {
        true
    }

    fn struct_name() -> (r: &'static str) {
        "A"
    }

    fn named_fields() -> (r: bool) {
        true
    }
}

impl DestructFieldMetadata for AFirstMeta {
    open spec fn spec_field_name() -> Seq<char> {
        "first"@
    }

    open spec fn spec_field_index() -> int {
        0
    }

    fn field_name() -> (r: &'static str) {
        "first"
    }

    fn field_index() -> (r: usize) {
        0
    }
}

/// Metadata of field `second` of `A`.
#[derive(Debug, PartialEq, Eq)]
pub struct ASecondMeta;

impl DestructMetadata for ASecondMeta {
    open spec fn spec_struct_name() -> Seq<char> {
        "A"@
    }

    open spec fn spec_named_fields() -> bool {
        true
    }

    fn struct_name() -> (r: &'static str) {
        "A"
    }

    fn named_fields() -> (r: bool) {
        true
    }
}

impl DestructFieldMetadata for ASecondMeta {
    open spec fn spec_field_name() -> Seq<char> {
        "second"@
    }

    open spec fn spec_field_index() -> int {
        1
    }

    fn field_name() -> (r: &'static str) {
        "second"
    }

    fn field_index() -> (r: usize) {
        1
    }
}

/// Metadata of field `third` of `A`.
#[derive(Debug, PartialEq, Eq)]
pub struct AThirdMeta;

impl DestructMetadata for AThirdMeta {
    open spec fn spec_struct_name() -> Seq<char> {
        "A"@
    }

    open spec fn spec_named_fields() -> bool {
        true
    }

    fn struct_name() -> (r: &'static str) {
        "A"
    }

    fn named_fields() -> (r: bool) {
        true
    }
}

impl DestructFieldMetadata for AThirdMeta {
    open spec fn spec_field_name() -> Seq<char> {
        "third"@
    }

    open spec fn spec_field_index() -> int {
        2
    }

    fn field_name() -> (r: &'static str) {
        "third"
    }

    fn field_index() -> (r: usize) {
        2
    }
}

/// The decomposition shape of `A`: three field nodes, in declaration
/// order, then the end marker.
pub type ADestruct = DestructBegin<
    DestructField<
        u8,
        DestructField<u8, DestructField<u8, DestructEnd<AMeta>, AThirdMeta>, ASecondMeta>,
        AFirstMeta,
    >,
    AMeta,
>;

impl Destruct for A {
    type DestructType = ADestruct;

    open spec fn spec_destruct(self) -> ADestruct {
        DestructBegin {
            fields: DestructField {
                head: self.first,
                tail: DestructField {
                    head: self.second,
                    tail: DestructField {
                        head: self.third,
                        tail: DestructEnd { meta: PhantomData },
                        meta: PhantomData,
                    },
                    meta: PhantomData,
                },
                meta: PhantomData,
            },
            meta: PhantomData,
        }
    }

    open spec fn spec_well_formed(d: ADestruct) -> bool {
        true
    }

    open spec fn spec_construct(d: ADestruct) -> A {
        A { first: d.fields.head, second: d.fields.tail.head, third: d.fields.tail.tail.head }
    }

    proof fn lemma_destruct_well_formed(self) {
    }

    proof fn lemma_construct_destruct(self) {
    }

    proof fn lemma_destruct_construct(d: ADestruct) {
        assert(A::spec_construct(d).spec_destruct() =~~= d);
    }

    fn destruct(self) -> (d: ADestruct) {
        DestructBegin::new(
            DestructField::new(
                self.first,
                DestructField::new(
                    self.second,
                    DestructField::new(self.third, DestructEnd::new()),
                ),
            ),
        )
    }

    fn construct(d: ADestruct) -> (r: A) {
        A { first: d.fields.head, second: d.fields.tail.head, third: d.fields.tail.tail.head }
    }
}

/// Field order preservation for `A`: the decomposition's nodes report the
/// declared fields `first`, `second`, `third` with indices 0, 1, 2, in
/// declaration order, and each node holds that field's value.
pub proof fn lemma_a_field_order(a: A)
    ensures
        AFirstMeta::spec_field_name() == "first"@,
        AFirstMeta::spec_field_index() == 0,
        ASecondMeta::spec_field_name() == "second"@,
        ASecondMeta::spec_field_index() == 1,
        AThirdMeta::spec_field_name() == "third"@,
        AThirdMeta::spec_field_index() == 2,
        a.spec_destruct().fields.head == a.first,
        a.spec_destruct().fields.tail.head == a.second,
        a.spec_destruct().fields.tail.tail.head == a.third,
{
}

/// A record with two positional byte fields.
#[derive(Clone, Debug, PartialEq, Eq)]
pub struct B(pub u8, pub u8);

/// Metadata of the struct `B`.
#[derive(Debug, PartialEq, Eq)]
pub struct BMeta;

impl DestructMetadata for BMeta {
    open spec fn spec_struct_name() -> Seq<char> {
        "B"@
    }

    open spec fn spec_named_fields() -> bool {
        false
    }

    fn struct_name() -> (r: &'static str) {
        "B"
    }

    fn named_fields() -> (r: bool) {
        false
    }
}

/// Metadata of the first positional field of `B`.
#[derive(Debug, PartialEq, Eq)]
pub struct BField0Meta;

impl DestructMetadata for BField0Meta {
    open spec fn spec_struct_name() -> Seq<char> {
        "B"@
    }

    open spec fn spec_named_fields() -> bool {
        false
    }

    fn struct_name() -> (r: &'static str) {
        "B"
    }

    fn named_fields() -> (r: bool) {
        false
    }
}

impl DestructFieldMetadata for BField0Meta {
    open spec fn spec_field_name() -> Seq<char> {
        "unnamed_0"@
    }

    open spec fn spec_field_index() -> int {
        0
    }

    fn field_name() -> (r: &'static str) {
        "unnamed_0"
    }

    fn field_index() -> (r: usize) {
        0
    }
}

/// Metadata of the second positional field of `B`.
#[derive(Debug, PartialEq, Eq)]
pub struct BField1Meta;

impl DestructMetadata for BField1Meta {
    open spec fn spec_struct_name() -> Seq<char> {
        "B"@
    }

    open spec fn spec_named_fields() -> bool {
        false
    }

    fn struct_name() -> (r: &'static str) {
        "B"
    }

    fn named_fields() -> (r: bool) {
        false
    }
}

impl DestructFieldMetadata for BField1Meta {
    open spec fn spec_field_name() -> Seq<char> {
        "unnamed_1"@
    }

    open spec fn spec_field_index() -> int {
        1
    }

    fn field_name() -> (r: &'static str) {
        "unnamed_1"
    }

    fn field_index() -> (r: usize) {
        1
    }
}

/// The decomposition shape of `B`: two positional field nodes, then the
/// end marker.
pub type BDestruct = DestructBegin<
    DestructField<u8, DestructField<u8, DestructEnd<BMeta>, BField1Meta>, BField0Meta>,
    BMeta,
>;

impl Destruct for B {
    type DestructType = BDestruct;

    open spec fn spec_destruct(self) -> BDestruct {
        DestructBegin {
            fields: DestructField {
                head: self.0,
                tail: DestructField {
                    head: self.1,
                    tail: DestructEnd { meta: PhantomData },
                    meta: PhantomData,
                },
                meta: PhantomData,
            },
            meta: PhantomData,
        }
    }

    open spec fn spec_well_formed(d: BDestruct) -> bool {
        true
    }

    open spec fn spec_construct(d: BDestruct) -> B {
        B(d.fields.head, d.fields.tail.head)
    }

    proof fn lemma_destruct_well_formed(self) {
    }

    proof fn lemma_construct_destruct(self) {
    }

    proof fn lemma_destruct_construct(d: BDestruct) {
        assert(B::spec_construct(d).spec_destruct() =~~= d);
    }

    fn destruct(self) -> (d: BDestruct) {
        DestructBegin::new(
            DestructField::new(self.0, DestructField::new(self.1, DestructEnd::new())),
        )
    }

    fn construct(d: BDestruct) -> (r: B) {
        B(d.fields.head, d.fields.tail.head)
    }
}

/// Field order preservation for `B`: a positional record's nodes report
/// index-derived names and 0-based indices in declaration order.
pub proof fn lemma_b_field_order(b: B)
    ensures
        BMeta::spec_named_fields() == false,
        BField0Meta::spec_field_name() == "unnamed_0"@,
        BField0Meta::spec_field_index() == 0,
        BField1Meta::spec_field_name() == "unnamed_1"@,
        BField1Meta::spec_field_index() == 1,
        b.spec_destruct().fields.head == b.0,
        b.spec_destruct().fields.tail.head == b.1,
{
}

/// A union of three unit variants.
#[derive(Clone, Debug, PartialEq, Eq)]
pub enum TestEnum {
    /// The first declared variant.
    A,
    /// The second declared variant.
    B,
    /// The third declared variant.
    C,
}

/// Metadata of the enum `TestEnum`.
#[derive(Debug, PartialEq, Eq)]
pub struct TestEnumMeta;

impl DestructEnumMetadata for TestEnumMeta {
    open spec fn spec_enum_name() -> Seq<char> {
        "TestEnum"@
    }

    fn enum_name() -> (r: &'static str) {
        "TestEnum"
    }
}

/// Metadata of variant `VariantA` of `TestEnum`.
#[derive(Debug, PartialEq, Eq)]
pub struct TestEnumVariantAMeta;

impl DestructMetadata for TestEnumVariantAMeta {
    open spec fn spec_struct_name() -> Seq<char> {
        "TestEnum::A"@
    }

    open spec fn spec_named_fields() -> bool {
        false
    }

    fn struct_name() -> (r: &'static str) {
        "TestEnum::A"
    }

    fn named_fields() -> (r: bool) {
        false
    }
}

impl DestructEnumMetadata for TestEnumVariantAMeta {
    open spec fn spec_enum_name() -> Seq<char> {
        "TestEnum"@
    }

    fn enum_name() -> (r: &'static str) {
        "TestEnum"
    }
}

impl DestructEnumVariantMetadata for TestEnumVariantAMeta {
    open spec fn spec_variant_name() -> Seq<char> {
        "TestEnum::A"@
    }

    open spec fn spec_variant_index() -> int {
        0
    }

    fn variant_name() -> (r: &'static str) {
        "TestEnum::A"
    }

    fn variant_index() -> (r: usize) {
        0
    }
}

/// Metadata of variant `VariantB` of `TestEnum`.
#[derive(Debug, PartialEq, Eq)]
pub struct TestEnumVariantBMeta;

impl DestructMetadata for TestEnumVariantBMeta {
    open spec fn spec_struct_name() -> Seq<char> {
        "TestEnum::B"@
    }

    open spec fn spec_named_fields() -> bool {
        false
    }

    fn struct_name() -> (r: &'static str) {
        "TestEnum::B"
    }

    fn named_fields() -> (r: bool) {
        false
    }
}

impl DestructEnumMetadata for TestEnumVariantBMeta {
    open spec fn spec_enum_name() -> Seq<char> {
        "TestEnum"@
    }

    fn enum_name() -> (r: &'static str) {
        "TestEnum"
    }
}

impl DestructEnumVariantMetadata for TestEnumVariantBMeta {
    open spec fn spec_variant_name() -> Seq<char> {
        "TestEnum::B"@
    }

    open spec fn spec_variant_index() -> int {
        1
    }

    fn variant_name() -> (r: &'static str) {
        "TestEnum::B"
    }

    fn variant_index() -> (r: usize) {
        1
    }
}

/// Metadata of variant `VariantC` of `TestEnum`.
#[derive(Debug, PartialEq, Eq)]
pub struct TestEnumVariantCMeta;

impl DestructMetadata for TestEnumVariantCMeta {
    open spec fn spec_struct_name() -> Seq<char> {
        "TestEnum::C"@
    }

    open spec fn spec_named_fields() -> bool {
        false
    }

    fn struct_name() -> (r: &'static str) {
        "TestEnum::C"
    }

    fn named_fields() -> (r: bool) {
        false
    }
}

impl DestructEnumMetadata for TestEnumVariantCMeta {
    open spec fn spec_enum_name() -> Seq<char> {
        "TestEnum"@
    }

    fn enum_name() -> (r: &'static str) {
        "TestEnum"
    }
}

impl DestructEnumVariantMetadata for TestEnumVariantCMeta {
    open spec fn spec_variant_name() -> Seq<char> {
        "TestEnum::C"@
    }

    open spec fn spec_variant_index() -> int {
        2
    }

    fn variant_name() -> (r: &'static str) {
        "TestEnum::C"
    }

    fn variant_index() -> (r: usize) {
        2
    }
}

/// The decomposition of a unit variant: no fields, just the end marker.
pub type TestEnumVariantADestruct = DestructBegin<
    DestructEnd<TestEnumVariantAMeta>,
    TestEnumVariantAMeta,
>;

/// The decomposition of a unit variant: no fields, just the end marker.
pub type TestEnumVariantBDestruct = DestructBegin<
    DestructEnd<TestEnumVariantBMeta>,
    TestEnumVariantBMeta,
>;

/// The decomposition of a unit variant: no fields, just the end marker.
pub type TestEnumVariantCDestruct = DestructBegin<
    DestructEnd<TestEnumVariantCMeta>,
    TestEnumVariantCMeta,
>;

/// The decomposition shape of `TestEnum`: three variant positions, in
/// declaration order, then the end-of-variants marker.
pub type TestEnumDestruct = DestructEnumBegin<
    DestructEnumVariant<
        TestEnumVariantADestruct,
        DestructEnumVariant<
            TestEnumVariantBDestruct,
            DestructEnumVariant<
                TestEnumVariantCDestruct,
                DestructEnumEnd<TestEnumMeta>,
                TestEnumVariantCMeta,
            >,
            TestEnumVariantBMeta,
        >,
        TestEnumVariantAMeta,
    >,
    TestEnumMeta,
>;

impl Destruct for TestEnum {
    type DestructType = TestEnumDestruct;

    open spec fn spec_destruct(self) -> TestEnumDestruct {
        DestructEnumBegin {
            variants: match self {
                TestEnum::A => DestructEnumVariant::Head(
                    DestructBegin { fields: DestructEnd { meta: PhantomData }, meta: PhantomData },
                    PhantomData,
                ),
                TestEnum::B => DestructEnumVariant::Tail(
                    DestructEnumVariant::Head(
                        DestructBegin {
                            fields: DestructEnd { meta: PhantomData },
                            meta: PhantomData,
                        },
                        PhantomData,
                    ),
                    PhantomData,
                ),
                TestEnum::C => DestructEnumVariant::Tail(
                    DestructEnumVariant::Tail(
                        DestructEnumVariant::Head(
                            DestructBegin {
                                fields: DestructEnd { meta: PhantomData },
                                meta: PhantomData,
                            },
                            PhantomData,
                        ),
                        PhantomData,
                    ),
                    PhantomData,
                ),
            },
            meta: PhantomData,
        }
    }

    open spec fn spec_well_formed(d: TestEnumDestruct) -> bool {
        match d.variants {
            DestructEnumVariant::Head(_, _) => true,
            DestructEnumVariant::Tail(t, _) => match t {
                DestructEnumVariant::Head(_, _) => true,
                DestructEnumVariant::Tail(t, _) => t is Head,
            },
        }
    }

    open spec fn spec_construct(d: TestEnumDestruct) -> TestEnum {
        match d.variants {
            DestructEnumVariant::Head(_, _) => TestEnum::A,
            DestructEnumVariant::Tail(t, _) => match t {
                DestructEnumVariant::Head(_, _) => TestEnum::B,
                DestructEnumVariant::Tail(t, _) => match t {
                    DestructEnumVariant::Head(_, _) => TestEnum::C,
                    DestructEnumVariant::Tail(_, _) => arbitrary(),
                },
            },
        }
    }

    proof fn lemma_destruct_well_formed(self) {
    }

    proof fn lemma_construct_destruct(self) {
    }

    proof fn lemma_destruct_construct(d: TestEnumDestruct) {
        assert(TestEnum::spec_construct(d).spec_destruct() =~~= d);
    }

    fn destruct(self) -> (d: TestEnumDestruct) {
        DestructEnumBegin::new(
            match self {
                TestEnum::A => DestructEnumVariant::new_head(
                    DestructBegin::new(DestructEnd::new()),
                ),
                TestEnum::B => DestructEnumVariant::new_tail(
                    DestructEnumVariant::new_head(DestructBegin::new(DestructEnd::new())),
                ),
                TestEnum::C => DestructEnumVariant::new_tail(
                    DestructEnumVariant::new_tail(
                        DestructEnumVariant::new_head(DestructBegin::new(DestructEnd::new())),
                    ),
                ),
            },
        )
    }

    fn construct(d: TestEnumDestruct) -> (r: TestEnum) {
        match d.variants {
            DestructEnumVariant::Head(_, _) => TestEnum::A,
            DestructEnumVariant::Tail(t, _) => match t {
                DestructEnumVariant::Head(_, _) => TestEnum::B,
                DestructEnumVariant::Tail(t, _) => match t {
                    DestructEnumVariant::Head(_, _) => TestEnum::C,
                    DestructEnumVariant::Tail(_, _) => unreached(),
                },
            },
        }
    }
}

} // verus!
