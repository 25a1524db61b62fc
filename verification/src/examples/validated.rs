//! Records and unions whose leaves are validated bytes, parsed from a
//! cursor through their decompositions.

use vstd::prelude::*;

use core::marker::PhantomData;

use crate::chain::DestructBegin;
use crate::chain::DestructEnd;
use crate::chain::DestructEnumBegin;
use crate::chain::DestructEnumEnd;
use crate::chain::DestructEnumVariant;
use crate::chain::DestructField;
use crate::convert::Destruct;
use crate::cursor::Cursor;
use crate::error::ErrorModel;
use crate::error::ParseError;
use crate::meta::DestructEnumMetadata;
use crate::meta::DestructEnumVariantMetadata;
use crate::meta::DestructFieldMetadata;
use crate::meta::DestructMetadata;
use crate::parse::Parsable;
use crate::structural::parse_structural;
use crate::validate::IsAsciiDigit;
use crate::validate::IsAsciiLowerCase;
use crate::validate::Validated;

verus! {

/// A record of two validated bytes: a lower-case letter, then a digit.
#[derive(Debug, PartialEq, Eq)]
pub struct Test {
    /// The first declared field: a lower-case letter.
    pub a: Validated<u8, IsAsciiLowerCase>,
    /// The second declared field: a digit.
    pub b: Validated<u8, IsAsciiDigit>,
}

/// Metadata of the struct `Test`.
#[derive(Debug, PartialEq, Eq)]
pub struct TestMeta;

impl DestructMetadata for TestMeta {
    open spec fn spec_struct_name() -> Seq<char> {
        "Test"@
    }

    open spec fn spec_named_fields() -> bool {
        true
    }

    fn struct_name() -> (r: &'static str) {
        "Test"
    }

    fn named_fields() -> (r: bool) {
        true
    }
}

/// Metadata of field `a` of `Test`.
#[derive(Debug, PartialEq, Eq)]
pub struct TestFieldAMeta;

impl DestructMetadata for TestFieldAMeta {
    open spec fn spec_struct_name() -> Seq<char> {
        "Test"@
    }

    open spec fn spec_named_fields() -> bool {
        true
    }

    fn struct_name() -> (r: &'static str) {
        "Test"
    }

    fn named_fields() -> (r: bool) {
        true
    }
}

impl DestructFieldMetadata for TestFieldAMeta {
    open spec fn spec_field_name() -> Seq<char> {
        "a"@
    }

    open spec fn spec_field_index() -> int {
        0
    }

    fn field_name() -> (r: &'static str) {
        "a"
    }

    fn field_index() -> (r: usize) {
        0
    }
}

/// Metadata of field `b` of `Test`.
#[derive(Debug, PartialEq, Eq)]
pub struct TestFieldBMeta;

impl DestructMetadata for TestFieldBMeta {
    open spec fn spec_struct_name() -> Seq<char> {
        "Test"@
    }

    open spec fn spec_named_fields() -> bool {
        true
    }

    fn struct_name() -> (r: &'static str) {
        "Test"
    }

    fn named_fields() -> (r: bool) {
        true
    }
}

impl DestructFieldMetadata for TestFieldBMeta {
    open spec fn spec_field_name() -> Seq<char> {
        "b"@
    }

    open spec fn spec_field_index() -> int {
        1
    }

    fn field_name() -> (r: &'static str) {
        "b"
    }

    fn field_index() -> (r: usize) {
        1
    }
}

/// The decomposition shape of `Test`.
pub type TestDestruct = DestructBegin<
    DestructField<
        Validated<u8, IsAsciiLowerCase>,
        DestructField<Validated<u8, IsAsciiDigit>, DestructEnd<TestMeta>, TestFieldBMeta>,
        TestFieldAMeta,
    >,
    TestMeta,
>;

impl Destruct for Test {
    type DestructType = TestDestruct;

    open spec fn spec_destruct(self) -> TestDestruct {
        DestructBegin {
            fields: DestructField {
                head: self.a,
                tail: DestructField {
                    head: self.b,
                    tail: DestructEnd { meta: PhantomData },
                    meta: PhantomData,
                },
                meta: PhantomData,
            },
            meta: PhantomData,
        }
    }

    open spec fn spec_well_formed(d: TestDestruct) -> bool {
        true
    }

    open spec fn spec_construct(d: TestDestruct) -> Test {
        Test { a: d.fields.head, b: d.fields.tail.head }
    }

    proof fn lemma_destruct_well_formed(self) {
    }

    proof fn lemma_construct_destruct(self) {
    }

    proof fn lemma_destruct_construct(d: TestDestruct) {
        assert(Test::spec_construct(d).spec_destruct() =~~= d);
    }

    fn destruct(self) -> (d: TestDestruct) {
        DestructBegin::new(
            DestructField::new(self.a, DestructField::new(self.b, DestructEnd::new())),
        )
    }

    fn construct(d: TestDestruct) -> (r: Test) {
        Test { a: d.fields.head, b: d.fields.tail.head }
    }
}

/// `Test` parses as its decomposition, recomposed.
impl Parsable for Test {
    open spec fn spec_end(input: Seq<u8>, pos: int) -> Option<int> {
        <TestDestruct as Parsable>::spec_end(input, pos)
    }

    open spec fn spec_value(input: Seq<u8>, pos: int, v: Test) -> bool {
        <TestDestruct as Parsable>::spec_value(input, pos, v.spec_destruct())
    }

    open spec fn spec_error(input: Seq<u8>, pos: int) -> ErrorModel {
        <TestDestruct as Parsable>::spec_error(input, pos)
    }

    open spec fn spec_rewinds() -> bool {
        <TestDestruct as Parsable>::spec_rewinds()
    }

    proof fn lemma_end_bounds(input: Seq<u8>, pos: int) {
        <TestDestruct as Parsable>::lemma_end_bounds(input, pos);
    }

    fn parse(cursor: &mut Cursor) -> (r: Result<Test, ParseError>) {
        let ghost input = cursor.bytes();
        let ghost start = cursor.position();
        let r = parse_structural::<Test>(cursor);
        proof {
            if let Ok(v) = &r {
                let v = *v;
                let d = choose|d: TestDestruct|
                    {
                        &&& #[trigger] <TestDestruct as Parsable>::spec_value(input, start, d)
                        &&& Test::spec_well_formed(d)
                        &&& v == Test::spec_construct(d)
                    };
                Test::lemma_destruct_construct(d);
            }
        }
        r
    }
}

/// An identifier: a mandatory leading lower-case letter, then any number
/// of digits.
#[derive(Debug, PartialEq, Eq)]
pub struct Identifier {
    /// The first declared field: the leading letter.
    pub head: Validated<u8, IsAsciiLowerCase>,
    /// The second declared field: the trailing digits, possibly none.
    pub tail: Vec<Validated<u8, IsAsciiDigit>>,
}

impl Identifier {
    /// Build an identifier from its parts.
    pub fn new(
        head: Validated<u8, IsAsciiLowerCase>,
        tail: Vec<Validated<u8, IsAsciiDigit>>,
    ) -> (r: Identifier)
        ensures
            r == (Identifier { head, tail }),
    {
        Identifier { head, tail }
    }
}

/// Metadata of the struct `Identifier`.
#[derive(Debug, PartialEq, Eq)]
pub struct IdentifierMeta;

impl DestructMetadata for IdentifierMeta {
    open spec fn spec_struct_name() -> Seq<char> {
        "Identifier"@
    }

    open spec fn spec_named_fields() -> bool {
        true
    }

    fn struct_name() -> (r: &'static str) {
        "Identifier"
    }

    fn named_fields() -> (r: bool) {
        true
    }
}

/// Metadata of field `head` of `Identifier`.
#[derive(Debug, PartialEq, Eq)]
pub struct IdentifierHeadMeta;

impl DestructMetadata for IdentifierHeadMeta {
    open spec fn spec_struct_name() -> Seq<char> {
        "Identifier"@
    }

    open spec fn spec_named_fields() -> bool {
        true
    }

    fn struct_name() -> (r: &'static str) {
        "Identifier"
    }

    fn named_fields() -> (r: bool) {
        true
    }
}

impl DestructFieldMetadata for IdentifierHeadMeta {
    open spec fn spec_field_name() -> Seq<char> {
        "head"@
    }

    open spec fn spec_field_index() -> int {
        0
    }

    fn field_name() -> (r: &'static str) {
        "head"
    }

    fn field_index() -> (r: usize) {
        0
    }
}

/// Metadata of field `tail` of `Identifier`.
#[derive(Debug, PartialEq, Eq)]
pub struct IdentifierTailMeta;

impl DestructMetadata for IdentifierTailMeta {
    open spec fn spec_struct_name() -> Seq<char> {
        "Identifier"@
    }

    open spec fn spec_named_fields() -> bool {
        true
    }

    fn struct_name() -> (r: &'static str) {
        "Identifier"
    }

    fn named_fields() -> (r: bool) {
        true
    }
}

impl DestructFieldMetadata for IdentifierTailMeta {
    open spec fn spec_field_name() -> Seq<char> {
        "tail"@
    }

    open spec fn spec_field_index() -> int {
        1
    }

    fn field_name() -> (r: &'static str) {
        "tail"
    }

    fn field_index() -> (r: usize) {
        1
    }
}

/// The decomposition shape of `Identifier`: a validated letter, then a
/// repetition of validated digits.
pub type IdentifierDestruct = DestructBegin<
    DestructField<
        Validated<u8, IsAsciiLowerCase>,
        DestructField<
            Vec<Validated<u8, IsAsciiDigit>>,
            DestructEnd<IdentifierMeta>,
            IdentifierTailMeta,
        >,
        IdentifierHeadMeta,
    >,
    IdentifierMeta,
>;

impl Destruct for Identifier {
    type DestructType = IdentifierDestruct;

    open spec fn spec_destruct(self) -> IdentifierDestruct {
        DestructBegin {
            fields: DestructField {
                head: self.head,
                tail: DestructField {
                    head: self.tail,
                    tail: DestructEnd { meta: PhantomData },
                    meta: PhantomData,
                },
                meta: PhantomData,
            },
            meta: PhantomData,
        }
    }

    open spec fn spec_well_formed(d: IdentifierDestruct) -> bool {
        true
    }

    open spec fn spec_construct(d: IdentifierDestruct) -> Identifier {
        Identifier { head: d.fields.head, tail: d.fields.tail.head }
    }

    proof fn lemma_destruct_well_formed(self) {
    }

    proof fn lemma_construct_destruct(self) {
    }

    proof fn lemma_destruct_construct(d: IdentifierDestruct) {
        assert(Identifier::spec_construct(d).spec_destruct() =~~= d);
    }

    fn destruct(self) -> (d: IdentifierDestruct) {
        DestructBegin::new(
            DestructField::new(self.head, DestructField::new(self.tail, DestructEnd::new())),
        )
    }

    fn construct(d: IdentifierDestruct) -> (r: Identifier) {
        Identifier { head: d.fields.head, tail: d.fields.tail.head }
    }
}

/// `Identifier` parses as its decomposition, recomposed.
impl Parsable for Identifier {
    open spec fn spec_end(input: Seq<u8>, pos: int) -> Option<int> {
        <IdentifierDestruct as Parsable>::spec_end(input, pos)
    }

    open spec fn spec_value(input: Seq<u8>, pos: int, v: Identifier) -> bool {
        <IdentifierDestruct as Parsable>::spec_value(input, pos, v.spec_destruct())
    }

    open spec fn spec_error(input: Seq<u8>, pos: int) -> ErrorModel {
        <IdentifierDestruct as Parsable>::spec_error(input, pos)
    }

    open spec fn spec_rewinds() -> bool {
        <IdentifierDestruct as Parsable>::spec_rewinds()
    }

    proof fn lemma_end_bounds(input: Seq<u8>, pos: int) {
        <IdentifierDestruct as Parsable>::lemma_end_bounds(input, pos);
    }

    fn parse(cursor: &mut Cursor) -> (r: Result<Identifier, ParseError>) {
        let ghost input = cursor.bytes();
        let ghost start = cursor.position();
        let r = parse_structural::<Identifier>(cursor);
        proof {
            if let Ok(v) = &r {
                let v = *v;
                let d = choose|d: IdentifierDestruct|
                    {
                        &&& #[trigger] <IdentifierDestruct as Parsable>::spec_value(
                            input,
                            start,
                            d,
                        )
                        &&& Identifier::spec_well_formed(d)
                        &&& v == Identifier::spec_construct(d)
                    };
                Identifier::lemma_destruct_construct(d);
            }
        }
        r
    }
}

/// A union of two variants over the same amount of input: a letter then a
/// digit, or a digit then a letter.
#[derive(Debug, PartialEq, Eq)]
pub enum TestEnum {
    /// The first declared variant, with positional fields.
    CaseA(Validated<u8, IsAsciiLowerCase>, Validated<u8, IsAsciiDigit>),
    /// The second declared variant, with named fields.
    CaseB {
        /// The first declared field: a digit.
        a: Validated<u8, IsAsciiDigit>,
        /// The second declared field: a lower-case letter.
        b: Validated<u8, IsAsciiLowerCase>,
    },
}

/// Metadata of the enum `TestEnum`.
#[derive(Debug, PartialEq, Eq)]
pub struct TestEnumMeta;

impl DestructEnumMetadata for TestEnumMeta {
    open spec fn spec_enum_name() -> Seq<char> {
        "TestEnum"@
    }

    fn enum_name() -> (r: &'static str) {
        "TestEnum"
    }
}

/// Metadata of variant `CaseA` of `TestEnum`.
#[derive(Debug, PartialEq, Eq)]
pub struct TestEnumCaseAMeta;

impl DestructMetadata for TestEnumCaseAMeta {
    open spec fn spec_struct_name() -> Seq<char> {
        "TestEnum::CaseA"@
    }

    open spec fn spec_named_fields() -> bool {
        false
    }

    fn struct_name() -> (r: &'static str) {
        "TestEnum::CaseA"
    }

    fn named_fields() -> (r: bool) {
        false
    }
}

impl DestructEnumMetadata for TestEnumCaseAMeta {
    open spec fn spec_enum_name() -> Seq<char> {
        "TestEnum"@
    }

    fn enum_name() -> (r: &'static str) {
        "TestEnum"
    }
}

impl DestructEnumVariantMetadata for TestEnumCaseAMeta {
    open spec fn spec_variant_name() -> Seq<char> {
        "TestEnum::CaseA"@
    }

    open spec fn spec_variant_index() -> int {
        0
    }

    fn variant_name() -> (r: &'static str) {
        "TestEnum::CaseA"
    }

    fn variant_index() -> (r: usize) {
        0
    }
}

/// Metadata of the first positional field of `TestEnum::CaseA`.
#[derive(Debug, PartialEq, Eq)]
pub struct TestEnumCaseAField0Meta;

impl DestructMetadata for TestEnumCaseAField0Meta {
    open spec fn spec_struct_name() -> Seq<char> {
        "TestEnum::CaseA"@
    }

    open spec fn spec_named_fields() -> bool {
        false
    }

    fn struct_name() -> (r: &'static str) {
        "TestEnum::CaseA"
    }

    fn named_fields() -> (r: bool) {
        false
    }
}

impl DestructFieldMetadata for TestEnumCaseAField0Meta {
    open spec fn spec_field_name() -> Seq<char> {
        "unnamed_0"@
    }

    open spec fn spec_field_index() -> int {
        0
    }

    fn field_name() -> (r: &'static str) {
        "unnamed_0"
    }

    fn field_index() -> (r: usize) {
        0
    }
}

/// Metadata of the second positional field of `TestEnum::CaseA`.
#[derive(Debug, PartialEq, Eq)]
pub struct TestEnumCaseAField1Meta;

impl DestructMetadata for TestEnumCaseAField1Meta {
    open spec fn spec_struct_name() -> Seq<char> {
        "TestEnum::CaseA"@
    }

    open spec fn spec_named_fields() -> bool {
        false
    }

    fn struct_name() -> (r: &'static str) {
        "TestEnum::CaseA"
    }

    fn named_fields() -> (r: bool) {
        false
    }
}

impl DestructFieldMetadata for TestEnumCaseAField1Meta {
    open spec fn spec_field_name() -> Seq<char> {
        "unnamed_1"@
    }

    open spec fn spec_field_index() -> int {
        1
    }

    fn field_name() -> (r: &'static str) {
        "unnamed_1"
    }

    fn field_index() -> (r: usize) {
        1
    }
}

/// Metadata of variant `CaseB` of `TestEnum`.
#[derive(Debug, PartialEq, Eq)]
pub struct TestEnumCaseBMeta;

impl DestructMetadata for TestEnumCaseBMeta {
    open spec fn spec_struct_name() -> Seq<char> {
        "TestEnum::CaseB"@
    }

    open spec fn spec_named_fields() -> bool {
        true
    }

    fn struct_name() -> (r: &'static str) {
        "TestEnum::CaseB"
    }

    fn named_fields() -> (r: bool) {
        true
    }
}

impl DestructEnumMetadata for TestEnumCaseBMeta {
    open spec fn spec_enum_name() -> Seq<char> {
        "TestEnum"@
    }

    fn enum_name() -> (r: &'static str) {
        "TestEnum"
    }
}

impl DestructEnumVariantMetadata for TestEnumCaseBMeta {
    open spec fn spec_variant_name() -> Seq<char> {
        "TestEnum::CaseB"@
    }

    open spec fn spec_variant_index() -> int {
        1
    }

    fn variant_name() -> (r: &'static str) {
        "TestEnum::CaseB"
    }

    fn variant_index() -> (r: usize) {
        1
    }
}

/// Metadata of field `a` of `TestEnum::CaseB`.
#[derive(Debug, PartialEq, Eq)]
pub struct TestEnumCaseBFieldAMeta;

impl DestructMetadata for TestEnumCaseBFieldAMeta {
    open spec fn spec_struct_name() -> Seq<char> {
        "TestEnum::CaseB"@
    }

    open spec fn spec_named_fields() -> bool {
        true
    }

    fn struct_name() -> (r: &'static str) {
        "TestEnum::CaseB"
    }

    fn named_fields() -> (r: bool) {
        true
    }
}

impl DestructFieldMetadata for TestEnumCaseBFieldAMeta {
    open spec fn spec_field_name() -> Seq<char> {
        "a"@
    }

    open spec fn spec_field_index() -> int {
        0
    }

    fn field_name() -> (r: &'static str) {
        "a"
    }

    fn field_index() -> (r: usize) {
        0
    }
}

/// Metadata of field `b` of `TestEnum::CaseB`.
#[derive(Debug, PartialEq, Eq)]
pub struct TestEnumCaseBFieldBMeta;

impl DestructMetadata for TestEnumCaseBFieldBMeta {
    open spec fn spec_struct_name() -> Seq<char> {
        "TestEnum::CaseB"@
    }

    open spec fn spec_named_fields() -> bool {
        true
    }

    fn struct_name() -> (r: &'static str) {
        "TestEnum::CaseB"
    }

    fn named_fields() -> (r: bool) {
        true
    }
}

impl DestructFieldMetadata for TestEnumCaseBFieldBMeta {
    open spec fn spec_field_name() -> Seq<char> {
        "b"@
    }

    open spec fn spec_field_index() -> int {
        1
    }

    fn field_name() -> (r: &'static str) {
        "b"
    }

    fn field_index() -> (r: usize) {
        1
    }
}

/// The decomposition of variant `TestEnum::CaseA`, as a record.
pub type TestEnumCaseADestruct = DestructBegin<
    DestructField<
        Validated<u8, IsAsciiLowerCase>,
        DestructField<
            Validated<u8, IsAsciiDigit>,
            DestructEnd<TestEnumCaseAMeta>,
            TestEnumCaseAField1Meta,
        >,
        TestEnumCaseAField0Meta,
    >,
    TestEnumCaseAMeta,
>;

/// The decomposition of variant `TestEnum::CaseB`, as a record.
pub type TestEnumCaseBDestruct = DestructBegin<
    DestructField<
        Validated<u8, IsAsciiDigit>,
        DestructField<
            Validated<u8, IsAsciiLowerCase>,
            DestructEnd<TestEnumCaseBMeta>,
            TestEnumCaseBFieldBMeta,
        >,
        TestEnumCaseBFieldAMeta,
    >,
    TestEnumCaseBMeta,
>;

/// The decomposition shape of `TestEnum`: two variant positions, in
/// declaration order, then the end-of-variants marker.
pub type TestEnumDestruct = DestructEnumBegin<
    DestructEnumVariant<
        TestEnumCaseADestruct,
        DestructEnumVariant<
            TestEnumCaseBDestruct,
            DestructEnumEnd<TestEnumMeta>,
            TestEnumCaseBMeta,
        >,
        TestEnumCaseAMeta,
    >,
    TestEnumMeta,
>;

impl Destruct for TestEnum {
    type DestructType = TestEnumDestruct;

    open spec fn spec_destruct(self) -> TestEnumDestruct {
        DestructEnumBegin {
            variants: match self {
                TestEnum::CaseA(x, y) => DestructEnumVariant::Head(
                    DestructBegin {
                        fields: DestructField {
                            head: x,
                            tail: DestructField {
                                head: y,
                                tail: DestructEnd { meta: PhantomData },
                                meta: PhantomData,
                            },
                            meta: PhantomData,
                        },
                        meta: PhantomData,
                    },
                    PhantomData,
                ),
                TestEnum::CaseB { a, b } => DestructEnumVariant::Tail(
                    DestructEnumVariant::Head(
                        DestructBegin {
                            fields: DestructField {
                                head: a,
                                tail: DestructField {
                                    head: b,
                                    tail: DestructEnd { meta: PhantomData },
                                    meta: PhantomData,
                                },
                                meta: PhantomData,
                            },
                            meta: PhantomData,
                        },
                        PhantomData,
                    ),
                    PhantomData,
                ),
            },
            meta: PhantomData,
        }
    }

    open spec fn spec_well_formed(d: TestEnumDestruct) -> bool {
        match d.variants {
            DestructEnumVariant::Head(_, _) => true,
            DestructEnumVariant::Tail(t, _) => t is Head,
        }
    }

    open spec fn spec_construct(d: TestEnumDestruct) -> TestEnum {
        match d.variants {
            DestructEnumVariant::Head(p, _) => TestEnum::CaseA(
                p.fields.head,
                p.fields.tail.head,
            ),
            DestructEnumVariant::Tail(t, _) => match t {
                DestructEnumVariant::Head(p, _) => TestEnum::CaseB {
                    a: p.fields.head,
                    b: p.fields.tail.head,
                },
                DestructEnumVariant::Tail(_, _) => arbitrary(),
            },
        }
    }

    proof fn lemma_destruct_well_formed(self) {
    }

    proof fn lemma_construct_destruct(self) {
    }

    proof fn lemma_destruct_construct(d: TestEnumDestruct) {
        assert(TestEnum::spec_construct(d).spec_destruct() =~~= d);
    }

    fn destruct(self) -> (d: TestEnumDestruct) {
        DestructEnumBegin::new(
            match self {
                TestEnum::CaseA(x, y) => DestructEnumVariant::new_head(
                    DestructBegin::new(
                        DestructField::new(x, DestructField::new(y, DestructEnd::new())),
                    ),
                ),
                TestEnum::CaseB { a, b } => DestructEnumVariant::new_tail(
                    DestructEnumVariant::new_head(
                        DestructBegin::new(
                            DestructField::new(a, DestructField::new(b, DestructEnd::new())),
                        ),
                    ),
                ),
            },
        )
    }

    fn construct(d: TestEnumDestruct) -> (r: TestEnum) {
        match d.variants {
            DestructEnumVariant::Head(p, _) => TestEnum::CaseA(
                p.fields.head,
                p.fields.tail.head,
            ),
            DestructEnumVariant::Tail(t, _) => match t {
                DestructEnumVariant::Head(p, _) => TestEnum::CaseB {
                    a: p.fields.head,
                    b: p.fields.tail.head,
                },
                DestructEnumVariant::Tail(_, _) => unreached(),
            },
        }
    }
}

/// Every decomposition the parser can yield for `TestEnum` holds a
/// variant: parsing the end-of-variants marker fails, so a parsed chain
/// is never all `Tail`.
pub proof fn lemma_test_enum_parses_well_formed(input: Seq<u8>, pos: int, d: TestEnumDestruct)
    requires
        <TestEnumDestruct as Parsable>::spec_value(input, pos, d),
    ensures
        TestEnum::spec_well_formed(d),
{
}

/// `TestEnum` parses as its decomposition, recomposed: the first declared
/// variant that parses wins.
impl Parsable for TestEnum {
    open spec fn spec_end(input: Seq<u8>, pos: int) -> Option<int> {
        <TestEnumDestruct as Parsable>::spec_end(input, pos)
    }

    open spec fn spec_value(input: Seq<u8>, pos: int, v: TestEnum) -> bool {
        <TestEnumDestruct as Parsable>::spec_value(input, pos, v.spec_destruct())
    }

    open spec fn spec_error(input: Seq<u8>, pos: int) -> ErrorModel {
        <TestEnumDestruct as Parsable>::spec_error(input, pos)
    }

    open spec fn spec_rewinds() -> bool {
        <TestEnumDestruct as Parsable>::spec_rewinds()
    }

    proof fn lemma_end_bounds(input: Seq<u8>, pos: int) {
        <TestEnumDestruct as Parsable>::lemma_end_bounds(input, pos);
    }

    fn parse(cursor: &mut Cursor) -> (r: Result<TestEnum, ParseError>) {
        let ghost input = cursor.bytes();
        let ghost start = cursor.position();
        proof {
            assert forall|i: Seq<u8>, p: int, d: TestEnumDestruct|
                #[trigger] <TestEnumDestruct as Parsable>::spec_value(i, p, d)
                implies TestEnum::spec_well_formed(d) by {
                lemma_test_enum_parses_well_formed(i, p, d);
            };
        }
        let r = parse_structural::<TestEnum>(cursor);
        proof {
            if let Ok(v) = &r {
                let v = *v;
                let d = choose|d: TestEnumDestruct|
                    {
                        &&& #[trigger] <TestEnumDestruct as Parsable>::spec_value(input, start, d)
                        &&& TestEnum::spec_well_formed(d)
                        &&& v == TestEnum::spec_construct(d)
                    };
                TestEnum::lemma_destruct_construct(d);
            }
        }
        r
    }
}

/// A union of two variants that share a one-byte prefix: a letter then a
/// digit, or a letter then a letter.  Choosing the second requires the
/// engine to rewind past the shared first byte after the first variant's
/// digit validation fails.
#[derive(Debug, PartialEq, Eq)]
pub enum TestEnum2 {
    /// The first declared variant: a letter, then a digit.
    CaseA(Validated<u8, IsAsciiLowerCase>, Validated<u8, IsAsciiDigit>),
    /// The second declared variant: two letters.
    CaseB(Validated<u8, IsAsciiLowerCase>, Validated<u8, IsAsciiLowerCase>),
}

/// Metadata of the enum `TestEnum2`.
#[derive(Debug, PartialEq, Eq)]
pub struct TestEnum2Meta;

impl DestructEnumMetadata for TestEnum2Meta {
    open spec fn spec_enum_name() -> Seq<char> {
        "TestEnum2"@
    }

    fn enum_name() -> (r: &'static str) {
        "TestEnum2"
    }
}

/// Metadata of variant `CaseA` of `TestEnum2`.
#[derive(Debug, PartialEq, Eq)]
pub struct TestEnum2CaseAMeta;

impl DestructMetadata for TestEnum2CaseAMeta {
    open spec fn spec_struct_name() -> Seq<char> {
        "TestEnum2::CaseA"@
    }

    open spec fn spec_named_fields() -> bool {
        false
    }

    fn struct_name() -> (r: &'static str) {
        "TestEnum2::CaseA"
    }

    fn named_fields() -> (r: bool) {
        false
    }
}

impl DestructEnumMetadata for TestEnum2CaseAMeta {
    open spec fn spec_enum_name() -> Seq<char> {
        "TestEnum2"@
    }

    fn enum_name() -> (r: &'static str) {
        "TestEnum2"
    }
}

impl DestructEnumVariantMetadata for TestEnum2CaseAMeta {
    open spec fn spec_variant_name() -> Seq<char> {
        "TestEnum2::CaseA"@
    }

    open spec fn spec_variant_index() -> int {
        0
    }

    fn variant_name() -> (r: &'static str) {
        "TestEnum2::CaseA"
    }

    fn variant_index() -> (r: usize) {
        0
    }
}

/// Metadata of the first positional field of `TestEnum2::CaseA`.
#[derive(Debug, PartialEq, Eq)]
pub struct TestEnum2CaseAField0Meta;

impl DestructMetadata for TestEnum2CaseAField0Meta {
    open spec fn spec_struct_name() -> Seq<char> {
        "TestEnum2::CaseA"@
    }

    open spec fn spec_named_fields() -> bool {
        false
    }

    fn struct_name() -> (r: &'static str) {
        "TestEnum2::CaseA"
    }

    fn named_fields() -> (r: bool) {
        false
    }
}

impl DestructFieldMetadata for TestEnum2CaseAField0Meta {
    open spec fn spec_field_name() -> Seq<char> {
        "unnamed_0"@
    }

    open spec fn spec_field_index() -> int {
        0
    }

    fn field_name() -> (r: &'static str) {
        "unnamed_0"
    }

    fn field_index() -> (r: usize) {
        0
    }
}

/// Metadata of the second positional field of `TestEnum2::CaseA`.
#[derive(Debug, PartialEq, Eq)]
pub struct TestEnum2CaseAField1Meta;

impl DestructMetadata for TestEnum2CaseAField1Meta {
    open spec fn spec_struct_name() -> Seq<char> {
        "TestEnum2::CaseA"@
    }

    open spec fn spec_named_fields() -> bool {
        false
    }

    fn struct_name() -> (r: &'static str) {
        "TestEnum2::CaseA"
    }

    fn named_fields() -> (r: bool) {
        false
    }
}

impl DestructFieldMetadata for TestEnum2CaseAField1Meta {
    open spec fn spec_field_name() -> Seq<char> {
        "unnamed_1"@
    }

    open spec fn spec_field_index() -> int {
        1
    }

    fn field_name() -> (r: &'static str) {
        "unnamed_1"
    }

    fn field_index() -> (r: usize) {
        1
    }
}

/// Metadata of variant `CaseB` of `TestEnum2`.
#[derive(Debug, PartialEq, Eq)]
pub struct TestEnum2CaseBMeta;

impl DestructMetadata for TestEnum2CaseBMeta {
    open spec fn spec_struct_name() -> Seq<char> {
        "TestEnum2::CaseB"@
    }

    open spec fn spec_named_fields() -> bool {
        false
    }

    fn struct_name() -> (r: &'static str) {
        "TestEnum2::CaseB"
    }

    fn named_fields() -> (r: bool) {
        false
    }
}

impl DestructEnumMetadata for TestEnum2CaseBMeta {
    open spec fn spec_enum_name() -> Seq<char> {
        "TestEnum2"@
    }

    fn enum_name() -> (r: &'static str) {
        "TestEnum2"
    }
}

impl DestructEnumVariantMetadata for TestEnum2CaseBMeta {
    open spec fn spec_variant_name() -> Seq<char> {
        "TestEnum2::CaseB"@
    }

    open spec fn spec_variant_index() -> int {
        1
    }

    fn variant_name() -> (r: &'static str) {
        "TestEnum2::CaseB"
    }

    fn variant_index() -> (r: usize) {
        1
    }
}

/// Metadata of the first positional field of `TestEnum2::CaseB`.
#[derive(Debug, PartialEq, Eq)]
pub struct TestEnum2CaseBField0Meta;

impl DestructMetadata for TestEnum2CaseBField0Meta {
    open spec fn spec_struct_name() -> Seq<char> {
        "TestEnum2::CaseB"@
    }

    open spec fn spec_named_fields() -> bool {
        false
    }

    fn struct_name() -> (r: &'static str) {
        "TestEnum2::CaseB"
    }

    fn named_fields() -> (r: bool) {
        false
    }
}

impl DestructFieldMetadata for TestEnum2CaseBField0Meta {
    open spec fn spec_field_name() -> Seq<char> {
        "unnamed_0"@
    }

    open spec fn spec_field_index() -> int {
        0
    }

    fn field_name() -> (r: &'static str) {
        "unnamed_0"
    }

    fn field_index() -> (r: usize) {
        0
    }
}

/// Metadata of the second positional field of `TestEnum2::CaseB`.
#[derive(Debug, PartialEq, Eq)]
pub struct TestEnum2CaseBField1Meta;

impl DestructMetadata for TestEnum2CaseBField1Meta {
    open spec fn spec_struct_name() -> Seq<char> {
        "TestEnum2::CaseB"@
    }

    open spec fn spec_named_fields() -> bool {
        false
    }

    fn struct_name() -> (r: &'static str) {
        "TestEnum2::CaseB"
    }

    fn named_fields() -> (r: bool) {
        false
    }
}

impl DestructFieldMetadata for TestEnum2CaseBField1Meta {
    open spec fn spec_field_name() -> Seq<char> {
        "unnamed_1"@
    }

    open spec fn spec_field_index() -> int {
        1
    }

    fn field_name() -> (r: &'static str) {
        "unnamed_1"
    }

    fn field_index() -> (r: usize) {
        1
    }
}

/// The decomposition of variant `TestEnum2::CaseA`, as a record.
pub type TestEnum2CaseADestruct = DestructBegin<
    DestructField<
        Validated<u8, IsAsciiLowerCase>,
        DestructField<
            Validated<u8, IsAsciiDigit>,
            DestructEnd<TestEnum2CaseAMeta>,
            TestEnum2CaseAField1Meta,
        >,
        TestEnum2CaseAField0Meta,
    >,
    TestEnum2CaseAMeta,
>;

/// The decomposition of variant `TestEnum2::CaseB`, as a record.
pub type TestEnum2CaseBDestruct = DestructBegin<
    DestructField<
        Validated<u8, IsAsciiLowerCase>,
        DestructField<
            Validated<u8, IsAsciiLowerCase>,
            DestructEnd<TestEnum2CaseBMeta>,
            TestEnum2CaseBField1Meta,
        >,
        TestEnum2CaseBField0Meta,
    >,
    TestEnum2CaseBMeta,
>;

/// The decomposition shape of `TestEnum2`.
pub type TestEnum2Destruct = DestructEnumBegin<
    DestructEnumVariant<
        TestEnum2CaseADestruct,
        DestructEnumVariant<
            TestEnum2CaseBDestruct,
            DestructEnumEnd<TestEnum2Meta>,
            TestEnum2CaseBMeta,
        >,
        TestEnum2CaseAMeta,
    >,
    TestEnum2Meta,
>;

impl Destruct for TestEnum2 {
    type DestructType = TestEnum2Destruct;

    open spec fn spec_destruct(self) -> TestEnum2Destruct {
        DestructEnumBegin {
            variants: match self {
                TestEnum2::CaseA(x, y) => DestructEnumVariant::Head(
                    DestructBegin {
                        fields: DestructField {
                            head: x,
                            tail: DestructField {
                                head: y,
                                tail: DestructEnd { meta: PhantomData },
                                meta: PhantomData,
                            },
                            meta: PhantomData,
                        },
                        meta: PhantomData,
                    },
                    PhantomData,
                ),
                TestEnum2::CaseB(x, y) => DestructEnumVariant::Tail(
                    DestructEnumVariant::Head(
                        DestructBegin {
                            fields: DestructField {
                                head: x,
                                tail: DestructField {
                                    head: y,
                                    tail: DestructEnd { meta: PhantomData },
                                    meta: PhantomData,
                                },
                                meta: PhantomData,
                            },
                            meta: PhantomData,
                        },
                        PhantomData,
                    ),
                    PhantomData,
                ),
            },
            meta: PhantomData,
        }
    }

    open spec fn spec_well_formed(d: TestEnum2Destruct) -> bool {
        match d.variants {
            DestructEnumVariant::Head(_, _) => true,
            DestructEnumVariant::Tail(t, _) => t is Head,
        }
    }

    open spec fn spec_construct(d: TestEnum2Destruct) -> TestEnum2 {
        match d.variants {
            DestructEnumVariant::Head(p, _) => TestEnum2::CaseA(
                p.fields.head,
                p.fields.tail.head,
            ),
            DestructEnumVariant::Tail(t, _) => match t {
                DestructEnumVariant::Head(p, _) => TestEnum2::CaseB(
                    p.fields.head,
                    p.fields.tail.head,
                ),
                DestructEnumVariant::Tail(_, _) => arbitrary(),
            },
        }
    }

    proof fn lemma_destruct_well_formed(self) {
    }

    proof fn lemma_construct_destruct(self) {
    }

    proof fn lemma_destruct_construct(d: TestEnum2Destruct) {
        assert(TestEnum2::spec_construct(d).spec_destruct() =~~= d);
    }

    fn destruct(self) -> (d: TestEnum2Destruct) {
        DestructEnumBegin::new(
            match self {
                TestEnum2::CaseA(x, y) => DestructEnumVariant::new_head(
                    DestructBegin::new(
                        DestructField::new(x, DestructField::new(y, DestructEnd::new())),
                    ),
                ),
                TestEnum2::CaseB(x, y) => DestructEnumVariant::new_tail(
                    DestructEnumVariant::new_head(
                        DestructBegin::new(
                            DestructField::new(x, DestructField::new(y, DestructEnd::new())),
                        ),
                    ),
                ),
            },
        )
    }

    fn construct(d: TestEnum2Destruct) -> (r: TestEnum2) {
        match d.variants {
            DestructEnumVariant::Head(p, _) => TestEnum2::CaseA(
                p.fields.head,
                p.fields.tail.head,
            ),
            DestructEnumVariant::Tail(t, _) => match t {
                DestructEnumVariant::Head(p, _) => TestEnum2::CaseB(
                    p.fields.head,
                    p.fields.tail.head,
                ),
                DestructEnumVariant::Tail(_, _) => unreached(),
            },
        }
    }
}

/// Every decomposition the parser can yield for `TestEnum2` holds a
/// variant.
pub proof fn lemma_test_enum2_parses_well_formed(input: Seq<u8>, pos: int, d: TestEnum2Destruct)
    requires
        <TestEnum2Destruct as Parsable>::spec_value(input, pos, d),
    ensures
        TestEnum2::spec_well_formed(d),
{
}

/// `TestEnum2` parses as its decomposition, recomposed.
impl Parsable for TestEnum2 {
    open spec fn spec_end(input: Seq<u8>, pos: int) -> Option<int> {
        <TestEnum2Destruct as Parsable>::spec_end(input, pos)
    }

    open spec fn spec_value(input: Seq<u8>, pos: int, v: TestEnum2) -> bool {
        <TestEnum2Destruct as Parsable>::spec_value(input, pos, v.spec_destruct())
    }

    open spec fn spec_error(input: Seq<u8>, pos: int) -> ErrorModel {
        <TestEnum2Destruct as Parsable>::spec_error(input, pos)
    }

    open spec fn spec_rewinds() -> bool {
        <TestEnum2Destruct as Parsable>::spec_rewinds()
    }

    proof fn lemma_end_bounds(input: Seq<u8>, pos: int) {
        <TestEnum2Destruct as Parsable>::lemma_end_bounds(input, pos);
    }

    fn parse(cursor: &mut Cursor) -> (r: Result<TestEnum2, ParseError>) {
        let ghost input = cursor.bytes();
        let ghost start = cursor.position();
        proof {
            assert forall|i: Seq<u8>, p: int, d: TestEnum2Destruct|
                #[trigger] <TestEnum2Destruct as Parsable>::spec_value(i, p, d)
                implies TestEnum2::spec_well_formed(d) by {
                lemma_test_enum2_parses_well_formed(i, p, d);
            };
        }
        let r = parse_structural::<TestEnum2>(cursor);
        proof {
            if let Ok(v) = &r {
                let v = *v;
                let d = choose|d: TestEnum2Destruct|
                    {
                        &&& #[trigger] <TestEnum2Destruct as Parsable>::spec_value(input, start, d)
                        &&& TestEnum2::spec_well_formed(d)
                        &&& v == TestEnum2::spec_construct(d)
                    };
                TestEnum2::lemma_destruct_construct(d);
            }
        }
        r
    }
}

} // verus!
