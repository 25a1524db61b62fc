use vstd::prelude::*;

verus! {

/// Compile-time description of one record type: its declared name and
/// whether its fields are accessed by name (vs. positionally).
///
/// Implementations are zero-sized marker types, one per decomposed record
/// type, emitted by the code-generation collaborator together with the
/// decomposition itself.  The queries are static and side-effect-free;
/// the spec functions fix what the executable accessors return.
pub trait DestructMetadata: Sized {
    /// The declared name of the struct.
    spec fn spec_struct_name() -> Seq<char>;

    /// Whether the fields are named (vs. positional).
    spec fn spec_named_fields() -> bool;

    /// The declared name of the struct.
    fn struct_name() -> (r: &'static str)
        ensures
            r@ == Self::spec_struct_name(),
    ;

    /// Whether the fields are named (vs. positional).
    fn named_fields() -> (r: bool)
        ensures
            r == Self::spec_named_fields(),
    ;
}

/// Description of one field of a record type: its name and its 0-based
/// index in declaration order, beside the enclosing struct's description.
pub trait DestructFieldMetadata: DestructMetadata {
    /// The declared name of the field (a positional field is named after
    /// its index).
    spec fn spec_field_name() -> Seq<char>;

    /// The 0-based index of the field, in declaration order.
    spec fn spec_field_index() -> int;

    /// The declared name of the field.
    fn field_name() -> (r: &'static str)
        ensures
            r@ == Self::spec_field_name(),
    ;

    /// The 0-based index of the field, in declaration order.
    fn field_index() -> (r: usize)
        ensures
            r as int == Self::spec_field_index(),
    ;
}

/// Compile-time description of one union type: its declared name.
pub trait DestructEnumMetadata: Sized {
    /// The declared name of the enum.
    spec fn spec_enum_name() -> Seq<char>;

    /// The declared name of the enum.
    fn enum_name() -> (r: &'static str)
        ensures
            r@ == Self::spec_enum_name(),
    ;
}

/// Description of one variant of a union type: its name and its 0-based
/// index in declaration order, beside the enclosing enum's description.
pub trait DestructEnumVariantMetadata: DestructEnumMetadata {
    /// The declared name of the variant.
    spec fn spec_variant_name() -> Seq<char>;

    /// The 0-based index of the variant, in declaration order.
    spec fn spec_variant_index() -> int;

    /// The declared name of the variant.
    fn variant_name() -> (r: &'static str)
        ensures
            r@ == Self::spec_variant_name(),
    ;

    /// The 0-based index of the variant, in declaration order.
    fn variant_index() -> (r: usize)
        ensures
            r as int == Self::spec_variant_index(),
    ;
}

} // verus!
