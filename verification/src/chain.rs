use vstd::prelude::*;

use core::marker::PhantomData;

use crate::meta::DestructEnumMetadata;
use crate::meta::DestructEnumVariantMetadata;
use crate::meta::DestructFieldMetadata;
use crate::meta::DestructMetadata;

verus! {

/// The decomposed form of one record value: a right-nested chain of
/// [`DestructField`] nodes terminated by a [`DestructEnd`], one field node
/// per declared field, in declaration order.
///
/// The metadata marker `M` ties the chain to the record type it came from.
#[derive(Debug, PartialEq, Eq)]
#[verifier::ext_equal]
pub struct DestructBegin<T, M: DestructMetadata> {
    /// The chain of field nodes.
    pub fields: T,
    /// Marker for the enclosing struct's metadata.
    pub meta: PhantomData<M>,
}

impl<T, M: DestructMetadata> DestructBegin<T, M> {
    /// Wrap a field chain.
    pub fn new(fields: T) -> (d: Self)
        ensures
            d == (DestructBegin { fields, meta: PhantomData::<M> }),
    {
        DestructBegin { fields, meta: PhantomData }
    }

    /// The declared name of the decomposed struct.
    pub fn struct_name(&self) -> (r: &'static str)
        ensures
            r@ == M::spec_struct_name(),
    {
        M::struct_name()
    }
}

/// One field of a decomposed record: the field's value (`head`) and the
/// chain of the remaining fields (`tail`).
#[derive(Debug, PartialEq, Eq)]
#[verifier::ext_equal]
pub struct DestructField<H, T, M: DestructFieldMetadata> {
    /// The value of this field.
    pub head: H,
    /// The remaining fields, ending in [`DestructEnd`].
    pub tail: T,
    /// Marker for this field's metadata.
    pub meta: PhantomData<M>,
}

impl<H, T, M: DestructFieldMetadata> DestructField<H, T, M> {
    /// Build a field node from the field's value and the remaining chain.
    pub fn new(head: H, tail: T) -> (d: Self)
        ensures
            d == (DestructField { head, tail, meta: PhantomData::<M> }),
    {
        DestructField { head, tail, meta: PhantomData }
    }

    /// The declared name of the enclosing struct.
    pub fn struct_name(&self) -> (r: &'static str)
        ensures
            r@ == M::spec_struct_name(),
    {
        M::struct_name()
    }

    /// The declared name of this field.
    pub fn field_name(&self) -> (r: &'static str)
        ensures
            r@ == M::spec_field_name(),
    {
        M::field_name()
    }

    /// The 0-based index of this field, in declaration order.
    pub fn field_index(&self) -> (r: usize)
        ensures
            r as int == M::spec_field_index(),
    {
        M::field_index()
    }
}

/// Terminal marker of a field chain.  A chain for a type with N fields
/// holds exactly N [`DestructField`] nodes and then exactly one end marker.
#[derive(Debug, PartialEq, Eq)]
#[verifier::ext_equal]
pub struct DestructEnd<M: DestructMetadata> {
    /// Marker for the enclosing struct's metadata.
    pub meta: PhantomData<M>,
}

impl<M: DestructMetadata> DestructEnd<M> {
    /// Build the end marker.
    pub fn new() -> (d: Self)
        ensures
            d == (DestructEnd::<M> { meta: PhantomData }),
    {
        DestructEnd { meta: PhantomData }
    }

    /// The declared name of the enclosing struct.
    pub fn struct_name(&self) -> (r: &'static str)
        ensures
            r@ == M::spec_struct_name(),
    {
        M::struct_name()
    }
}

/// The decomposed form of one union value: wraps a right-nested chain of
/// [`DestructEnumVariant`] nodes terminated by a [`DestructEnumEnd`], one
/// node per declared variant, in declaration order.
#[derive(Debug, PartialEq, Eq)]
#[verifier::ext_equal]
pub struct DestructEnumBegin<T, M: DestructEnumMetadata> {
    /// The chain of variant nodes.
    pub variants: T,
    /// Marker for the enum's metadata.
    pub meta: PhantomData<M>,
}

impl<T, M: DestructEnumMetadata> DestructEnumBegin<T, M> {
    /// Wrap a variant chain.
    pub fn new(variants: T) -> (d: Self)
        ensures
            d == (DestructEnumBegin { variants, meta: PhantomData::<M> }),
    {
        DestructEnumBegin { variants, meta: PhantomData }
    }

    /// The declared name of the decomposed enum.
    pub fn enum_name() -> (r: &'static str)
        ensures
            r@ == M::spec_enum_name(),
    {
        M::enum_name()
    }
}

/// One position of a decomposed union's variant chain: either this
/// position's variant is the one the value holds (`Head`, wrapping that
/// variant's own record decomposition), or the value lives further down
/// the chain (`Tail`).  Exactly one of the two is populated.
#[derive(Debug, PartialEq, Eq)]
#[verifier::ext_equal]
pub enum DestructEnumVariant<H, T, M: DestructEnumVariantMetadata> {
    /// The value holds this position's variant; the payload is that
    /// variant's record decomposition.
    Head(H, PhantomData<M>),
    /// The value holds one of the later variants.
    Tail(T, PhantomData<M>),
}

impl<H, T, M: DestructEnumVariantMetadata> DestructEnumVariant<H, T, M> {
    /// Wrap a matched variant's decomposition.
    pub fn new_head(h: H) -> (v: Self)
        ensures
            v == DestructEnumVariant::<H, T, M>::Head(h, PhantomData),
    {
        DestructEnumVariant::Head(h, PhantomData)
    }

    /// Wrap the remaining candidates' chain.
    pub fn new_tail(t: T) -> (v: Self)
        ensures
            v == DestructEnumVariant::<H, T, M>::Tail(t, PhantomData),
    {
        DestructEnumVariant::Tail(t, PhantomData)
    }

    /// The declared name of the enclosing enum.
    pub fn enum_name() -> (r: &'static str)
        ensures
            r@ == M::spec_enum_name(),
    {
        M::enum_name()
    }

    /// The declared name of this position's variant.
    pub fn variant_name() -> (r: &'static str)
        ensures
            r@ == M::spec_variant_name(),
    {
        M::variant_name()
    }

    /// The 0-based index of this position's variant, in declaration order.
    pub fn variant_index() -> (r: usize)
        ensures
            r as int == M::spec_variant_index(),
    {
        M::variant_index()
    }
}

/// Terminal marker of a variant chain.  Reaching it while parsing means no
/// variant matched; holding it in a decomposition that is being recomposed
/// means the decomposition was never produced by decomposing a value.
#[derive(Debug, PartialEq, Eq)]
#[verifier::ext_equal]
pub struct DestructEnumEnd<M: DestructEnumMetadata> {
    /// Marker for the enum's metadata.
    pub meta: PhantomData<M>,
}

impl<M: DestructEnumMetadata> DestructEnumEnd<M> {
    /// Build the end marker.
    pub fn new() -> (d: Self)
        ensures
            d == (DestructEnumEnd::<M> { meta: PhantomData }),
    {
        DestructEnumEnd { meta: PhantomData }
    }

    /// The declared name of the enclosing enum.
    pub fn enum_name(&self) -> (r: &'static str)
        ensures
            r@ == M::spec_enum_name(),
    {
        M::enum_name()
    }
}

} // verus!
