use vstd::prelude::*;

verus! {

/// A type with a canonical decomposition into an ordered field chain (for
/// records) or variant chain (for unions).
///
/// The decomposition and recomposition functions for a concrete type are
/// emitted by the code-generation collaborator, one pair per type, but
/// their behaviour is fixed here: decomposing walks the declared fields
/// (or the matched variant) in declaration order, recomposing is the
/// exact mirror walk, and the two round-trip laws hold for every
/// implementation.
pub trait Destruct: Sized {
    /// The decomposed form of `Self`: a [`crate::chain::DestructBegin`]
    /// over the type's fields, or a [`crate::chain::DestructEnumBegin`]
    /// over its variants.
    type DestructType;

    /// The canonical decomposition of a value.
    spec fn spec_destruct(self) -> Self::DestructType;

    /// Whether `d` recomposes: for a union, the variant chain must
    /// actually hold a variant.  Every decomposition obtained by
    /// decomposing a value, or by parsing, is well formed; one built by
    /// hand out of `Tail` nodes alone is not, and recomposing it would be
    /// a contract violation rather than a data error.
    spec fn spec_well_formed(d: Self::DestructType) -> bool;

    /// The value a well-formed decomposition recomposes into.
    spec fn spec_construct(d: Self::DestructType) -> Self;

    /// Decomposing a value always yields a well-formed decomposition.
    proof fn lemma_destruct_well_formed(self)
        ensures
            Self::spec_well_formed(self.spec_destruct()),
    ;

    /// Round-trip law: recomposing a value's decomposition gives the
    /// value back.
    proof fn lemma_construct_destruct(self)
        ensures
            Self::spec_construct(self.spec_destruct()) == self,
    ;

    /// Round-trip law, mirror direction: decomposing what a well-formed
    /// decomposition recomposes into gives the decomposition back.
    proof fn lemma_destruct_construct(d: Self::DestructType)
        requires
            Self::spec_well_formed(d),
        ensures
            Self::spec_construct(d).spec_destruct() == d,
    ;

    /// Decompose `self`.  Pure and total: decomposition never fails.
    fn destruct(self) -> (d: Self::DestructType)
        ensures
            d == self.spec_destruct(),
    ;

    /// Recompose a decomposition into the value it came from.  Callers
    /// must hand in a well-formed decomposition: recomposition of an
    /// all-`Tail` variant chain is a programming-contract breach, which
    /// this library rules out before the call instead of failing at run
    /// time.
    fn construct(d: Self::DestructType) -> (r: Self)
        requires
            Self::spec_well_formed(d),
        ensures
            r == Self::spec_construct(d),
    ;
}

} // verus!
