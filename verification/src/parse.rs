use vstd::prelude::*;

use crate::chain::DestructBegin;
use crate::chain::DestructEnd;
use crate::chain::DestructEnumBegin;
use crate::chain::DestructEnumEnd;
use crate::chain::DestructEnumVariant;
use crate::chain::DestructField;
use crate::cursor::Cursor;
use crate::error::EnumParseError;
use crate::error::ErrorModel;
use crate::error::ParseError;
use crate::meta::DestructEnumMetadata;
use crate::meta::DestructEnumVariantMetadata;
use crate::meta::DestructFieldMetadata;
use crate::meta::DestructMetadata;

verus! {

/// A type that can be parsed off a byte cursor.
///
/// The spec functions fix the behaviour of [`Parsable::parse`] completely:
/// `spec_end` says on which inputs parsing succeeds and where it leaves
/// the position, `spec_value` says which values it may return, and
/// `spec_error` says which failure it reports.  `spec_rewinds` marks the
/// parsers that restore the position exactly when they fail (scalar,
/// validated and variant parses do; a half-consumed field chain leaves the
/// rewinding to the nearest enclosing backtracking point).
pub trait Parsable: Sized {
    /// Where a successful parse starting at `pos` ends, or `None` when the
    /// parse fails there.
    spec fn spec_end(input: Seq<u8>, pos: int) -> Option<int>;

    /// Whether `v` is a value that a successful parse at `pos` yields.
    spec fn spec_value(input: Seq<u8>, pos: int, v: Self) -> bool;

    /// The failure that a failing parse at `pos` reports.
    spec fn spec_error(input: Seq<u8>, pos: int) -> ErrorModel;

    /// Whether a failing parse restores the position it started from.
    spec fn spec_rewinds() -> bool;

    /// A successful parse never moves backwards nor past the end.
    proof fn lemma_end_bounds(input: Seq<u8>, pos: int)
        requires
            0 <= pos <= input.len(),
        ensures
            match Self::spec_end(input, pos) {
                Some(end) => pos <= end <= input.len(),
                None => true,
            },
    ;

    /// Parse one `Self` off the cursor.  On success the position advances
    /// exactly past the consumed bytes; on failure the input is untouched
    /// and the position never moves backwards, so an enclosing
    /// backtracking point can restore its own snapshot.
    fn parse(cursor: &mut Cursor) -> (r: Result<Self, ParseError>)
        requires
            old(cursor).wf(),
        ensures
            final(cursor).wf(),
            final(cursor).bytes() == old(cursor).bytes(),
            old(cursor).position() <= final(cursor).position(),
            match r {
                Ok(v) => {
                    &&& Self::spec_end(old(cursor).bytes(), old(cursor).position())
                        == Some(final(cursor).position())
                    &&& Self::spec_value(old(cursor).bytes(), old(cursor).position(), v)
                },
                Err(e) => {
                    &&& Self::spec_end(old(cursor).bytes(), old(cursor).position()) is None
                    &&& e.model() == Self::spec_error(old(cursor).bytes(), old(cursor).position())
                    &&& Self::spec_rewinds() ==> final(cursor).position() == old(cursor).position()
                },
            },
    ;
}

/// A parser whose admissible value at any position is unique.
///
/// Every node parser of this library is deterministic in this sense except
/// the repetition parser, whose result is a `Vec` and so is pinned only up
/// to its contents.  A validator needs a single well-defined candidate
/// value, so validated parsing is offered for these parsers.
pub trait ParsesUniquely: Parsable {
    /// Two admissible values at one position are the same value.
    proof fn lemma_value_unique(input: Seq<u8>, pos: int, v1: Self, v2: Self)
        requires
            Self::spec_value(input, pos, v1),
            Self::spec_value(input, pos, v2),
        ensures
            v1 == v2,
    ;
}

/// The value that a successful parse of `T` at `pos` yields, when `T`
/// parses uniquely.
pub open spec fn parsed_value<T: Parsable>(input: Seq<u8>, pos: int) -> T {
    choose|v: T| T::spec_value(input, pos, v)
}

/// One byte, consumed as-is.  This is the scalar leaf parser: it fails
/// exactly at the end of the input, consuming nothing.
impl Parsable for u8 {
    open spec fn spec_end(input: Seq<u8>, pos: int) -> Option<int> {
        if pos < input.len() {
            Some(pos + 1)
        } else {
            None
        }
    }

    open spec fn spec_value(input: Seq<u8>, pos: int, v: u8) -> bool {
        pos < input.len() && v == input[pos]
    }

    open spec fn spec_error(input: Seq<u8>, pos: int) -> ErrorModel {
        ErrorModel::EndOfInput
    }

    open spec fn spec_rewinds() -> bool {
        true
    }

    proof fn lemma_end_bounds(input: Seq<u8>, pos: int) {
    }

    fn parse(cursor: &mut Cursor) -> (r: Result<u8, ParseError>) {
        match cursor.read_byte() {
            Some(b) => Ok(b),
            None => Err(ParseError::EndOfInput),
        }
    }
}

impl ParsesUniquely for u8 {
    proof fn lemma_value_unique(input: Seq<u8>, pos: int, v1: u8, v2: u8) {
    }
}

/// The end of a field chain parses trivially: it consumes nothing and
/// always succeeds.
impl<M: DestructMetadata> Parsable for DestructEnd<M> {
    open spec fn spec_end(input: Seq<u8>, pos: int) -> Option<int> {
        Some(pos)
    }

    open spec fn spec_value(input: Seq<u8>, pos: int, v: Self) -> bool {
        true
    }

    // This parser cannot fail, so no failure description is ever
    // reported.
    open spec fn spec_error(input: Seq<u8>, pos: int) -> ErrorModel {
        ErrorModel::EndOfInput
    }

    open spec fn spec_rewinds() -> bool {
        true
    }

    proof fn lemma_end_bounds(input: Seq<u8>, pos: int) {
    }

    fn parse(cursor: &mut Cursor) -> (r: Result<Self, ParseError>) {
        Ok(DestructEnd::new())
    }
}

impl<M: DestructMetadata> ParsesUniquely for DestructEnd<M> {
    proof fn lemma_value_unique(input: Seq<u8>, pos: int, v1: Self, v2: Self) {
    }
}

/// A field node parses its head, then the remaining chain, in declaration
/// order.  If the head fails the chain fails without attempting the tail;
/// a failure does not rewind past bytes the head already consumed, that
/// being the enclosing backtracking point's job.
impl<H: Parsable, T: Parsable, M: DestructFieldMetadata> Parsable for DestructField<H, T, M> {
    open spec fn spec_end(input: Seq<u8>, pos: int) -> Option<int> {
        match H::spec_end(input, pos) {
            Some(mid) => T::spec_end(input, mid),
            None => None,
        }
    }

    open spec fn spec_value(input: Seq<u8>, pos: int, v: Self) -> bool {
        match H::spec_end(input, pos) {
            Some(mid) => H::spec_value(input, pos, v.head) && T::spec_value(input, mid, v.tail),
            None => false,
        }
    }

    open spec fn spec_error(input: Seq<u8>, pos: int) -> ErrorModel {
        match H::spec_end(input, pos) {
            Some(mid) => T::spec_error(input, mid),
            None => H::spec_error(input, pos),
        }
    }

    open spec fn spec_rewinds() -> bool {
        false
    }

    proof fn lemma_end_bounds(input: Seq<u8>, pos: int) {
        H::lemma_end_bounds(input, pos);
        if let Some(mid) = H::spec_end(input, pos) {
            T::lemma_end_bounds(input, mid);
        }
    }

    fn parse(cursor: &mut Cursor) -> (r: Result<Self, ParseError>) {
        let head = match H::parse(cursor) {
            Ok(h) => h,
            Err(e) => {
                return Err(e);
            },
        };
        let tail = match T::parse(cursor) {
            Ok(t) => t,
            Err(e) => {
                return Err(e);
            },
        };
        Ok(DestructField::new(head, tail))
    }
}

impl<H: ParsesUniquely, T: ParsesUniquely, M: DestructFieldMetadata> ParsesUniquely for DestructField<
    H,
    T,
    M,
> {
    proof fn lemma_value_unique(input: Seq<u8>, pos: int, v1: Self, v2: Self) {
        let mid = H::spec_end(input, pos)->Some_0;
        H::lemma_value_unique(input, pos, v1.head, v2.head);
        T::lemma_value_unique(input, mid, v1.tail, v2.tail);
    }
}

/// A record decomposition parses as its field chain.
impl<F: Parsable, M: DestructMetadata> Parsable for DestructBegin<F, M> {
    open spec fn spec_end(input: Seq<u8>, pos: int) -> Option<int> {
        F::spec_end(input, pos)
    }

    open spec fn spec_value(input: Seq<u8>, pos: int, v: Self) -> bool {
        F::spec_value(input, pos, v.fields)
    }

    open spec fn spec_error(input: Seq<u8>, pos: int) -> ErrorModel {
        F::spec_error(input, pos)
    }

    open spec fn spec_rewinds() -> bool {
        F::spec_rewinds()
    }

    proof fn lemma_end_bounds(input: Seq<u8>, pos: int) {
        F::lemma_end_bounds(input, pos);
    }

    fn parse(cursor: &mut Cursor) -> (r: Result<Self, ParseError>) {
        match F::parse(cursor) {
            Ok(fields) => Ok(DestructBegin::new(fields)),
            Err(e) => Err(e),
        }
    }
}

impl<F: ParsesUniquely, M: DestructMetadata> ParsesUniquely for DestructBegin<F, M> {
    proof fn lemma_value_unique(input: Seq<u8>, pos: int, v1: Self, v2: Self) {
        F::lemma_value_unique(input, pos, v1.fields, v2.fields);
    }
}

/// The end of a variant chain: reached only when every declared variant
/// has been attempted and rejected, so parsing it is definitionally the
/// enum-exhausted failure, consuming nothing.
impl<M: DestructEnumMetadata> Parsable for DestructEnumEnd<M> {
    open spec fn spec_end(input: Seq<u8>, pos: int) -> Option<int> {
        None
    }

    open spec fn spec_value(input: Seq<u8>, pos: int, v: Self) -> bool {
        false
    }

    open spec fn spec_error(input: Seq<u8>, pos: int) -> ErrorModel {
        ErrorModel::EnumExhausted(M::spec_enum_name())
    }

    open spec fn spec_rewinds() -> bool {
        true
    }

    proof fn lemma_end_bounds(input: Seq<u8>, pos: int) {
    }

    fn parse(cursor: &mut Cursor) -> (r: Result<Self, ParseError>) {
        Err(ParseError::EnumExhausted(EnumParseError(M::enum_name())))
    }
}

impl<M: DestructEnumMetadata> ParsesUniquely for DestructEnumEnd<M> {
    proof fn lemma_value_unique(input: Seq<u8>, pos: int, v1: Self, v2: Self) {
    }
}

/// The backtracking choice: attempt this position's variant against a
/// snapshot of the cursor; on success wrap it as `Head` and stop — no
/// further candidate is tried.  On failure restore the snapshot exactly
/// and parse the remaining candidates as `Tail`.
impl<H: Parsable, T: Parsable, M: DestructEnumVariantMetadata> Parsable for DestructEnumVariant<
    H,
    T,
    M,
> {
    open spec fn spec_end(input: Seq<u8>, pos: int) -> Option<int> {
        match H::spec_end(input, pos) {
            Some(end) => Some(end),
            None => T::spec_end(input, pos),
        }
    }

    open spec fn spec_value(input: Seq<u8>, pos: int, v: Self) -> bool {
        match v {
            DestructEnumVariant::Head(h, _) => H::spec_end(input, pos) is Some && H::spec_value(
                input,
                pos,
                h,
            ),
            DestructEnumVariant::Tail(t, _) => H::spec_end(input, pos) is None && T::spec_value(
                input,
                pos,
                t,
            ),
        }
    }

    open spec fn spec_error(input: Seq<u8>, pos: int) -> ErrorModel {
        T::spec_error(input, pos)
    }

    open spec fn spec_rewinds() -> bool {
        T::spec_rewinds()
    }

    proof fn lemma_end_bounds(input: Seq<u8>, pos: int) {
        H::lemma_end_bounds(input, pos);
        T::lemma_end_bounds(input, pos);
    }

    fn parse(cursor: &mut Cursor) -> (r: Result<Self, ParseError>) {
        let snapshot = cursor.mark();
        match H::parse(cursor) {
            Ok(h) => Ok(DestructEnumVariant::new_head(h)),
            Err(_) => {
                cursor.restore(snapshot);
                match T::parse(cursor) {
                    Ok(t) => Ok(DestructEnumVariant::new_tail(t)),
                    Err(e) => Err(e),
                }
            },
        }
    }
}

impl<H: ParsesUniquely, T: ParsesUniquely, M: DestructEnumVariantMetadata> ParsesUniquely for DestructEnumVariant<
    H,
    T,
    M,
> {
    proof fn lemma_value_unique(input: Seq<u8>, pos: int, v1: Self, v2: Self) {
        match (v1, v2) {
            (DestructEnumVariant::Head(h1, _), DestructEnumVariant::Head(h2, _)) => {
                H::lemma_value_unique(input, pos, h1, h2);
            },
            (DestructEnumVariant::Tail(t1, _), DestructEnumVariant::Tail(t2, _)) => {
                T::lemma_value_unique(input, pos, t1, t2);
            },
            _ => {
            },
        }
    }
}

/// A union decomposition parses as its variant chain.
impl<T: Parsable, M: DestructEnumMetadata> Parsable for DestructEnumBegin<T, M> {
    open spec fn spec_end(input: Seq<u8>, pos: int) -> Option<int> {
        T::spec_end(input, pos)
    }

    open spec fn spec_value(input: Seq<u8>, pos: int, v: Self) -> bool {
        T::spec_value(input, pos, v.variants)
    }

    open spec fn spec_error(input: Seq<u8>, pos: int) -> ErrorModel {
        T::spec_error(input, pos)
    }

    open spec fn spec_rewinds() -> bool {
        T::spec_rewinds()
    }

    proof fn lemma_end_bounds(input: Seq<u8>, pos: int) {
        T::lemma_end_bounds(input, pos);
    }

    fn parse(cursor: &mut Cursor) -> (r: Result<Self, ParseError>) {
        match T::parse(cursor) {
            Ok(variants) => Ok(DestructEnumBegin::new(variants)),
            Err(e) => Err(e),
        }
    }
}

impl<T: ParsesUniquely, M: DestructEnumMetadata> ParsesUniquely for DestructEnumBegin<T, M> {
    proof fn lemma_value_unique(input: Seq<u8>, pos: int, v1: Self, v2: Self) {
        T::lemma_value_unique(input, pos, v1.variants, v2.variants);
    }
}

/// First-match-wins: when this position's variant parses, the chain takes
/// it and never reaches a later candidate — any admissible chain value is
/// `Head`, holding this variant's parse, and the chain ends exactly where
/// this variant's parse ends.
pub proof fn lemma_first_match_wins<H: Parsable, T: Parsable, M: DestructEnumVariantMetadata>(
    input: Seq<u8>,
    pos: int,
    v: DestructEnumVariant<H, T, M>,
)
    requires
        H::spec_end(input, pos) is Some,
        <DestructEnumVariant<H, T, M> as Parsable>::spec_value(input, pos, v),
    ensures
        v matches DestructEnumVariant::Head(h, _) && H::spec_value(input, pos, h),
        <DestructEnumVariant<H, T, M> as Parsable>::spec_end(input, pos) == H::spec_end(
            input,
            pos,
        ),
{
}

/// Cursor rewind exactness for the backtracking chain: a failing scalar
/// parse, and a failing variant chain whose last resort (the end marker)
/// consumes nothing, restore the position exactly — `spec_rewinds` marks
/// them, and the contract of [`Parsable::parse`] turns the mark into the
/// exact-rewind guarantee on every failure.
pub proof fn lemma_failed_parse_rewinds<
    H: Parsable,
    T: Parsable,
    M: DestructEnumVariantMetadata,
    ME: DestructEnumMetadata,
>()
    ensures
        <u8 as Parsable>::spec_rewinds(),
        <DestructEnumEnd<ME> as Parsable>::spec_rewinds(),
        <DestructEnumVariant<H, T, M> as Parsable>::spec_rewinds() == T::spec_rewinds(),
        <DestructEnumBegin<T, ME> as Parsable>::spec_rewinds() == T::spec_rewinds(),
{
}

/// The mirror of first-match-wins: a later candidate is reached only when
/// this position's variant has failed to parse.
pub proof fn lemma_later_variant_needs_failure<
    H: Parsable,
    T: Parsable,
    M: DestructEnumVariantMetadata,
>(input: Seq<u8>, pos: int, v: DestructEnumVariant<H, T, M>)
    requires
        <DestructEnumVariant<H, T, M> as Parsable>::spec_value(input, pos, v),
        v is Tail,
    ensures
        H::spec_end(input, pos) is None,
{
}

} // verus!
