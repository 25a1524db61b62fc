use vstd::prelude::*;

use core::marker::PhantomData;

use crate::cursor::Cursor;
use crate::error::ErrorModel;
use crate::error::ParseError;
use crate::error::ValidateError;
use crate::parse::parsed_value;
use crate::parse::Parsable;
use crate::parse::ParsesUniquely;

verus! {

/// A named, pure predicate gating acceptance of a parsed leaf value.
///
/// Implementations are zero-sized marker types; the predicate is total and
/// side-effect-free, and the description names it in validation failures.
pub trait Validator<T>: Sized {
    /// The predicate.
    spec fn spec_validate(v: T) -> bool;

    /// The name under which failures of the predicate are reported.
    spec fn spec_description() -> Seq<char>;

    /// The predicate.
    fn validate(value: &T) -> (r: bool)
        ensures
            r == Self::spec_validate(*value),
    ;

    /// The name under which failures of the predicate are reported.
    fn description() -> (r: &'static str)
        ensures
            r@ == Self::spec_description(),
    ;
}

/// A value paired with a validator.  Obtained through parsing, the value
/// is guaranteed to satisfy the predicate; built directly through
/// [`Validated::new`], nothing is checked and the guarantee is the
/// caller's responsibility.
#[derive(Debug, PartialEq, Eq)]
#[verifier::ext_equal]
pub struct Validated<T, F: Validator<T>> {
    /// The value.
    pub value: T,
    /// Marker for the validator.
    pub validator: PhantomData<F>,
}

impl<T, F: Validator<T>> Validated<T, F> {
    /// Wrap a value without checking the predicate.
    pub fn new(value: T) -> (v: Self)
        ensures
            v == (Validated { value, validator: PhantomData::<F> }),
    {
        Validated { value, validator: PhantomData }
    }
}

/// Validated parsing: parse a `T`, then gate it through the predicate.
/// Either failure — the inner parse or the predicate — rewinds the cursor
/// exactly to where this parse began.
///
/// The inner parser must parse uniquely: the predicate's verdict is part
/// of this parser's success condition, so it has to be a well-defined
/// function of the input and position.
impl<T: ParsesUniquely, F: Validator<T>> Parsable for Validated<T, F> {
    open spec fn spec_end(input: Seq<u8>, pos: int) -> Option<int> {
        match T::spec_end(input, pos) {
            Some(end) => {
                if F::spec_validate(parsed_value::<T>(input, pos)) {
                    Some(end)
                } else {
                    None
                }
            },
            None => None,
        }
    }

    open spec fn spec_value(input: Seq<u8>, pos: int, v: Self) -> bool {
        T::spec_value(input, pos, v.value) && F::spec_validate(v.value)
    }

    open spec fn spec_error(input: Seq<u8>, pos: int) -> ErrorModel {
        match T::spec_end(input, pos) {
            Some(end) => ErrorModel::Validation(F::spec_description()),
            None => T::spec_error(input, pos),
        }
    }

    open spec fn spec_rewinds() -> bool {
        true
    }

    proof fn lemma_end_bounds(input: Seq<u8>, pos: int) {
        T::lemma_end_bounds(input, pos);
    }

    fn parse(cursor: &mut Cursor) -> (r: Result<Self, ParseError>) {
        let ghost input = cursor.bytes();
        let ghost start = cursor.position();
        let snapshot = cursor.mark();
        let value = match T::parse(cursor) {
            Ok(v) => v,
            Err(e) => {
                cursor.restore(snapshot);
                return Err(e);
            },
        };
        proof {
            assert(T::spec_value(input, start, value));
            T::lemma_value_unique(input, start, value, parsed_value::<T>(input, start));
        }
        if F::validate(&value) {
            Ok(Validated::new(value))
        } else {
            cursor.restore(snapshot);
            Err(ParseError::Validation(ValidateError(F::description())))
        }
    }
}

impl<T: ParsesUniquely, F: Validator<T>> ParsesUniquely for Validated<T, F> {
    proof fn lemma_value_unique(input: Seq<u8>, pos: int, v1: Self, v2: Self) {
        T::lemma_value_unique(input, pos, v1.value, v2.value);
    }
}

/// Cursor rewind exactness for validated parsing: whether the inner
/// parse fails or the predicate rejects the value, the position is
/// restored exactly, as the contract of [`Parsable::parse`] then
/// guarantees on every failure.
pub proof fn lemma_failed_validation_rewinds<T: ParsesUniquely, F: Validator<T>>()
    ensures
        <Validated<T, F> as Parsable>::spec_rewinds(),
{
}

/// ASCII code points bounding the accepted ranges.
pub const ASCII_ZERO: u8 = 48;

pub const ASCII_NINE: u8 = 57;

pub const ASCII_LOWER_A: u8 = 97;

pub const ASCII_LOWER_Z: u8 = 122;

pub const ASCII_UPPER_A: u8 = 65;

pub const ASCII_UPPER_Z: u8 = 90;

/// Accepts one ASCII decimal digit.
#[derive(Debug, PartialEq, Eq)]
pub struct IsAsciiDigit;

impl Validator<u8> for IsAsciiDigit {
    open spec fn spec_validate(v: u8) -> bool {
        ASCII_ZERO <= v <= ASCII_NINE
    }

    open spec fn spec_description() -> Seq<char> {
        "IsAsciiDigit"@
    }

    fn validate(value: &u8) -> (r: bool) {
        *value >= ASCII_ZERO && *value <= ASCII_NINE
    }

    fn description() -> (r: &'static str) {
        "IsAsciiDigit"
    }
}

/// Accepts one ASCII lower-case letter.
#[derive(Debug, PartialEq, Eq)]
pub struct IsAsciiLowerCase;

impl Validator<u8> for IsAsciiLowerCase {
    open spec fn spec_validate(v: u8) -> bool {
        ASCII_LOWER_A <= v <= ASCII_LOWER_Z
    }

    open spec fn spec_description() -> Seq<char> {
        "IsAsciiLowerCase"@
    }

    fn validate(value: &u8) -> (r: bool) {
        *value >= ASCII_LOWER_A && *value <= ASCII_LOWER_Z
    }

    fn description() -> (r: &'static str) {
        "IsAsciiLowerCase"
    }
}

/// Accepts one ASCII upper-case letter.
#[derive(Debug, PartialEq, Eq)]
pub struct IsAsciiUpperCase;

impl Validator<u8> for IsAsciiUpperCase {
    open spec fn spec_validate(v: u8) -> bool {
        ASCII_UPPER_A <= v <= ASCII_UPPER_Z
    }

    open spec fn spec_description() -> Seq<char> {
        "IsAsciiUpperCase"@
    }

    fn validate(value: &u8) -> (r: bool) {
        *value >= ASCII_UPPER_A && *value <= ASCII_UPPER_Z
    }

    fn description() -> (r: &'static str) {
        "IsAsciiUpperCase"
    }
}

} // verus!
