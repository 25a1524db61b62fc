//! Reversible decomposition of record and union values into ordered,
//! introspectable chains, and a recursive-descent byte parser with
//! backtracking built on top of that representation.

pub mod chain;
pub mod convert;
pub mod cursor;
pub mod error;
pub mod examples;
pub mod meta;
pub mod parse;
pub mod repeat;
pub mod structural;
pub mod validate;

pub use chain::{
    DestructBegin, DestructEnd, DestructEnumBegin, DestructEnumEnd, DestructEnumVariant,
    DestructField,
};
pub use convert::Destruct;
pub use cursor::Cursor;
pub use error::{EnumParseError, ErrorModel, ParseError, ValidateError};
pub use meta::{
    DestructEnumMetadata, DestructEnumVariantMetadata, DestructFieldMetadata, DestructMetadata,
};
pub use parse::{
    lemma_failed_parse_rewinds, lemma_first_match_wins, lemma_later_variant_needs_failure,
    parsed_value, Parsable, ParsesUniquely,
};
pub use repeat::{
    lemma_rep_end_bounds, lemma_rep_stops, lemma_repetition_never_fails, spec_rep_end,
    spec_rep_values,
};
pub use structural::{parse, parse_structural, parses_well_formed};
pub use validate::{
    lemma_failed_validation_rewinds, IsAsciiDigit, IsAsciiLowerCase, IsAsciiUpperCase, Validated,
    Validator,
};
