use vstd::prelude::*;

verus! {

/// The abstract description of a parse failure, used by contracts.
///
/// Exactly one of three data-dependent failures can come out of a parse:
/// a scalar read ran off the end of the input, a validator rejected a
/// parsed value, or every declared variant of a union failed.
pub enum ErrorModel {
    /// A scalar read needed more bytes than the input holds.
    EndOfInput,
    /// A validator rejected the parsed value; carries the validator's
    /// description.
    Validation(Seq<char>),
    /// Every declared variant failed; carries the enum's name.
    EnumExhausted(Seq<char>),
}

/// Failure to parse a union: every declared variant was attempted and
/// rejected.  Carries the enum's declared name.
#[derive(Debug)]
pub struct EnumParseError(pub &'static str);

/// Failure to validate a parsed value.  Carries the description of the
/// validator that rejected it.
#[derive(Debug)]
pub struct ValidateError(pub &'static str);

/// A parse failure.  All three kinds are ordinary recoverable results: a
/// backtracking parent (a variant chain or a repetition) may catch them,
/// rewind the cursor and try an alternative.
#[derive(Debug)]
pub enum ParseError {
    /// A scalar read needed more bytes than the input holds.
    EndOfInput,
    /// A validator rejected the parsed value.
    Validation(ValidateError),
    /// Every declared variant of a union failed.
    EnumExhausted(EnumParseError),
}

impl ParseError {
    /// The abstract description of this failure.
    pub open spec fn model(self) -> ErrorModel {
        match self {
            ParseError::EndOfInput => ErrorModel::EndOfInput,
            ParseError::Validation(e) => ErrorModel::Validation(e.0@),
            ParseError::EnumExhausted(e) => ErrorModel::EnumExhausted(e.0@),
        }
    }
}

} // verus!
