use vstd::prelude::*;

use crate::convert::Destruct;
use crate::cursor::Cursor;
use crate::error::ParseError;
use crate::parse::Parsable;

verus! {

/// Parse a value of a directly parsable (leaf or primitive) type.
pub fn parse<T: Parsable>(cursor: &mut Cursor) -> (r: Result<T, ParseError>)
    requires
        old(cursor).wf(),
    ensures
        final(cursor).wf(),
        final(cursor).bytes() == old(cursor).bytes(),
        old(cursor).position() <= final(cursor).position(),
        match r {
            Ok(v) => {
                &&& T::spec_end(old(cursor).bytes(), old(cursor).position())
                    == Some(final(cursor).position())
                &&& T::spec_value(old(cursor).bytes(), old(cursor).position(), v)
            },
            Err(e) => {
                &&& T::spec_end(old(cursor).bytes(), old(cursor).position()) is None
                &&& e.model() == T::spec_error(old(cursor).bytes(), old(cursor).position())
                &&& T::spec_rewinds() ==> final(cursor).position() == old(cursor).position()
            },
        },
{
    T::parse(cursor)
}

/// Whether every value the decomposition parser of `T` can yield is a
/// well-formed decomposition.  This holds for every shape the
/// code-generation collaborator emits — a parsed variant chain always
/// holds a variant, since parsing the chain's end marker fails — and each
/// concrete type proves it once, before calling [`parse_structural`].
pub open spec fn parses_well_formed<T: Destruct>() -> bool where T::DestructType: Parsable {
    forall|input: Seq<u8>, pos: int, d: T::DestructType|
        #[trigger] T::DestructType::spec_value(input, pos, d) ==> T::spec_well_formed(d)
}

/// Parse a value of a decomposable type: parse its decomposition off the
/// cursor, then recompose.  Shares the failure behaviour of the
/// decomposition's own parser, including exact rewind wherever that
/// parser rewinds.
pub fn parse_structural<T: Destruct>(cursor: &mut Cursor) -> (r: Result<
    T,
    ParseError,
>) where T::DestructType: Parsable
    requires
        old(cursor).wf(),
        parses_well_formed::<T>(),
    ensures
        final(cursor).wf(),
        final(cursor).bytes() == old(cursor).bytes(),
        old(cursor).position() <= final(cursor).position(),
        match r {
            Ok(v) => {
                &&& T::DestructType::spec_end(old(cursor).bytes(), old(cursor).position())
                    == Some(final(cursor).position())
                &&& exists|d: T::DestructType|
                    {
                        &&& #[trigger] T::DestructType::spec_value(
                            old(cursor).bytes(),
                            old(cursor).position(),
                            d,
                        )
                        &&& T::spec_well_formed(d)
                        &&& v == T::spec_construct(d)
                    }
            },
            Err(e) => {
                &&& T::DestructType::spec_end(old(cursor).bytes(), old(cursor).position()) is None
                &&& e.model() == T::DestructType::spec_error(
                    old(cursor).bytes(),
                    old(cursor).position(),
                )
                &&& T::DestructType::spec_rewinds() ==> final(cursor).position() == old(
                    cursor,
                ).position()
            },
        },
{
    match T::DestructType::parse(cursor) {
        Ok(d) => Ok(T::construct(d)),
        Err(e) => Err(e),
    }
}

} // verus!
