use vstd::prelude::*;

use crate::cursor::Cursor;
use crate::error::ErrorModel;
use crate::error::ParseError;
use crate::parse::Parsable;

verus! {

/// The element values that greedy repetition of `T` collects from `pos`:
/// elements are appended while an element parse succeeds and consumes at
/// least one byte; the first failing (or non-advancing) attempt stops the
/// repetition and contributes nothing.  Stopping on a non-advancing
/// success keeps the repetition finite even for elements that can match
/// the empty input.
pub open spec fn spec_rep_values<T: Parsable>(input: Seq<u8>, pos: int, elems: Seq<T>) -> bool
    decreases input.len() - pos,
{
    match T::spec_end(input, pos) {
        Some(end) => {
            if pos < end <= input.len() {
                &&& elems.len() >= 1
                &&& T::spec_value(input, pos, elems[0])
                &&& spec_rep_values::<T>(input, end, elems.drop_first())
            } else {
                elems.len() == 0
            }
        },
        None => elems.len() == 0,
    }
}

/// Where greedy repetition of `T` starting at `pos` stops consuming.
pub open spec fn spec_rep_end<T: Parsable>(input: Seq<u8>, pos: int) -> int
    decreases input.len() - pos,
{
    match T::spec_end(input, pos) {
        Some(end) => {
            if pos < end <= input.len() {
                spec_rep_end::<T>(input, end)
            } else {
                pos
            }
        },
        None => pos,
    }
}

/// Repetition only ever moves forwards, and never past the end.
pub proof fn lemma_rep_end_bounds<T: Parsable>(input: Seq<u8>, pos: int)
    requires
        0 <= pos <= input.len(),
    ensures
        pos <= spec_rep_end::<T>(input, pos) <= input.len(),
    decreases input.len() - pos,
{
    match T::spec_end(input, pos) {
        Some(end) => {
            if pos < end <= input.len() {
                lemma_rep_end_bounds::<T>(input, end);
            }
        },
        None => {},
    }
}

/// Repetition never fails: against any input, including one with no
/// valid element prefix at all, parsing a sequence-of-`T` succeeds and
/// yields zero or more elements.
pub proof fn lemma_repetition_never_fails<T: Parsable>(input: Seq<u8>, pos: int)
    ensures
        <Vec<T> as Parsable>::spec_end(input, pos) is Some,
{
}

/// Repetition stops exactly at the first element attempt that fails or
/// does not advance: at the stopping position, one more element parse
/// either fails or consumes nothing.
pub proof fn lemma_rep_stops<T: Parsable>(input: Seq<u8>, pos: int)
    requires
        0 <= pos <= input.len(),
    ensures
        ({
            let stop = spec_rep_end::<T>(input, pos);
            match T::spec_end(input, stop) {
                Some(end) => !(stop < end <= input.len()),
                None => true,
            }
        }),
    decreases input.len() - pos,
{
    match T::spec_end(input, pos) {
        Some(end) => {
            if pos < end <= input.len() {
                lemma_rep_stops::<T>(input, end);
            }
        },
        None => {},
    }
}

/// Greedy repetition, collecting elements in order of appearance.
fn parse_rep<T: Parsable>(cursor: &mut Cursor) -> (r: Vec<T>)
    requires
        old(cursor).wf(),
    ensures
        final(cursor).wf(),
        final(cursor).bytes() == old(cursor).bytes(),
        old(cursor).position() <= final(cursor).position(),
        final(cursor).position() == spec_rep_end::<T>(old(cursor).bytes(), old(cursor).position()),
        spec_rep_values::<T>(old(cursor).bytes(), old(cursor).position(), r@),
    decreases cursor.bytes().len() - cursor.position(),
{
    let ghost input = cursor.bytes();
    let ghost start = cursor.position();
    let snapshot = cursor.mark();
    match T::parse(cursor) {
        Ok(v) => {
            if cursor.mark() > snapshot {
                let rest = parse_rep::<T>(cursor);
                let ghost rest_view = rest@;
                let mut collected = rest;
                collected.insert(0, v);
                proof {
                    assert(collected@.drop_first() =~= rest_view);
                    assert(collected@[0] == v);
                }
                collected
            } else {
                cursor.restore(snapshot);
                Vec::new()
            }
        },
        Err(_) => {
            cursor.restore(snapshot);
            Vec::new()
        },
    }
}

/// Parsing a sequence-of-`T` never fails: it degrades to zero matches.
/// Elements already accepted are never revisited, and the first failing
/// element attempt rewinds the cursor to just past the last accepted
/// element.
impl<T: Parsable> Parsable for Vec<T> {
    open spec fn spec_end(input: Seq<u8>, pos: int) -> Option<int> {
        Some(spec_rep_end::<T>(input, pos))
    }

    open spec fn spec_value(input: Seq<u8>, pos: int, v: Self) -> bool {
        spec_rep_values::<T>(input, pos, v@)
    }

    // This parser cannot fail, so no failure description is ever
    // reported.
    open spec fn spec_error(input: Seq<u8>, pos: int) -> ErrorModel {
        ErrorModel::EndOfInput
    }

    open spec fn spec_rewinds() -> bool {
        true
    }

    proof fn lemma_end_bounds(input: Seq<u8>, pos: int) {
        lemma_rep_end_bounds::<T>(input, pos);
    }

    fn parse(cursor: &mut Cursor) -> (r: Result<Self, ParseError>) {
        Ok(parse_rep::<T>(cursor))
    }
}

} // verus!
