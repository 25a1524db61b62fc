use vstd::prelude::*;

verus! {

/// A read position over an owned byte sequence.
///
/// Parsing works against a cursor.  Backtracking saves the position before
/// an attempt ([`Cursor::mark`]) and restores it when the attempt fails
/// ([`Cursor::restore`]).  Restoration is exact: the whole input stays
/// available, so rewinding is just moving the position back.
pub struct Cursor {
    data: Vec<u8>,
    pos: usize,
}

impl Cursor {
    /// The bytes this cursor reads over.
    pub closed spec fn bytes(self) -> Seq<u8> {
        self.data@
    }

    /// The current read position.
    pub closed spec fn position(self) -> int {
        self.pos as int
    }

    /// A cursor is well formed when its position lies within the input.
    pub open spec fn wf(self) -> bool {
        0 <= self.position() <= self.bytes().len()
    }

    /// Wrap a byte sequence in a cursor positioned at its start.
    pub fn new(data: Vec<u8>) -> (c: Cursor)
        ensures
            c.bytes() == data@,
            c.position() == 0,
            c.wf(),
    {
        Cursor { data, pos: 0 }
    }

    /// The current position, as a snapshot handle for backtracking.
    pub fn mark(&self) -> (p: usize)
        ensures
            p as int == self.position(),
    {
        self.pos
    }

    /// Rewind (or generally move) the position to a saved snapshot.
    pub fn restore(&mut self, p: usize)
        requires
            p as int <= old(self).bytes().len(),
        ensures
            final(self).bytes() == old(self).bytes(),
            final(self).position() == p as int,
            final(self).wf(),
    {
        self.pos = p;
    }

    /// Read one byte and advance; fails exactly at the end of the input,
    /// leaving the position unchanged.
    pub fn read_byte(&mut self) -> (r: Option<u8>)
        requires
            old(self).wf(),
        ensures
            final(self).bytes() == old(self).bytes(),
            final(self).wf(),
            old(self).position() < old(self).bytes().len() ==> {
                &&& r == Some(old(self).bytes()[old(self).position()])
                &&& final(self).position() == old(self).position() + 1
            },
            old(self).position() >= old(self).bytes().len() ==> {
                &&& r is None
                &&& final(self).position() == old(self).position()
            },
    {
        if self.pos < self.data.len() {
            let b = self.data[self.pos];
            self.pos = self.pos + 1;
            Some(b)
        } else {
            None
        }
    }
}

} // verus!
