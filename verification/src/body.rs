//! A pollable, single-pass view of a chunked body. The cursor yields the
//! chunks one at a time, in the order they stand in the body, and cannot be
//! restarted: a chunk handed out is gone from the cursor. A consumer that
//! re-streams a body through a cursor therefore observes the chunks
//! incrementally and in order, never reordered, duplicated or dropped.

use vstd::prelude::*;

use crate::model::chunks_model;

verus! {

/// The chunks of one body that have not been consumed yet.
pub struct BodyCursor {
    remaining: Vec<Vec<u8>>,
}

impl BodyCursor {
    /// The chunks still to be yielded, in order.
    pub closed spec fn remaining(self) -> Seq<Seq<u8>> {
        chunks_model(self.remaining@)
    }

    /// A cursor over a whole body: nothing consumed yet.
    pub fn new(chunks: Vec<Vec<u8>>) -> (c: Self)
        ensures
            c.remaining() == chunks_model(chunks@),
    {
        BodyCursor { remaining: chunks }
    }

    /// How many chunks are still to come.
    pub fn chunks_left(&self) -> (n: usize)
        ensures
            n == self.remaining().len(),
    {
        self.remaining.len()
    }

    /// Yield the next chunk: the first of the remaining ones, which the cursor
    /// gives up. Once the body is exhausted the cursor answers `None`, and
    /// keeps answering `None`.
    pub fn poll_chunk(&mut self) -> (r: Option<Vec<u8>>)
        ensures
            old(self).remaining().len() > 0 ==> {
                &&& r matches Some(c) && c@ == old(self).remaining()[0]
                &&& final(self).remaining() == old(self).remaining().drop_first()
            },
            old(self).remaining().len() == 0 ==> {
                &&& r is None
                &&& final(self).remaining() == old(self).remaining()
            },
    {
        if self.remaining.len() > 0 {
            let chunk = self.remaining.remove(0);
            proof {
                assert(self.remaining().len() == old(self).remaining().len() - 1);
                assert(final(self).remaining() =~= old(self).remaining().drop_first());
            }
            Some(chunk)
        } else {
            None
        }
    }
}

} // verus!
