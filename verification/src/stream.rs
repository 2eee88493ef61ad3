//! A cursor that hands a stored blob out in bounded chunks, so the
//! download path can flush early pieces of the body while later pieces
//! are still unread, instead of materialising a second full copy.

use vstd::prelude::*;

verus! {

/// A blob together with a read position.  Everything before the
/// position has been emitted; everything after it remains to be sent.
pub struct BlobCursor {
    data: Vec<u8>,
    pos: usize,
}

impl BlobCursor {
    pub closed spec fn wf(&self) -> bool {
        self.pos <= self.data@.len()
    }

    /// The whole blob this cursor walks.
    pub closed spec fn data_view(&self) -> Seq<u8> {
        self.data@
    }

    pub closed spec fn position(&self) -> int {
        self.pos as int
    }

    /// Bytes already handed out, in order.
    pub open spec fn emitted(&self) -> Seq<u8> {
        self.data_view().take(self.position())
    }

    /// Bytes not yet handed out, in order.
    pub open spec fn remaining(&self) -> Seq<u8> {
        self.data_view().skip(self.position())
    }

    /// A cursor at the start of the blob.
    pub fn new(data: Vec<u8>) -> (r: Self)
        ensures
            r.wf(),
            r.data_view() == data@,
            r.position() == 0,
    {
        BlobCursor { data, pos: 0 }
    }

    /// Hands out the next chunk of at most `max` bytes and advances,
    /// or reports the end of the blob.  The chunk is exactly the next
    /// slice of the blob: nothing is skipped, reordered or repeated.
    pub fn next_chunk(&mut self, max: usize) -> (r: Option<Vec<u8>>)
        requires
            old(self).wf(),
            max > 0,
        ensures
            final(self).wf(),
            final(self).data_view() == old(self).data_view(),
            (r is None) <==> old(self).position() == old(self).data_view().len(),
            r is None ==> final(self).position() == old(self).position(),
            r matches Some(c) ==> {
                &&& final(self).position() == vstd::math::min(
                    old(self).position() + max,
                    old(self).data_view().len() as int,
                )
                &&& c@ == old(self).data_view().subrange(
                    old(self).position(),
                    final(self).position(),
                )
                &&& c@.len() > 0
                &&& final(self).emitted() == old(self).emitted() + c@
            },
    {
        let ghost d = self.data@;
        let len = self.data.len();
        if self.pos == len {
            return None;
        }
        let start = self.pos;
        let end = if max < len - start {
            start + max
        } else {
            len
        };
        let chunk = vstd::slice::slice_to_vec(
            vstd::slice::slice_subrange(self.data.as_slice(), start, end),
        );
        self.pos = end;
        proof {
            assert(d.take(end as int) =~= d.take(start as int) + chunk@);
        }
        Some(chunk)
    }
}

/// Every byte handed out so far, followed by every byte still to come,
/// is exactly the stored blob: streaming in chunks loses, duplicates
/// and reorders nothing, whatever chunk sizes the writer asks for.
pub proof fn lemma_stream_reassembly(c: BlobCursor)
    requires
        c.wf(),
    ensures
        c.emitted() + c.remaining() == c.data_view(),
{
    assert(c.emitted() + c.remaining() =~= c.data_view());
}

} // verus!
