//! The running summary of a response body: how many bytes arrived, and the
//! first of them, kept for a one-line preview.

use vstd::prelude::*;
use crate::text::{first_line_preview, spec_preview};

verus! {

/// How many leading body bytes are kept for the preview.
pub const PREVIEW_LIMIT: usize = 120;

/// The body summary as a value: bytes seen, the kept leading bytes, and the
/// most that is kept.
pub struct BodySummary {
    pub body_len: nat,
    pub first_bytes: Seq<u8>,
    pub limit: nat,
}

/// Takes in one chunk: its length is counted, and while fewer than `limit`
/// bytes are kept, as many of its leading bytes as still fit are kept.
pub open spec fn spec_push(s: BodySummary, chunk: Seq<u8>) -> BodySummary {
    BodySummary {
        body_len: s.body_len + chunk.len(),
        first_bytes: if s.first_bytes.len() < s.limit {
            let room = (s.limit - s.first_bytes.len()) as int;
            let take = if chunk.len() < room {
                chunk.len() as int
            } else {
                room
            };
            s.first_bytes + chunk.take(take)
        } else {
            s.first_bytes
        },
        limit: s.limit,
    }
}

/// The summary after taking in `chunks` in order, from an empty one.
pub open spec fn spec_summarize(limit: nat, chunks: Seq<Seq<u8>>) -> BodySummary
    decreases chunks.len(),
{
    if chunks.len() == 0 {
        BodySummary { body_len: 0, first_bytes: Seq::empty(), limit }
    } else {
        spec_push(spec_summarize(limit, chunks.drop_last()), chunks.last())
    }
}

/// All `chunks` joined in order.
pub open spec fn concat_all(chunks: Seq<Seq<u8>>) -> Seq<u8>
    decreases chunks.len(),
{
    if chunks.len() == 0 {
        Seq::empty()
    } else {
        concat_all(chunks.drop_last()) + chunks.last()
    }
}

/// Accumulates a response body chunk by chunk: the total length, and the
/// leading bytes up to a limit.
pub struct BodyPreview {
    body_len: usize,
    first_bytes: Vec<u8>,
    limit: usize,
}

impl View for BodyPreview {
    type V = BodySummary;

    closed spec fn view(&self) -> BodySummary {
        BodySummary {
            body_len: self.body_len as nat,
            first_bytes: self.first_bytes@,
            limit: self.limit as nat,
        }
    }
}

impl BodyPreview {
    /// The kept bytes never exceed the limit.
    pub open spec fn wf(&self) -> bool {
        self@.first_bytes.len() <= self@.limit
    }

    /// An empty summary that keeps the first `PREVIEW_LIMIT` bytes.
    pub fn new() -> (r: Self)
        ensures
            r@ == spec_summarize(PREVIEW_LIMIT as nat, Seq::empty()),
            r.wf(),
    {
        BodyPreview { body_len: 0, first_bytes: Vec::new(), limit: PREVIEW_LIMIT }
    }

    /// An empty summary that keeps the whole body.
    pub fn whole_body() -> (r: Self)
        ensures
            r@ == spec_summarize(usize::MAX as nat, Seq::empty()),
            r.wf(),
    {
        BodyPreview { body_len: 0, first_bytes: Vec::new(), limit: usize::MAX }
    }

    /// Takes in the next chunk of the body.
    pub fn push_chunk(&mut self, chunk: &[u8])
        requires
            old(self).wf(),
            old(self)@.body_len + chunk@.len() <= usize::MAX,
        ensures
            final(self).wf(),
            final(self)@ == spec_push(old(self)@, chunk@),
    {
        self.body_len = self.body_len + chunk.len();
        if self.first_bytes.len() < self.limit {
            let room = self.limit - self.first_bytes.len();
            let take = if chunk.len() < room {
                chunk.len()
            } else {
                room
            };
            let mut i: usize = 0;
            let ghost start = self.first_bytes@;
            while i < take
                invariant
                    i <= take <= chunk@.len(),
                    take <= room,
                    room == self.limit - start.len(),
                    start.len() < self.limit,
                    self.first_bytes@ =~= start + chunk@.take(i as int),
                    self.body_len == old(self).body_len + chunk@.len(),
                    self.limit == old(self).limit,
                decreases take - i,
            {
                self.first_bytes.push(chunk[i]);
                i = i + 1;
            }
        }
    }

    /// Takes in a body frame, and says whether it was the last one.
    pub fn push_body_frame(&mut self, data: &[u8], fin: bool) -> (last: bool)
        requires
            old(self).wf(),
            old(self)@.body_len + data@.len() <= usize::MAX,
        ensures
            final(self).wf(),
            final(self)@ == spec_push(old(self)@, data@),
            last == fin,
    {
        self.push_chunk(data);
        fin
    }

    /// How many body bytes arrived.
    pub fn body_len(&self) -> (r: usize)
        ensures
            r == self@.body_len,
    {
        self.body_len
    }

    /// The leading body bytes that were kept.
    pub fn first_bytes(&self) -> (r: &[u8])
        ensures
            r@ == self@.first_bytes,
    {
        self.first_bytes.as_slice()
    }

    /// The one-line preview of the kept bytes.
    pub fn preview(&self) -> (r: String)
        ensures
            r@ == spec_preview(self@.first_bytes),
    {
        first_line_preview(self.first_bytes.as_slice())
    }
}

/// Whatever the chunking of a body, its summary counts all its bytes and
/// keeps exactly its leading `limit` bytes (all of it if it is shorter).
pub proof fn lemma_summary_is_prefix(limit: nat, chunks: Seq<Seq<u8>>)
    ensures
        spec_summarize(limit, chunks).body_len == concat_all(chunks).len(),
        spec_summarize(limit, chunks).limit == limit,
        spec_summarize(limit, chunks).first_bytes == concat_all(chunks).take(
            if concat_all(chunks).len() < limit {
                concat_all(chunks).len() as int
            } else {
                limit as int
            },
        ),
    decreases chunks.len(),
{
    if chunks.len() == 0 {
        assert(concat_all(chunks).take(0) =~= Seq::<u8>::empty());
    } else {
        let rest = chunks.drop_last();
        lemma_summary_is_prefix(limit, rest);
        let prev = concat_all(rest);
        let c = chunks.last();
        let all = concat_all(chunks);
        assert(all == prev + c);
        let s = spec_summarize(limit, rest);
        if prev.len() < limit {
            let room = (limit - prev.len()) as int;
            let take = if c.len() < room {
                c.len() as int
            } else {
                room
            };
            assert(prev.take(prev.len() as int) =~= prev);
            assert(prev + c.take(take) =~= all.take(prev.len() + take));
        } else {
            assert(all.take(limit as int) =~= prev.take(limit as int));
        }
    }
}

} // verus!
