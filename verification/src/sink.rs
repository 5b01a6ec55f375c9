//! Accumulating a download's payload bytes in arrival order.
//!
//! In binary mode every chunk is raw payload, passed straight through to a
//! sink. The buffer sink grows an in-memory byte buffer and hands it back
//! inside the terminal envelope. The file sink is driven from outside this
//! crate: file handles cannot be opened here, so the plan below fixes, for
//! each arriving chunk, exactly the bytes the caller must append to the
//! file, and carries the mathematical content of the file so far. Partial
//! content is never rolled back on failure; the caller owns cleanup of a
//! partially written file.

use vstd::prelude::*;

use crate::chunks::{concat_chunks, views_of};
use crate::envelope::{Envelope, Status};

verus! {

/// An in-memory payload sink: appends every chunk to a growing buffer.
/// No upper size bound is enforced; callers needing bounded memory must
/// bound the stream themselves.
pub struct BufferSink {
    pub data: Vec<u8>,
}

impl BufferSink {
    pub fn new() -> (r: Self)
        ensures
            r.data@ == Seq::<u8>::empty(),
    {
        BufferSink { data: Vec::new() }
    }

    /// Appends one chunk's bytes, in order, after everything received so far.
    pub fn push_chunk(&mut self, chunk: &Vec<u8>)
        ensures
            final(self).data@ == old(self).data@ + chunk@,
    {
        let m = chunk.len();
        let mut j: usize = 0;
        proof {
            assert(self.data@ =~= old(self).data@ + chunk@.take(0));
        }
        while j < m
            invariant
                j <= m,
                m == chunk.len(),
                self.data@ == old(self).data@ + chunk@.take(j as int),
            decreases m - j,
        {
            self.data.push(chunk[j]);
            proof {
                assert(old(self).data@ + chunk@.take(j as int + 1) =~= (old(self).data@
                    + chunk@.take(j as int)).push(chunk@[j as int]));
            }
            j = j + 1;
        }
        proof {
            assert(chunk@.take(m as int) =~= chunk@);
        }
    }

    /// Wraps the accumulated payload in the terminal success envelope.
    pub fn into_envelope(self, http_code: u16) -> (r: Envelope<Vec<u8>>)
        ensures
            r@.status == Status::Success,
            r@.code == http_code,
            r@.message == Seq::<char>::empty(),
            r@.data == self.data@,
    {
        Envelope { status: Status::Success, code: http_code, message: String::new(), data: self.data }
    }
}

/// Runs the buffer sink over a whole stream of chunks and returns the
/// terminal envelope: success, the initial HTTP code, empty message, and
/// the chunks' bytes concatenated in arrival order. An empty stream yields
/// a success envelope with empty data, not an error.
pub fn collect_chunks(chunks: &Vec<Vec<u8>>, http_code: u16) -> (r: Envelope<Vec<u8>>)
    ensures
        r@.status == Status::Success,
        r@.code == http_code,
        r@.message == Seq::<char>::empty(),
        r@.data == concat_chunks(views_of(chunks@)),
{
    let ghost cv = views_of(chunks@);
    let mut sink = BufferSink::new();
    let n = chunks.len();
    let mut i: usize = 0;
    proof {
        assert(cv.take(0) =~= Seq::<Seq<u8>>::empty());
    }
    while i < n
        invariant
            i <= n,
            n == chunks.len(),
            cv == views_of(chunks@),
            sink.data@ == concat_chunks(cv.take(i as int)),
        decreases n - i,
    {
        sink.push_chunk(&chunks[i]);
        proof {
            assert(cv.take(i as int + 1) =~= cv.take(i as int).push(cv[i as int]));
            lemma_concat_chunks_push(cv.take(i as int), cv[i as int]);
        }
        i = i + 1;
    }
    proof {
        assert(cv.take(n as int) =~= cv);
    }
    sink.into_envelope(http_code)
}

/// The file sink's write schedule. Each arriving chunk is written as it
/// is, immediately, with no intermediate buffering; `written` is the
/// content the destination file holds so far. Nothing here (or anywhere
/// in this protocol) removes bytes once written: a failure mid-stream
/// leaves the received prefix on disk.
pub struct FileWritePlan {
    pub written: Ghost<Seq<u8>>,
}

impl FileWritePlan {
    pub fn new() -> (r: Self)
        ensures
            r.written@ == Seq::<u8>::empty(),
    {
        FileWritePlan { written: Ghost(Seq::empty()) }
    }

    /// The bytes to append to the file for this chunk: exactly the chunk,
    /// unchanged, after everything written before it.
    pub fn next_write(&mut self, chunk: Vec<u8>) -> (w: Vec<u8>)
        ensures
            w@ == chunk@,
            final(self).written@ == old(self).written@ + chunk@,
    {
        proof {
            self.written@ = self.written@ + chunk@;
        }
        chunk
    }
}

/// The file content that the write schedule produces for a whole stream:
/// each chunk appended after the previous ones.
pub open spec fn file_sink_contents(chunks: Seq<Seq<u8>>) -> Seq<u8>
    decreases chunks.len(),
{
    if chunks.len() == 0 {
        Seq::empty()
    } else {
        file_sink_contents(chunks.drop_last()) + chunks.last()
    }
}

/// Appending one more chunk extends the concatenation by that chunk.
pub proof fn lemma_concat_chunks_push(s: Seq<Seq<u8>>, x: Seq<u8>)
    ensures
        concat_chunks(s.push(x)) == concat_chunks(s) + x,
    decreases s.len(),
{
    if s.len() == 0 {
        assert(s.push(x).first() == x);
        assert(s.push(x).drop_first() =~= Seq::<Seq<u8>>::empty());
        assert(concat_chunks(s.push(x)) == x + concat_chunks(Seq::<Seq<u8>>::empty()));
        assert(concat_chunks(s.push(x)) =~= concat_chunks(s) + x);
    } else {
        assert(s.push(x).first() == s.first());
        assert(s.push(x).drop_first() =~= s.drop_first().push(x));
        lemma_concat_chunks_push(s.drop_first(), x);
        assert(concat_chunks(s.push(x)) =~= concat_chunks(s) + x);
    }
}

/// The file sink and the buffer sink produce byte-identical content for
/// the same input stream.
pub proof fn lemma_sinks_byte_identical(chunks: Seq<Seq<u8>>)
    ensures
        file_sink_contents(chunks) == concat_chunks(chunks),
    decreases chunks.len(),
{
    if chunks.len() == 0 {
        assert(file_sink_contents(chunks) =~= concat_chunks(chunks));
    } else {
        lemma_sinks_byte_identical(chunks.drop_last());
        lemma_concat_chunks_push(chunks.drop_last(), chunks.last());
        assert(chunks.drop_last().push(chunks.last()) =~= chunks);
    }
}

/// Chunk boundaries are invisible in the payload: the bytes carried by two
/// consecutive runs of chunks concatenate to the bytes of the whole stream.
/// So however a payload is cut into chunks, the buffer sink — whose output
/// is `concat_chunks` of the stream — recovers it exactly.
pub proof fn lemma_chunking_invariance(a: Seq<Seq<u8>>, b: Seq<Seq<u8>>)
    ensures
        concat_chunks(a + b) == concat_chunks(a) + concat_chunks(b),
    decreases a.len(),
{
    if a.len() == 0 {
        assert(a + b =~= b);
        assert(concat_chunks(a) + concat_chunks(b) =~= concat_chunks(b));
    } else {
        assert((a + b).first() == a.first());
        assert((a + b).drop_first() =~= a.drop_first() + b);
        lemma_chunking_invariance(a.drop_first(), b);
        assert(a.first() + (concat_chunks(a.drop_first()) + concat_chunks(b)) =~= (a.first()
            + concat_chunks(a.drop_first())) + concat_chunks(b));
    }
}

} // verus!
