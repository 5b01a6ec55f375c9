//! Chunk sequences as the streaming decoder sees them.
//!
//! A streamed body arrives as a finite sequence of discrete chunks,
//! processed strictly in arrival order. These functions give the
//! mathematical image of such a sequence.

use vstd::prelude::*;

verus! {

/// The views of a sequence of byte vectors, chunk by chunk.
pub open spec fn views_of(chunks: Seq<Vec<u8>>) -> Seq<Seq<u8>> {
    chunks.map_values(|c: Vec<u8>| c@)
}

/// The payload carried by a chunked stream: the chunks concatenated in
/// arrival order.
pub open spec fn concat_chunks(chunks: Seq<Seq<u8>>) -> Seq<u8>
    decreases chunks.len(),
{
    if chunks.len() == 0 {
        Seq::empty()
    } else {
        chunks.first() + concat_chunks(chunks.drop_first())
    }
}

} // verus!
