//! Cutting a token sequence into overlapping windows of bounded length.
//!
//! Window `i` starts at `i * (max_seq_len - overlap)` and runs for
//! `max_seq_len` tokens, or to the end of the sequence if that comes first.
//! Windows are made as long as their start lies inside the sequence.

use vstd::prelude::*;
use vstd::slice::{slice_subrange, slice_to_vec};
use crate::error::EmbedError;

verus! {

/// The number of windows of a sequence of `len` tokens: the number of
/// multiples of the step `max_seq_len - overlap` below `len`.
pub open spec fn chunk_count(len: int, max_seq_len: int, overlap: int) -> int {
    if len <= 0 {
        0
    } else {
        (len - 1) / (max_seq_len - overlap) + 1
    }
}

/// Where window `i` starts.
pub open spec fn chunk_start(i: int, max_seq_len: int, overlap: int) -> int {
    i * (max_seq_len - overlap)
}

/// Where window `i` ends (exclusive) in a sequence of `len` tokens.
pub open spec fn chunk_end(i: int, len: int, max_seq_len: int, overlap: int) -> int {
    let full = chunk_start(i, max_seq_len, overlap) + max_seq_len;
    if full < len {
        full
    } else {
        len
    }
}

/// The tokens of window `i`.
pub open spec fn chunk_at(tokens: Seq<u32>, i: int, max_seq_len: int, overlap: int) -> Seq<u32> {
    tokens.subrange(
        chunk_start(i, max_seq_len, overlap),
        chunk_end(i, tokens.len() as int, max_seq_len, overlap),
    )
}

/// All windows of `tokens`, in order.
pub open spec fn chunks_of(tokens: Seq<u32>, max_seq_len: int, overlap: int) -> Seq<Seq<u32>> {
    Seq::new(
        chunk_count(tokens.len() as int, max_seq_len, overlap) as nat,
        |i: int| chunk_at(tokens, i, max_seq_len, overlap),
    )
}

/// The windows held by a vector of vectors, as sequences.
pub open spec fn chunk_views(chunks: Seq<Vec<u32>>) -> Seq<Seq<u32>> {
    Seq::new(chunks.len(), |i: int| chunks[i]@)
}

/// The overlap that the pipeline uses for a window of `max_seq_len` tokens:
/// a tenth of the window, rounded down.
pub open spec fn default_overlap(max_seq_len: int) -> int {
    max_seq_len / 10
}

/// For a positive step, `k` steps stay below `len` exactly when `k` is
/// below the number of windows.
pub proof fn lemma_start_inside_iff_counted(len: int, max_seq_len: int, overlap: int, k: int)
    requires
        0 <= overlap < max_seq_len,
        0 <= k,
        0 <= len,
    ensures
        chunk_start(k, max_seq_len, overlap) < len <==> k < chunk_count(len, max_seq_len, overlap),
        0 <= chunk_start(k, max_seq_len, overlap),
        chunk_start(k + 1, max_seq_len, overlap) == chunk_start(k, max_seq_len, overlap) + (
        max_seq_len - overlap),
{
    let step = max_seq_len - overlap;
    assert(0 <= k * step) by (nonlinear_arith)
        requires
            0 <= k,
            0 < step,
    ;
    assert((k + 1) * step == k * step + step) by (nonlinear_arith);
    if len > 0 {
        let q = (len - 1) / step;
        assert(k * step <= len - 1 <==> k <= q) by (nonlinear_arith)
            requires
                0 < step,
                0 <= len - 1,
                q == (len - 1) / step,
        ;
    }
}

/// Cuts `tokens` into its windows.
///
/// The overlap has to be smaller than the window: without that no progress
/// is made. [`chunk`] tests this and reports an error instead.
pub fn chunk_input_tokens(tokens: &[u32], max_seq_len: usize, overlap: usize) -> (chunks: Vec<
    Vec<u32>,
>)
    requires
        overlap < max_seq_len,
    ensures
        chunk_views(chunks@) == chunks_of(tokens@, max_seq_len as int, overlap as int),
{
    let len = tokens.len();
    let step = max_seq_len - overlap;
    let mut chunks: Vec<Vec<u32>> = Vec::new();
    let mut start: usize = 0;
    proof {
        lemma_start_inside_iff_counted(len as int, max_seq_len as int, overlap as int, 0);
    }
    while start < len
        invariant
            len == tokens@.len(),
            overlap < max_seq_len,
            step == max_seq_len - overlap,
            start <= len,
            start < len ==> start == chunk_start(
                chunks@.len() as int,
                max_seq_len as int,
                overlap as int,
            ),
            start < len || chunks@.len() == chunk_count(
                len as int,
                max_seq_len as int,
                overlap as int,
            ),
            chunks@.len() <= chunk_count(len as int, max_seq_len as int, overlap as int),
            forall|i: int|
                0 <= i < chunks@.len() ==> (#[trigger] chunks@[i])@ == chunk_at(
                    tokens@,
                    i,
                    max_seq_len as int,
                    overlap as int,
                ),
        decreases len - start,
    {
        let ghost k = chunks@.len() as int;
        let remaining = len - start;
        let end = if max_seq_len < remaining {
            start + max_seq_len
        } else {
            len
        };
        let window = slice_to_vec(slice_subrange(tokens, start, end));
        proof {
            lemma_start_inside_iff_counted(len as int, max_seq_len as int, overlap as int, k);
            lemma_start_inside_iff_counted(
                len as int,
                max_seq_len as int,
                overlap as int,
                k + 1,
            );
        }
        chunks.push(window);
        if step < remaining {
            start = start + step;
        } else {
            start = len;
        }
    }
    chunks
}

/// Cuts `tokens` into its windows, or reports that the parameters allow no
/// windowing. Nothing is cut when the parameters are invalid.
pub fn chunk(tokens: &[u32], max_seq_len: usize, overlap: usize) -> (r: Result<
    Vec<Vec<u32>>,
    EmbedError,
>)
    ensures
        match r {
            Ok(chunks) => overlap < max_seq_len && chunk_views(chunks@) == chunks_of(
                tokens@,
                max_seq_len as int,
                overlap as int,
            ),
            Err(e) => overlap >= max_seq_len && e == EmbedError::InvalidConfig,
        },
{
    if overlap >= max_seq_len {
        return Err(EmbedError::InvalidConfig);
    }
    Ok(chunk_input_tokens(tokens, max_seq_len, overlap))
}

} // verus!
