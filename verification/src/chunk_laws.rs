//! What holds of the windows of every token sequence.
//!
//! Throughout, `max_seq_len` is the window length, `overlap` the number of
//! tokens that a full window shares with the next one, and the step
//! `max_seq_len - overlap` the distance between two window starts.

use vstd::prelude::*;
use crate::chunking::{
    chunk_at,
    chunk_count,
    chunk_end,
    chunk_start,
    chunks_of,
    default_overlap,
    lemma_start_inside_iff_counted,
};

verus! {

/// The steps of the windows laid end to end: the first `step` tokens of
/// every window but the last, then the last window whole.
pub open spec fn join_steps(chunks: Seq<Seq<u32>>, step: int) -> Seq<u32>
    decreases chunks.len(),
{
    if chunks.len() == 0 {
        Seq::empty()
    } else if chunks.len() == 1 {
        chunks[0]
    } else {
        chunks[0].take(step) + join_steps(chunks.drop_first(), step)
    }
}

/// The overlap that the pipeline takes, a tenth of the window, is smaller
/// than the window exactly when the window is not of length zero; and up to
/// a window of nine tokens it is no overlap at all.
pub proof fn lemma_default_overlap_is_valid(max_seq_len: int)
    requires
        0 <= max_seq_len,
    ensures
        0 <= default_overlap(max_seq_len),
        default_overlap(max_seq_len) < max_seq_len <==> max_seq_len > 0,
        default_overlap(max_seq_len) == 0 <==> max_seq_len < 10,
        10 * default_overlap(max_seq_len) <= max_seq_len < 10 * default_overlap(max_seq_len) + 10,
{
}

/// There are no windows exactly when there are no tokens.
pub proof fn lemma_no_tokens_no_chunks(tokens: Seq<u32>, max_seq_len: int, overlap: int)
    requires
        0 <= overlap < max_seq_len,
    ensures
        chunks_of(tokens, max_seq_len, overlap).len() == 0 <==> tokens.len() == 0,
        chunks_of(tokens, max_seq_len, overlap).len() <= tokens.len(),
{
    let len = tokens.len() as int;
    lemma_start_inside_iff_counted(len, max_seq_len, overlap, 0);
    lemma_start_inside_iff_counted(len, max_seq_len, overlap, len);
    assert(len * (max_seq_len - overlap) >= len) by (nonlinear_arith)
        requires
            0 <= len,
            1 <= max_seq_len - overlap,
    ;
}

/// A sequence that is not empty and no longer than one step has exactly one
/// window, the sequence itself.
pub proof fn lemma_short_sequence_is_one_chunk(tokens: Seq<u32>, max_seq_len: int, overlap: int)
    requires
        0 <= overlap < max_seq_len,
        1 <= tokens.len() <= max_seq_len - overlap,
    ensures
        chunks_of(tokens, max_seq_len, overlap) == seq![tokens],
{
    let len = tokens.len() as int;
    lemma_start_inside_iff_counted(len, max_seq_len, overlap, 0);
    lemma_start_inside_iff_counted(len, max_seq_len, overlap, 1);
    assert(chunk_at(tokens, 0, max_seq_len, overlap) =~= tokens);
    assert(chunks_of(tokens, max_seq_len, overlap) =~= seq![tokens]);
}

/// A sequence longer than one step has more than one window, even where
/// one window holds all of it: the second window's start still lies inside
/// the sequence.
pub proof fn lemma_longer_than_step_is_several_chunks(
    tokens: Seq<u32>,
    max_seq_len: int,
    overlap: int,
)
    requires
        0 <= overlap < max_seq_len,
        max_seq_len - overlap < tokens.len(),
    ensures
        chunks_of(tokens, max_seq_len, overlap).len() >= 2,
{
    lemma_start_inside_iff_counted(tokens.len() as int, max_seq_len, overlap, 0);
    lemma_start_inside_iff_counted(tokens.len() as int, max_seq_len, overlap, 1);
}

/// Every window lies inside the sequence, is not empty and holds at most
/// `max_seq_len` tokens; it holds exactly that many unless the sequence ends
/// first; and the last window reaches the end of the sequence.
pub proof fn lemma_chunk_bounds(tokens: Seq<u32>, max_seq_len: int, overlap: int, i: int)
    requires
        0 <= overlap < max_seq_len,
        0 <= i < chunks_of(tokens, max_seq_len, overlap).len(),
    ensures
        0 <= chunk_start(i, max_seq_len, overlap) < chunk_end(
            i,
            tokens.len() as int,
            max_seq_len,
            overlap,
        ) <= tokens.len(),
        chunks_of(tokens, max_seq_len, overlap)[i] == chunk_at(tokens, i, max_seq_len, overlap),
        1 <= chunk_at(tokens, i, max_seq_len, overlap).len() <= max_seq_len,
        chunk_start(i, max_seq_len, overlap) + max_seq_len <= tokens.len() ==> chunk_at(
            tokens,
            i,
            max_seq_len,
            overlap,
        ).len() == max_seq_len,
        i == chunks_of(tokens, max_seq_len, overlap).len() - 1 ==> chunk_end(
            i,
            tokens.len() as int,
            max_seq_len,
            overlap,
        ) == tokens.len(),
{
    let len = tokens.len() as int;
    lemma_start_inside_iff_counted(len, max_seq_len, overlap, i);
    lemma_start_inside_iff_counted(len, max_seq_len, overlap, i + 1);
}

/// Two consecutive windows leave no gap. They share exactly `overlap`
/// tokens where the first is a full window, and fewer where the end of the
/// sequence has cut it short. The tokens that they share are the same
/// tokens: what the first holds from one step on is how the second begins.
pub proof fn lemma_adjacent_chunks_overlap(
    tokens: Seq<u32>,
    max_seq_len: int,
    overlap: int,
    i: int,
)
    requires
        0 <= overlap < max_seq_len,
        0 <= i,
        i + 1 < chunks_of(tokens, max_seq_len, overlap).len(),
    ensures
        ({
            let len = tokens.len() as int;
            let first = chunk_at(tokens, i, max_seq_len, overlap);
            let second = chunk_at(tokens, i + 1, max_seq_len, overlap);
            let shared = chunk_end(i, len, max_seq_len, overlap) - chunk_start(
                i + 1,
                max_seq_len,
                overlap,
            );
            &&& 0 <= shared <= overlap
            &&& shared == first.len() - (max_seq_len - overlap)
            &&& first.len() == max_seq_len ==> shared == overlap
            &&& first.len() < max_seq_len ==> shared < overlap
            &&& shared <= second.len()
            &&& first.skip(max_seq_len - overlap) == second.take(shared)
        }),
{
    let len = tokens.len() as int;
    lemma_start_inside_iff_counted(len, max_seq_len, overlap, i);
    lemma_start_inside_iff_counted(len, max_seq_len, overlap, i + 1);
    lemma_start_inside_iff_counted(len, max_seq_len, overlap, i + 2);
}

/// No token is dropped: the token at position `p` is found in window
/// `p / step`, at offset `p % step`.
pub proof fn lemma_every_token_is_in_a_chunk(
    tokens: Seq<u32>,
    max_seq_len: int,
    overlap: int,
    p: int,
)
    requires
        0 <= overlap < max_seq_len,
        0 <= p < tokens.len(),
    ensures
        ({
            let step = max_seq_len - overlap;
            let chunks = chunks_of(tokens, max_seq_len, overlap);
            &&& 0 <= p / step < chunks.len()
            &&& 0 <= p % step < chunks[p / step].len()
            &&& chunks[p / step][p % step] == tokens[p]
        }),
{
    let len = tokens.len() as int;
    let step = max_seq_len - overlap;
    let i = p / step;
    assert(0 <= i && p == i * step + p % step && 0 <= p % step < step) by (nonlinear_arith)
        requires
            0 <= p,
            0 < step,
            i == p / step,
    ;
    lemma_start_inside_iff_counted(len, max_seq_len, overlap, i);
}

/// Laying the steps of the windows end to end gives back the sequence.
pub proof fn lemma_chunks_rebuild_tokens(tokens: Seq<u32>, max_seq_len: int, overlap: int)
    requires
        0 <= overlap < max_seq_len,
    ensures
        join_steps(chunks_of(tokens, max_seq_len, overlap), max_seq_len - overlap) == tokens,
    decreases tokens.len(),
{
    let len = tokens.len() as int;
    let step = max_seq_len - overlap;
    let chunks = chunks_of(tokens, max_seq_len, overlap);
    lemma_start_inside_iff_counted(len, max_seq_len, overlap, 0);
    lemma_start_inside_iff_counted(len, max_seq_len, overlap, 1);
    if chunks.len() == 0 {
        assert(tokens =~= Seq::empty());
    } else if chunks.len() == 1 {
        assert(chunks[0] =~= tokens);
    } else {
        let rest = tokens.skip(step);
        let rest_chunks = chunks_of(rest, max_seq_len, overlap);
        assert(chunk_count(len - step, max_seq_len, overlap) == chunk_count(
            len,
            max_seq_len,
            overlap,
        ) - 1) by {
            let x = len - 1;
            assert((x - step) / step == x / step - 1) by (nonlinear_arith)
                requires
                    0 < step <= x,
            ;
        }
        assert forall|i: int| 0 <= i < rest_chunks.len() implies rest_chunks[i] == chunks[i + 1] by {
            lemma_start_inside_iff_counted(len, max_seq_len, overlap, i);
            lemma_start_inside_iff_counted(len - step, max_seq_len, overlap, i);
            assert(chunk_at(rest, i, max_seq_len, overlap) =~= chunk_at(
                tokens,
                i + 1,
                max_seq_len,
                overlap,
            ));
        }
        assert(chunks.drop_first() =~= rest_chunks);
        lemma_chunks_rebuild_tokens(rest, max_seq_len, overlap);
        assert(chunks[0].take(step) =~= tokens.take(step));
        assert(tokens.take(step) + rest =~= tokens);
    }
}

} // verus!
