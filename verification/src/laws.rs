use vstd::prelude::*;
use crate::transfer::{concat_of, sum_len, Transfer};

verus! {

/// Concatenating chunks yields exactly as many bytes as the chunks hold
/// together.
pub proof fn lemma_concat_len(chunks: Seq<Seq<u8>>)
    ensures
        concat_of(chunks).len() == sum_len(chunks),
    decreases chunks.len(),
{
    if chunks.len() > 0 {
        lemma_concat_len(chunks.drop_last());
    }
}

/// The buffer a well-formed transfer accumulates is exactly the concatenation
/// of the chunks it received, in arrival order: no chunk is dropped,
/// duplicated or reordered.
pub proof fn lemma_buffer_is_concatenation(t: Transfer)
    requires
        t.wf(),
    ensures
        t.bytes() == concat_of(t.chunks()),
{
}

/// The progress counter of a well-formed transfer equals the total number of
/// bytes in the chunks received so far: the updates sum to exactly the bytes
/// transferred, whichever mode the indicator runs in.
pub proof fn lemma_received_counts_every_byte(t: Transfer)
    requires
        t.wf(),
    ensures
        t.received_spec() == sum_len(t.chunks()),
        t.received_spec() == t.bytes().len(),
{
    lemma_concat_len(t.chunks());
}

/// Two transfers that receive the same byte stream end with identical
/// buffers, however differently the origin split that stream into chunks; in
/// particular, repeating an invocation against an unchanged origin reproduces
/// the output byte for byte.
pub proof fn lemma_transfer_deterministic(a: Transfer, b: Transfer)
    requires
        a.wf(),
        b.wf(),
        concat_of(a.chunks()) == concat_of(b.chunks()),
    ensures
        a.bytes() == b.bytes(),
{
}

} // verus!
