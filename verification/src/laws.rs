//! What holds of the hasher whatever the message and however it comes in.
//!
//! `DoubleHash256::update` appends its argument to the message, and
//! `DoubleHash256::finalize` returns `double_sha256` of the message. The laws
//! below follow a hasher through several calls by its message alone.

use crate::base::sha256;
use crate::var_core::double_sha256;
use vstd::prelude::*;

verus! {

/// The message of a hasher that starts at `message` and is updated with each
/// chunk in turn.
pub open spec fn absorb_chunks(message: Seq<u8>, chunks: Seq<Seq<u8>>) -> Seq<u8>
    decreases chunks.len(),
{
    if chunks.len() == 0 {
        message
    } else {
        absorb_chunks(message + chunks.first(), chunks.drop_first())
    }
}

/// The bytes of all the chunks, in order.
pub open spec fn concat_chunks(chunks: Seq<Seq<u8>>) -> Seq<u8>
    decreases chunks.len(),
{
    if chunks.len() == 0 {
        Seq::empty()
    } else {
        chunks.first() + concat_chunks(chunks.drop_first())
    }
}

/// Updating with chunks one after another appends all their bytes, in order.
pub proof fn lemma_absorb_chunks(message: Seq<u8>, chunks: Seq<Seq<u8>>)
    ensures
        absorb_chunks(message, chunks) == message + concat_chunks(chunks),
    decreases chunks.len(),
{
    if chunks.len() == 0 {
        assert(message + Seq::<u8>::empty() =~= message);
    } else {
        lemma_absorb_chunks(message + chunks.first(), chunks.drop_first());
        assert((message + chunks.first()) + concat_chunks(chunks.drop_first()) =~= message + (
        chunks.first() + concat_chunks(chunks.drop_first())));
    }
}

/// Two updates in a row do what one update with both arguments joined does.
pub proof fn lemma_update_joins(message: Seq<u8>, first: Seq<u8>, second: Seq<u8>)
    ensures
        absorb_chunks(message, seq![first, second]) == absorb_chunks(message, seq![first + second]),
{
    lemma_absorb_chunks(message, seq![first, second]);
    lemma_absorb_chunks(message, seq![first + second]);
    lemma_concat_single(first + second);
    assert(seq![first, second].drop_first() =~= seq![second]);
    lemma_concat_single(second);
}

/// A single chunk holds its own bytes.
pub proof fn lemma_concat_single(chunk: Seq<u8>)
    ensures
        concat_chunks(seq![chunk]) == chunk,
{
    assert(seq![chunk].drop_first() =~= Seq::<Seq<u8>>::empty());
    assert(chunk + concat_chunks(Seq::<Seq<u8>>::empty()) =~= chunk);
}

/// The digest of a message given in one piece is the SHA-256 digest of the
/// SHA-256 digest of that message.
pub proof fn lemma_double_hash_equivalence(message: Seq<u8>)
    ensures
        double_sha256(absorb_chunks(Seq::empty(), seq![message])) == sha256(sha256(message)@),
{
    lemma_absorb_chunks(Seq::empty(), seq![message]);
    lemma_concat_single(message);
    assert(Seq::<u8>::empty() + message =~= message);
}

/// However a message is cut into chunks, empty ones among them or not, the
/// digest is that of the message given in one piece.
pub proof fn lemma_chunking_invariance(message: Seq<u8>, chunks: Seq<Seq<u8>>)
    requires
        concat_chunks(chunks) == message,
    ensures
        double_sha256(absorb_chunks(Seq::empty(), chunks)) == double_sha256(
            absorb_chunks(Seq::empty(), seq![message]),
        ),
{
    lemma_absorb_chunks(Seq::empty(), chunks);
    lemma_absorb_chunks(Seq::empty(), seq![message]);
    lemma_concat_single(message);
}

/// Two hashers that are given the same chunks return the same digest.
pub proof fn lemma_determinism(first: Seq<Seq<u8>>, second: Seq<Seq<u8>>)
    requires
        first == second,
    ensures
        double_sha256(absorb_chunks(Seq::empty(), first)) == double_sha256(
            absorb_chunks(Seq::empty(), second),
        ),
{
}

/// The digest has 32 bytes, whatever the message.
pub proof fn lemma_fixed_width(message: Seq<u8>)
    ensures
        double_sha256(message)@.len() == 32,
{
}

/// A hasher and its clone start from the same message. When each is then
/// updated on its own, the one with `on_first` and the other with
/// `on_second`, each returns the digest of that message followed by what it
/// alone was given.
pub proof fn lemma_clone_independence(
    message: Seq<u8>,
    on_first: Seq<Seq<u8>>,
    on_second: Seq<Seq<u8>>,
)
    ensures
        double_sha256(absorb_chunks(message, on_first)) == double_sha256(
            absorb_chunks(Seq::empty(), seq![message + concat_chunks(on_first)]),
        ),
        double_sha256(absorb_chunks(message, on_second)) == double_sha256(
            absorb_chunks(Seq::empty(), seq![message + concat_chunks(on_second)]),
        ),
{
    lemma_absorb_chunks(message, on_first);
    lemma_absorb_chunks(message, on_second);
    lemma_absorb_chunks(Seq::empty(), seq![message + concat_chunks(on_first)]);
    lemma_absorb_chunks(Seq::empty(), seq![message + concat_chunks(on_second)]);
    lemma_concat_single(message + concat_chunks(on_first));
    lemma_concat_single(message + concat_chunks(on_second));
    assert(Seq::<u8>::empty() + (message + concat_chunks(on_first)) =~= message
        + concat_chunks(on_first));
    assert(Seq::<u8>::empty() + (message + concat_chunks(on_second)) =~= message + concat_chunks(
        on_second,
    ));
}

} // verus!
