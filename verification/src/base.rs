//! The boundary to the `sha2` and `digest` crates.
//!
//! Everything in this module is believed, not proved: each contract restates
//! what the sources of `sha2` and `digest` show of the function it names.
//! A `requires` leaves out the inputs on which the outside call would panic.
//! The two functions that change a state in place are marked `no_unwind` on
//! that ground.

use crate::var_core::{InvalidOutputSize, TruncSide};
use std::fmt::Write;
use vstd::prelude::*;

verus! {

/// Bytes in one block of the base algorithm.
pub const BLOCK_SIZE: usize = 64;

/// Bytes in the native digest of the base algorithm.
pub const NATIVE_OUTPUT_SIZE: usize = 32;

/// The longest message, in bytes, that the base algorithm takes: its padding
/// records the length in bits in a 64-bit field.
pub const MAX_MESSAGE_LEN: u64 = 0x1fff_ffff_ffff_ffff;

/// `sha2::Sha256VarCore`, the block-level state of the base algorithm.
#[verifier::external_type_specification]
#[verifier::external_body]
pub struct ExSha256VarCore(sha2::Sha256VarCore);

/// The SHA-256 digest of a message.
pub uninterp spec fn sha256(message: Seq<u8>) -> [u8; 32];

/// The bytes of the blocks that a base state has compressed so far, in order.
pub uninterp spec fn base_absorbed(state: sha2::Sha256VarCore) -> Seq<u8>;

/// The output size that a base state was made with.
pub uninterp spec fn base_width(state: sha2::Sha256VarCore) -> nat;

/// `Sha256VarCore::new`: a state that has compressed nothing, for an output
/// size of 28 or 32 bytes; for every other size its error, which has one
/// value and is handed on as the library's own.
#[verifier::external_body]
pub(crate) fn base_new(output_size: usize) -> (r: Result<sha2::Sha256VarCore, InvalidOutputSize>)
    ensures
        r is Ok <==> (output_size == 28 || output_size == 32),
        r matches Ok(state) ==> base_absorbed(state) == Seq::<u8>::empty() && base_width(state)
            == output_size,
{
    match <sha2::Sha256VarCore as digest::core_api::VariableOutputCore>::new(output_size) {
        Ok(state) => Ok(state),
        Err(_) => Err(InvalidOutputSize),
    }
}

/// `Sha256VarCore::update_blocks` on one block: the state compresses the
/// block after those it has compressed before. The call counts blocks in a
/// `u64`; the bound keeps that count, and the bit length taken from it when
/// the state is finalized, from overflowing.
#[verifier::external_body]
pub(crate) fn base_update_block(state: &mut sha2::Sha256VarCore, block: &[u8; 64])
    requires
        base_absorbed(*old(state)).len() + 64 <= MAX_MESSAGE_LEN,
    ensures
        base_absorbed(*final(state)) == base_absorbed(*old(state)) + block@,
        base_width(*final(state)) == base_width(*old(state)),
    no_unwind
{
    let block: &digest::core_api::Block<sha2::Sha256VarCore> = block.into();
    digest::core_api::UpdateCore::update_blocks(state, std::slice::from_ref(block));
}

/// `Sha256VarCore::finalize_variable_core` on a buffer that holds `pending`:
/// the state pads and compresses the pending bytes and writes itself out.
/// For a state made with the native output size that is the SHA-256 digest of
/// the compressed blocks followed by the pending bytes. `Buffer::new` panics
/// on 64 bytes or more, and the bit length is computed in a `u64`.
#[verifier::external_body]
pub(crate) fn base_finalize(state: &mut sha2::Sha256VarCore, pending: &[u8]) -> (out: [u8; 32])
    requires
        pending@.len() < 64,
        base_absorbed(*old(state)).len() + pending@.len() <= MAX_MESSAGE_LEN,
    ensures
        base_width(*old(state)) == 32 ==> out == sha256(base_absorbed(*old(state)) + pending@),
        base_width(*final(state)) == base_width(*old(state)),
    no_unwind
{
    let mut buffer = digest::core_api::Buffer::<sha2::Sha256VarCore>::new(pending);
    let mut full = digest::Output::<sha2::Sha256VarCore>::default();
    digest::core_api::VariableOutputCore::finalize_variable_core(state, &mut buffer, &mut full);
    full.into()
}

/// `Clone::clone` of `Sha256VarCore`, which copies the state.
#[verifier::external_body]
pub(crate) fn base_clone(state: &sha2::Sha256VarCore) -> (copy: sha2::Sha256VarCore)
    ensures
        base_absorbed(copy) == base_absorbed(*state),
        base_width(copy) == base_width(*state),
{
    state.clone()
}

/// `Sha256::new_with_prefix` followed by `FixedOutput::finalize_into`: the
/// SHA-256 digest of `data`. `sha2::Sha256` is `digest`'s buffering wrapper
/// around a `Sha256VarCore` made with the native output size, so this is the
/// function that `base_finalize` is stated over.
#[verifier::external_body]
pub(crate) fn sha256_digest(data: &[u8; 32]) -> (out: [u8; 32])
    ensures
        out == sha256(data@),
{
    let hasher = <sha2::Sha256 as digest::Digest>::new_with_prefix(data);
    let mut full = digest::Output::<sha2::Sha256>::default();
    digest::FixedOutput::finalize_into(hasher, &mut full);
    full.into()
}

/// `Sha256VarCore::TRUNC_SIDE`, which `sha2` sets to `TruncSide::Left`.
#[verifier::external_body]
pub(crate) fn base_trunc_side() -> (side: TruncSide)
    ensures
        side == TruncSide::Left,
{
    match <sha2::Sha256VarCore as digest::core_api::VariableOutputCore>::TRUNC_SIDE {
        digest::core_api::TruncSide::Left => TruncSide::Left,
        digest::core_api::TruncSide::Right => TruncSide::Right,
    }
}

/// `Sha256VarCore::write_alg_name`, which writes `Sha256`; here the text is
/// written to the end of a `String`.
#[verifier::external_body]
pub(crate) fn base_write_alg_name(f: &mut String)
    ensures
        final(f)@ == old(f)@ + "Sha256"@,
{
    let name = std::fmt::from_fn(<sha2::Sha256VarCore as digest::core_api::AlgorithmName>::write_alg_name);
    let _ = write!(f, "{}", name);
}

/// `String::push_str`, which appends `text`.
#[verifier::external_body]
pub(crate) fn write_str(f: &mut String, text: &str)
    ensures
        final(f)@ == old(f)@ + text@,
{
    f.push_str(text);
}

} // verus!
