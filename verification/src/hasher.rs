//! The double hash as a streaming hasher with a fixed output of 32 bytes.

use crate::base::{write_str, MAX_MESSAGE_LEN, NATIVE_OUTPUT_SIZE};
use crate::block_buffer::{lemma_full_blocks_and_leftover, BlockBuffer};
use crate::var_core::{double_sha256, DoubleHash256VarCore};
use vstd::prelude::*;

verus! {

/// A streaming double SHA-256 hasher. Its view is the message so far: every
/// byte it has been given, in order.
pub struct DoubleHash256 {
    core: DoubleHash256VarCore,
    buffer: BlockBuffer,
    len: u64,
}

impl View for DoubleHash256 {
    type V = Seq<u8>;

    closed spec fn view(&self) -> Seq<u8> {
        self.core.absorbed() + self.buffer@
    }
}

impl DoubleHash256 {
    /// The hasher counts its message truly, and the message is one that the
    /// base algorithm takes.
    pub closed spec fn well_formed(&self) -> bool {
        &&& self.len == self@.len()
        &&& self.len <= MAX_MESSAGE_LEN
    }

    /// A hasher with an empty message.
    pub fn new() -> (hasher: Self)
        ensures
            hasher.well_formed(),
            hasher@ == Seq::<u8>::empty(),
    {
        let core = DoubleHash256VarCore::new(NATIVE_OUTPUT_SIZE).unwrap();
        DoubleHash256 { core, buffer: BlockBuffer::new(), len: 0 }
    }

    /// A hasher whose message is `data`.
    pub fn new_with_prefix(data: &[u8]) -> (hasher: Self)
        requires
            data@.len() <= MAX_MESSAGE_LEN,
        ensures
            hasher.well_formed(),
            hasher@ == data@,
    {
        let mut hasher = Self::new();
        hasher.update(data);
        hasher
    }

    /// The length of the message so far, in bytes.
    pub fn message_len(&self) -> (len: u64)
        requires
            self.well_formed(),
        ensures
            len == self@.len(),
            len <= MAX_MESSAGE_LEN,
    {
        self.len
    }

    /// Appends `data` to the message.
    pub fn update(&mut self, data: &[u8])
        requires
            old(self).well_formed(),
            old(self)@.len() + data@.len() <= MAX_MESSAGE_LEN,
        ensures
            final(self).well_formed(),
            final(self)@ == old(self)@ + data@,
    {
        let ghost message = self@ + data@;
        let ghost held = self.buffer@ + data@;
        self.buffer.digest_blocks(data, &mut self.core);
        self.len = self.len + data.len() as u64;
        proof {
            lemma_full_blocks_and_leftover(held);
            assert(self@ =~= message);
        }
    }

    /// The double hash of the message: the SHA-256 digest of the SHA-256
    /// digest of the message.
    pub fn finalize(self) -> (digest: [u8; 32])
        requires
            self.well_formed(),
        ensures
            digest == double_sha256(self@),
    {
        let mut core = self.core;
        let mut buffer = self.buffer;
        let mut digest = [0u8; 32];
        core.finalize_variable_core(&mut buffer, &mut digest);
        digest
    }

    /// Writes the debug rendering to the end of `f`: the name of the
    /// algorithm with its output size and a fixed text that shows nothing of
    /// the state.
    pub fn fmt(&self, f: &mut String)
        ensures
            final(f)@ == old(f)@ + "Sha256_32 { .. }"@,
    {
        DoubleHash256VarCore::write_alg_name(f);
        write_str(f, "_32");
        write_str(f, " { .. }");
        proof {
            reveal_strlit("Sha256");
            reveal_strlit("_32");
            reveal_strlit(" { .. }");
            reveal_strlit("Sha256_32 { .. }");
            assert("Sha256"@ + "_32"@ + " { .. }"@ =~= "Sha256_32 { .. }"@);
        }
    }
}

impl Clone for DoubleHash256 {
    /// An independent hasher with the same message so far.
    fn clone(&self) -> (copy: Self)
        ensures
            copy@ == self@,
            copy.well_formed() == self.well_formed(),
    {
        DoubleHash256 { core: self.core.clone(), buffer: self.buffer.clone(), len: self.len }
    }
}

} // verus!
