//! The block-level core of the double hash.

use crate::base::{base_absorbed, base_width, sha256};
use crate::base::{base_clone, base_finalize, base_new, base_trunc_side, base_update_block};
use crate::base::{base_write_alg_name, sha256_digest, write_str};
use crate::base::{MAX_MESSAGE_LEN, NATIVE_OUTPUT_SIZE};
use crate::block_buffer::BlockBuffer;
use vstd::prelude::*;

verus! {

/// The end of a native digest that is kept when a shorter output is asked for.
#[derive(Clone, Copy, Debug, PartialEq, Eq, Structural)]
pub enum TruncSide {
    /// Keep the leading bytes.
    Left,
    /// Keep the trailing bytes.
    Right,
}

/// The requested output size is zero or larger than the native digest.
#[derive(Clone, Copy, Debug, PartialEq, Eq, Structural)]
pub struct InvalidOutputSize;

/// The bytes of a sequence of blocks, in order.
pub open spec fn concat_blocks(blocks: Seq<[u8; 64]>) -> Seq<u8>
    decreases blocks.len(),
{
    if blocks.len() == 0 {
        Seq::empty()
    } else {
        concat_blocks(blocks.drop_last()) + blocks.last()@
    }
}

/// The double hash of a message: the SHA-256 digest of its SHA-256 digest.
pub open spec fn double_sha256(message: Seq<u8>) -> [u8; 32] {
    sha256(sha256(message)@)
}

/// The `output_size` bytes of `full` that are kept on the given side.
pub open spec fn truncated(full: Seq<u8>, output_size: int, side: TruncSide) -> Seq<u8> {
    match side {
        TruncSide::Left => full.subrange(0, output_size),
        TruncSide::Right => full.subrange(full.len() - output_size, full.len() as int),
    }
}

/// Block-level state of the double hash: one state of the base algorithm,
/// which absorbs every block, and the output size chosen at construction.
pub struct DoubleHash256VarCore {
    inner: sha2::Sha256VarCore,
    output_size: usize,
}

impl DoubleHash256VarCore {
    #[verifier::type_invariant]
    spec fn well_formed(self) -> bool {
        &&& base_width(self.inner) == NATIVE_OUTPUT_SIZE
        &&& 1 <= self.output_size <= NATIVE_OUTPUT_SIZE
    }

    /// The bytes of the blocks absorbed so far, in order.
    pub closed spec fn absorbed(&self) -> Seq<u8> {
        base_absorbed(self.inner)
    }

    /// The output size chosen at construction.
    pub closed spec fn spec_output_size(&self) -> usize {
        self.output_size
    }

    /// A core that has absorbed nothing, for an output of `output_size` bytes.
    /// Sizes from 1 to the native digest size are accepted, no others.
    pub fn new(output_size: usize) -> (r: Result<Self, InvalidOutputSize>)
        ensures
            r is Ok <==> 1 <= output_size <= NATIVE_OUTPUT_SIZE,
            r matches Ok(core) ==> core.absorbed() == Seq::<u8>::empty()
                && core.spec_output_size() == output_size,
    {
        if output_size == 0 || output_size > NATIVE_OUTPUT_SIZE {
            return Err(InvalidOutputSize);
        }
        match base_new(NATIVE_OUTPUT_SIZE) {
            Ok(inner) => Ok(DoubleHash256VarCore { inner, output_size }),
            Err(e) => Err(e),
        }
    }

    /// The output size chosen at construction.
    #[verifier::when_used_as_spec(spec_output_size)]
    pub fn output_size(&self) -> (n: usize)
        ensures
            n == self.spec_output_size(),
            1 <= n <= NATIVE_OUTPUT_SIZE,
    {
        proof {
            use_type_invariant(self);
        }
        self.output_size
    }

    /// Absorbs the blocks, in order.
    pub fn update_blocks(&mut self, blocks: &[[u8; 64]])
        requires
            old(self).absorbed().len() + 64 * blocks@.len() <= MAX_MESSAGE_LEN,
        ensures
            final(self).absorbed() == old(self).absorbed() + concat_blocks(blocks@),
            final(self).spec_output_size() == old(self).spec_output_size(),
    {
        proof {
            use_type_invariant(&*self);
        }
        let ghost before = self.absorbed();
        let mut i: usize = 0;
        while i < blocks.len()
            invariant
                i <= blocks@.len(),
                before.len() + 64 * blocks@.len() <= MAX_MESSAGE_LEN,
                self.absorbed() == before + concat_blocks(blocks@.take(i as int)),
                self.spec_output_size() == old(self).spec_output_size(),
                self.well_formed(),
            decreases blocks@.len() - i,
        {
            proof {
                lemma_concat_blocks_len(blocks@.take(i as int));
                assert(blocks@.take(i + 1).drop_last() =~= blocks@.take(i as int));
            }
            base_update_block(&mut self.inner, &blocks[i]);
            i += 1;
        }
        proof {
            assert(blocks@.take(blocks@.len() as int) =~= blocks@);
        }
    }

    /// Ends the message with the bytes held in `buffer` and writes its double
    /// hash to `out`: the base state is finalized into a first digest, and a
    /// fresh instance of the base algorithm hashes exactly that digest.
    pub fn finalize_variable_core(&mut self, buffer: &mut BlockBuffer, out: &mut [u8; 32])
        requires
            old(self).absorbed().len() + old(buffer)@.len() <= MAX_MESSAGE_LEN,
        ensures
            *final(out) == double_sha256(old(self).absorbed() + old(buffer)@),
            final(buffer)@ == Seq::<u8>::empty(),
            final(self).spec_output_size() == old(self).spec_output_size(),
    {
        proof {
            use_type_invariant(&*self);
        }
        let first = base_finalize(&mut self.inner, buffer.get_data());
        buffer.reset();
        *out = sha256_digest(&first);
    }

    /// Ends the message as `finalize_variable_core` does and returns the
    /// double hash cut to the output size chosen at construction, on the side
    /// that the base algorithm names.
    pub fn finalize_variable(&mut self, buffer: &mut BlockBuffer) -> (out: Vec<u8>)
        requires
            old(self).absorbed().len() + old(buffer)@.len() <= MAX_MESSAGE_LEN,
        ensures
            out@ == truncated(
                double_sha256(old(self).absorbed() + old(buffer)@)@,
                old(self).spec_output_size() as int,
                TruncSide::Left,
            ),
            final(buffer)@ == Seq::<u8>::empty(),
            final(self).spec_output_size() == old(self).spec_output_size(),
    {
        let mut full = [0u8; 32];
        self.finalize_variable_core(buffer, &mut full);
        truncate(&full, self.output_size(), Self::trunc_side())
    }

    /// The side on which a digest is cut, taken over from the base algorithm.
    pub fn trunc_side() -> (side: TruncSide)
        ensures
            side == TruncSide::Left,
    {
        base_trunc_side()
    }

    /// Writes the name of the algorithm, which is that of the base algorithm,
    /// to the end of `f`.
    pub fn write_alg_name(f: &mut String)
        ensures
            final(f)@ == old(f)@ + "Sha256"@,
    {
        base_write_alg_name(f);
    }

    /// Writes the debug rendering to the end of `f`: a fixed text that shows
    /// nothing of the state.
    pub fn fmt(&self, f: &mut String)
        ensures
            final(f)@ == old(f)@ + "Hash256VarCore { ... }"@,
    {
        write_str(f, "Hash256VarCore { ... }");
    }
}

impl Clone for DoubleHash256VarCore {
    /// An independent core with the same state.
    fn clone(&self) -> (copy: Self)
        ensures
            copy.absorbed() == self.absorbed(),
            copy.spec_output_size() == self.spec_output_size(),
    {
        proof {
            use_type_invariant(self);
        }
        DoubleHash256VarCore { inner: base_clone(&self.inner), output_size: self.output_size }
    }
}

/// Cuts a native digest to `output_size` bytes, kept on the given side.
pub fn truncate(full: &[u8; 32], output_size: usize, side: TruncSide) -> (out: Vec<u8>)
    requires
        output_size <= NATIVE_OUTPUT_SIZE,
    ensures
        out@ == truncated(full@, output_size as int, side),
{
    let start: usize = match side {
        TruncSide::Left => 0,
        TruncSide::Right => 32 - output_size,
    };
    let mut out: Vec<u8> = Vec::with_capacity(output_size);
    let mut i: usize = 0;
    while i < output_size
        invariant
            i <= output_size,
            start + output_size <= 32,
            out@ == full@.subrange(start as int, start + i),
        decreases output_size - i,
    {
        out.push(full[start + i]);
        i += 1;
    }
    out
}

/// A sequence of blocks holds 64 bytes for each block.
pub proof fn lemma_concat_blocks_len(blocks: Seq<[u8; 64]>)
    ensures
        concat_blocks(blocks).len() == 64 * blocks.len(),
    decreases blocks.len(),
{
    if blocks.len() > 0 {
        lemma_concat_blocks_len(blocks.drop_last());
    }
}

/// A sequence of one block holds the bytes of that block.
pub proof fn lemma_concat_one_block(block: [u8; 64])
    ensures
        concat_blocks(seq![block]) == block@,
{
    assert(seq![block].drop_last() =~= Seq::<[u8; 64]>::empty());
    assert(concat_blocks(seq![block]) =~= block@) by {
        reveal_with_fuel(concat_blocks, 2);
    }
}

} // verus!
