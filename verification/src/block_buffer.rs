//! The buffer that cuts a stream of bytes into blocks.

use crate::base::MAX_MESSAGE_LEN;
use crate::var_core::{lemma_concat_one_block, DoubleHash256VarCore};
use vstd::prelude::*;

verus! {

/// A window of one block. It holds the bytes that have come in since the last
/// full block, always fewer than a block.
pub struct BlockBuffer {
    data: [u8; 64],
    pos: usize,
}

impl View for BlockBuffer {
    type V = Seq<u8>;

    /// The bytes held, in the order in which they came in.
    closed spec fn view(&self) -> Seq<u8> {
        self.data@.subrange(0, self.pos as int)
    }
}

impl BlockBuffer {
    #[verifier::type_invariant]
    spec fn well_formed(self) -> bool {
        self.pos < 64
    }

    /// An empty buffer.
    pub fn new() -> (buffer: Self)
        ensures
            buffer@ == Seq::<u8>::empty(),
    {
        BlockBuffer { data: [0u8; 64], pos: 0 }
    }

    /// The number of bytes held.
    pub fn get_pos(&self) -> (pos: usize)
        ensures
            pos == self@.len(),
            pos < 64,
    {
        proof {
            use_type_invariant(self);
        }
        self.pos
    }

    /// The bytes held.
    pub fn get_data(&self) -> (data: &[u8])
        ensures
            data@ == self@,
            data@.len() < 64,
    {
        proof {
            use_type_invariant(self);
        }
        vstd::slice::slice_subrange(self.data.as_slice(), 0, self.pos)
    }

    /// Forgets the bytes held.
    pub fn reset(&mut self)
        ensures
            final(self)@ == Seq::<u8>::empty(),
    {
        self.pos = 0;
    }

    /// Copies `count` bytes of `input`, from index `from` on, into the window
    /// at index `at`.
    fn fill(&mut self, at: usize, input: &[u8], from: usize, count: usize)
        requires
            at + count <= 64,
            from + count <= input@.len(),
        ensures
            final(self).pos == old(self).pos,
            final(self).data@ == old(self).data@.subrange(0, at as int) + input@.subrange(
                from as int,
                from + count,
            ) + old(self).data@.subrange(at + count, 64),
    {
        proof {
            use_type_invariant(&*self);
        }
        let len = input.len();
        let mut i: usize = 0;
        while i < count
            invariant
                i <= count,
                at + count <= 64,
                from + count <= len,
                len == input@.len(),
                self.pos == old(self).pos,
                self.pos < 64,
                self.data@ == old(self).data@.subrange(0, at as int) + input@.subrange(
                    from as int,
                    from + i,
                ) + old(self).data@.subrange(at + i, 64),
            decreases count - i,
        {
            self.data[at + i] = input[from + i];
            i += 1;
        }
    }

    /// Sends the window to `core` as one block.
    fn send_block(&self, core: &mut DoubleHash256VarCore)
        requires
            old(core).absorbed().len() + 64 <= MAX_MESSAGE_LEN,
        ensures
            final(core).absorbed() == old(core).absorbed() + self.data@,
            final(core).spec_output_size() == old(core).spec_output_size(),
    {
        let block = [self.data];
        proof {
            assert(block@ =~= seq![self.data]);
            lemma_concat_one_block(self.data);
        }
        core.update_blocks(&block);
    }

    /// Takes in `input` after the bytes held. Every full block of the bytes
    /// held followed by `input` goes to `core`, in order; what is left over,
    /// fewer bytes than a block, is held for the next call.
    pub fn digest_blocks(&mut self, input: &[u8], core: &mut DoubleHash256VarCore)
        requires
            old(core).absorbed().len() + old(self)@.len() + input@.len() <= MAX_MESSAGE_LEN,
        ensures
            final(core).absorbed() == old(core).absorbed() + full_blocks(old(self)@ + input@),
            final(self)@ == leftover(old(self)@ + input@),
            final(self)@.len() < 64,
            final(core).spec_output_size() == old(core).spec_output_size(),
    {
        proof {
            use_type_invariant(&*self);
        }
        let ghost total = self@ + input@;
        let ghost before = core.absorbed();
        let pos = self.pos;
        let n = input.len();
        let room = 64 - pos;
        if n < room {
            // All of it fits beside what is held, and no block is full.
            self.fill(pos, input, 0, n);
            self.pos = pos + n;
            proof {
                assert(self@ =~= total);
                assert(before + full_blocks(total) =~= before);
            }
            return ;
        }
        // `sent` bytes of `total` have gone to the core, `offset` of them
        // from `input`.
        let mut offset: usize = 0;
        if pos != 0 {
            self.fill(pos, input, 0, room);
            assert(self.data@ =~= total.subrange(0, 64));
            self.send_block(core);
            offset = room;
        }
        let ghost sent = if pos == 0 { 0int } else { 64int };
        assert(core.absorbed() =~= before + total.subrange(0, sent));
        while n - offset >= 64
            invariant
                offset <= n,
                n == input@.len(),
                self.pos == pos,
                pos == old(self)@.len(),
                pos < 64,
                total == old(self)@ + input@,
                (pos + offset) % 64 == 0,
                before.len() + total.len() <= MAX_MESSAGE_LEN,
                core.absorbed() == before + total.subrange(0, pos + offset),
                core.spec_output_size() == old(core).spec_output_size(),
            decreases n - offset,
        {
            self.fill(0, input, offset, 64);
            assert(self.data@ =~= total.subrange(pos + offset, pos + offset + 64));
            self.send_block(core);
            assert(core.absorbed() =~= before + total.subrange(0, pos + offset + 64));
            offset += 64;
        }
        let rest = n - offset;
        self.fill(0, input, offset, rest);
        self.pos = rest;
        proof {
            assert(full_blocks_len(total.len()) == pos + offset);
            assert(self@ =~= leftover(total));
        }
    }
}

impl Clone for BlockBuffer {
    /// A buffer that holds the same bytes.
    fn clone(&self) -> (copy: Self)
        ensures
            copy@ == self@,
    {
        proof {
            use_type_invariant(self);
        }
        BlockBuffer { data: self.data, pos: self.pos }
    }
}

/// The length of the full blocks at the front of `len` bytes.
pub open spec fn full_blocks_len(len: nat) -> nat {
    64 * (len / 64)
}

/// The full blocks at the front of `bytes`: as many blocks as fit.
pub open spec fn full_blocks(bytes: Seq<u8>) -> Seq<u8> {
    bytes.subrange(0, full_blocks_len(bytes.len()) as int)
}

/// What `bytes` holds after its full blocks: fewer bytes than a block.
pub open spec fn leftover(bytes: Seq<u8>) -> Seq<u8> {
    bytes.subrange(full_blocks_len(bytes.len()) as int, bytes.len() as int)
}

/// Bytes are their full blocks followed by what is left over; the full
/// blocks are a whole number of blocks, and what is left over is less than a
/// block.
pub proof fn lemma_full_blocks_and_leftover(bytes: Seq<u8>)
    ensures
        full_blocks(bytes) + leftover(bytes) == bytes,
        full_blocks(bytes).len() % 64 == 0,
        leftover(bytes).len() < 64,
{
    assert(full_blocks(bytes) + leftover(bytes) =~= bytes);
}

} // verus!
