//! A 64KB memory image that a program is assembled into.
use vstd::prelude::*;
use crate::interrupt_vector::{START_HI, START_LO};
use crate::Address;

verus! {

pub const ADDRESSABLE_BYTES: usize = 0x10000;

/// The whole address space, with a cursor where the next code goes.
pub struct Assembler {
    cursor: Address,
    binary: [u8; ADDRESSABLE_BYTES],
}

pub struct AssemblerView {
    pub cursor: Address,
    pub binary: Seq<u8>,
}

impl View for Assembler {
    type V = AssemblerView;

    closed spec fn view(&self) -> AssemblerView {
        AssemblerView { cursor: self.cursor, binary: self.binary@ }
    }
}

impl Assembler {
    pub fn new() -> (r: Self)
        ensures
            r@.cursor == 0,
            r@.binary == Seq::new(ADDRESSABLE_BYTES as nat, |_i: int| 0u8),
    {
        let r = Self { cursor: 0, binary: [0; ADDRESSABLE_BYTES] };
        assert(r@.binary =~= Seq::new(ADDRESSABLE_BYTES as nat, |_i: int| 0u8));
        r
    }

    /// Puts the `size` bytes of the image from `start` into `buffer`.
    pub fn partial_binary(&self, start: Address, size: usize, buffer: &mut Vec<u8>)
        requires
            start + size <= ADDRESSABLE_BYTES,
        ensures
            self@.binary.len() == ADDRESSABLE_BYTES,
            final(buffer)@ == self@.binary.subrange(start as int, start + size),
    {
        buffer.clear();
        let mut i: usize = 0;
        while i < size
            invariant
                i <= size,
                start + size <= ADDRESSABLE_BYTES,
                buffer@ == self@.binary.subrange(start as int, start + i),
            decreases size - i,
        {
            buffer.push(self.binary[start as usize + i]);
            i += 1;
            assert(buffer@ =~= self@.binary.subrange(start as int, start + i));
        }
    }

    /// Moves the cursor to `address`.
    pub fn org(&mut self, address: Address)
        ensures
            final(self)@ == (AssemblerView { cursor: address, ..old(self)@ }),
    {
        self.cursor = address;
    }

    /// Writes `address` into the reset vector, where the CPU starts.
    pub fn declare_pc_address(&mut self, address: Address)
        ensures
            final(self)@ == (AssemblerView {
                binary: old(self)@.binary.update(START_LO as int, (address % 256) as u8).update(START_HI as int, (address / 256) as u8),
                ..old(self)@
            }),
            final(self)@.binary.len() == ADDRESSABLE_BYTES,
            final(self)@.binary.subrange(START_LO as int, START_LO + 2) == seq![(address % 256) as u8, (address / 256) as u8],
    {
        assert((address & 0xff) as u8 == (address % 256) as u8 && (address >> 8u16) as u8 == (address / 256) as u8) by (bit_vector);
        self.binary[START_LO as usize] = (address & 0xff) as u8;
        self.binary[START_HI as usize] = (address >> 8u16) as u8;
        proof {
            lemma_declared_pc_reads_back(old(self)@, address);
        }
    }
}

/// An assembler's image covers the whole 64KB address space.
pub proof fn lemma_image_size(assembler: &Assembler)
    ensures
        assembler@.binary.len() == ADDRESSABLE_BYTES,
{
}

/// After `declare_pc_address(address)`, the two bytes of the reset vector read back as the
/// address, low byte first; every other byte of the image and the cursor are as they were.
pub proof fn lemma_declared_pc_reads_back(v: AssemblerView, address: Address)
    requires
        v.binary.len() == ADDRESSABLE_BYTES,
    ensures
        ({
            let w = AssemblerView {
                binary: v.binary.update(START_LO as int, (address % 256) as u8).update(START_HI as int, (address / 256) as u8),
                ..v
            };
            &&& w.binary.subrange(START_LO as int, START_LO + 2) == seq![(address % 256) as u8, (address / 256) as u8]
            &&& w.cursor == v.cursor
            &&& w.binary.len() == v.binary.len()
            &&& forall|i: int| 0 <= i < v.binary.len() && i != START_LO && i != START_HI ==> #[trigger] w.binary[i] == v.binary[i]
        }),
{
    let w = v.binary.update(START_LO as int, (address % 256) as u8).update(START_HI as int, (address / 256) as u8);
    assert(w.subrange(START_LO as int, START_LO + 2) =~= seq![(address % 256) as u8, (address / 256) as u8]);
}

} // verus!
