use vstd::prelude::*;

pub mod apu;
pub mod controller;
pub mod ppu;
pub mod vram;

verus! {

/// A power-of-two sized byte store, addressed through a mask so that
/// every address mirrors onto the backing memory.
pub struct Ram {
    pub addr_mask: usize,
    pub mem: Vec<u8>,
}

/// `x & mask` never exceeds `mask`.
pub proof fn lemma_and_le(x: usize, mask: usize)
    ensures
        x & mask <= mask,
{
    assert(x & mask <= mask) by (bit_vector);
}

impl Ram {
    /// The contents of the store.
    pub open spec fn view(&self) -> Seq<u8> {
        self.mem@
    }

    pub open spec fn wf(&self) -> bool {
        &&& self.mem@.len() > 0
        &&& self.addr_mask as nat + 1 == self.mem@.len()
    }

    /// Where `addr` lands in the store.
    pub open spec fn index_of(&self, addr: u16) -> int {
        (addr as usize & self.addr_mask) as int
    }

    /// The byte that a read of `addr` returns.
    pub open spec fn byte_at(&self, addr: u16) -> u8 {
        self@[self.index_of(addr)]
    }

    pub open spec fn size_of(p2_size: usize) -> nat {
        (1usize << p2_size) as nat
    }

    /// A zero-filled store of `2^p2_size` bytes.
    pub fn new(p2_size: usize) -> (r: Ram)
        requires
            1 <= p2_size <= 16,
        ensures
            r.wf(),
            r@.len() == Self::size_of(p2_size),
            forall|i: int| 0 <= i < r@.len() ==> r@[i] == 0,
    {
        assert(1usize << p2_size >= 1 && 1usize << p2_size <= 0x10000) by (bit_vector)
            requires
                1 <= p2_size <= 16,
        ;
        let size: usize = 1usize << p2_size;
        let mem = vec![0u8; size];
        Ram { addr_mask: size - 1, mem }
    }

    pub fn read(&self, addr: u16) -> (r: u8)
        requires
            self.wf(),
        ensures
            r == self.byte_at(addr),
    {
        proof {
            lemma_and_le(addr as usize, self.addr_mask);
        }
        let idx = (addr as usize) & self.addr_mask;
        self.mem[idx]
    }

    pub fn write(&mut self, addr: u16, data: u8)
        requires
            old(self).wf(),
        ensures
            final(self).wf(),
            final(self).addr_mask == old(self).addr_mask,
            final(self)@ == old(self)@.update(old(self).index_of(addr), data),
    {
        proof {
            lemma_and_le(addr as usize, self.addr_mask);
        }
        let idx = (addr as usize) & self.addr_mask;
        self.mem.set(idx, data);
    }
}

/// A byte written to RAM reads back unchanged, at its own address and at
/// every address that mirrors onto it.
pub proof fn lemma_ram_round_trip(ram: Ram, addr: u16, data: u8, other: u16, after: Ram)
    requires
        ram.wf(),
        after.wf(),
        after.addr_mask == ram.addr_mask,
        after@ == ram@.update(ram.index_of(addr), data),
        ram.index_of(other) == ram.index_of(addr),
    ensures
        after.byte_at(addr) == data,
        after.byte_at(other) == data,
{
    lemma_and_le(addr as usize, ram.addr_mask);
}

} // verus!
