use vstd::prelude::*;

use crate::cartridge::MirrorMode;
use crate::device::Ram;

verus! {

/// log2 of the size of one nametable.
pub const TABLE_P2_SIZE: usize = 10;

/// The 2 KiB of nametable memory, seen as two 1 KiB tables.
pub struct Vram {
    pub table_lo: Ram,
    pub table_hi: Ram,
}

/// Which of the two tables an address in nametable space selects.
pub open spec fn table_of(mirror: MirrorMode, addr: u16) -> u16 {
    match mirror {
        MirrorMode::Horizontal => (addr >> 11u16) & 1,
        MirrorMode::Vertical => (addr >> 10u16) & 1,
        MirrorMode::OneScreenLow => 0,
        MirrorMode::OneScreenHigh => 1,
    }
}

impl Vram {
    pub open spec fn wf(&self) -> bool {
        &&& self.table_lo.wf()
        &&& self.table_hi.wf()
        &&& self.table_lo@.len() == 0x400
        &&& self.table_hi@.len() == 0x400
    }

    /// The byte that a read of `addr` under `mirror` returns.
    pub open spec fn byte_at(&self, mirror: MirrorMode, addr: u16) -> u8 {
        if table_of(mirror, addr) == 0 {
            self.table_lo.byte_at(addr)
        } else {
            self.table_hi.byte_at(addr)
        }
    }

    pub fn new() -> (r: Vram)
        ensures
            r.wf(),
            forall|i: int| 0 <= i < 0x400 ==> r.table_lo@[i] == 0 && r.table_hi@[i] == 0,
    {
        let table_lo = Ram::new(TABLE_P2_SIZE);
        let table_hi = Ram::new(TABLE_P2_SIZE);
        assert(1usize << 10usize == 0x400) by (bit_vector);
        Vram { table_lo, table_hi }
    }

    fn table_index(mirror: MirrorMode, addr: u16) -> (r: u16)
        ensures
            r == table_of(mirror, addr),
    {
        match mirror {
            MirrorMode::Horizontal => (addr >> 11u16) & 1,
            MirrorMode::Vertical => (addr >> 10u16) & 1,
            MirrorMode::OneScreenLow => 0,
            MirrorMode::OneScreenHigh => 1,
        }
    }

    pub fn read(&self, mirror: MirrorMode, addr: u16) -> (r: u8)
        requires
            self.wf(),
        ensures
            r == self.byte_at(mirror, addr),
    {
        if Self::table_index(mirror, addr) == 0 {
            self.table_lo.read(addr)
        } else {
            self.table_hi.read(addr)
        }
    }

    pub fn write(&mut self, mirror: MirrorMode, addr: u16, data: u8)
        requires
            old(self).wf(),
        ensures
            final(self).wf(),
            table_of(mirror, addr) == 0 ==> {
                &&& final(self).table_lo@ == old(self).table_lo@.update(
                    old(self).table_lo.index_of(addr),
                    data,
                )
                &&& final(self).table_hi == old(self).table_hi
            },
            table_of(mirror, addr) != 0 ==> {
                &&& final(self).table_hi@ == old(self).table_hi@.update(
                    old(self).table_hi.index_of(addr),
                    data,
                )
                &&& final(self).table_lo == old(self).table_lo
            },
            final(self).table_lo.addr_mask == old(self).table_lo.addr_mask,
            final(self).table_hi.addr_mask == old(self).table_hi.addr_mask,
    {
        if Self::table_index(mirror, addr) == 0 {
            self.table_lo.write(addr, data);
        } else {
            self.table_hi.write(addr, data);
        }
    }
}

} // verus!
