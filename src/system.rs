use vstd::prelude::*;

use crate::cartridge::{Cartridge, Mapper, MirrorMode};
use crate::cpu::{Cpu, Executed, FLAG_I};
use crate::device::apu::ChannelLevels;
use crate::device::apu::{apu_status, Apu};
use crate::device::controller::{Controller, ControllerPort};
use crate::device::ppu::Ppu;
use crate::device::vram::{table_of, Vram};
use crate::device::{lemma_and_le, Ram};

verus! {

pub const CHR_END: u16 = 0x1FFF;
pub const VRAM_START: u16 = 0x2000;
pub const VRAM_END: u16 = 0x3EFF;
pub const PALETTE_START: u16 = 0x3F00;

/// Where a palette address lands in the 32-byte palette: the backdrop
/// entries of the sprite palettes (0x10, 0x14, 0x18, 0x1C) fold onto those
/// of the background palettes.
pub open spec fn palette_index(addr: u16) -> u16 {
    let i = addr & 0x1F;
    if i & 0x13 == 0x10 {
        i & 0x0F
    } else {
        i
    }
}

/// The word an interrupt vector at `addr` holds in `cart`, with `last` on
/// the bus before the first read.
pub open spec fn vector_word(cart: Cartridge, addr: u16, last: u8) -> u16 {
    let lo = match cart.cpu_byte(addr) {
        Some(b) => b,
        None => last,
    };
    let hi = match cart.cpu_byte(addr.wrapping_add(1)) {
        Some(b) => b,
        None => lo,
    };
    ((hi as u16) << 8u16) | (lo as u16)
}

/// The PPU's 14-bit address space: cartridge character memory, nametables
/// and the palette.
pub struct PpuBus {
    pub cart: Cartridge,
    pub vram: Vram,
    pub palette: Ram,
}

impl PpuBus {
    pub open spec fn wf(&self) -> bool {
        &&& self.cart.wf()
        &&& self.vram.wf()
        &&& self.palette.wf()
        &&& self.palette@.len() == 0x20
    }

    /// The byte a read of `addr` yields.
    pub open spec fn byte_at(&self, addr: u16) -> u8 {
        let a = addr & 0x3FFF;
        if a <= CHR_END {
            self.cart.ppu_byte(a)
        } else if a <= VRAM_END {
            self.vram.byte_at(self.cart.mirror_mode(), (a - VRAM_START) as u16)
        } else {
            self.palette.byte_at(palette_index(a))
        }
    }

    /// The memory cell behind `addr`: which store (character memory, one of
    /// the two nametables, or the palette) and the index within it.
    pub open spec fn cell(&self, addr: u16) -> (int, int) {
        let a = addr & 0x3FFF;
        if a <= CHR_END {
            (0, (a & 0x1FFF) as int)
        } else if a <= VRAM_END {
            let n = (a - VRAM_START) as u16;
            if table_of(self.cart.mirror_mode(), n) == 0 {
                (1, self.vram.table_lo.index_of(n))
            } else {
                (2, self.vram.table_hi.index_of(n))
            }
        } else {
            (3, self.palette.index_of(palette_index(a)))
        }
    }

    pub fn read(&self, addr: u16) -> (r: u8)
        requires
            self.wf(),
        ensures
            r == self.byte_at(addr),
    {
        let a = addr & 0x3FFF;
        if a <= CHR_END {
            self.cart.ppu_read(a)
        } else if a <= VRAM_END {
            self.vram.read(self.cart.mirror(), a - VRAM_START)
        } else {
            let i = a & 0x1F;
            let folded = if i & 0x13 == 0x10 {
                i & 0x0F
            } else {
                i
            };
            self.palette.read(folded)
        }
    }

    /// How a write of `data` at `addr` changes the PPU bus.
    pub open spec fn written(o: PpuBus, f: PpuBus, addr: u16, data: u8) -> bool {
        &&& (f.cart.mapper == o.cart.mapper)
        &&& (f.cart.mirror == o.cart.mirror)
        &&& (f.cart.prg_rom == o.cart.prg_rom)
        &&& ((addr & 0x3FFF) > CHR_END ==> f.cart == o.cart)
        &&& ((addr & 0x3FFF) <= CHR_END && o.cart.chr_is_ram ==> f.byte_at(addr)
                == data)
        &&& (CHR_END < (addr & 0x3FFF) <= VRAM_END ==> f.byte_at(addr) == data)
        &&& ((addr & 0x3FFF) > VRAM_END ==> f.byte_at(addr) == data)
        &&& ((addr & 0x3FFF) >= PALETTE_START ==> f.vram == o.vram)
        &&& ((addr & 0x3FFF) <= VRAM_END ==> f.palette == o.palette)
        &&& ((addr & 0x3FFF) > CHR_END ==> forall|q: u16|
                #![trigger f.byte_at(q)]
                (q & 0x3FFF) > CHR_END && o.cell(q) != o.cell(addr) ==> f.byte_at(q) == o.byte_at(q))
    }

    pub fn write(&mut self, addr: u16, data: u8)
        requires
            old(self).wf(),
        ensures
            final(self).wf(),
            Self::written(*old(self), *final(self), addr, data),
    {
        let a = addr & 0x3FFF;
        assert(a & 0x3FFF == a) by (bit_vector)
            requires
                a == addr & 0x3FFF,
        ;
        if a <= CHR_END {
            self.cart.ppu_write(a, data);
            proof {
                assert(a & 0x1FFF == a) by (bit_vector)
                    requires
                        a <= 0x1FFF,
                ;
            }
        } else if a <= VRAM_END {
            let mirror = self.cart.mirror();
            proof {
                lemma_and_le((a - VRAM_START) as usize, self.vram.table_lo.addr_mask);
                lemma_and_le((a - VRAM_START) as usize, self.vram.table_hi.addr_mask);
            }
            self.vram.write(mirror, a - VRAM_START, data);
            assert forall|o: u16|
                #![trigger self.byte_at(o)]
                (o & 0x3FFF) > CHR_END && old(self).cell(o) != old(self).cell(addr) implies self.byte_at(
                    o,
                ) == old(self).byte_at(o) by {
                    let oa = o & 0x3FFF;
                if oa <= VRAM_END {
                    let n = (oa - VRAM_START) as u16;
                    lemma_and_le(n as usize, self.vram.table_lo.addr_mask);
                    lemma_and_le(n as usize, self.vram.table_hi.addr_mask);
                }
            }
        } else {
            let i = a & 0x1F;
            let folded = if i & 0x13 == 0x10 {
                i & 0x0F
            } else {
                i
            };
            proof {
                lemma_and_le(folded as usize, self.palette.addr_mask);
            }
            self.palette.write(folded, data);
            assert forall|o: u16|
                #![trigger self.byte_at(o)]
                (o & 0x3FFF) > CHR_END && old(self).cell(o) != old(self).cell(addr) implies self.byte_at(
                    o,
                ) == old(self).byte_at(o) by {
                    let oa = o & 0x3FFF;
                if oa > VRAM_END {
                    lemma_and_le(palette_index(oa) as usize, self.palette.addr_mask);
                }
            }
        }
    }
}

/// Palette mirroring: a byte written at a sprite backdrop entry (0x3F10,
/// 0x3F14, 0x3F18, 0x3F1C) reads back at the matching background entry
/// (0x3F00, 0x3F04, 0x3F08, 0x3F0C), and the other way round.
pub proof fn lemma_palette_mirror(k: u16)
    requires
        k < 4,
    ensures
        palette_index((0x3F10 + 4 * k) as u16) == palette_index((0x3F00 + 4 * k) as u16),
        palette_index((0x3F00 + 4 * k) as u16) == 4 * k,
{
    let hi: u16 = (0x3F10 + 4 * k) as u16;
    let lo: u16 = (0x3F00 + 4 * k) as u16;
    assert(((hi & 0x1F) & 0x13 == 0x10) && (hi & 0x1F) & 0x0F == 4 * k && (lo & 0x1F) & 0x13 != 0x10
        && lo & 0x1F == 4 * k) by (bit_vector)
        requires
            k < 4,
            hi == (0x3F10 + 4 * k) as u16,
            lo == (0x3F00 + 4 * k) as u16,
    ;
}

/// Two bytes written at consecutive nametable or palette addresses that
/// land in different cells both read back as written.
pub proof fn lemma_ppu_write_then_read_back(
    b0: PpuBus,
    b1: PpuBus,
    b2: PpuBus,
    addr: u16,
    d1: u8,
    d2: u8,
)
    requires
        b0.wf(),
        b1.wf(),
        0x2000 <= addr < 0x3FFF,
        b0.cell(addr) != b0.cell((addr + 1) as u16),
        b1.cart == b0.cart,
        b1.byte_at(addr) == d1,
        b1.cell((addr + 1) as u16) == b0.cell((addr + 1) as u16),
        b1.cell(addr) == b0.cell(addr),
        b2.byte_at((addr + 1) as u16) == d2,
        forall|o: u16|
            #![trigger b2.byte_at(o)]
            (o & 0x3FFF) > CHR_END && b1.cell(o) != b1.cell((addr + 1) as u16) ==> b2.byte_at(o)
                == b1.byte_at(o),
    ensures
        b2.byte_at(addr) == d1,
        b2.byte_at((addr + 1) as u16) == d2,
{
    assert(addr & 0x3FFF == addr) by (bit_vector)
        requires
            0x2000 <= addr < 0x3FFF,
    ;
}

/// The samples among step results, in order.
pub open spec fn present(outs: Seq<Option<ChannelLevels>>) -> Seq<ChannelLevels>
    decreases outs.len(),
{
    if outs.len() == 0 {
        Seq::empty()
    } else {
        let rest = present(outs.drop_last());
        match outs.last() {
            Some(s) => rest.push(s),
            None => rest,
        }
    }
}

proof fn lemma_present_push(outs: Seq<Option<ChannelLevels>>, out: Option<ChannelLevels>)
    ensures
        present(outs.push(out)) == match out {
            Some(s) => present(outs).push(s),
            None => present(outs),
        },
{
    assert(outs.push(out).drop_last() =~= outs);
}

/// The OAM DMA unit: source page, offset within it, whether a transfer is
/// running, whether its first (halt) cycle has passed, and the byte read
/// but not yet written.
#[derive(PartialEq, Eq, Structural, Clone, Copy, Debug)]
pub struct Dma {
    pub page: u8,
    pub addr: u8,
    pub active: bool,
    pub started: bool,
    pub latch: Option<u8>,
}

/// The DMA unit after one master cycle on which `even` tells whether an
/// even number of cycles has elapsed; `read` is the byte a read would give.
pub open spec fn dma_step(d: Dma, even: bool, read: u8) -> Dma {
    if !d.active {
        d
    } else if !d.started {
        Dma { started: true, ..d }
    } else {
        match d.latch {
            None => if even {
                Dma { latch: Some(read), ..d }
            } else {
                d
            },
            Some(_) => Dma {
                latch: None,
                addr: d.addr.wrapping_add(1),
                active: d.addr != 255,
                ..d
            },
        }
    }
}

/// The copying part of a DMA cycle: a read cycle latches the byte at the
/// source address, a write cycle stores the latched byte at the OAM
/// address and moves both addresses on.
pub open spec fn dma_moved(ob: CpuBus, fb: CpuBus, even: bool) -> bool {
    let d = ob.dma;
    let src = ((d.page as u16) << 8u16) | (d.addr as u16);
    &&& d.started && d.latch is None && even ==> fb.dma.latch is Some && (ob.fixed_byte(src) is Some
        ==> fb.dma.latch == ob.fixed_byte(src))
    &&& d.started && d.latch is Some ==> fb.ppu.oam@ == ob.ppu.oam@.update(
        ob.ppu.oam_addr as int,
        d.latch.unwrap(),
    ) && fb.ppu.oam_addr == ob.ppu.oam_addr.wrapping_add(1)
    &&& !(d.started && d.latch is Some) ==> fb.ppu.oam == ob.ppu.oam && fb.ppu.oam_addr
        == ob.ppu.oam_addr
}

/// How many more master cycles the transfer keeps the CPU halted, from a
/// cycle of parity `even`.
pub open spec fn dma_cycles_left(d: Dma, even: bool) -> nat
    decreases (if d.active { 256 - d.addr } else { 0int }) * 8 + (if d.started { 0int } else {
        4
    }) + (if d.latch is Some { 0int } else { 2 }) + (if even { 0int } else { 1 }),
{
    if !d.active {
        0
    } else if !d.started {
        1 + dma_cycles_left(Dma { started: true, ..d }, !even)
    } else {
        match d.latch {
            None => if even {
                1 + dma_cycles_left(Dma { latch: Some(0), ..d }, !even)
            } else {
                1 + dma_cycles_left(d, !even)
            },
            Some(_) => if d.addr == 255 {
                1
            } else {
                1 + dma_cycles_left(
                    Dma { latch: None, addr: (d.addr + 1) as u8, ..d },
                    !even,
                )
            },
        }
    }
}

proof fn lemma_dma_pairs(d: Dma)
    requires
        d.active,
        d.started,
        d.latch is None,
    ensures
        dma_cycles_left(d, true) == 2 * (256 - d.addr),
        dma_cycles_left(d, false) == 2 * (256 - d.addr) + 1,
    decreases 256 - d.addr,
{
    let got = Dma { latch: Some(0), ..d };
    if d.addr < 255 {
        let next = Dma { latch: None, addr: (d.addr + 1) as u8, ..d };
        lemma_dma_pairs(next);
        assert(dma_cycles_left(got, false) == 1 + dma_cycles_left(next, true));
    } else {
        assert(dma_cycles_left(got, false) == 1);
    }
    assert(dma_cycles_left(d, true) == 1 + dma_cycles_left(got, false));
    assert(dma_cycles_left(d, false) == 1 + dma_cycles_left(d, true));
}

/// Each DMA cycle takes one off the cycles the transfer still halts the CPU.
pub proof fn lemma_dma_step_counts_down(d: Dma, even: bool, read: u8)
    requires
        d.active,
    ensures
        dma_cycles_left(dma_step(d, even, read), !even) + 1 == dma_cycles_left(d, even),
{
    if d.started {
        match d.latch {
            None => {
                if even {
                    let a = Dma { latch: Some(read), ..d };
                    let b = Dma { latch: Some(0), ..d };
                    assert(dma_cycles_left(a, !even) == dma_cycles_left(b, !even));
                }
            },
            Some(_) => {},
        }
    }
}

/// A transfer started by a write to 0x4014 copies 256 bytes and halts the
/// CPU for 513 master cycles when the write falls on an even cycle (one
/// halt cycle, then a read and a write per byte), and 514 when it falls on
/// an odd one (one more cycle to align).
pub proof fn lemma_dma_cost(page: u8, even_at_write: bool)
    ensures
        ({
            let d = Dma { page, addr: 0, active: true, started: false, latch: None };
            dma_cycles_left(d, !even_at_write) == if even_at_write {
                513nat
            } else {
                514nat
            }
        }),
{
    let d = Dma { page, addr: 0, active: true, started: false, latch: None };
    let s = Dma { started: true, ..d };
    lemma_dma_pairs(s);
    assert(dma_cycles_left(d, !even_at_write) == 1 + dma_cycles_left(s, even_at_write));
}

impl Dma {
    pub fn new() -> (r: Dma)
        ensures
            r.page == 0 && r.addr == 0 && !r.active,
    {
        Dma { page: 0, addr: 0, active: false, started: false, latch: None }
    }

    /// A write to 0x4014 starts a transfer from page `data`.
    pub fn write(&mut self, data: u8)
        ensures
            *final(self) == (Dma { page: data, addr: 0, active: true, started: false, latch: None }),
    {
        self.page = data;
        self.addr = 0;
        self.active = true;
        self.started = false;
        self.latch = None;
    }
}

pub const RAM_END: u16 = 0x1FFF;
pub const PPU_START: u16 = 0x2000;
pub const PPU_END: u16 = 0x3FFF;
pub const APU_START: u16 = 0x4000;
pub const APU_END: u16 = 0x4013;
pub const DMA: u16 = 0x4014;
pub const APU_STATUS_CONTROL: u16 = 0x4015;
pub const CONTROLLER_A: u16 = 0x4016;
pub const CONTROLLER_B: u16 = 0x4017;
pub const APU_FRAME_COUNTER: u16 = 0x4017;
pub const PRG_START: u16 = 0x4020;
pub const RESET_VECTOR_ADDR: u16 = 0xFFFC;

/// Whether a CPU read of `addr` has no effect but on the bus latch: RAM
/// and cartridge space.
pub open spec fn quiet_addr(addr: u16) -> bool {
    addr <= RAM_END || addr >= PRG_START
}

/// The CPU's 16-bit address space and every device on it.
pub struct CpuBus {
    pub ram: Ram,
    pub ppu: Ppu,
    pub apu: Apu,
    pub dma: Dma,
    pub controller: Controller,
    pub ppu_bus: PpuBus,
    /// The last value seen on the data bus, returned by open-bus reads.
    pub last_bus_value: u8,
    /// Every write made through the bus, in order.
    pub write_log: Ghost<Seq<(u16, u8)>>,
}

impl CpuBus {
    pub open spec fn wf(&self) -> bool {
        &&& self.ram.wf()
        &&& self.ram@.len() == 0x800
        &&& self.ppu.wf()
        &&& self.apu.wf()
        &&& self.ppu_bus.wf()
    }

    /// What a read of a quiet address returns when the latch holds `last`.
    pub open spec fn peek(&self, addr: u16, last: u8) -> u8 {
        if addr <= RAM_END {
            self.ram.byte_at(addr)
        } else {
            match self.ppu_bus.cart.cpu_byte(addr) {
                Some(b) => b,
                None => last,
            }
        }
    }

    /// The byte at `addr` when it does not depend on the bus latch: RAM, and
    /// cartridge addresses the mapper maps.
    pub open spec fn fixed_byte(&self, addr: u16) -> Option<u8> {
        if addr <= RAM_END {
            Some(self.ram.byte_at(addr))
        } else if addr >= PRG_START {
            self.ppu_bus.cart.cpu_byte(addr)
        } else {
            None
        }
    }

    /// The little-endian word two reads starting at `addr` assemble.
    pub open spec fn peek_16(&self, addr: u16) -> u16 {
        let lo = self.peek(addr, self.last_bus_value);
        let hi = self.peek(addr.wrapping_add(1), lo);
        ((hi as u16) << 8u16) | (lo as u16)
    }

    /// Everything but the bus latch, the PPU, the APU and the controllers:
    /// the state that no read changes.
    pub open spec fn same_memory(&self, other: &CpuBus) -> bool {
        &&& self.ram == other.ram
        &&& self.ppu_bus == other.ppu_bus
        &&& self.dma == other.dma
        &&& self.write_log == other.write_log
    }

    pub fn read(&mut self, addr: u16) -> (r: u8)
        requires
            old(self).wf(),
        ensures
            PPU_START <= addr <= PPU_END ==> Ppu::read_done(
                old(self).ppu,
                final(self).ppu,
                old(self).ppu_bus,
                ((addr - PPU_START) as u16) & 7,
                r,
            ) && *final(self) == (CpuBus { ppu: final(self).ppu, last_bus_value: r, ..*old(self) }),
            addr == APU_STATUS_CONTROL ==> *final(self) == (CpuBus {
                apu: Apu { irq: false, ..old(self).apu },
                last_bus_value: r,
                ..*old(self)
            }),
            addr == CONTROLLER_A ==> Controller::read_done(
                old(self).controller,
                final(self).controller,
                ControllerPort::PortA,
                old(self).controller.source_of(ControllerPort::PortA) >> 7u8,
            ) && *final(self) == (CpuBus {
                controller: final(self).controller,
                last_bus_value: r,
                ..*old(self)
            }),
            addr == CONTROLLER_B ==> Controller::read_done(
                old(self).controller,
                final(self).controller,
                ControllerPort::PortB,
                old(self).controller.source_of(ControllerPort::PortB) >> 7u8,
            ) && *final(self) == (CpuBus {
                controller: final(self).controller,
                last_bus_value: r,
                ..*old(self)
            }),
            APU_START <= addr <= DMA || CONTROLLER_B < addr < PRG_START ==> *final(self) == (CpuBus {
                last_bus_value: r,
                ..*old(self)
            }),
            final(self).wf(),
            final(self).same_memory(old(self)),
            final(self).last_bus_value == r,
            final(self).ppu.ticks == old(self).ppu.ticks,
            final(self).ppu.scanline == old(self).ppu.scanline,
            final(self).ppu.dot == old(self).ppu.dot,
            final(self).ppu.nmi == old(self).ppu.nmi,
            final(self).ppu.ctrl == old(self).ppu.ctrl && final(self).ppu.mask == old(self).ppu.mask,
            final(self).ppu.odd_frame == old(self).ppu.odd_frame,
            final(self).apu.even_cycle == old(self).apu.even_cycle,
            quiet_addr(addr) ==> r == old(self).peek(addr, old(self).last_bus_value),
            addr == APU_STATUS_CONTROL ==> r == (apu_status(old(self).apu) & 0xDF) | (old(self).last_bus_value & 0x20),
            addr == CONTROLLER_A ==> r == ((old(self).controller.source_of(ControllerPort::PortA)
                >> 7u8) & 0x1F) | (old(self).last_bus_value & 0xE0),
            addr == CONTROLLER_B ==> r == ((old(self).controller.source_of(ControllerPort::PortB)
                >> 7u8) & 0x1F) | (old(self).last_bus_value & 0xE0),
            APU_START <= addr <= DMA || CONTROLLER_B < addr < PRG_START ==> r == old(self).last_bus_value,
            quiet_addr(addr) ==> *final(self) == (CpuBus { last_bus_value: r, ..*old(self) }),
    {
        let value = if addr <= RAM_END {
            self.ram.read(addr)
        } else if addr <= PPU_END {
            let offset: u16 = addr - PPU_START;
            let reg = offset & 7;
            assert(reg < 8) by (bit_vector)
                requires
                    reg == offset & 7,
            ;
            self.ppu.cpu_read(&self.ppu_bus, reg)
        } else if addr == APU_STATUS_CONTROL {
            (self.apu.read_status() & 0xDF) | (self.last_bus_value & 0x20)
        } else if addr == CONTROLLER_A {
            (self.controller.read(ControllerPort::PortA) & 0x1F) | (self.last_bus_value & 0xE0)
        } else if addr == CONTROLLER_B {
            (self.controller.read(ControllerPort::PortB) & 0x1F) | (self.last_bus_value & 0xE0)
        } else if addr >= PRG_START {
            match self.ppu_bus.cart.cpu_read(addr) {
                Some(b) => b,
                None => self.last_bus_value,
            }
        } else {
            self.last_bus_value
        };
        self.last_bus_value = value;
        value
    }

    /// How a CPU write of `data` at `addr` changes the bus and the devices on it.
    pub open spec fn write_done(o: CpuBus, f: CpuBus, addr: u16, data: u8) -> bool {
        &&& (PPU_START <= addr <= PPU_END ==> Ppu::written(
                o.ppu,
                f.ppu,
                o.ppu_bus,
                f.ppu_bus,
                ((addr - PPU_START) as u16) & 7,
                data,
            ) && f == (CpuBus {
                ppu: f.ppu,
                ppu_bus: f.ppu_bus,
                last_bus_value: data,
                write_log: f.write_log,
                ..o
            }))
        &&& (APU_START <= addr <= APU_END ==> Apu::written(
                o.apu,
                f.apu,
                (addr - APU_START) as u16,
                data,
            ) && f == (CpuBus {
                apu: f.apu,
                last_bus_value: data,
                write_log: f.write_log,
                ..o
            }))
        &&& (addr == APU_STATUS_CONTROL ==> Apu::control_written(o.apu, f.apu, data)
                && f == (CpuBus {
                    apu: f.apu,
                last_bus_value: data,
                write_log: f.write_log,
                ..o
            }))
        &&& (addr == CONTROLLER_A ==> Controller::written(
                o.controller,
                f.controller,
                data,
            ) && f == (CpuBus {
                controller: f.controller,
                last_bus_value: data,
                write_log: f.write_log,
                ..o
            }))
        &&& (addr == APU_FRAME_COUNTER ==> f == (CpuBus {
                apu: Apu {
                    counter_mode: data & 0x80 != 0,
                    inhibit_irq: data & 0x40 != 0,
                    ..o.apu
                },
                last_bus_value: data,
                write_log: f.write_log,
                ..o
            }))
        &&& (addr >= PRG_START ==> Mapper::written(
                o.ppu_bus.cart.mapper,
                f.ppu_bus.cart.mapper,
                addr,
                data,
            ) && f == (CpuBus {
                ppu_bus: PpuBus {
                    cart: Cartridge { mapper: f.ppu_bus.cart.mapper, ..o.ppu_bus.cart },
                    ..o.ppu_bus
                },
                last_bus_value: data,
                write_log: f.write_log,
                ..o
            }))
        &&& (addr <= RAM_END ==> f == (CpuBus {
                ram: f.ram,
                last_bus_value: data,
                write_log: f.write_log,
                ..o
            }))
        &&& (addr == DMA || APU_FRAME_COUNTER < addr < PRG_START ==> f == (CpuBus {
                dma: f.dma,
                last_bus_value: data,
                write_log: f.write_log,
                ..o
            }))
        &&& (f.write_log@ == o.write_log@.push((addr, data)))
        &&& (f.last_bus_value == data)
        &&& (addr <= RAM_END ==> f.ram@ == o.ram@.update(
                o.ram.index_of(addr),
                data,
            ))
        &&& (addr > RAM_END ==> f.ram == o.ram)
        &&& (f.ppu_bus.cart.prg_rom == o.ppu_bus.cart.prg_rom)
        &&& (f.ppu.ticks == o.ppu.ticks)
        &&& (f.ppu.scanline == o.ppu.scanline)
        &&& (f.ppu.dot == o.ppu.dot)
        &&& (f.apu.even_cycle == o.apu.even_cycle)
        &&& (addr == DMA ==> f.dma == (Dma {
                page: data,
                addr: 0,
                active: true,
                started: false,
                latch: None,
            }))
        &&& (addr != DMA ==> f.dma == o.dma)
    }

    pub fn write(&mut self, addr: u16, data: u8)
        requires
            old(self).wf(),
        ensures
            final(self).wf(),
            Self::write_done(*old(self), *final(self), addr, data),
    {
        self.last_bus_value = data;
        proof {
            self.write_log@ = self.write_log@.push((addr, data));
        }
        if addr <= RAM_END {
            self.ram.write(addr, data);
        } else if addr <= PPU_END {
            let offset: u16 = addr - PPU_START;
            let reg = offset & 7;
            assert(reg < 8) by (bit_vector)
                requires
                    reg == offset & 7,
            ;
            self.ppu.cpu_write(&mut self.ppu_bus, reg, data);
        } else if addr <= APU_END {
            self.apu.write(addr - APU_START, data);
        } else if addr == DMA {
            self.dma.write(data);
        } else if addr == APU_STATUS_CONTROL {
            self.apu.write_control(data);
        } else if addr == CONTROLLER_A {
            self.controller.write(data);
        } else if addr == APU_FRAME_COUNTER {
            self.apu.write_frame_counter(data);
        } else if addr >= PRG_START {
            self.ppu_bus.cart.cpu_write(addr, data);
        }
    }

    pub fn read_16(&mut self, addr: u16) -> (r: u16)
        requires
            old(self).wf(),
        ensures
            final(self).wf(),
            final(self).same_memory(old(self)),
            final(self).ppu.ticks == old(self).ppu.ticks,
            final(self).ppu.scanline == old(self).ppu.scanline,
            final(self).ppu.dot == old(self).ppu.dot,
            final(self).ppu.nmi == old(self).ppu.nmi,
            final(self).ppu.ctrl == old(self).ppu.ctrl && final(self).ppu.mask == old(self).ppu.mask,
            final(self).ppu.odd_frame == old(self).ppu.odd_frame,
            final(self).apu.even_cycle == old(self).apu.even_cycle,
            quiet_addr(addr) && quiet_addr(addr.wrapping_add(1)) ==> r == old(self).peek_16(addr)
                && *final(self) == (CpuBus { last_bus_value: final(self).last_bus_value, ..*old(self) }),
    {
        let low = self.read(addr);
        let high = self.read(addr.wrapping_add(1));
        ((high as u16) << 8u16) | (low as u16)
    }
}

pub const PALETTE_P2_SIZE: usize = 5;
pub const RAM_P2_SIZE: usize = 11;
/// A bound on the master cycle count, far beyond any run.
pub const MAX_CYCLES: u64 = 0x1000_0000_0000_0000;

/// The whole console: the CPU, and the bus with every other device on it.
pub struct System {
    pub cpu: Cpu,
    pub bus: CpuBus,
    /// Whether an even number of master cycles has elapsed.
    pub even_cycle: bool,
    /// Master cycles since power-up.
    pub cycles: u64,
}

/// The program counter a reset loads from a cartridge, with 0xFF on the
/// bus before the first read.
pub open spec fn reset_vector_of(cart: Cartridge) -> u16 {
    let lo = match cart.cpu_byte(RESET_VECTOR_ADDR) {
        Some(b) => b,
        None => 0xFF,
    };
    let hi = match cart.cpu_byte(0xFFFD) {
        Some(b) => b,
        None => lo,
    };
    ((hi as u16) << 8u16) | (lo as u16)
}

proof fn lemma_reset_vector(bus: CpuBus)
    requires
        bus.last_bus_value == 0xFF,
    ensures
        bus.peek_16(RESET_VECTOR_ADDR) == reset_vector_of(bus.ppu_bus.cart),
{
    assert(RESET_VECTOR_ADDR.wrapping_add(1) == 0xFFFD);
}

/// Each master cycle moves the PPU exactly three dots, so across any run of
/// `step` and `clock` from power-up the dot count is three times the cycle
/// count.
pub proof fn lemma_three_dots_per_cycle(s: System)
    requires
        s.wf(),
    ensures
        s.bus.ppu.ticks == 3 * s.cycles,
{
}

impl System {
    pub open spec fn wf(&self) -> bool {
        &&& self.bus.wf()
        &&& self.cycles <= MAX_CYCLES
        &&& self.bus.ppu.ticks == 3 * self.cycles
        &&& self.even_cycle == (self.cycles % 2 == 0)
        &&& self.bus.apu.even_cycle == self.even_cycle
    }

    /// Powers the console up with `cart` inserted: the CPU starts at the
    /// address held in the reset vector.
    pub fn new(cart: Cartridge) -> (r: System)
        requires
            cart.wf(),
        ensures
            r.wf(),
            r.cycles == 0,
            r.cpu.pc == reset_vector_of(cart),
            r.bus.ppu_bus.cart == cart,
            r.cpu.a == 0 && r.cpu.x == 0 && r.cpu.y == 0,
            r.cpu.s == 0xFD && r.cpu.p == FLAG_I,
            r.cpu.cycle_counter == 0,
            !r.cpu.irq_pending && !r.cpu.nmi_pending && !r.cpu.jammed,
            forall|i: int| 0 <= i < 0x800 ==> r.bus.ram@[i] == 0,
            r.bus.write_log@.len() == 0,
            forall|i: int| 0 <= i < 0x20 ==> r.bus.ppu_bus.palette@[i] == 0,
            !r.bus.dma.active,
            r.bus.ppu.scanline == 0 && r.bus.ppu.dot == 0 && !r.bus.ppu.nmi,
    {
        let ppu_bus = PpuBus { cart, vram: Vram::new(), palette: Ram::new(PALETTE_P2_SIZE) };
        assert(1usize << 5usize == 0x20 && 1usize << 11usize == 0x800) by (bit_vector);
        let mut bus = CpuBus {
            ram: Ram::new(RAM_P2_SIZE),
            ppu: Ppu::new(),
            apu: Apu::new(),
            dma: Dma::new(),
            controller: Controller::new(),
            ppu_bus,
            last_bus_value: 0xFF,
            write_log: Ghost(Seq::empty()),
        };
        proof {
            lemma_reset_vector(bus);
        }
        let cpu = Cpu::new(&mut bus);
        System { cpu, bus, even_cycle: true, cycles: 0 }
    }

    /// Reset: clears the mapper's interrupt and banks, the PPU and the APU,
    /// and resets the CPU, which reloads PC from the reset vector.
    pub fn reset(&mut self)
        requires
            old(self).wf(),
        ensures
            final(self).wf(),
            final(self).cycles == old(self).cycles,
            final(self).cpu.pc == reset_vector_of(final(self).bus.ppu_bus.cart),
            final(self).cpu.s == old(self).cpu.s.wrapping_sub(3),
            final(self).cpu.p == old(self).cpu.p | FLAG_I,
            final(self).cpu.a == old(self).cpu.a && final(self).cpu.x == old(self).cpu.x
                && final(self).cpu.y == old(self).cpu.y,
            final(self).cpu.cycle_counter == 0 && !final(self).cpu.jammed,
            !final(self).bus.ppu_bus.cart.mapper.interrupt_pending(),
            final(self).bus.ppu_bus.cart.mapper.id() == old(self).bus.ppu_bus.cart.mapper.id(),
            Mapper::reset_done(old(self).bus.ppu_bus.cart.mapper, final(self).bus.ppu_bus.cart.mapper),
            final(self).bus.ppu_bus.cart.prg_rom == old(self).bus.ppu_bus.cart.prg_rom,
            final(self).bus.ppu.scanline == 0 && final(self).bus.ppu.dot == 0,
            final(self).bus.ppu.ctrl == 0 && final(self).bus.ppu.mask == 0,
            !final(self).bus.ppu.nmi && !final(self).bus.ppu.odd_frame,
            !final(self).bus.apu.pulse_channel_1.enabled && !final(self).bus.apu.pulse_channel_2.enabled,
            !final(self).bus.apu.triangle_channel.enabled && !final(self).bus.apu.noise_channel.enabled,
            final(self).bus.apu.pulse_channel_1.envelope.length_counter.counter == 0,
            final(self).bus.apu.pulse_channel_2.envelope.length_counter.counter == 0,
            final(self).bus.apu.triangle_channel.length_counter.counter == 0,
            final(self).bus.apu.noise_channel.envelope.length_counter.counter == 0,
            final(self).bus.ram == old(self).bus.ram,
            final(self).bus.write_log == old(self).bus.write_log,
    {
        self.bus.ppu_bus.cart.reset_interrupt();
        self.bus.ppu_bus.cart.reset_mapper();
        self.bus.ppu.reset();
        self.bus.apu.reset();
        self.bus.last_bus_value = 0xFF;
        proof {
            lemma_reset_vector(self.bus);
        }
        self.cpu.reset(&mut self.bus);
    }

    /// The 256 x 240 RGBA picture, row by row.
    pub fn framebuffer(&self) -> (r: &[u8])
        ensures
            r@ == self.bus.ppu.framebuffer@,
    {
        self.bus.ppu.framebuffer.as_slice()
    }

    /// Stores the button states of both controllers (A = 0x80 down to
    /// Right = 0x01).
    pub fn update_controller_state(&mut self, controller_a: u8, controller_b: u8)
        requires
            old(self).wf(),
        ensures
            final(self).wf(),
            final(self).bus.controller.buffer_a == controller_a,
            final(self).bus.controller.buffer_b == controller_b,
            final(self).cycles == old(self).cycles,
    {
        self.bus.controller.update_state(controller_a, controller_b);
    }

    /// One DMA cycle: a halt cycle, then a read on even cycles and a write
    /// into OAM on the next.
    fn dma_cycle(&mut self)
        requires
            old(self).wf(),
            old(self).bus.dma.active,
        ensures
            final(self).wf(),
            final(self).cycles == old(self).cycles,
            final(self).even_cycle == old(self).even_cycle,
            final(self).cpu == old(self).cpu,
            exists|read: u8| final(self).bus.dma == dma_step(old(self).bus.dma, old(self).even_cycle, read),
            dma_moved(old(self).bus, final(self).bus, old(self).even_cycle),
    {
        let ghost d = self.bus.dma;
        if !self.bus.dma.started {
            self.bus.dma.started = true;
            assert(self.bus.dma == dma_step(d, self.even_cycle, 0));
        } else {
            match self.bus.dma.latch {
                None => {
                    if self.even_cycle {
                        let addr = ((self.bus.dma.page as u16) << 8u16) | (self.bus.dma.addr as u16);
                        let value = self.bus.read(addr);
                        self.bus.dma.latch = Some(value);
                        assert(self.bus.dma == dma_step(d, self.even_cycle, value));
                    } else {
                        assert(self.bus.dma == dma_step(d, self.even_cycle, 0));
                    }
                },
                Some(value) => {
                    self.bus.ppu.dma_write(value);
                    self.bus.dma.latch = None;
                    let next = self.bus.dma.addr.wrapping_add(1);
                    self.bus.dma.active = self.bus.dma.addr != 255;
                    self.bus.dma.addr = next;
                    assert(self.bus.dma == dma_step(d, self.even_cycle, 0));
                },
            }
        }
    }

    /// Passing the interrupt lines on: a latched PPU NMI becomes a pending
    /// CPU NMI, and the APU frame and DMC interrupts and the mapper interrupt
    /// raise an IRQ unless interrupts are masked; the mapper's flag is taken.
    pub open spec fn polled(o: System, f: System) -> bool {
        let irq_line = o.bus.apu.irq || o.bus.apu.dmc_channel.reader.irq
            || o.bus.ppu_bus.cart.mapper.interrupt_pending();
        &&& f.cpu == (Cpu {
            nmi_pending: o.cpu.nmi_pending || o.bus.ppu.nmi,
            irq_pending: o.cpu.irq_pending || (irq_line && o.cpu.p & FLAG_I == 0),
            ..o.cpu
        })
        &&& f.bus.ppu == (Ppu { nmi: false, ..o.bus.ppu })
        &&& !f.bus.ppu_bus.cart.mapper.interrupt_pending()
        &&& f.bus.apu == o.bus.apu && f.bus.ram == o.bus.ram && f.bus.dma == o.bus.dma
        &&& f.bus.ppu_bus.cart.prg_rom == o.bus.ppu_bus.cart.prg_rom
    }

    /// One master cycle as a chain of states: `s1` after the CPU (or DMA)
    /// cycle, `s2` after the APU cycle, `s3` to `s5` after each PPU dot, and
    /// `f` once the interrupt lines are passed on and the counters moved.
    pub open spec fn step_chain(
        o: System,
        s1: System,
        s2: System,
        s3: System,
        s4: System,
        s5: System,
        f: System,
        sample: Option<ChannelLevels>,
    ) -> bool {
        &&& s1.cycles == o.cycles && s1.even_cycle == o.even_cycle
        &&& o.bus.dma.active ==> {
            &&& s1.cpu == o.cpu
            &&& exists|read: u8| s1.bus.dma == dma_step(o.bus.dma, o.even_cycle, read)
            &&& dma_moved(o.bus, s1.bus, o.even_cycle)
        }
        &&& !o.bus.dma.active ==> exists|r: (u8, Option<Executed>)|
            Cpu::clock_done(o.cpu, s1.cpu, o.bus, s1.bus, r)
        &&& Apu::clocked(s1.bus.apu, s2.bus.apu, s1.bus.ppu_bus.cart, sample)
        &&& s2 == (System { bus: CpuBus { apu: s2.bus.apu, ..s1.bus }, ..s1 })
        &&& Ppu::clocked(s2.bus.ppu, s3.bus.ppu, s2.bus.ppu_bus, s3.bus.ppu_bus)
        &&& s3 == (System { bus: CpuBus { ppu: s3.bus.ppu, ppu_bus: s3.bus.ppu_bus, ..s2.bus }, ..s2 })
        &&& Ppu::clocked(s3.bus.ppu, s4.bus.ppu, s3.bus.ppu_bus, s4.bus.ppu_bus)
        &&& s4 == (System { bus: CpuBus { ppu: s4.bus.ppu, ppu_bus: s4.bus.ppu_bus, ..s3.bus }, ..s3 })
        &&& Ppu::clocked(s4.bus.ppu, s5.bus.ppu, s4.bus.ppu_bus, s5.bus.ppu_bus)
        &&& s5 == (System { bus: CpuBus { ppu: s5.bus.ppu, ppu_bus: s5.bus.ppu_bus, ..s4.bus }, ..s4 })
        &&& Self::polled(s5, f)
        &&& f.cycles == o.cycles + 1
        &&& f.even_cycle == !o.even_cycle
    }

    /// While a transfer runs, each master cycle leaves the CPU registers as
    /// they were and takes one off the cycles the transfer still needs
    /// (`lemma_dma_cost`: 513 or 514 from the write to 0x4014).
    pub proof fn lemma_step_during_dma(o: System, f: System, sample: Option<ChannelLevels>)
        requires
            Self::stepped(o, f, sample),
            o.bus.dma.active,
        ensures
            dma_cycles_left(f.bus.dma, f.even_cycle) + 1 == dma_cycles_left(o.bus.dma, o.even_cycle),
            f.cpu.pc == o.cpu.pc && f.cpu.a == o.cpu.a && f.cpu.x == o.cpu.x,
            f.cpu.y == o.cpu.y && f.cpu.s == o.cpu.s && f.cpu.p == o.cpu.p,
            f.cpu.cycle_counter == o.cpu.cycle_counter,
    {
        let (s1, s2, s3, s4, s5) = choose|s1: System, s2: System, s3: System, s4: System, s5: System|
            #[trigger] Self::step_chain(o, s1, s2, s3, s4, s5, f, sample);
        let read = choose|read: u8| s1.bus.dma == dma_step(o.bus.dma, o.even_cycle, read);
        lemma_dma_step_counts_down(o.bus.dma, o.even_cycle, read);
        assert(f.bus.dma == s1.bus.dma);
    }

    /// One master cycle, as `step` performs it.
    pub open spec fn stepped(o: System, f: System, sample: Option<ChannelLevels>) -> bool {
        exists|s1: System, s2: System, s3: System, s4: System, s5: System|
            #[trigger] Self::step_chain(o, s1, s2, s3, s4, s5, f, sample)
    }

    /// Passes the NMI and IRQ lines on to the CPU.
    #[verifier::rlimit(80)]
    fn poll_interrupts(&mut self)
        requires
            old(self).bus.wf(),
        ensures
            final(self).bus.wf(),
            final(self).bus.ppu.ticks == old(self).bus.ppu.ticks,
            final(self).bus.apu == old(self).bus.apu,
            final(self).bus.dma == old(self).bus.dma,
            final(self).cpu.cycle_counter == old(self).cpu.cycle_counter,
            final(self).cpu.pc == old(self).cpu.pc && final(self).cpu.a == old(self).cpu.a,
            final(self).cpu.x == old(self).cpu.x && final(self).cpu.y == old(self).cpu.y,
            final(self).cpu.s == old(self).cpu.s && final(self).cpu.p == old(self).cpu.p,
            old(self).bus.ppu.nmi ==> final(self).cpu.nmi_pending,
            final(self).cycles == old(self).cycles,
            final(self).even_cycle == old(self).even_cycle,
            Self::polled(*old(self), *final(self)),
    {
        if self.bus.ppu.check_nmi() {
            self.cpu.signal_nmi();
        }
        if self.bus.apu.irq_requested() || self.bus.apu.dmc_irq_requested() {
            self.cpu.signal_irq();
        }
        if self.bus.ppu_bus.cart.interrupt_state() {
            self.bus.ppu_bus.cart.reset_interrupt();
            self.cpu.signal_irq();
        }
    }

    /// One master cycle: a CPU cycle or a DMA cycle, an APU cycle, three PPU
    /// dots, then the interrupt lines. Returns the audio sample that fell due.
    pub fn step(&mut self) -> (sample: Option<ChannelLevels>)
        requires
            old(self).wf(),
            old(self).cycles < MAX_CYCLES,
        ensures
            final(self).wf(),
            final(self).cycles == old(self).cycles + 1,
            old(self).bus.dma.active ==> exists|read: u8| final(self).bus.dma == dma_step(
                old(self).bus.dma,
                old(self).even_cycle,
                read,
            ),
            old(self).bus.dma.active ==> final(self).cpu.cycle_counter == old(self).cpu.cycle_counter
                && final(self).cpu.pc == old(self).cpu.pc && final(self).cpu.a == old(self).cpu.a
                && final(self).cpu.x == old(self).cpu.x && final(self).cpu.y == old(self).cpu.y
                && final(self).cpu.s == old(self).cpu.s && final(self).cpu.p == old(self).cpu.p,
            Self::stepped(*old(self), *final(self), sample),
    {
        if self.bus.dma.active {
            self.dma_cycle();
        } else {
            let _ = self.cpu.clock(&mut self.bus);
        }
        let ghost s1 = *self;
        let sample = self.bus.apu.clock(&self.bus.ppu_bus.cart);
        let ghost s2 = *self;
        self.bus.ppu.clock(&mut self.bus.ppu_bus);
        let ghost s3 = *self;
        self.bus.ppu.clock(&mut self.bus.ppu_bus);
        let ghost s4 = *self;
        self.bus.ppu.clock(&mut self.bus.ppu_bus);
        let ghost s5 = *self;
        self.poll_interrupts();
        self.even_cycle = !self.even_cycle;
        self.cycles = self.cycles + 1;
        assert(Self::step_chain(*old(self), s1, s2, s3, s4, s5, *self, sample));
        sample
    }

    /// `n` master cycles as a run of `step`: `trace` holds the states from
    /// `o` to `f`, `outs` what each step returned, and `samples` the samples
    /// among them, in order.
    pub open spec fn clock_trace(
        o: System,
        f: System,
        n: nat,
        samples: Seq<ChannelLevels>,
        trace: Seq<System>,
        outs: Seq<Option<ChannelLevels>>,
    ) -> bool {
        &&& trace.len() == n + 1
        &&& outs.len() == n
        &&& trace[0] == o
        &&& trace[n as int] == f
        &&& forall|k: int|
            0 <= k < n ==> #[trigger] Self::stepped(trace[k], trace[k + 1], outs[k])
        &&& samples == present(outs)
    }

    /// Runs `cycles` master cycles and returns the audio samples produced.
    pub fn clock(&mut self, cycles: usize) -> (samples: Vec<ChannelLevels>)
        requires
            old(self).wf(),
            old(self).cycles + cycles <= MAX_CYCLES,
        ensures
            final(self).wf(),
            final(self).cycles == old(self).cycles + cycles,
            final(self).bus.ppu.ticks == 3 * final(self).cycles,
            exists|trace: Seq<System>, outs: Seq<Option<ChannelLevels>>|
                #[trigger] Self::clock_trace(
                    *old(self),
                    *final(self),
                    cycles as nat,
                    samples@,
                    trace,
                    outs,
                ),
    {
        let mut samples: Vec<ChannelLevels> = Vec::new();
        let ghost mut trace: Seq<System> = seq![*self];
        let ghost mut outs: Seq<Option<ChannelLevels>> = Seq::empty();
        let mut i: usize = 0;
        while i < cycles
            invariant
                self.wf(),
                i <= cycles,
                self.cycles == old(self).cycles + i,
                old(self).cycles + cycles <= MAX_CYCLES,
                Self::clock_trace(*old(self), *self, i as nat, samples@, trace, outs),
            decreases cycles - i,
        {
            let ghost before = *self;
            let out = self.step();
            match out {
                Some(s) => samples.push(s),
                None => {},
            }
            proof {
                lemma_present_push(outs, out);
                let t2 = trace.push(*self);
                assert forall|k: int| 0 <= k < i + 1 implies #[trigger] Self::stepped(
                    t2[k],
                    t2[k + 1],
                    outs.push(out)[k],
                ) by {
                    if k < i {
                        assert(t2[k] == trace[k] && t2[k + 1] == trace[k + 1]);
                        assert(Self::stepped(trace[k], trace[k + 1], outs[k]));
                    } else {
                        assert(t2[k] == before);
                    }
                }
                trace = t2;
                outs = outs.push(out);
            }
            i = i + 1;
        }
        samples
    }
}

} // verus!
