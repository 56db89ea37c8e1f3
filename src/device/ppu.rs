use vstd::prelude::*;

use crate::system::PpuBus;

verus! {

pub const SCREEN_WIDTH: usize = 256;
pub const SCREEN_HEIGHT: usize = 240;
pub const DOTS_PER_LINE: u16 = 341;
pub const LINES_PER_FRAME: u16 = 262;
pub const VBLANK_LINE: u16 = 241;
pub const PRE_RENDER_LINE: u16 = 261;
/// Size of the RGBA framebuffer in bytes.
pub const FRAMEBUFFER_SIZE: usize = 245760;

/// Whether the odd-frame dot skip applies at this position.
pub open spec fn skips_dot(scanline: u16, dot: u16, odd_frame: bool, rendering: bool) -> bool {
    scanline == PRE_RENDER_LINE && dot == 338 && odd_frame && rendering
}

/// The picture processing unit: its registers, timing and output.
pub struct Ppu {
    pub ctrl: u8,
    pub mask: u8,
    pub status: u8,
    pub oam_addr: u8,
    pub oam: Vec<u8>,
    /// Indices into OAM of the sprites on the line being drawn.
    pub line_sprites: Vec<u8>,
    pub v: u16,
    pub t: u16,
    pub x: u8,
    pub w: bool,
    pub data_buffer: u8,
    pub open_bus: u8,
    pub scanline: u16,
    pub dot: u16,
    pub odd_frame: bool,
    pub nmi: bool,
    /// Number of dots clocked since power-up.
    pub ticks: u64,
    pub framebuffer: Vec<u8>,
}

impl Ppu {
    pub open spec fn wf(&self) -> bool {
        &&& self.oam@.len() == 256
        &&& self.line_sprites@.len() <= 8
        &&& self.scanline < LINES_PER_FRAME
        &&& self.dot < DOTS_PER_LINE
        &&& self.x < 8
        &&& self.v <= 0x7FFF
        &&& self.t <= 0x7FFF
        &&& self.framebuffer@.len() == FRAMEBUFFER_SIZE
    }

    pub open spec fn rendering(&self) -> bool {
        self.mask & 0x18 != 0
    }

    /// The VRAM address step a PPUDATA access applies.
    pub open spec fn increment(&self) -> u16 {
        if self.ctrl & 0x04 != 0 {
            32
        } else {
            1
        }
    }

    /// The position the timing grid moves to after one dot.
    pub open spec fn next_pos(&self) -> (u16, u16) {
        if skips_dot(self.scanline, self.dot, self.odd_frame, self.rendering()) {
            (self.scanline, 340)
        } else if self.dot + 1 < DOTS_PER_LINE {
            (self.scanline, (self.dot + 1) as u16)
        } else if self.scanline + 1 < LINES_PER_FRAME {
            ((self.scanline + 1) as u16, 0)
        } else {
            (0, 0)
        }
    }

    pub fn new() -> (r: Ppu)
        ensures
            r.wf(),
            r.scanline == 0 && r.dot == 0,
            !r.nmi,
            r.status == 0,
            r.ctrl == 0 && r.mask == 0,
            r.ticks == 0,
    {
        Ppu {
            ctrl: 0,
            mask: 0,
            status: 0,
            oam_addr: 0,
            oam: vec![0u8; 256],
            line_sprites: Vec::new(),
            v: 0,
            t: 0,
            x: 0,
            w: false,
            data_buffer: 0,
            open_bus: 0,
            scanline: 0,
            dot: 0,
            odd_frame: false,
            nmi: false,
            ticks: 0,
            framebuffer: vec![0u8; FRAMEBUFFER_SIZE],
        }
    }

    /// Clears the registers a reset clears and restarts the frame.
    pub fn reset(&mut self)
        requires
            old(self).wf(),
        ensures
            final(self).wf(),
            final(self).ctrl == 0 && final(self).mask == 0,
            !final(self).w,
            !final(self).nmi,
            !final(self).odd_frame,
            final(self).scanline == 0 && final(self).dot == 0,
            final(self).ticks == old(self).ticks,
    {
        self.ctrl = 0;
        self.mask = 0;
        self.w = false;
        self.data_buffer = 0;
        self.scanline = 0;
        self.dot = 0;
        self.odd_frame = false;
        self.nmi = false;
    }

    /// Takes the pending NMI signal, if any.
    pub fn check_nmi(&mut self) -> (r: bool)
        ensures
            r == old(self).nmi,
            *final(self) == (Ppu { nmi: false, ..*old(self) }),
    {
        let r = self.nmi;
        self.nmi = false;
        r
    }

    fn advance_vram_addr(&mut self)
        requires
            old(self).v <= 0x7FFF,
        ensures
            final(self).v == (old(self).v + old(self).increment()) as u16 & 0x7FFF,
            final(self).v <= 0x7FFF,
            *final(self) == (Ppu { v: final(self).v, ..*old(self) }),
    {
        let inc: u16 = if self.ctrl & 0x04 != 0 {
            32
        } else {
            1
        };
        let sum: u16 = self.v + inc;
        let nv = sum & 0x7FFF;
        assert(nv <= 0x7FFF) by (bit_vector)
            requires
                nv == sum & 0x7FFF,
        ;
        self.v = nv;
    }

    /// What a CPU read of register `reg` returns and how it changes the PPU.
    pub open spec fn read_done(o: Ppu, f: Ppu, bus: PpuBus, reg: u16, r: u8) -> bool {
        &&& (f.ticks == o.ticks)
        &&& (f.scanline == o.scanline && f.dot == o.dot)
        &&& (f.nmi == o.nmi)
        &&& (f.ctrl == o.ctrl && f.mask == o.mask)
        &&& (reg == 2 ==> r == (o.status & 0xE0) | (o.open_bus & 0x1F)
                && f.status == o.status & 0x7F && !f.w)
        &&& (reg == 7 && (o.v & 0x3FFF) < 0x3F00 ==> {
                &&& r == o.data_buffer
                &&& f.data_buffer == bus.byte_at(o.v)
                &&& f.v == (o.v + o.increment()) as u16 & 0x7FFF
            })
        &&& (reg == 7 && (o.v & 0x3FFF) >= 0x3F00 ==> {
                &&& r == bus.byte_at(o.v)
                &&& f.data_buffer == bus.byte_at(o.v.wrapping_sub(0x1000))
                &&& f.v == (o.v + o.increment()) as u16 & 0x7FFF
            })
        &&& (reg == 4 ==> r == o.oam@[o.oam_addr as int])
        &&& (reg != 2 && reg != 4 && reg != 7 ==> r == o.open_bus)
        &&& (reg != 2 ==> f.status == o.status && f.w == o.w)
        &&& (reg != 7 ==> f.v == o.v && f.data_buffer == o.data_buffer)
        &&& f.open_bus == r
        &&& f.oam == o.oam && f.oam_addr == o.oam_addr
        &&& f.t == o.t && f.x == o.x
        &&& f.odd_frame == o.odd_frame && f.line_sprites == o.line_sprites
        &&& f.framebuffer == o.framebuffer
    }

    /// A CPU read of register `reg` (0 to 7).
    pub fn cpu_read(&mut self, bus: &PpuBus, reg: u16) -> (r: u8)
        requires
            old(self).wf(),
            bus.wf(),
            reg < 8,
        ensures
            final(self).wf(),
            Self::read_done(*old(self), *final(self), *bus, reg, r),
    {
        let r = if reg == 2 {
            let value = (self.status & 0xE0) | (self.open_bus & 0x1F);
            self.status = self.status & 0x7F;
            self.w = false;
            value
        } else if reg == 4 {
            self.oam[self.oam_addr as usize]
        } else if reg == 7 {
            let addr = self.v;
            let value = if (addr & 0x3FFF) >= 0x3F00 {
                self.data_buffer = bus.read(addr.wrapping_sub(0x1000));
                bus.read(addr)
            } else {
                let buffered = self.data_buffer;
                self.data_buffer = bus.read(addr);
                buffered
            };
            self.advance_vram_addr();
            value
        } else {
            self.open_bus
        };
        self.open_bus = r;
        r
    }

    /// How a CPU write of `data` to register `reg` changes the PPU and its bus.
    pub open spec fn written(o: Ppu, f: Ppu, ob: PpuBus, fb: PpuBus, reg: u16, data: u8) -> bool {
        &&& (fb.cart.mapper == ob.cart.mapper)
        &&& (fb.cart.prg_rom == ob.cart.prg_rom)
        &&& (fb.cart.mirror == ob.cart.mirror)
        &&& (f.ticks == o.ticks)
        &&& (f.scanline == o.scanline && f.dot == o.dot)
        &&& (f.status == o.status)
        &&& (reg == 0 ==> f.ctrl == data && f.nmi == (o.nmi || (data
                & 0x80 != 0 && o.ctrl & 0x80 == 0 && o.status & 0x80 != 0)))
        &&& (reg != 0 ==> f.nmi == o.nmi && f.ctrl == o.ctrl)
        &&& (reg == 1 ==> f.mask == data)
        &&& (reg != 1 ==> f.mask == o.mask)
        &&& (reg == 6 && !o.w ==> f.w && f.t == (o.t & 0x80FF)
                | (((data & 0x3F) as u16) << 8u16))
        &&& (reg == 6 && o.w ==> !f.w && f.t == (o.t & 0xFF00)
                | (data as u16) && f.v == f.t)
        &&& (reg == 7 ==> f.v == (o.v + o.increment()) as u16 & 0x7FFF)
        &&& (reg == 7 && ((o.v & 0x3FFF) > 0x1FFF || ob.cart.chr_is_ram)
                ==> fb.byte_at(o.v) == data)
        &&& (reg != 7 ==> fb == ob)
        &&& (reg == 7 ==> PpuBus::written(ob, fb, o.v, data))
        &&& f.data_buffer == o.data_buffer
        &&& f.open_bus == data
        &&& (reg == 0 ==> f.t == (o.t & 0xF3FF) | (((data & 0x03) as u16) << 10u16))
        &&& (reg == 3 ==> f.oam_addr == data && f.oam == o.oam)
        &&& (reg == 4 ==> f.oam@ == o.oam@.update(o.oam_addr as int, data) && f.oam_addr
            == o.oam_addr.wrapping_add(1))
        &&& (reg != 3 && reg != 4 ==> f.oam == o.oam && f.oam_addr == o.oam_addr)
        &&& (reg == 5 && !o.w ==> f.w && f.x == data & 0x07 && f.t == (o.t & 0xFFE0) | ((data
            >> 3u8) as u16))
        &&& (reg == 5 && o.w ==> !f.w && f.t == (o.t & 0x8C1F) | (((data & 0x07) as u16)
            << 12u16) | (((data & 0xF8) as u16) << 2u16))
        &&& (reg != 5 && reg != 6 ==> f.w == o.w)
        &&& (reg != 0 && reg != 5 && reg != 6 ==> f.t == o.t)
        &&& (reg != 5 ==> f.x == o.x)
        &&& (reg != 6 && reg != 7 ==> f.v == o.v)
        &&& f.odd_frame == o.odd_frame && f.line_sprites == o.line_sprites
        &&& f.framebuffer == o.framebuffer
    }

    /// A CPU write of `data` to register `reg` (0 to 7).
    pub fn cpu_write(&mut self, bus: &mut PpuBus, reg: u16, data: u8)
        requires
            old(self).wf(),
            old(bus).wf(),
            reg < 8,
        ensures
            final(self).wf(),
            final(bus).wf(),
            Self::written(*old(self), *final(self), *old(bus), *final(bus), reg, data),
    {
        self.open_bus = data;
        let t = self.t;
        if reg == 0 {
            if data & 0x80 != 0 && self.ctrl & 0x80 == 0 && self.status & 0x80 != 0 {
                self.nmi = true;
            }
            self.ctrl = data;
            let nt = ((data & 0x03) as u16) << 10u16;
            let nt_t = (t & 0xF3FF) | nt;
            assert(nt_t <= 0x7FFF) by (bit_vector)
                requires
                    nt_t == (t & 0xF3FF) | nt,
                    t <= 0x7FFF,
                    nt == ((data & 0x03) as u16) << 10u16,
            ;
            self.t = nt_t;
        } else if reg == 1 {
            self.mask = data;
        } else if reg == 3 {
            self.oam_addr = data;
        } else if reg == 4 {
            self.oam.set(self.oam_addr as usize, data);
            self.oam_addr = self.oam_addr.wrapping_add(1);
        } else if reg == 5 {
            if !self.w {
                let nt = (t & 0xFFE0) | ((data >> 3u8) as u16);
                assert(nt <= 0x7FFF) by (bit_vector)
                    requires
                        nt == (t & 0xFFE0) | ((data >> 3u8) as u16),
                        t <= 0x7FFF,
                ;
                self.t = nt;
                self.x = data & 0x07;
                assert(data & 0x07 < 8) by {
                    crate::bits::lemma_u8_fields();
                }
                self.w = true;
            } else {
                let nt = (t & 0x8C1F) | (((data & 0x07) as u16) << 12u16) | (((data & 0xF8)
                    as u16) << 2u16);
                assert(nt <= 0x7FFF) by (bit_vector)
                    requires
                        nt == (t & 0x8C1F) | (((data & 0x07) as u16) << 12u16) | (((data
                            & 0xF8) as u16) << 2u16),
                        t <= 0x7FFF,
                ;
                self.t = nt;
                self.w = false;
            }
        } else if reg == 6 {
            if !self.w {
                let nt = (t & 0x80FF) | (((data & 0x3F) as u16) << 8u16);
                assert(nt <= 0x7FFF) by (bit_vector)
                    requires
                        nt == (t & 0x80FF) | (((data & 0x3F) as u16) << 8u16),
                        t <= 0x7FFF,
                ;
                self.t = nt;
                self.w = true;
            } else {
                let nt = (t & 0xFF00) | (data as u16);
                assert(nt <= 0x7FFF) by (bit_vector)
                    requires
                        nt == (t & 0xFF00) | (data as u16),
                        t <= 0x7FFF,
                ;
                self.t = nt;
                self.v = nt;
                self.w = false;
            }
        } else if reg == 7 {
            bus.write(self.v, data);
            self.advance_vram_addr();
        }
    }

    /// Stores one byte of an OAM DMA transfer.
    pub fn dma_write(&mut self, data: u8)
        requires
            old(self).wf(),
        ensures
            final(self).wf(),
            final(self).oam@ == old(self).oam@.update(old(self).oam_addr as int, data),
            final(self).oam_addr == old(self).oam_addr.wrapping_add(1),
            final(self).ticks == old(self).ticks,
            final(self).nmi == old(self).nmi,
            final(self).scanline == old(self).scanline && final(self).dot == old(self).dot,
            final(self).status == old(self).status,
            final(self).ctrl == old(self).ctrl && final(self).mask == old(self).mask,
    {
        self.oam.set(self.oam_addr as usize, data);
        self.oam_addr = self.oam_addr.wrapping_add(1);
    }
}

/// `v` one tile to the right, into the other horizontal nametable after
/// tile 31.
pub open spec fn coarse_x_step(v: u16) -> u16 {
    if (v & 0x001F) == 31 {
        (v & 0xFFE0) ^ 0x0400
    } else {
        (v + 1) as u16
    }
}

/// `v` one pixel row down: fine Y, then coarse Y, which wraps after row 29
/// into the other vertical nametable (and after row 31 without switching).
pub open spec fn fine_y_step(v: u16) -> u16 {
    if (v & 0x7000) != 0x7000 {
        (v + 0x1000) as u16
    } else {
        let base = v & 0x0FFF;
        let y = (base & 0x03E0) >> 5u16;
        let (ny, flip) = if y == 29 {
            (0u16, 0x0800u16)
        } else if y == 31 {
            (0u16, 0u16)
        } else {
            ((y + 1) as u16, 0u16)
        };
        ((base & 0xFC1F) ^ flip) | ((ny & 0x1F) << 5u16)
    }
}

/// The VRAM address after the scroll updates of one dot: coarse X every
/// eighth dot up to 256, fine Y at 256, the horizontal bits of `t` at 257,
/// and the vertical bits of `t` on dots 280 to 304 of the pre-render line,
/// all only while rendering on the visible and pre-render lines.
pub open spec fn scrolled_v(p: Ppu) -> u16 {
    let x_step = if 1 <= p.dot <= 256 && p.dot % 8 == 0 {
        coarse_x_step(p.v)
    } else {
        p.v
    };
    if !(p.rendering() && (p.scanline < 240 || p.scanline == PRE_RENDER_LINE)) {
        p.v
    } else if p.dot == 256 {
        fine_y_step(x_step)
    } else if p.dot == 257 {
        (p.v & 0xFBE0) | (p.t & 0x041F)
    } else if p.dot == 260 {
        x_step
    } else if p.scanline == PRE_RENDER_LINE && 280 <= p.dot <= 304 {
        (x_step & 0x841F) | (p.t & 0x7BE0)
    } else {
        x_step
    }
}

/// Moves the coarse X scroll of `v` one tile right, switching horizontal
/// nametable at the edge.
pub fn increment_x(v: u16) -> (r: u16)
    requires
        v <= 0x7FFF,
    ensures
        r <= 0x7FFF,
        r == coarse_x_step(v),
{
    let r = if (v & 0x001F) == 31 {
        (v & 0xFFE0) ^ 0x0400
    } else {
        v + 1
    };
    assert((v & 0x001F) == 31 ==> (v & 0xFFE0) ^ 0x0400 <= 0x7FFF) by (bit_vector)
        requires
            v <= 0x7FFF,
    ;
    assert((v & 0x001F) != 31 ==> v + 1 <= 0x7FFF) by (bit_vector)
        requires
            v <= 0x7FFF,
    ;
    r
}

/// Moves `v` one pixel row down: fine Y, then coarse Y, wrapping at row 29
/// into the other vertical nametable.
pub fn increment_y(v: u16) -> (r: u16)
    requires
        v <= 0x7FFF,
    ensures
        r <= 0x7FFF,
        r == fine_y_step(v),
{
    if (v & 0x7000) != 0x7000 {
        assert(v + 0x1000 <= 0x7FFF) by (bit_vector)
            requires
                v <= 0x7FFF,
                (v & 0x7000) != 0x7000,
        ;
        v + 0x1000
    } else {
        let base = v & 0x0FFF;
        let y = (base & 0x03E0) >> 5u16;
        assert((base & 0x03E0) >> 5u16 <= 31) by {
            crate::bits::lemma_u16_fields();
        }
        let (ny, flip): (u16, u16) = if y == 29 {
            (0, 0x0800)
        } else if y == 31 {
            (0, 0)
        } else {
            (y + 1, 0)
        };
        let r = ((base & 0xFC1F) ^ flip) | ((ny & 0x1F) << 5u16);
        assert(r <= 0x7FFF) by (bit_vector)
            requires
                base == v & 0x0FFF,
                flip == 0 || flip == 0x0800,
                r == ((base & 0xFC1F) ^ flip) | ((ny & 0x1F) << 5u16),
        ;
        r
    }
}

/// The RGB colour of entry `index` of the NTSC palette.
pub fn palette_rgb(index: u8) -> (r: (u8, u8, u8)) {
    let table: [u8; 192] = [
        84, 84, 84, 0, 30, 116, 8, 16, 144, 48, 0, 136, 68, 0, 100, 92, 0, 48, 84, 4, 0, 60, 24, 0,
        32, 42, 0, 8, 58, 0, 0, 64, 0, 0, 60, 0, 0, 50, 60, 0, 0, 0, 0, 0, 0, 0, 0, 0, 152, 150,
        152, 8, 76, 196, 48, 50, 236, 92, 30, 228, 136, 20, 176, 160, 20, 100, 152, 34, 32, 120,
        60, 0, 84, 90, 0, 40, 114, 0, 8, 124, 0, 0, 118, 40, 0, 102, 120, 0, 0, 0, 0, 0, 0, 0, 0,
        0, 236, 238, 236, 76, 154, 236, 120, 124, 236, 176, 98, 236, 228, 84, 236, 236, 88, 180,
        236, 106, 100, 212, 136, 32, 160, 170, 0, 116, 196, 0, 76, 208, 32, 56, 204, 108, 56, 180,
        204, 60, 60, 60, 0, 0, 0, 0, 0, 0, 236, 238, 236, 168, 204, 236, 188, 188, 236, 212, 178,
        236, 236, 174, 236, 236, 174, 212, 236, 180, 176, 228, 196, 144, 204, 210, 120, 180, 222,
        120, 168, 226, 144, 152, 226, 180, 160, 214, 228, 160, 162, 160, 0, 0, 0, 0, 0, 0,
    ];
    let i = (index & 0x3F) as usize * 3;
    assert(index & 0x3F < 64) by {
        crate::bits::lemma_u8_fields();
    }
    (table[i], table[i + 1], table[i + 2])
}

impl Ppu {
    /// The 2-bit background pixel and its palette number at screen column
    /// `col` of the current line.
    fn background_pixel(&self, bus: &PpuBus, col: u16) -> (r: (u8, u8))
        requires
            self.wf(),
            bus.wf(),
        ensures
            r.0 < 4 && r.1 < 4,
    {
        assert(col & 7 <= 7) by {
            crate::bits::lemma_u16_fields();
        }
        let fine = (self.x as u16) + (col & 7);
        assert(fine & 7 <= 7) by {
            crate::bits::lemma_u16_fields();
        }
        let v = if fine >= 8 {
            increment_x(self.v)
        } else {
            self.v
        };
        let bit = 7 - (fine & 7);
        let tile = bus.read(0x2000 | (v & 0x0FFF));
        let attr = bus.read(0x23C0 | (v & 0x0C00) | ((v >> 4u16) & 0x38) | ((v >> 2u16) & 0x07));
        let table: u16 = if self.ctrl & 0x10 != 0 {
            0x1000
        } else {
            0
        };
        assert((v >> 12u16) & 7 <= 7) by {
            crate::bits::lemma_u16_fields();
        }
        let pattern = table + (tile as u16) * 16 + ((v >> 12u16) & 7);
        let lo = bus.read(pattern);
        let hi = bus.read(pattern + 8);
        let pixel = (((hi >> (bit as u8)) & 1) << 1u8) | ((lo >> (bit as u8)) & 1);
        assert(((v >> 4u16) & 4) | (v & 2) <= 6) by {
            crate::bits::lemma_u16_fields();
        }
        let shift = (((v >> 4u16) & 4) | (v & 2)) as u8;
        let palette = (attr >> shift) & 3;
        assert(pixel < 4) by (bit_vector)
            requires
                pixel == (((hi >> (bit as u8)) & 1) << 1u8) | ((lo >> (bit as u8)) & 1),
        ;
        assert((attr >> shift) & 3 < 4) by {
            crate::bits::lemma_u8_fields();
        }
        (pixel, palette)
    }

    /// The first opaque sprite pixel at column `col`: its 2-bit value, palette,
    /// priority bit and whether it belongs to sprite 0.
    fn sprite_pixel(&self, bus: &PpuBus, col: u16) -> (r: (u8, u8, bool, bool))
        requires
            self.wf(),
            bus.wf(),
            self.scanline >= 1,
        ensures
            r.0 < 4 && r.1 < 4,
    {
        let height: u16 = if self.ctrl & 0x20 != 0 {
            16
        } else {
            8
        };
        let mut i: usize = 0;
        while i < self.line_sprites.len()
            invariant
                self.wf(),
                bus.wf(),
                self.scanline >= 1,
                height == 8 || height == 16,
            decreases self.line_sprites@.len() - i,
        {
            let index = self.line_sprites[i] as usize;
            let base = index * 4;
            if base + 3 < 256 {
                let y = self.oam[base] as u16;
                let tile = self.oam[base + 1];
                let attr = self.oam[base + 2];
                let sx = self.oam[base + 3] as u16;
                let line = self.scanline - 1;
                if col >= sx && col - sx < 8 && line >= y && line - y < height {
                    let mut row = line - y;
                    if attr & 0x80 != 0 {
                        row = height - 1 - row;
                    }
                    let mut column = col - sx;
                    if attr & 0x40 != 0 {
                        column = 7 - column;
                    }
                    let addr: u16 = if height == 16 {
                        let table: u16 = if tile & 1 != 0 {
                            0x1000
                        } else {
                            0
                        };
                        assert(tile & 0xFE <= 254) by {
                            crate::bits::lemma_u8_fields();
                            crate::bits::lemma_u16_fields();
                        }
                        let t = ((tile & 0xFE) as u16) + if row >= 8 {
                            1u16
                        } else {
                            0
                        };
                        assert(row & 7 <= 7) by {
                            crate::bits::lemma_u8_fields();
                            crate::bits::lemma_u16_fields();
                        }
                        table + t * 16 + (row & 7)
                    } else {
                        let table: u16 = if self.ctrl & 0x08 != 0 {
                            0x1000
                        } else {
                            0
                        };
                        table + (tile as u16) * 16 + row
                    };
                    assert(addr <= 0x1FFF);
                    let lo = bus.read(addr);
                    let hi = bus.read(addr + 8);
                    let bit = (7 - column) as u8;
                    let pixel = (((hi >> bit) & 1) << 1u8) | ((lo >> bit) & 1);
                    if pixel != 0 {
                        assert(pixel < 4) by (bit_vector)
                            requires
                                pixel == (((hi >> bit) & 1) << 1u8) | ((lo >> bit) & 1),
                        ;
                        assert(attr & 3 < 4) by {
                            crate::bits::lemma_u8_fields();
                            crate::bits::lemma_u16_fields();
                        }
                        return (pixel, attr & 3, attr & 0x20 != 0, index == 0);
                    }
                }
            }
            i = i + 1;
        }
        (0, 0, false, false)
    }

    /// Draws the pixel at the current visible dot.
    fn render_pixel(&mut self, bus: &PpuBus)
        requires
            old(self).wf(),
            bus.wf(),
            old(self).scanline < 240,
            1 <= old(self).dot <= 256,
        ensures
            *final(self) == (Ppu {
                framebuffer: final(self).framebuffer,
                status: final(self).status,
                ..*old(self)
            }),
            final(self).wf(),
            final(self).status & 0x80 == old(self).status & 0x80,
    {
        let col = self.dot - 1;
        let show_bg = self.mask & 0x08 != 0 && (col >= 8 || self.mask & 0x02 != 0);
        let show_sprites = self.mask & 0x10 != 0 && (col >= 8 || self.mask & 0x04 != 0);
        let (bg, bg_palette) = if show_bg {
            self.background_pixel(bus, col)
        } else {
            (0, 0)
        };
        let (sp, sp_palette, behind, is_zero) = if show_sprites && self.scanline >= 1 {
            self.sprite_pixel(bus, col)
        } else {
            (0, 0, false, false)
        };
        if is_zero && bg != 0 && sp != 0 && col != 255 {
            let st = self.status;
            assert((st | 0x40) & 0x80 == st & 0x80) by {
                crate::bits::lemma_u8_fields();
            }
            self.status = st | 0x40;
        }
        let entry: u16 = if sp != 0 && (bg == 0 || !behind) {
            0x3F10 + (sp_palette as u16) * 4 + sp as u16
        } else if bg != 0 {
            0x3F00 + (bg_palette as u16) * 4 + bg as u16
        } else {
            0x3F00
        };
        let mut color = bus.read(entry);
        if self.mask & 0x01 != 0 {
            color = color & 0x30;
        }
        let (red, green, blue) = palette_rgb(color);
        let offset = ((self.scanline as usize) * SCREEN_WIDTH + (col as usize)) * 4;
        self.framebuffer.set(offset, red);
        self.framebuffer.set(offset + 1, green);
        self.framebuffer.set(offset + 2, blue);
        self.framebuffer.set(offset + 3, 255);
    }

    /// Picks the (at most eight) sprites of the next line; a ninth sets the
    /// overflow flag.
    fn evaluate_sprites(&mut self)
        requires
            old(self).wf(),
        ensures
            final(self).wf(),
            *final(self) == (Ppu {
                line_sprites: final(self).line_sprites,
                status: final(self).status,
                ..*old(self)
            }),
            final(self).status & 0x80 == old(self).status & 0x80,
    {
        let height: u16 = if self.ctrl & 0x20 != 0 {
            16
        } else {
            8
        };
        let mut found: Vec<u8> = Vec::new();
        let mut overflow = false;
        let mut i: usize = 0;
        while i < 64
            invariant
                self.wf(),
                height == 8 || height == 16,
                found@.len() <= 8,
                i <= 64,
            decreases 64 - i,
        {
            let y = self.oam[i * 4] as u16;
            if self.scanline >= y && self.scanline - y < height {
                if found.len() < 8 {
                    found.push(i as u8);
                } else {
                    overflow = true;
                }
            }
            i = i + 1;
        }
        self.line_sprites = found;
        if overflow {
            let st = self.status;
            assert((st | 0x20) & 0x80 == st & 0x80) by {
                crate::bits::lemma_u8_fields();
            }
            self.status = st | 0x20;
        }
    }

    /// What one dot does to the PPU and its bus.
    pub open spec fn clocked(o: Ppu, f: Ppu, ob: PpuBus, fb: PpuBus) -> bool {
        &&& (f.ticks == o.ticks + 1)
        &&& ((f.scanline, f.dot) == o.next_pos())
        &&& (f.nmi == (o.nmi || (o.scanline == VBLANK_LINE && o.dot == 1 && o.ctrl & 0x80 != 0)))
        &&& (o.scanline == VBLANK_LINE && o.dot == 1 ==> f.status & 0x80
                != 0)
        &&& (o.scanline == PRE_RENDER_LINE && o.dot == 1 ==> f.status
                & 0xE0 == 0)
        &&& (!(o.scanline == VBLANK_LINE && o.dot == 1) && !(o.scanline
                == PRE_RENDER_LINE && o.dot == 1) ==> f.status & 0x80 == o.status & 0x80)
        &&& (f.ctrl == o.ctrl && f.mask == o.mask)
        &&& (fb.vram == ob.vram && fb.palette == ob.palette)
        &&& (fb.cart.prg_rom == ob.cart.prg_rom)
        &&& (fb.cart.chr_rom == ob.cart.chr_rom)
        &&& (fb.cart.chr_is_ram == ob.cart.chr_is_ram)
        &&& (fb.cart.mirror == ob.cart.mirror)
        &&& (fb.cart.mapper == ob.cart.mapper || match (
                ob.cart.mapper,
                fb.cart.mapper,
            ) {
                (crate::cartridge::Mapper::Mmc3(o), crate::cartridge::Mapper::Mmc3(f)) => f.regs
                    == o.regs.after_scanline(),
                _ => false,
            })
        &&& f.v == scrolled_v(o)
        &&& f.t == o.t && f.x == o.x && f.w == o.w
    }

    /// Advances one dot: raises and clears the vertical-blank flag, signals
    /// NMI, renders, steps the scroll registers, clocks the mapper's
    /// scanline counter, and moves along the 341 x 262 grid (one dot shorter
    /// on odd frames while rendering).
    pub fn clock(&mut self, bus: &mut PpuBus)
        requires
            old(self).wf(),
            old(bus).wf(),
            old(self).ticks < u64::MAX,
        ensures
            final(self).wf(),
            final(bus).wf(),
            Self::clocked(*old(self), *final(self), *old(bus), *final(bus)),
    {
        let rendering = self.mask & 0x18 != 0;
        if self.scanline == VBLANK_LINE && self.dot == 1 {
            let st = self.status;
            assert((st | 0x80) & 0x80 != 0) by {
                crate::bits::lemma_u8_fields();
            }
            self.status = st | 0x80;
            if self.ctrl & 0x80 != 0 {
                self.nmi = true;
            }
        } else if self.scanline == PRE_RENDER_LINE && self.dot == 1 {
            let st = self.status;
            assert((st & 0x1F) & 0xE0 == 0) by {
                crate::bits::lemma_u8_fields();
            }
            self.status = st & 0x1F;
        }
        if self.scanline < 240 && 1 <= self.dot && self.dot <= 256 {
            self.render_pixel(bus);
        }
        if rendering && (self.scanline < 240 || self.scanline == PRE_RENDER_LINE) {
            if self.dot >= 1 && self.dot <= 256 && self.dot % 8 == 0 {
                self.v = increment_x(self.v);
            }
            if self.dot == 256 {
                self.v = increment_y(self.v);
            } else if self.dot == 257 {
                let nv = (self.v & 0xFBE0) | (self.t & 0x041F);
                let (v, t) = (self.v, self.t);
                assert(nv <= 0x7FFF) by (bit_vector)
                    requires
                        nv == (v & 0xFBE0) | (t & 0x041F),
                        v <= 0x7FFF,
                ;
                self.v = nv;
                if self.scanline < 240 {
                    self.evaluate_sprites();
                }
            } else if self.dot == 260 {
                bus.cart.on_scanline();
            } else if self.scanline == PRE_RENDER_LINE && self.dot >= 280 && self.dot <= 304 {
                let nv = (self.v & 0x841F) | (self.t & 0x7BE0);
                let (v, t) = (self.v, self.t);
                assert(nv <= 0x7FFF) by (bit_vector)
                    requires
                        nv == (v & 0x841F) | (t & 0x7BE0),
                        v <= 0x7FFF,
                        t <= 0x7FFF,
                ;
                self.v = nv;
            }
        }
        if self.scanline == PRE_RENDER_LINE && self.dot == 338 && self.odd_frame && rendering {
            self.dot = 340;
        } else if self.dot + 1 < DOTS_PER_LINE {
            self.dot = self.dot + 1;
        } else if self.scanline + 1 < LINES_PER_FRAME {
            self.dot = 0;
            self.scanline = self.scanline + 1;
        } else {
            self.dot = 0;
            self.scanline = 0;
            self.odd_frame = !self.odd_frame;
        }
        self.ticks = self.ticks + 1;
    }
}

} // verus!
