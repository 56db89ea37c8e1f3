use vstd::prelude::*;

verus! {

pub const PRG_BANK_SIZE: usize = 0x4000;
pub const CHR_BANK_SIZE: usize = 0x2000;
pub const PRG_RAM_SIZE: usize = 0x2000;

/// How the 2 KiB of nametable memory is laid over the 4 KiB nametable space.
#[derive(PartialEq, Eq, Structural, Clone, Copy, Debug)]
pub enum MirrorMode {
    Horizontal,
    Vertical,
    OneScreenLow,
    OneScreenHigh,
}

/// What a mapper makes of an address: a byte it holds itself, or an offset
/// into the cartridge's program or character memory (none when unmapped).
#[derive(PartialEq, Eq, Structural, Clone, Copy, Debug)]
pub enum MapperReadResult {
    Data(u8),
    Address(Option<usize>),
}

/// Mapper 0: fixed 16 or 32 KiB of program memory.
pub struct NRom {
    pub mask: u16,
}

impl NRom {
    pub open spec fn cpu_map(&self, addr: u16) -> MapperReadResult {
        if addr >= 0x8000 {
            MapperReadResult::Address(Some((addr & self.mask) as usize))
        } else {
            MapperReadResult::Address(None)
        }
    }

    pub fn new(prg_banks: u8) -> (r: NRom)
        ensures
            r.mask == (if prg_banks > 1 { 0x7FFFu16 } else { 0x3FFFu16 }),
    {
        NRom { mask: if prg_banks > 1 { 0x7FFF } else { 0x3FFF } }
    }

    pub fn cpu_read(&self, addr: u16) -> (r: MapperReadResult)
        ensures
            r == self.cpu_map(addr),
    {
        if addr >= 0x8000 {
            MapperReadResult::Address(Some((addr & self.mask) as usize))
        } else {
            MapperReadResult::Address(None)
        }
    }
}

/// Character space mapped one to one.
pub open spec fn identity_chr(addr: u16) -> MapperReadResult {
    if addr <= 0x1FFF {
        MapperReadResult::Address(Some(addr as usize))
    } else {
        MapperReadResult::Address(None)
    }
}

pub fn identity_chr_read(addr: u16) -> (r: MapperReadResult)
    ensures
        r == identity_chr(addr),
{
    if addr <= 0x1FFF {
        MapperReadResult::Address(Some(addr as usize))
    } else {
        MapperReadResult::Address(None)
    }
}

/// The mirroring that an MMC1 control value selects.
pub open spec fn mmc1_mirror(control: u8) -> MirrorMode {
    if control & 0x03 == 0 {
        MirrorMode::OneScreenLow
    } else if control & 0x03 == 1 {
        MirrorMode::OneScreenHigh
    } else if control & 0x03 == 2 {
        MirrorMode::Vertical
    } else {
        MirrorMode::Horizontal
    }
}

/// The registers of an MMC1, apart from its program RAM.
#[derive(Clone, Copy)]
pub struct Mmc1Regs {
    pub prg_banks: u8,
    pub load: u8,
    pub load_count: u8,
    pub control: u8,
    pub prg_bank_32: u8,
    pub chr_bank_8: u8,
    pub prg_bank_16_lo: u8,
    pub prg_bank_16_hi: u8,
    pub chr_bank_4_lo: u8,
    pub chr_bank_4_hi: u8,
    pub mirror: MirrorMode,
}

impl Mmc1Regs {
    pub open spec fn wf(&self) -> bool {
        self.prg_banks >= 1 && self.load_count < 5
    }

    /// The power-up state for a cartridge of `prg_banks` program banks.
    pub open spec fn initial(prg_banks: u8, mirror: MirrorMode) -> Mmc1Regs {
        Mmc1Regs {
            prg_banks,
            load: 0,
            load_count: 0,
            control: 0x1C,
            prg_bank_32: 0,
            chr_bank_8: 0,
            prg_bank_16_lo: 0,
            prg_bank_16_hi: (prg_banks - 1) as u8,
            chr_bank_4_lo: 0,
            chr_bank_4_hi: 0,
            mirror,
        }
    }

    /// The PRG banking mode held in the control register.
    pub open spec fn prg_mode(&self) -> u8 {
        (self.control >> 2u8) & 0x03
    }

    /// Stores a completed 5-bit `value` into the register that `addr` selects.
    pub open spec fn commit(self, addr: u16, value: u8) -> Mmc1Regs {
        let target = (addr >> 13u16) & 0x03;
        if target == 0 {
            let control = value & 0x1F;
            Mmc1Regs { control, mirror: mmc1_mirror(control), ..self }
        } else if target == 1 {
            if self.control & 0x10 != 0 {
                Mmc1Regs { chr_bank_4_lo: value & 0x1F, ..self }
            } else {
                Mmc1Regs { chr_bank_8: (value & 0x1E) >> 1u8, ..self }
            }
        } else if target == 2 {
            if self.control & 0x10 != 0 {
                Mmc1Regs { chr_bank_4_hi: value & 0x1F, ..self }
            } else {
                self
            }
        } else {
            if self.prg_mode() <= 1 {
                Mmc1Regs { prg_bank_32: (value & 0x0E) >> 1u8, ..self }
            } else if self.prg_mode() == 2 {
                Mmc1Regs { prg_bank_16_lo: 0, prg_bank_16_hi: value & 0x0F, ..self }
            } else {
                Mmc1Regs {
                    prg_bank_16_lo: value & 0x0F,
                    prg_bank_16_hi: (self.prg_banks - 1) as u8,
                    ..self
                }
            }
        }
    }

    /// The load register after `data` is shifted into it.
    pub open spec fn shifted_load(&self, data: u8) -> u8 {
        (self.load >> 1u8) | ((data & 0x01) << 4u8)
    }

    /// The registers after a write of `data` to the serial port at `addr`.
    pub open spec fn after_serial_write(self, addr: u16, data: u8) -> Mmc1Regs {
        if data & 0x80 != 0 {
            Mmc1Regs {
                load: 0,
                load_count: 0,
                control: self.control | 0x0C,
                prg_bank_16_hi: (self.prg_banks - 1) as u8,
                ..self
            }
        } else if self.load_count + 1 == 5 {
            Mmc1Regs { load: 0, load_count: 0, ..self.commit(addr, self.shifted_load(data)) }
        } else {
            Mmc1Regs {
                load: self.shifted_load(data),
                load_count: (self.load_count + 1) as u8,
                ..self
            }
        }
    }

    pub open spec fn cpu_map(&self, addr: u16) -> MapperReadResult {
        if addr < 0x8000 {
            MapperReadResult::Address(None)
        } else if self.control & 0x08 != 0 {
            if addr <= 0xBFFF {
                MapperReadResult::Address(
                    Some(((self.prg_bank_16_lo as usize) * PRG_BANK_SIZE + ((addr & 0x3FFF) as usize)) as usize),
                )
            } else {
                MapperReadResult::Address(
                    Some(((self.prg_bank_16_hi as usize) * PRG_BANK_SIZE + ((addr & 0x3FFF) as usize)) as usize),
                )
            }
        } else {
            MapperReadResult::Address(
                Some(((self.prg_bank_32 as usize) * 2 * PRG_BANK_SIZE + ((addr & 0x7FFF) as usize)) as usize),
            )
        }
    }

    pub open spec fn ppu_map(&self, addr: u16) -> MapperReadResult {
        if addr > 0x1FFF {
            MapperReadResult::Address(None)
        } else if self.control & 0x10 != 0 {
            if addr <= 0x0FFF {
                MapperReadResult::Address(
                    Some(((self.chr_bank_4_lo as usize) * 0x1000 + ((addr & 0x0FFF) as usize)) as usize),
                )
            } else {
                MapperReadResult::Address(
                    Some(((self.chr_bank_4_hi as usize) * 0x1000 + ((addr & 0x0FFF) as usize)) as usize),
                )
            }
        } else {
            MapperReadResult::Address(
                Some(((self.chr_bank_8 as usize) * CHR_BANK_SIZE + ((addr & 0x1FFF) as usize)) as usize),
            )
        }
    }
}

/// Mapper 1: a serially loaded bank controller with 8 KiB of program RAM.
pub struct Mmc1 {
    pub regs: Mmc1Regs,
    pub prg_ram: Vec<u8>,
}

impl Mmc1 {
    pub open spec fn wf(&self) -> bool {
        self.regs.wf() && self.prg_ram@.len() == PRG_RAM_SIZE
    }

    pub fn new(prg_banks: u8) -> (r: Mmc1)
        requires
            prg_banks >= 1,
        ensures
            r.wf(),
            r.regs == Mmc1Regs::initial(prg_banks, MirrorMode::Horizontal),
            forall|i: int| 0 <= i < PRG_RAM_SIZE ==> r.prg_ram@[i] == 0,
    {
        Mmc1 {
            regs: Mmc1Regs {
                prg_banks,
                load: 0,
                load_count: 0,
                control: 0x1C,
                prg_bank_32: 0,
                chr_bank_8: 0,
                prg_bank_16_lo: 0,
                prg_bank_16_hi: prg_banks - 1,
                chr_bank_4_lo: 0,
                chr_bank_4_hi: 0,
                mirror: MirrorMode::Horizontal,
            },
            prg_ram: vec![0u8; PRG_RAM_SIZE],
        }
    }

    pub open spec fn cpu_map(&self, addr: u16) -> MapperReadResult {
        if 0x6000 <= addr <= 0x7FFF {
            MapperReadResult::Data(self.prg_ram@[(addr & 0x1FFF) as int])
        } else {
            self.regs.cpu_map(addr)
        }
    }

    pub fn cpu_read(&self, addr: u16) -> (r: MapperReadResult)
        requires
            self.wf(),
        ensures
            r == self.cpu_map(addr),
    {
        proof {
            assert(addr & 0x1FFF <= 0x1FFF) by {
                crate::bits::lemma_u16_fields();
            }
            assert(addr & 0x3FFF <= 0x3FFF) by {
                crate::bits::lemma_u16_fields();
            }
            assert(addr & 0x7FFF <= 0x7FFF) by {
                crate::bits::lemma_u16_fields();
            }
        }
        if 0x6000 <= addr && addr <= 0x7FFF {
            MapperReadResult::Data(self.prg_ram[(addr & 0x1FFF) as usize])
        } else if addr >= 0x8000 {
            if (self.regs.control & 0x08) != 0 {
                if addr <= 0xBFFF {
                    MapperReadResult::Address(
                        Some((self.regs.prg_bank_16_lo as usize) * PRG_BANK_SIZE + ((addr & 0x3FFF) as usize)),
                    )
                } else {
                    MapperReadResult::Address(
                        Some((self.regs.prg_bank_16_hi as usize) * PRG_BANK_SIZE + ((addr & 0x3FFF) as usize)),
                    )
                }
            } else {
                MapperReadResult::Address(
                    Some((self.regs.prg_bank_32 as usize) * 2 * PRG_BANK_SIZE + ((addr & 0x7FFF) as usize)),
                )
            }
        } else {
            MapperReadResult::Address(None)
        }
    }

    pub fn ppu_read(&self, addr: u16) -> (r: MapperReadResult)
        ensures
            r == self.regs.ppu_map(addr),
    {
        proof {
            assert(addr & 0x0FFF <= 0x0FFF) by {
                crate::bits::lemma_u16_fields();
            }
            assert(addr & 0x1FFF <= 0x1FFF) by {
                crate::bits::lemma_u16_fields();
            }
        }
        if addr <= 0x1FFF {
            if (self.regs.control & 0x10) != 0 {
                if addr <= 0x0FFF {
                    MapperReadResult::Address(
                        Some((self.regs.chr_bank_4_lo as usize) * 0x1000 + ((addr & 0x0FFF) as usize)),
                    )
                } else {
                    MapperReadResult::Address(
                        Some((self.regs.chr_bank_4_hi as usize) * 0x1000 + ((addr & 0x0FFF) as usize)),
                    )
                }
            } else {
                MapperReadResult::Address(
                    Some((self.regs.chr_bank_8 as usize) * CHR_BANK_SIZE + ((addr & 0x1FFF) as usize)),
                )
            }
        } else {
            MapperReadResult::Address(None)
        }
    }

    fn commit(&mut self, addr: u16, value: u8)
        requires
            old(self).regs.prg_banks >= 1,
        ensures
            final(self).regs == old(self).regs.commit(addr, value),
            final(self).prg_ram == old(self).prg_ram,
    {
        let target = (addr >> 13u16) & 0x03;
        if target == 0 {
            self.regs.control = value & 0x1F;
            let c = self.regs.control & 0x03;
            self.regs.mirror = if c == 0 {
                MirrorMode::OneScreenLow
            } else if c == 1 {
                MirrorMode::OneScreenHigh
            } else if c == 2 {
                MirrorMode::Vertical
            } else {
                MirrorMode::Horizontal
            };
        } else if target == 1 {
            if (self.regs.control & 0x10) != 0 {
                self.regs.chr_bank_4_lo = value & 0x1F;
            } else {
                self.regs.chr_bank_8 = (value & 0x1E) >> 1u8;
            }
        } else if target == 2 {
            if (self.regs.control & 0x10) != 0 {
                self.regs.chr_bank_4_hi = value & 0x1F;
            }
        } else {
            let prg_mode = (self.regs.control >> 2u8) & 0x03;
            if prg_mode <= 1 {
                self.regs.prg_bank_32 = (value & 0x0E) >> 1u8;
            } else if prg_mode == 2 {
                self.regs.prg_bank_16_lo = 0;
                self.regs.prg_bank_16_hi = value & 0x0F;
            } else {
                self.regs.prg_bank_16_lo = value & 0x0F;
                self.regs.prg_bank_16_hi = self.regs.prg_banks - 1;
            }
        }
    }

    /// How a CPU write of `data` at `addr` changes an MMC1.
    pub open spec fn written(o: Mmc1, f: Mmc1, addr: u16, data: u8) -> bool {
        &&& (0x6000 <= addr <= 0x7FFF ==> {
                &&& f.prg_ram@ == o.prg_ram@.update((addr & 0x1FFF) as int, data)
                &&& f.regs == o.regs
            })
        &&& (addr >= 0x8000 ==> {
                &&& f.regs == o.regs.after_serial_write(addr, data)
                &&& f.prg_ram == o.prg_ram
            })
        &&& (addr < 0x6000 ==> f.regs == o.regs && f.prg_ram
                == o.prg_ram)
    }

    pub fn cpu_write(&mut self, addr: u16, data: u8)
        requires
            old(self).wf(),
        ensures
            final(self).wf(),
            Self::written(*old(self), *final(self), addr, data),
    {
        proof {
            assert(addr & 0x1FFF <= 0x1FFF) by {
                crate::bits::lemma_u16_fields();
            }
        }
        if 0x6000 <= addr && addr <= 0x7FFF {
            self.prg_ram.set((addr & 0x1FFF) as usize, data);
        } else if addr >= 0x8000 {
            if (data & 0x80) != 0 {
                self.regs.load = 0;
                self.regs.load_count = 0;
                self.regs.control = self.regs.control | 0x0C;
                self.regs.prg_bank_16_hi = self.regs.prg_banks - 1;
            } else {
                let load = (self.regs.load >> 1u8) | ((data & 0x01) << 4u8);
                if self.regs.load_count + 1 == 5 {
                    self.commit(addr, load);
                    self.regs.load = 0;
                    self.regs.load_count = 0;
                } else {
                    self.regs.load = load;
                    self.regs.load_count = self.regs.load_count + 1;
                }
            }
        }
    }

    pub fn reset(&mut self)
        requires
            old(self).wf(),
        ensures
            final(self).wf(),
            final(self).regs == Mmc1Regs::initial(old(self).regs.prg_banks, MirrorMode::Horizontal),
            final(self).prg_ram == old(self).prg_ram,
    {
        self.regs = Mmc1Regs {
            prg_banks: self.regs.prg_banks,
            load: 0,
            load_count: 0,
            control: 0x1C,
            prg_bank_32: 0,
            chr_bank_8: 0,
            prg_bank_16_lo: 0,
            prg_bank_16_hi: self.regs.prg_banks - 1,
            chr_bank_4_lo: 0,
            chr_bank_4_hi: 0,
            mirror: MirrorMode::Horizontal,
        };
    }
}

/// Mapper 2: a switchable low 16 KiB bank and the last bank fixed high.
pub struct UxRom {
    pub prg_bank_lo: u8,
    pub prg_bank_hi: u8,
}

impl UxRom {
    pub open spec fn cpu_map(&self, addr: u16) -> MapperReadResult {
        if 0x8000 <= addr <= 0xBFFF {
            MapperReadResult::Address(
                Some(((self.prg_bank_lo as usize) * PRG_BANK_SIZE + ((addr & 0x3FFF) as usize)) as usize),
            )
        } else if addr >= 0xC000 {
            MapperReadResult::Address(
                Some(((self.prg_bank_hi as usize) * PRG_BANK_SIZE + ((addr & 0x3FFF) as usize)) as usize),
            )
        } else {
            MapperReadResult::Address(None)
        }
    }

    pub fn new(prg_banks: u8) -> (r: UxRom)
        requires
            prg_banks >= 1,
        ensures
            r.prg_bank_lo == 0,
            r.prg_bank_hi == prg_banks - 1,
    {
        UxRom { prg_bank_lo: 0, prg_bank_hi: prg_banks - 1 }
    }

    pub fn cpu_read(&self, addr: u16) -> (r: MapperReadResult)
        ensures
            r == self.cpu_map(addr),
    {
        proof {
            assert(addr & 0x3FFF <= 0x3FFF) by {
                crate::bits::lemma_u16_fields();
            }
        }
        if 0x8000 <= addr && addr <= 0xBFFF {
            MapperReadResult::Address(
                Some((self.prg_bank_lo as usize) * PRG_BANK_SIZE + ((addr & 0x3FFF) as usize)),
            )
        } else if addr >= 0xC000 {
            MapperReadResult::Address(
                Some((self.prg_bank_hi as usize) * PRG_BANK_SIZE + ((addr & 0x3FFF) as usize)),
            )
        } else {
            MapperReadResult::Address(None)
        }
    }

    pub fn cpu_write(&mut self, addr: u16, data: u8)
        ensures
            addr >= 0x8000 ==> *final(self) == (UxRom { prg_bank_lo: data & 0x0F, ..*old(self) }),
            addr < 0x8000 ==> *final(self) == *old(self),
    {
        if addr >= 0x8000 {
            self.prg_bank_lo = data & 0x0F;
        }
    }
}

/// Mapper 3: fixed program memory, four switchable 8 KiB character banks.
pub struct CNRom {
    pub mask: u16,
    pub chr_bank: u8,
}

impl CNRom {
    pub open spec fn cpu_map(&self, addr: u16) -> MapperReadResult {
        if addr >= 0x8000 {
            MapperReadResult::Address(Some((addr & self.mask) as usize))
        } else {
            MapperReadResult::Address(None)
        }
    }

    pub fn cpu_read(&self, addr: u16) -> (r: MapperReadResult)
        ensures
            r == self.cpu_map(addr),
    {
        if addr >= 0x8000 {
            MapperReadResult::Address(Some((addr & self.mask) as usize))
        } else {
            MapperReadResult::Address(None)
        }
    }

    pub open spec fn ppu_map(&self, addr: u16) -> MapperReadResult {
        if addr <= 0x1FFF {
            MapperReadResult::Address(Some(((self.chr_bank as usize) * CHR_BANK_SIZE + (addr as usize)) as usize))
        } else {
            MapperReadResult::Address(None)
        }
    }

    pub fn new(prg_banks: u8) -> (r: CNRom)
        ensures
            r.mask == (if prg_banks > 1 { 0x7FFFu16 } else { 0x3FFFu16 }),
            r.chr_bank == 0,
    {
        CNRom { mask: if prg_banks > 1 { 0x7FFF } else { 0x3FFF }, chr_bank: 0 }
    }

    pub fn ppu_read(&self, addr: u16) -> (r: MapperReadResult)
        ensures
            r == self.ppu_map(addr),
    {
        if addr <= 0x1FFF {
            MapperReadResult::Address(Some((self.chr_bank as usize) * CHR_BANK_SIZE + (addr as usize)))
        } else {
            MapperReadResult::Address(None)
        }
    }

    pub fn cpu_write(&mut self, addr: u16, data: u8)
        ensures
            addr >= 0x8000 ==> *final(self) == (CNRom { chr_bank: data & 0x03, ..*old(self) }),
            addr < 0x8000 ==> *final(self) == *old(self),
    {
        if addr >= 0x8000 {
            self.chr_bank = data & 0x03;
        }
    }
}

/// A 32 KiB program window selected by `bank`.
pub open spec fn prg_32k(bank: u8, addr: u16) -> MapperReadResult {
    if addr >= 0x8000 {
        MapperReadResult::Address(
            Some(((bank as usize) * 2 * PRG_BANK_SIZE + ((addr & 0x7FFF) as usize)) as usize),
        )
    } else {
        MapperReadResult::Address(None)
    }
}

pub fn prg_32k_read(bank: u8, addr: u16) -> (r: MapperReadResult)
    ensures
        r == prg_32k(bank, addr),
{
    proof {
        assert(addr & 0x7FFF <= 0x7FFF) by {
            crate::bits::lemma_u16_fields();
        }
    }
    if addr >= 0x8000 {
        MapperReadResult::Address(
            Some((bank as usize) * 2 * PRG_BANK_SIZE + ((addr & 0x7FFF) as usize)),
        )
    } else {
        MapperReadResult::Address(None)
    }
}

/// Size of the 8 KiB program windows of an MMC3.
pub const MMC3_PRG_WINDOW: usize = 0x2000;
/// Size of the 1 KiB character windows of an MMC3.
pub const MMC3_CHR_WINDOW: usize = 0x0400;

/// Offsets of the eight 1 KiB character windows for bank registers `r`.
pub open spec fn mmc3_chr_layout(r: Seq<u8>, inversion: bool) -> Seq<usize> {
    let two_a = ((r[0] & 0xFE) as usize * MMC3_CHR_WINDOW) as usize;
    let two_b = ((r[0] | 1) as usize * MMC3_CHR_WINDOW) as usize;
    let two_c = ((r[1] & 0xFE) as usize * MMC3_CHR_WINDOW) as usize;
    let two_d = ((r[1] | 1) as usize * MMC3_CHR_WINDOW) as usize;
    let one_a = ((r[2] as usize) * MMC3_CHR_WINDOW) as usize;
    let one_b = ((r[3] as usize) * MMC3_CHR_WINDOW) as usize;
    let one_c = ((r[4] as usize) * MMC3_CHR_WINDOW) as usize;
    let one_d = ((r[5] as usize) * MMC3_CHR_WINDOW) as usize;
    if inversion {
        seq![one_a, one_b, one_c, one_d, two_a, two_b, two_c, two_d]
    } else {
        seq![two_a, two_b, two_c, two_d, one_a, one_b, one_c, one_d]
    }
}

/// Offsets of the four 8 KiB program windows for bank registers `r`.
pub open spec fn mmc3_prg_layout(r: Seq<u8>, prg_mode: bool, prg_banks: u8) -> Seq<usize> {
    let switchable = ((r[6] & 0x3F) as usize * MMC3_PRG_WINDOW) as usize;
    let second_last = (((prg_banks as usize) * 2 - 2) * MMC3_PRG_WINDOW) as usize;
    let last = (((prg_banks as usize) * 2 - 1) * MMC3_PRG_WINDOW) as usize;
    let middle = ((r[7] & 0x3F) as usize * MMC3_PRG_WINDOW) as usize;
    if prg_mode {
        seq![second_last, middle, switchable, last]
    } else {
        seq![switchable, middle, second_last, last]
    }
}

/// The registers of an MMC3, apart from its program RAM.
#[derive(Clone, Copy)]
pub struct Mmc3Regs {
    pub target_reg: u8,
    pub register: [u8; 8],
    pub prg_bank: [usize; 4],
    pub chr_bank: [usize; 8],
    pub interrupt_counter: u16,
    pub interrupt_step: u16,
    pub interrupt_active: bool,
    pub interrupt_enabled: bool,
    pub prg_bank_mode: bool,
    pub chr_inversion: bool,
    pub prg_banks: u8,
    pub mirror: MirrorMode,
}

impl Mmc3Regs {
    pub open spec fn wf(&self) -> bool {
        &&& self.prg_banks >= 1
        &&& self.target_reg < 8
        &&& self.interrupt_step <= 0xFF
        &&& forall|i: int| 0 <= i < 4 ==> #[trigger] self.prg_bank@[i] <= 0x400000
        &&& forall|i: int| 0 <= i < 8 ==> #[trigger] self.chr_bank@[i] <= 0x100000
    }

    /// The state after one scanline clock: a zero counter reloads, any other
    /// counts down, and reaching zero while enabled raises the interrupt.
    pub open spec fn after_scanline(self) -> Mmc3Regs {
        let counter = if self.interrupt_counter == 0 {
            self.interrupt_step
        } else {
            (self.interrupt_counter - 1) as u16
        };
        Mmc3Regs {
            interrupt_counter: counter,
            interrupt_active: self.interrupt_active || (counter == 0 && self.interrupt_enabled),
            ..self
        }
    }

    /// The state after `n` scanline clocks.
    pub open spec fn after_scanlines(self, n: nat) -> Mmc3Regs
        decreases n,
    {
        if n == 0 {
            self
        } else {
            self.after_scanlines((n - 1) as nat).after_scanline()
        }
    }

    pub open spec fn cpu_map(&self, addr: u16) -> MapperReadResult {
        if addr >= 0x8000 {
            MapperReadResult::Address(
                Some((self.prg_bank@[((addr >> 13u16) & 0x03) as int] + ((addr & 0x1FFF) as usize)) as usize),
            )
        } else {
            MapperReadResult::Address(None)
        }
    }

    pub open spec fn ppu_map(&self, addr: u16) -> MapperReadResult {
        if addr <= 0x1FFF {
            MapperReadResult::Address(
                Some((self.chr_bank@[((addr >> 10u16) & 0x07) as int] + ((addr & 0x03FF) as usize)) as usize),
            )
        } else {
            MapperReadResult::Address(None)
        }
    }
}

/// Mapper 4: eight bank registers, a scanline counter that raises an
/// interrupt, and 8 KiB of program RAM.
pub struct Mmc3 {
    pub regs: Mmc3Regs,
    pub prg_ram: Vec<u8>,
}

impl Mmc3 {
    pub open spec fn wf(&self) -> bool {
        self.regs.wf() && self.prg_ram@.len() == PRG_RAM_SIZE
    }

    fn power_up_prg(prg_banks: u8) -> (r: [usize; 4])
        requires
            prg_banks >= 1,
        ensures
            r@ == seq![0usize, 0x2000usize, (((prg_banks as usize) * 2 - 2) * 0x2000) as usize,
                (((prg_banks as usize) * 2 - 1) * 0x2000) as usize],
    {
        let r = [
            0,
            0x2000,
            ((prg_banks as usize) * 2 - 2) * 0x2000,
            ((prg_banks as usize) * 2 - 1) * 0x2000,
        ];
        assert(r@ =~= seq![0usize, 0x2000usize, (((prg_banks as usize) * 2 - 2) * 0x2000) as usize,
                (((prg_banks as usize) * 2 - 1) * 0x2000) as usize]);
        r
    }

    /// The power-up register state.
    pub open spec fn is_power_up(r: Mmc3Regs, prg_banks: u8) -> bool {
        &&& r.target_reg == 0
        &&& r.register@ == seq![0u8, 0, 0, 0, 0, 0, 0, 0]
        &&& r.chr_bank@ == seq![0usize, 0, 0, 0, 0, 0, 0, 0]
        &&& r.prg_bank@ == seq![0usize, 0x2000usize, (((prg_banks as usize) * 2 - 2) * 0x2000) as usize,
                (((prg_banks as usize) * 2 - 1) * 0x2000) as usize]
        &&& r.interrupt_counter == 0 && r.interrupt_step == 0
        &&& !r.interrupt_active && !r.interrupt_enabled
        &&& !r.prg_bank_mode && !r.chr_inversion
        &&& r.prg_banks == prg_banks
        &&& r.mirror == MirrorMode::Horizontal
    }

    fn power_up_regs(prg_banks: u8) -> (r: Mmc3Regs)
        requires
            prg_banks >= 1,
        ensures
            r.wf(),
            Self::is_power_up(r, prg_banks),
    {
        let register = [0u8; 8];
        let chr_bank = [0usize; 8];
        assert(register@ =~= seq![0u8, 0, 0, 0, 0, 0, 0, 0]);
        assert(chr_bank@ =~= seq![0usize, 0, 0, 0, 0, 0, 0, 0]);
        let prg_bank = Self::power_up_prg(prg_banks);
        assert(forall|i: int| 0 <= i < 4 ==> #[trigger] prg_bank@[i] <= 0x400000);
        Mmc3Regs {
            target_reg: 0,
            register,
            prg_bank,
            chr_bank,
            interrupt_counter: 0,
            interrupt_step: 0,
            interrupt_active: false,
            interrupt_enabled: false,
            prg_bank_mode: false,
            chr_inversion: false,
            prg_banks,
            mirror: MirrorMode::Horizontal,
        }
    }

    pub fn new(prg_banks: u8) -> (r: Mmc3)
        requires
            prg_banks >= 1,
        ensures
            r.wf(),
            Self::is_power_up(r.regs, prg_banks),
            forall|i: int| 0 <= i < PRG_RAM_SIZE ==> r.prg_ram@[i] == 0,
    {
        Mmc3 { regs: Self::power_up_regs(prg_banks), prg_ram: vec![0u8; PRG_RAM_SIZE] }
    }

    pub fn reset(&mut self)
        requires
            old(self).wf(),
        ensures
            final(self).wf(),
            Self::is_power_up(final(self).regs, old(self).regs.prg_banks),
            final(self).prg_ram == old(self).prg_ram,
    {
        self.regs = Self::power_up_regs(self.regs.prg_banks);
    }

    pub fn on_scanline(&mut self)
        ensures
            final(self).regs == old(self).regs.after_scanline(),
            final(self).prg_ram == old(self).prg_ram,
    {
        if self.regs.interrupt_counter == 0 {
            self.regs.interrupt_counter = self.regs.interrupt_step;
        } else {
            self.regs.interrupt_counter = self.regs.interrupt_counter - 1;
        }
        if self.regs.interrupt_counter == 0 && self.regs.interrupt_enabled {
            self.regs.interrupt_active = true;
        }
    }

    pub open spec fn cpu_map(&self, addr: u16) -> MapperReadResult {
        if 0x6000 <= addr <= 0x7FFF {
            MapperReadResult::Data(self.prg_ram@[(addr & 0x1FFF) as int])
        } else {
            self.regs.cpu_map(addr)
        }
    }

    pub fn cpu_read(&self, addr: u16) -> (r: MapperReadResult)
        requires
            self.wf(),
        ensures
            r == self.cpu_map(addr),
    {
        proof {
            assert(addr & 0x1FFF <= 0x1FFF) by {
                crate::bits::lemma_u16_fields();
            }
            assert((addr >> 13u16) & 0x03 <= 3) by {
                crate::bits::lemma_u16_fields();
            }
        }
        if 0x6000 <= addr && addr <= 0x7FFF {
            MapperReadResult::Data(self.prg_ram[(addr & 0x1FFF) as usize])
        } else if addr >= 0x8000 {
            let bank = ((addr >> 13u16) & 0x03) as usize;
            MapperReadResult::Address(Some(self.regs.prg_bank[bank] + ((addr & 0x1FFF) as usize)))
        } else {
            MapperReadResult::Address(None)
        }
    }

    pub fn ppu_read(&self, addr: u16) -> (r: MapperReadResult)
        requires
            self.wf(),
        ensures
            r == self.regs.ppu_map(addr),
    {
        proof {
            assert(addr & 0x03FF <= 0x03FF) by {
                crate::bits::lemma_u16_fields();
            }
            assert((addr >> 10u16) & 0x07 <= 7) by {
                crate::bits::lemma_u16_fields();
            }
        }
        if addr <= 0x1FFF {
            let bank = ((addr >> 10u16) & 0x07) as usize;
            MapperReadResult::Address(Some(self.regs.chr_bank[bank] + ((addr & 0x03FF) as usize)))
        } else {
            MapperReadResult::Address(None)
        }
    }

    /// Recomputes the program and character windows from the bank
    /// registers and the mode bits.
    fn update_windows(&mut self)
        requires
            old(self).regs.prg_banks >= 1,
            old(self).regs.target_reg < 8,
            old(self).regs.interrupt_step <= 0xFF,
        ensures
            final(self).wf() || old(self).prg_ram@.len() != PRG_RAM_SIZE,
            final(self).regs.wf(),
            final(self).regs.chr_bank@ == mmc3_chr_layout(
                old(self).regs.register@,
                old(self).regs.chr_inversion,
            ),
            final(self).regs.prg_bank@ == mmc3_prg_layout(
                old(self).regs.register@,
                old(self).regs.prg_bank_mode,
                old(self).regs.prg_banks,
            ),
            final(self).regs == (Mmc3Regs {
                prg_bank: final(self).regs.prg_bank,
                chr_bank: final(self).regs.chr_bank,
                ..old(self).regs
            }),
            final(self).prg_ram == old(self).prg_ram,
    {
        let r = self.regs.register;
        let two_a = ((r[0] & 0xFE) as usize) * MMC3_CHR_WINDOW;
        let two_b = ((r[0] | 1) as usize) * MMC3_CHR_WINDOW;
        let two_c = ((r[1] & 0xFE) as usize) * MMC3_CHR_WINDOW;
        let two_d = ((r[1] | 1) as usize) * MMC3_CHR_WINDOW;
        let one_a = (r[2] as usize) * MMC3_CHR_WINDOW;
        let one_b = (r[3] as usize) * MMC3_CHR_WINDOW;
        let one_c = (r[4] as usize) * MMC3_CHR_WINDOW;
        let one_d = (r[5] as usize) * MMC3_CHR_WINDOW;
        let chr = if self.regs.chr_inversion {
            [one_a, one_b, one_c, one_d, two_a, two_b, two_c, two_d]
        } else {
            [two_a, two_b, two_c, two_d, one_a, one_b, one_c, one_d]
        };
        let banks = self.regs.prg_banks as usize;
        let switchable = ((r[6] & 0x3F) as usize) * MMC3_PRG_WINDOW;
        let second_last = (banks * 2 - 2) * MMC3_PRG_WINDOW;
        let last = (banks * 2 - 1) * MMC3_PRG_WINDOW;
        let middle = ((r[7] & 0x3F) as usize) * MMC3_PRG_WINDOW;
        let prg = if self.regs.prg_bank_mode {
            [second_last, middle, switchable, last]
        } else {
            [switchable, middle, second_last, last]
        };
        assert(chr@ =~= mmc3_chr_layout(r@, self.regs.chr_inversion));
        assert(forall|i: int| 0 <= i < 8 ==> #[trigger] chr@[i] <= 0x100000);
        assert(forall|i: int| 0 <= i < 4 ==> #[trigger] prg@[i] <= 0x400000);
        assert(prg@ =~= mmc3_prg_layout(r@, self.regs.prg_bank_mode, self.regs.prg_banks));
        self.regs.chr_bank = chr;
        self.regs.prg_bank = prg;
    }

    /// How a CPU write of `data` at `addr` changes an MMC3.
    pub open spec fn written(o: Mmc3, f: Mmc3, addr: u16, data: u8) -> bool {
        &&& (0x6000 <= addr <= 0x7FFF ==> {
                &&& f.prg_ram@ == o.prg_ram@.update((addr & 0x1FFF) as int, data)
                &&& f.regs == o.regs
            })
        &&& (addr < 0x6000 ==> f.regs == o.regs && f.prg_ram
                == o.prg_ram)
        &&& (addr >= 0x8000 ==> f.prg_ram == o.prg_ram)
        &&& (0x8000 <= addr <= 0x9FFF && addr & 1 == 0 ==> {
                &&& f.regs == (Mmc3Regs {
                    target_reg: data & 0x07,
                    prg_bank_mode: data & 0x40 != 0,
                    chr_inversion: data & 0x80 != 0,
                    prg_bank: f.regs.prg_bank,
                    chr_bank: f.regs.chr_bank,
                    ..o.regs
                })
                &&& f.regs.chr_bank@ == mmc3_chr_layout(o.regs.register@, data & 0x80 != 0)
                &&& f.regs.prg_bank@ == mmc3_prg_layout(
                    o.regs.register@,
                    data & 0x40 != 0,
                    o.regs.prg_banks,
                )
            })
        &&& (0x8000 <= addr <= 0x9FFF && addr & 1 == 1 ==> {
                &&& f.regs.register@ == o.regs.register@.update(
                    o.regs.target_reg as int,
                    data,
                )
                &&& f.regs.chr_bank@ == mmc3_chr_layout(
                    f.regs.register@,
                    o.regs.chr_inversion,
                )
                &&& f.regs.prg_bank@ == mmc3_prg_layout(
                    f.regs.register@,
                    o.regs.prg_bank_mode,
                    o.regs.prg_banks,
                )
                &&& f.regs == (Mmc3Regs {
                    register: f.regs.register,
                    prg_bank: f.regs.prg_bank,
                    chr_bank: f.regs.chr_bank,
                    ..o.regs
                })
            })
        &&& (0xA000 <= addr <= 0xBFFF && addr & 1 == 0 ==> f.regs == (Mmc3Regs {
                mirror: if data & 1 != 0 {
                    MirrorMode::Horizontal
                } else {
                    MirrorMode::Vertical
                },
                ..o.regs
            }))
        &&& (0xA000 <= addr <= 0xBFFF && addr & 1 == 1 ==> f.regs == o.regs)
        &&& (0xC000 <= addr <= 0xDFFF && addr & 1 == 0 ==> f.regs == (Mmc3Regs {
                interrupt_step: data as u16,
                ..o.regs
            }))
        &&& (0xC000 <= addr <= 0xDFFF && addr & 1 == 1 ==> f.regs == (Mmc3Regs {
                interrupt_counter: 0,
                ..o.regs
            }))
        &&& (0xE000 <= addr && addr & 1 == 0 ==> f.regs == (Mmc3Regs {
                interrupt_active: false,
                interrupt_enabled: false,
                ..o.regs
            }))
        &&& (0xE000 <= addr && addr & 1 == 1 ==> f.regs == (Mmc3Regs {
                interrupt_enabled: true,
                ..o.regs
            }))
    }

    pub fn cpu_write(&mut self, addr: u16, data: u8)
        requires
            old(self).wf(),
        ensures
            final(self).wf(),
            Self::written(*old(self), *final(self), addr, data),
    {
        proof {
            assert(addr & 0x1FFF <= 0x1FFF) by {
                crate::bits::lemma_u16_fields();
            }
            assert(data & 0x07 < 8) by {
                crate::bits::lemma_u8_fields();
            }
        }
        if 0x6000 <= addr && addr <= 0x7FFF {
            self.prg_ram.set((addr & 0x1FFF) as usize, data);
        } else if addr >= 0x8000 {
            let even = (addr & 0x0001) == 0;
            if addr <= 0x9FFF {
                if even {
                    self.regs.target_reg = data & 0x07;
                    self.regs.prg_bank_mode = (data & 0x40) != 0;
                    self.regs.chr_inversion = (data & 0x80) != 0;
                    self.update_windows();
                } else {
                    self.regs.register[self.regs.target_reg as usize] = data;
                    self.update_windows();
                }
            } else if addr <= 0xBFFF {
                if even {
                    self.regs.mirror = if (data & 0x01) != 0 {
                        MirrorMode::Horizontal
                    } else {
                        MirrorMode::Vertical
                    };
                }
            } else if addr <= 0xDFFF {
                if even {
                    self.regs.interrupt_step = data as u16;
                } else {
                    self.regs.interrupt_counter = 0;
                }
            } else {
                if even {
                    self.regs.interrupt_active = false;
                    self.regs.interrupt_enabled = false;
                } else {
                    self.regs.interrupt_enabled = true;
                }
            }
        }
    }
}

/// Mapper 7: one switchable 32 KiB bank, one-screen mirroring.
pub struct AxRom {
    pub prg_bank: u8,
    pub mirror: MirrorMode,
}

impl AxRom {
    pub fn new() -> (r: AxRom)
        ensures
            r.prg_bank == 0,
            r.mirror == MirrorMode::OneScreenLow,
    {
        AxRom { prg_bank: 0, mirror: MirrorMode::OneScreenLow }
    }

    pub fn cpu_write(&mut self, addr: u16, data: u8)
        ensures
            addr >= 0x8000 ==> *final(self) == (AxRom {
                prg_bank: data & 0x07,
                mirror: if data & 0x10 == 0 {
                    MirrorMode::OneScreenLow
                } else {
                    MirrorMode::OneScreenHigh
                },
            }),
            addr < 0x8000 ==> *final(self) == *old(self),
    {
        if addr >= 0x8000 {
            self.prg_bank = data & 0x07;
            self.mirror = if (data & 0x10) == 0 {
                MirrorMode::OneScreenLow
            } else {
                MirrorMode::OneScreenHigh
            };
        }
    }
}

/// Mapper 66: one switchable 32 KiB program bank and one 8 KiB character bank.
pub struct GxRom {
    pub prg_bank: u8,
    pub chr_bank: u8,
}

impl GxRom {
    pub open spec fn ppu_map(&self, addr: u16) -> MapperReadResult {
        if addr <= 0x1FFF {
            MapperReadResult::Address(Some(((self.chr_bank as usize) * CHR_BANK_SIZE + (addr as usize)) as usize))
        } else {
            MapperReadResult::Address(None)
        }
    }

    pub fn new() -> (r: GxRom)
        ensures
            r.prg_bank == 0 && r.chr_bank == 0,
    {
        GxRom { prg_bank: 0, chr_bank: 0 }
    }

    pub fn ppu_read(&self, addr: u16) -> (r: MapperReadResult)
        ensures
            r == self.ppu_map(addr),
    {
        if addr <= 0x1FFF {
            MapperReadResult::Address(Some((self.chr_bank as usize) * CHR_BANK_SIZE + (addr as usize)))
        } else {
            MapperReadResult::Address(None)
        }
    }

    pub fn cpu_write(&mut self, addr: u16, data: u8)
        ensures
            addr >= 0x8000 ==> *final(self) == (GxRom {
                chr_bank: data & 0x03,
                prg_bank: (data >> 4u8) & 0x03,
            }),
            addr < 0x8000 ==> *final(self) == *old(self),
    {
        if addr >= 0x8000 {
            self.chr_bank = data & 0x03;
            self.prg_bank = (data >> 4u8) & 0x03;
        }
    }
}

/// The mapper circuit of a cartridge, one variant per supported identifier.
pub enum Mapper {
    NRom(NRom),
    Mmc1(Mmc1),
    UxRom(UxRom),
    CNRom(CNRom),
    Mmc3(Mmc3),
    AxRom(AxRom),
    GxRom(GxRom),
}

impl Mapper {
    pub open spec fn wf(&self) -> bool {
        match self {
            Mapper::Mmc1(m) => m.wf(),
            Mapper::Mmc3(m) => m.wf(),
            _ => true,
        }
    }

    /// The iNES identifier of the mapper.
    pub open spec fn id(&self) -> u8 {
        match self {
            Mapper::NRom(_) => 0,
            Mapper::Mmc1(_) => 1,
            Mapper::UxRom(_) => 2,
            Mapper::CNRom(_) => 3,
            Mapper::Mmc3(_) => 4,
            Mapper::AxRom(_) => 7,
            Mapper::GxRom(_) => 66,
        }
    }

    pub open spec fn cpu_map(&self, addr: u16) -> MapperReadResult {
        match self {
            Mapper::NRom(m) => m.cpu_map(addr),
            Mapper::Mmc1(m) => m.cpu_map(addr),
            Mapper::UxRom(m) => m.cpu_map(addr),
            Mapper::CNRom(m) => m.cpu_map(addr),
            Mapper::Mmc3(m) => m.cpu_map(addr),
            Mapper::AxRom(m) => prg_32k(m.prg_bank, addr),
            Mapper::GxRom(m) => prg_32k(m.prg_bank, addr),
        }
    }

    pub open spec fn ppu_map(&self, addr: u16) -> MapperReadResult {
        match self {
            Mapper::Mmc1(m) => m.regs.ppu_map(addr),
            Mapper::CNRom(m) => m.ppu_map(addr),
            Mapper::Mmc3(m) => m.regs.ppu_map(addr),
            Mapper::GxRom(m) => m.ppu_map(addr),
            _ => identity_chr(addr),
        }
    }

    /// The mirroring the mapper imposes, if it imposes one.
    pub open spec fn mirror_override(&self) -> Option<MirrorMode> {
        match self {
            Mapper::Mmc1(m) => Some(m.regs.mirror),
            Mapper::Mmc3(m) => Some(m.regs.mirror),
            Mapper::AxRom(m) => Some(m.mirror),
            _ => None,
        }
    }

    pub open spec fn interrupt_pending(&self) -> bool {
        match self {
            Mapper::Mmc3(m) => m.regs.interrupt_active,
            _ => false,
        }
    }

    pub fn mirror(&self) -> (r: Option<MirrorMode>)
        ensures
            r == self.mirror_override(),
    {
        match self {
            Mapper::Mmc1(m) => Some(m.regs.mirror),
            Mapper::Mmc3(m) => Some(m.regs.mirror),
            Mapper::AxRom(m) => Some(m.mirror),
            _ => None,
        }
    }

    pub fn interrupt_state(&self) -> (r: bool)
        ensures
            r == self.interrupt_pending(),
    {
        match self {
            Mapper::Mmc3(m) => m.regs.interrupt_active,
            _ => false,
        }
    }

    pub fn reset_interrupt(&mut self)
        requires
            old(self).wf(),
        ensures
            match (*old(self), *final(self)) {
                (Mapper::Mmc3(o), Mapper::Mmc3(f)) => f.regs == (Mmc3Regs {
                    interrupt_active: false,
                    ..o.regs
                }) && f.prg_ram == o.prg_ram,
                _ => *final(self) == *old(self),
            },
            final(self).wf(),
            !final(self).interrupt_pending(),
            final(self).id() == old(self).id(),
            final(self).mirror_override() == old(self).mirror_override(),
            forall|a: u16| #[trigger] final(self).cpu_map(a) == old(self).cpu_map(a),
            forall|a: u16| #[trigger] final(self).ppu_map(a) == old(self).ppu_map(a),
    {
        match self {
            Mapper::Mmc3(m) => {
                m.regs.interrupt_active = false;
            },
            _ => {},
        }
    }

    pub fn on_scanline(&mut self)
        requires
            old(self).wf(),
        ensures
            final(self).wf(),
            final(self).id() == old(self).id(),
            final(self).mirror_override() == old(self).mirror_override(),
            forall|a: u16| #[trigger] final(self).cpu_map(a) == old(self).cpu_map(a),
            forall|a: u16| #[trigger] final(self).ppu_map(a) == old(self).ppu_map(a),
            match (*old(self), *final(self)) {
                (Mapper::Mmc3(o), Mapper::Mmc3(f)) => f.regs == o.regs.after_scanline(),
                _ => *final(self) == *old(self),
            },
    {
        match self {
            Mapper::Mmc3(m) => m.on_scanline(),
            _ => {},
        }
    }

    pub fn cpu_read(&self, addr: u16) -> (r: MapperReadResult)
        requires
            self.wf(),
        ensures
            r == self.cpu_map(addr),
    {
        match self {
            Mapper::NRom(m) => m.cpu_read(addr),
            Mapper::Mmc1(m) => m.cpu_read(addr),
            Mapper::UxRom(m) => m.cpu_read(addr),
            Mapper::CNRom(m) => m.cpu_read(addr),
            Mapper::Mmc3(m) => m.cpu_read(addr),
            Mapper::AxRom(m) => prg_32k_read(m.prg_bank, addr),
            Mapper::GxRom(m) => prg_32k_read(m.prg_bank, addr),
        }
    }

    pub fn ppu_read(&self, addr: u16) -> (r: MapperReadResult)
        requires
            self.wf(),
        ensures
            r == self.ppu_map(addr),
    {
        match self {
            Mapper::Mmc1(m) => m.ppu_read(addr),
            Mapper::CNRom(m) => m.ppu_read(addr),
            Mapper::Mmc3(m) => m.ppu_read(addr),
            Mapper::GxRom(m) => m.ppu_read(addr),
            _ => identity_chr_read(addr),
        }
    }

    /// How a CPU write of `data` at `addr` changes a mapper.
    pub open spec fn written(o: Mapper, f: Mapper, addr: u16, data: u8) -> bool {
        match (o, f) {
            (Mapper::NRom(o), Mapper::NRom(f)) => f == o,
            (Mapper::Mmc1(o), Mapper::Mmc1(f)) => Mmc1::written(o, f, addr, data),
            (Mapper::UxRom(o), Mapper::UxRom(f)) => f == if addr >= 0x8000 {
                UxRom { prg_bank_lo: data & 0x0F, ..o }
            } else {
                o
            },
            (Mapper::CNRom(o), Mapper::CNRom(f)) => f == if addr >= 0x8000 {
                CNRom { chr_bank: data & 0x03, ..o }
            } else {
                o
            },
            (Mapper::Mmc3(o), Mapper::Mmc3(f)) => Mmc3::written(o, f, addr, data),
            (Mapper::AxRom(o), Mapper::AxRom(f)) => f == if addr >= 0x8000 {
                AxRom {
                    prg_bank: data & 0x07,
                    mirror: if data & 0x10 == 0 {
                        MirrorMode::OneScreenLow
                    } else {
                        MirrorMode::OneScreenHigh
                    },
                }
            } else {
                o
            },
            (Mapper::GxRom(o), Mapper::GxRom(f)) => f == if addr >= 0x8000 {
                GxRom { chr_bank: data & 0x03, prg_bank: (data >> 4u8) & 0x03 }
            } else {
                o
            },
            _ => false,
        }
    }

    pub fn cpu_write(&mut self, addr: u16, data: u8)
        requires
            old(self).wf(),
        ensures
            final(self).wf(),
            final(self).id() == old(self).id(),
            Self::written(*old(self), *final(self), addr, data),
    {
        match self {
            Mapper::NRom(_) => {},
            Mapper::Mmc1(m) => m.cpu_write(addr, data),
            Mapper::UxRom(m) => m.cpu_write(addr, data),
            Mapper::CNRom(m) => m.cpu_write(addr, data),
            Mapper::Mmc3(m) => m.cpu_write(addr, data),
            Mapper::AxRom(m) => m.cpu_write(addr, data),
            Mapper::GxRom(m) => m.cpu_write(addr, data),
        }
    }

    /// How a reset changes a mapper: power-up bank registers, RAM kept.
    pub open spec fn reset_done(o: Mapper, f: Mapper) -> bool {
        &&& (f.id() == o.id())
        &&& (!f.interrupt_pending())
        &&& (match (o, f) {
                (Mapper::NRom(o), Mapper::NRom(f)) => f == o,
                (Mapper::Mmc1(o), Mapper::Mmc1(f)) => f.regs == Mmc1Regs::initial(
                    o.regs.prg_banks,
                    MirrorMode::Horizontal,
                ) && f.prg_ram == o.prg_ram,
                (Mapper::UxRom(o), Mapper::UxRom(f)) => f.prg_bank_lo == 0 && f.prg_bank_hi
                    == o.prg_bank_hi,
                (Mapper::CNRom(o), Mapper::CNRom(f)) => f.chr_bank == 0 && f.mask == o.mask,
                (Mapper::Mmc3(o), Mapper::Mmc3(f)) => Mmc3::is_power_up(f.regs, o.regs.prg_banks)
                    && f.prg_ram == o.prg_ram,
                (Mapper::AxRom(o), Mapper::AxRom(f)) => f.prg_bank == 0 && f.mirror
                    == MirrorMode::OneScreenLow,
                (Mapper::GxRom(o), Mapper::GxRom(f)) => f.prg_bank == 0 && f.chr_bank == 0,
                _ => false,
            })
    }

    /// Restores the power-up bank registers; mapper RAM is kept.
    pub fn reset(&mut self)
        requires
            old(self).wf(),
        ensures
            final(self).wf(),
            Self::reset_done(*old(self), *final(self)),
    {
        match self {
            Mapper::NRom(_) => {},
            Mapper::Mmc1(m) => m.reset(),
            Mapper::UxRom(m) => {
                m.prg_bank_lo = 0;
            },
            Mapper::CNRom(m) => {
                m.chr_bank = 0;
            },
            Mapper::Mmc3(m) => m.reset(),
            Mapper::AxRom(m) => {
                m.prg_bank = 0;
                m.mirror = MirrorMode::OneScreenLow;
            },
            Mapper::GxRom(m) => {
                m.prg_bank = 0;
                m.chr_bank = 0;
            },
        }
    }
}

/// A mapper in its power-up state for a cartridge of `prg_banks` banks.
pub open spec fn mapper_power_up(m: Mapper, prg_banks: u8) -> bool {
    match m {
        Mapper::NRom(n) => n.mask == (if prg_banks > 1 { 0x7FFFu16 } else { 0x3FFFu16 }),
        Mapper::Mmc1(n) => n.regs == Mmc1Regs::initial(prg_banks, MirrorMode::Horizontal) && (
        forall|i: int| 0 <= i < PRG_RAM_SIZE ==> n.prg_ram@[i] == 0),
        Mapper::UxRom(n) => n.prg_bank_lo == 0 && n.prg_bank_hi == prg_banks - 1,
        Mapper::CNRom(n) => n.chr_bank == 0 && n.mask == (if prg_banks > 1 {
            0x7FFFu16
        } else {
            0x3FFFu16
        }),
        Mapper::Mmc3(n) => Mmc3::is_power_up(n.regs, prg_banks) && (forall|i: int|
            0 <= i < PRG_RAM_SIZE ==> n.prg_ram@[i] == 0),
        Mapper::AxRom(n) => n.prg_bank == 0 && n.mirror == MirrorMode::OneScreenLow,
        Mapper::GxRom(n) => n.prg_bank == 0 && n.chr_bank == 0,
    }
}

/// Whether `id` names a supported mapper.
pub open spec fn supported_mapper(id: u8) -> bool {
    id == 0 || id == 1 || id == 2 || id == 3 || id == 4 || id == 7 || id == 66
}

/// The mapper for identifier `id`, in its power-up state, or none when the
/// identifier is not supported.
pub fn get_mapper_from_id(id: u8, prg_banks: u8) -> (r: Option<Mapper>)
    requires
        prg_banks >= 1,
    ensures
        r.is_some() <==> supported_mapper(id),
        r matches Some(m) ==> m.wf() && m.id() == id && !m.interrupt_pending() && mapper_power_up(
            m,
            prg_banks,
        ),
{
    match id {
        0 => Some(Mapper::NRom(NRom::new(prg_banks))),
        1 => Some(Mapper::Mmc1(Mmc1::new(prg_banks))),
        2 => Some(Mapper::UxRom(UxRom::new(prg_banks))),
        3 => Some(Mapper::CNRom(CNRom::new(prg_banks))),
        4 => Some(Mapper::Mmc3(Mmc3::new(prg_banks))),
        7 => Some(Mapper::AxRom(AxRom::new())),
        66 => Some(Mapper::GxRom(GxRom::new())),
        _ => None,
    }
}

/// A byte of a ROM array at a translated offset; offsets past the end wrap.
pub open spec fn rom_byte(rom: Seq<u8>, offset: usize) -> u8 {
    rom[(offset as int) % (rom.len() as int)]
}

/// A cartridge: program ROM, character ROM or RAM, and its mapper.
pub struct Cartridge {
    pub mapper: Mapper,
    pub prg_rom: Vec<u8>,
    pub chr_rom: Vec<u8>,
    pub chr_is_ram: bool,
    pub mirror: MirrorMode,
}

impl Cartridge {
    pub open spec fn wf(&self) -> bool {
        &&& self.mapper.wf()
        &&& self.prg_rom@.len() > 0
        &&& self.chr_rom@.len() >= CHR_BANK_SIZE
    }

    /// The byte a CPU read of `addr` yields, or none when unmapped.
    pub open spec fn cpu_byte(&self, addr: u16) -> Option<u8> {
        match self.mapper.cpu_map(addr) {
            MapperReadResult::Data(d) => Some(d),
            MapperReadResult::Address(Some(offset)) => Some(rom_byte(self.prg_rom@, offset)),
            MapperReadResult::Address(None) => None,
        }
    }

    /// The byte a PPU read of `addr` yields.
    pub open spec fn ppu_byte(&self, addr: u16) -> u8 {
        if self.chr_is_ram {
            self.chr_rom@[(addr & 0x1FFF) as int]
        } else {
            match self.mapper.ppu_map(addr) {
                MapperReadResult::Data(d) => d,
                MapperReadResult::Address(Some(offset)) => rom_byte(self.chr_rom@, offset),
                MapperReadResult::Address(None) => 0,
            }
        }
    }

    pub open spec fn mirror_mode(&self) -> MirrorMode {
        match self.mapper.mirror_override() {
            Some(m) => m,
            None => self.mirror,
        }
    }

    pub fn new(
        mapper: Mapper,
        prg_rom: Vec<u8>,
        chr_rom: Vec<u8>,
        chr_is_ram: bool,
        mirror: MirrorMode,
    ) -> (r: Cartridge)
        requires
            mapper.wf(),
            prg_rom@.len() > 0,
            chr_rom@.len() >= CHR_BANK_SIZE,
        ensures
            r.wf(),
            r == (Cartridge { mapper, prg_rom, chr_rom, chr_is_ram, mirror }),
    {
        Cartridge { mapper, prg_rom, chr_rom, chr_is_ram, mirror }
    }

    pub fn mirror(&self) -> (r: MirrorMode)
        ensures
            r == self.mirror_mode(),
    {
        match self.mapper.mirror() {
            Some(m) => m,
            None => self.mirror,
        }
    }

    pub fn reset_mapper(&mut self)
        requires
            old(self).wf(),
        ensures
            final(self).mapper.id() == old(self).mapper.id(),
            final(self).wf(),
            final(self).prg_rom == old(self).prg_rom,
            final(self).chr_rom == old(self).chr_rom,
            final(self).chr_is_ram == old(self).chr_is_ram,
            final(self).mirror == old(self).mirror,
            !final(self).mapper.interrupt_pending(),
            Mapper::reset_done(old(self).mapper, final(self).mapper),
    {
        self.mapper.reset();
    }

    pub fn interrupt_state(&self) -> (r: bool)
        ensures
            r == self.mapper.interrupt_pending(),
    {
        self.mapper.interrupt_state()
    }

    pub fn reset_interrupt(&mut self)
        requires
            old(self).wf(),
        ensures
            match (old(self).mapper, final(self).mapper) {
                (Mapper::Mmc3(o), Mapper::Mmc3(f)) => f.regs == (Mmc3Regs {
                    interrupt_active: false,
                    ..o.regs
                }) && f.prg_ram == o.prg_ram,
                _ => final(self).mapper == old(self).mapper,
            },
            final(self).mapper.id() == old(self).mapper.id(),
            final(self).wf(),
            !final(self).mapper.interrupt_pending(),
            final(self).prg_rom == old(self).prg_rom,
            final(self).chr_rom == old(self).chr_rom,
            final(self).chr_is_ram == old(self).chr_is_ram,
            final(self).mirror == old(self).mirror,
            final(self).mirror_mode() == old(self).mirror_mode(),
            forall|a: u16| #[trigger] final(self).cpu_byte(a) == old(self).cpu_byte(a),
            forall|a: u16| #[trigger] final(self).ppu_byte(a) == old(self).ppu_byte(a),
    {
        self.mapper.reset_interrupt();
        assert forall|a: u16| #[trigger] self.cpu_byte(a) == old(self).cpu_byte(a) by {
            assert(self.mapper.cpu_map(a) == old(self).mapper.cpu_map(a));
        }
        assert forall|a: u16| #[trigger] self.ppu_byte(a) == old(self).ppu_byte(a) by {
            assert(self.mapper.ppu_map(a) == old(self).mapper.ppu_map(a));
        }
    }

    pub fn on_scanline(&mut self)
        requires
            old(self).wf(),
        ensures
            final(self).wf(),
            final(self).prg_rom == old(self).prg_rom,
            final(self).chr_rom == old(self).chr_rom,
            final(self).chr_is_ram == old(self).chr_is_ram,
            final(self).mirror == old(self).mirror,
            final(self).mirror_mode() == old(self).mirror_mode(),
            match (old(self).mapper, final(self).mapper) {
                (Mapper::Mmc3(o), Mapper::Mmc3(f)) => f.regs == o.regs.after_scanline(),
                _ => final(self).mapper == old(self).mapper,
            },
    {
        self.mapper.on_scanline();
    }

    /// Address is absolute, not relative to cartridge space.
    pub fn cpu_read(&self, addr: u16) -> (r: Option<u8>)
        requires
            self.wf(),
        ensures
            r == self.cpu_byte(addr),
    {
        match self.mapper.cpu_read(addr) {
            MapperReadResult::Data(d) => Some(d),
            MapperReadResult::Address(Some(offset)) => Some(
                self.prg_rom[offset % self.prg_rom.len()],
            ),
            MapperReadResult::Address(None) => None,
        }
    }

    /// Address is absolute, not relative to cartridge space.
    pub fn cpu_write(&mut self, addr: u16, data: u8)
        requires
            old(self).wf(),
        ensures
            final(self).wf(),
            final(self).prg_rom == old(self).prg_rom,
            final(self).chr_rom == old(self).chr_rom,
            final(self).chr_is_ram == old(self).chr_is_ram,
            final(self).mirror == old(self).mirror,
            final(self).mapper.id() == old(self).mapper.id(),
            Mapper::written(old(self).mapper, final(self).mapper, addr, data),
    {
        self.mapper.cpu_write(addr, data);
    }

    /// Address is absolute, not relative to cartridge space.
    pub fn ppu_read(&self, addr: u16) -> (r: u8)
        requires
            self.wf(),
        ensures
            r == self.ppu_byte(addr),
    {
        proof {
            assert(addr & 0x1FFF <= 0x1FFF) by {
                crate::bits::lemma_u16_fields();
            }
        }
        if self.chr_is_ram {
            self.chr_rom[(addr & 0x1FFF) as usize]
        } else {
            match self.mapper.ppu_read(addr) {
                MapperReadResult::Data(d) => d,
                MapperReadResult::Address(Some(offset)) => self.chr_rom[offset
                    % self.chr_rom.len()],
                MapperReadResult::Address(None) => 0,
            }
        }
    }

    /// Writes land only in character RAM.
    pub fn ppu_write(&mut self, addr: u16, data: u8)
        requires
            old(self).wf(),
        ensures
            final(self).wf(),
            final(self).mapper == old(self).mapper,
            final(self).prg_rom == old(self).prg_rom,
            final(self).chr_is_ram == old(self).chr_is_ram,
            final(self).mirror == old(self).mirror,
            old(self).chr_is_ram ==> final(self).chr_rom@ == old(self).chr_rom@.update(
                (addr & 0x1FFF) as int,
                data,
            ),
            !old(self).chr_is_ram ==> final(self).chr_rom == old(self).chr_rom,
    {
        proof {
            assert(addr & 0x1FFF <= 0x1FFF) by {
                crate::bits::lemma_u16_fields();
            }
        }
        if self.chr_is_ram {
            self.chr_rom.set((addr & 0x1FFF) as usize, data);
        }
    }
}

/// A cursor over the bytes of an image.
pub struct BinReader {
    pub data: Vec<u8>,
    pub pos: usize,
}

impl BinReader {
    pub open spec fn wf(&self) -> bool {
        self.pos <= self.data@.len()
    }

    /// The bytes not read yet.
    pub open spec fn rest(&self) -> Seq<u8> {
        self.data@.subrange(self.pos as int, self.data@.len() as int)
    }

    pub fn new(data: Vec<u8>) -> (r: BinReader)
        ensures
            r.wf(),
            r.data == data,
            r.pos == 0,
    {
        BinReader { data, pos: 0 }
    }

    pub fn read_byte(&mut self) -> (r: Option<u8>)
        requires
            old(self).wf(),
        ensures
            final(self).wf(),
            final(self).data == old(self).data,
            old(self).pos < old(self).data@.len() ==> r == Some(old(self).data@[old(self).pos as int])
                && final(self).pos == old(self).pos + 1,
            old(self).pos >= old(self).data@.len() ==> r.is_none() && final(self).pos
                == old(self).pos,
    {
        if self.pos < self.data.len() {
            let byte = self.data[self.pos];
            self.pos = self.pos + 1;
            Some(byte)
        } else {
            None
        }
    }

    /// Copies as many bytes as `target` holds, or as are left, into the front
    /// of `target`, and returns how many were copied.
    pub fn read_into(&mut self, target: &mut Vec<u8>) -> (count: usize)
        requires
            old(self).wf(),
        ensures
            final(self).wf(),
            final(self).data == old(self).data,
            count as int == if old(target)@.len() < old(self).data@.len() - old(self).pos {
                old(target)@.len() as int
            } else {
                old(self).data@.len() - old(self).pos
            },
            final(self).pos == old(self).pos + count,
            final(target)@.len() == old(target)@.len(),
            final(target)@.subrange(0, count as int) == old(self).data@.subrange(
                old(self).pos as int,
                old(self).pos + count,
            ),
            final(target)@.subrange(count as int, old(target)@.len() as int) == old(target)@.subrange(count as int, old(target)@.len() as int),
    {
        let remaining = self.data.len() - self.pos;
        let count: usize = if target.len() < remaining {
            target.len()
        } else {
            remaining
        };
        let pos = self.pos;
        let len = self.data.len();
        let mut i: usize = 0;
        while i < count
            invariant
                self.wf(),
                len == self.data@.len(),
                pos == self.pos,
                i <= count,
                count <= target@.len(),
                pos + count <= self.data@.len(),
                target@.len() == old(target)@.len(),
                forall|j: int| 0 <= j < i ==> target@[j] == self.data@[self.pos + j],
                forall|j: int| i <= j < target@.len() ==> target@[j] == old(target)@[j],
            decreases count - i,
        {
            target.set(i, self.data[pos + i]);
            i = i + 1;
        }
        assert(target@.subrange(0, count as int) =~= self.data@.subrange(
            self.pos as int,
            self.pos + count,
        ));
        assert(target@.subrange(count as int, old(target)@.len() as int) =~= old(target)@.subrange(count as int, old(target)@.len() as int));
        self.pos = self.pos + count;
        count
    }

    /// Moves past `count` bytes, stopping at the end of the data.
    pub fn skip(&mut self, count: usize)
        requires
            old(self).wf(),
        ensures
            final(self).wf(),
            final(self).data == old(self).data,
            final(self).pos == if old(self).pos + count <= old(self).data@.len() {
                old(self).pos + count
            } else {
                old(self).data@.len() as int
            },
    {
        if count <= self.data.len() - self.pos {
            self.pos = self.pos + count;
        } else {
            self.pos = self.data.len();
        }
    }
}

/// Size of the iNES header.
pub const HEADER_SIZE: usize = 16;
/// Size of the optional trainer that follows the header.
pub const TRAINER_SIZE: usize = 512;

/// The fields of an iNES header that loading uses.
pub struct INesHeader {
    pub prg_banks: u8,
    pub chr_banks: u8,
    pub mapper_1: u8,
    pub mapper_2: u8,
    pub prg_ram_size: u8,
    pub tv_system_1: u8,
    pub tv_system_2: u8,
}

/// Whether `d` starts with the iNES magic "NES" followed by 0x1A.
pub open spec fn has_magic(d: Seq<u8>) -> bool {
    d.len() >= 4 && d[0] == 0x4E && d[1] == 0x45 && d[2] == 0x53 && d[3] == 0x1A
}

impl INesHeader {
    /// Reads the 16-byte header; none when the bytes run out or the magic
    /// does not match.
    pub fn from_reader(reader: &mut BinReader) -> (r: Option<INesHeader>)
        requires
            old(reader).wf(),
        ensures
            final(reader).wf(),
            final(reader).data == old(reader).data,
            r.is_some() <==> old(reader).rest().len() >= HEADER_SIZE && has_magic(
                old(reader).rest(),
            ),
            r matches Some(h) ==> {
                let d = old(reader).rest();
                &&& final(reader).pos == old(reader).pos + HEADER_SIZE
                &&& h.prg_banks == d[4] && h.chr_banks == d[5]
                &&& h.mapper_1 == d[6] && h.mapper_2 == d[7]
            },
    {
        let ghost d = reader.rest();
        let mut file_id: Vec<u8> = vec![0u8; 4];
        if reader.read_into(&mut file_id) != 4 {
            return None;
        }
        assert(file_id@ =~= d.subrange(0, 4));
        if file_id[0] != 0x4E || file_id[1] != 0x45 || file_id[2] != 0x53 || file_id[3] != 0x1A {
            assert(!has_magic(d));
            return None;
        }
        let prg_banks = match reader.read_byte() {
            Some(b) => b,
            None => return None,
        };
        let chr_banks = match reader.read_byte() {
            Some(b) => b,
            None => return None,
        };
        let mapper_1 = match reader.read_byte() {
            Some(b) => b,
            None => return None,
        };
        let mapper_2 = match reader.read_byte() {
            Some(b) => b,
            None => return None,
        };
        let prg_ram_size = match reader.read_byte() {
            Some(b) => b,
            None => return None,
        };
        let tv_system_1 = match reader.read_byte() {
            Some(b) => b,
            None => return None,
        };
        let tv_system_2 = match reader.read_byte() {
            Some(b) => b,
            None => return None,
        };
        let mut unused: Vec<u8> = vec![0u8; 5];
        if reader.read_into(&mut unused) != 5 {
            return None;
        }
        Some(
            INesHeader {
                prg_banks,
                chr_banks,
                mapper_1,
                mapper_2,
                prg_ram_size,
                tv_system_1,
                tv_system_2,
            },
        )
    }
}

/// Why an image could not be loaded.
#[derive(PartialEq, Eq, Structural, Clone, Copy, Debug)]
pub enum LoadError {
    /// The image is shorter than its header says.
    Truncated,
    /// The first four bytes are not the iNES magic.
    BadMagic,
    /// The header declares no program ROM.
    NoProgramRom,
    /// The header names a mapper that is not supported.
    UnsupportedMapper(u8),
}

/// The mapper identifier a header's flag bytes give.
pub open spec fn ines_mapper_id(flags_6: u8, flags_7: u8) -> u8 {
    (flags_7 & 0xF0) | (flags_6 >> 4u8)
}

/// Where the program ROM starts in an image with these flags.
pub open spec fn ines_prg_start(flags_6: u8) -> int {
    HEADER_SIZE + if flags_6 & 0x04 != 0 {
        TRAINER_SIZE as int
    } else {
        0
    }
}

/// The number of character bytes the image carries.
pub open spec fn ines_chr_len(chr_banks: u8) -> int {
    (chr_banks as int) * (CHR_BANK_SIZE as int)
}

/// The outcome of loading the image `d`.
pub open spec fn ines_outcome(d: Seq<u8>) -> Result<(), LoadError> {
    if d.len() >= 4 && !has_magic(d) {
        Err(LoadError::BadMagic)
    } else if d.len() < HEADER_SIZE {
        Err(LoadError::Truncated)
    } else if !supported_mapper(ines_mapper_id(d[6], d[7])) {
        Err(LoadError::UnsupportedMapper(ines_mapper_id(d[6], d[7])))
    } else if d[4] == 0 {
        Err(LoadError::NoProgramRom)
    } else if d.len() < ines_prg_start(d[6]) + (d[4] as int) * (PRG_BANK_SIZE as int)
        + ines_chr_len(d[5]) {
            Err(LoadError::Truncated)
    } else {
        Ok(())
    }
}

/// Builds a cartridge from the bytes of an iNES image.
pub fn load_cartridge(data: Vec<u8>) -> (r: Result<Cartridge, LoadError>)
    ensures
        r.is_ok() <==> ines_outcome(data@) is Ok,
        r matches Err(e) ==> ines_outcome(data@) == Err::<(), LoadError>(e),
        r matches Ok(c) ==> {
            let d = data@;
            let prg_start = ines_prg_start(d[6]);
            let prg_len = (d[4] as int) * (PRG_BANK_SIZE as int);
            &&& c.wf()
            &&& c.mapper.id() == ines_mapper_id(d[6], d[7])
            &&& !c.mapper.interrupt_pending()
            &&& mapper_power_up(c.mapper, d[4])
            &&& c.prg_rom@ == d.subrange(prg_start, prg_start + prg_len)
            &&& c.chr_is_ram == (d[5] == 0)
            &&& d[5] != 0 ==> c.chr_rom@ == d.subrange(
                prg_start + prg_len,
                prg_start + prg_len + ines_chr_len(d[5]),
            )
            &&& d[5] == 0 ==> c.chr_rom@ == Seq::new(CHR_BANK_SIZE as nat, |i: int| 0u8)
            &&& c.mirror == if d[6] & 0x01 != 0 {
                MirrorMode::Vertical
            } else {
                MirrorMode::Horizontal
            }
        },
{
    let ghost d = data@;
    if data.len() >= 4 && (data[0] != 0x4E || data[1] != 0x45 || data[2] != 0x53 || data[3]
        != 0x1A) {
            return Err(LoadError::BadMagic);
    }
    let mut reader = BinReader::new(data);
    let header = match INesHeader::from_reader(&mut reader) {
        Some(h) => h,
        None => return Err(LoadError::Truncated),
    };
    if (header.mapper_1 & 0x04) != 0 {
        reader.skip(TRAINER_SIZE);
    }
    let mapper_id = (header.mapper_2 & 0xF0) | (header.mapper_1 >> 4u8);
    if header.prg_banks == 0 {
        if mapper_id == 0 || mapper_id == 1 || mapper_id == 2 || mapper_id == 3 || mapper_id == 4
            || mapper_id == 7 || mapper_id == 66 {
                return Err(LoadError::NoProgramRom);
        }
        return Err(LoadError::UnsupportedMapper(mapper_id));
    }
    let mapper = match get_mapper_from_id(mapper_id, header.prg_banks) {
        Some(m) => m,
        None => return Err(LoadError::UnsupportedMapper(mapper_id)),
    };
    let prg_len = (header.prg_banks as usize) * PRG_BANK_SIZE;
    let ghost prg_pos = reader.pos;
    let mut prg_mem: Vec<u8> = vec![0u8; prg_len];
    if reader.read_into(&mut prg_mem) != prg_len {
        return Err(LoadError::Truncated);
    }
    assert(prg_mem@ =~= prg_mem@.subrange(0, prg_len as int));
    let ghost chr_pos = reader.pos;
    let chr_mem: Vec<u8> = if header.chr_banks == 0 {
        vec![0u8; CHR_BANK_SIZE]
    } else {
        let chr_len = (header.chr_banks as usize) * CHR_BANK_SIZE;
        let mut tmp: Vec<u8> = vec![0u8; chr_len];
        if reader.read_into(&mut tmp) != chr_len {
            return Err(LoadError::Truncated);
        }
        assert(tmp@ =~= tmp@.subrange(0, chr_len as int));
        tmp
    };
    let mirror = if (header.mapper_1 & 0x01) != 0 {
        MirrorMode::Vertical
    } else {
        MirrorMode::Horizontal
    };
    proof {
        if header.chr_banks == 0 {
            assert(chr_mem@ =~= Seq::new(CHR_BANK_SIZE as nat, |i: int| 0u8));
        }
    }
    Ok(Cartridge::new(mapper, prg_mem, chr_mem, header.chr_banks == 0, mirror))
}

/// The value that five serial writes of `d` assemble, first write lowest.
pub open spec fn mmc1_serial_value(d: Seq<u8>) -> u8 {
    (d[0] & 1) | ((d[1] & 1) << 1u8) | ((d[2] & 1) << 2u8) | ((d[3] & 1) << 3u8) | ((d[4] & 1)
        << 4u8)
}

/// The MMC1 registers with the serial load register emptied.
pub open spec fn mmc1_banks(r: Mmc1Regs) -> Mmc1Regs {
    Mmc1Regs { load: 0, load_count: 0, ..r }
}

/// Starting from an empty load register, four writes with bit 7 clear only
/// fill the load register; the fifth stores the five collected bits into the
/// register its address selects and empties the load register.
pub proof fn lemma_mmc1_commits_on_fifth_write(r0: Mmc1Regs, addr: u16, d: Seq<u8>)
    requires
        r0.wf(),
        r0.load_count == 0,
        r0.load == 0,
        d.len() == 5,
        forall|i: int| 0 <= i < 5 ==> #[trigger] d[i] & 0x80 == 0,
    ensures
        ({
            let r1 = r0.after_serial_write(addr, d[0]);
            let r2 = r1.after_serial_write(addr, d[1]);
            let r3 = r2.after_serial_write(addr, d[2]);
            let r4 = r3.after_serial_write(addr, d[3]);
            let r5 = r4.after_serial_write(addr, d[4]);
            &&& mmc1_banks(r1) == mmc1_banks(r0) && r1.load_count == 1
            &&& mmc1_banks(r2) == mmc1_banks(r0) && r2.load_count == 2
            &&& mmc1_banks(r3) == mmc1_banks(r0) && r3.load_count == 3
            &&& mmc1_banks(r4) == mmc1_banks(r0) && r4.load_count == 4
            &&& r5 == mmc1_banks(r0.commit(addr, mmc1_serial_value(d)))
        }),
{
    let (d0, d1, d2, d3, d4) = (d[0], d[1], d[2], d[3], d[4]);
    assert(d[0] & 0x80 == 0 && d[1] & 0x80 == 0 && d[2] & 0x80 == 0);
    assert(d[3] & 0x80 == 0 && d[4] & 0x80 == 0);
    let l1 = (0u8 >> 1u8) | ((d0 & 1) << 4u8);
    let l2 = (l1 >> 1u8) | ((d1 & 1) << 4u8);
    let l3 = (l2 >> 1u8) | ((d2 & 1) << 4u8);
    let l4 = (l3 >> 1u8) | ((d3 & 1) << 4u8);
    let l5 = (l4 >> 1u8) | ((d4 & 1) << 4u8);
    assert(l5 == (d0 & 1) | ((d1 & 1) << 1u8) | ((d2 & 1) << 2u8) | ((d3 & 1) << 3u8) | ((d4 & 1)
        << 4u8)) by (bit_vector)
        requires
            l1 == (0u8 >> 1u8) | ((d0 & 1) << 4u8),
            l2 == (l1 >> 1u8) | ((d1 & 1) << 4u8),
            l3 == (l2 >> 1u8) | ((d2 & 1) << 4u8),
            l4 == (l3 >> 1u8) | ((d3 & 1) << 4u8),
            l5 == (l4 >> 1u8) | ((d4 & 1) << 4u8),
    ;
}

/// A write with bit 7 set empties the load register and selects PRG mode 3:
/// 16 KiB banks with the last bank fixed at 0xC000. Mirroring and the CHR mode
/// are kept.
pub proof fn lemma_mmc1_reset_write(r: Mmc1Regs, addr: u16, data: u8)
    requires
        r.wf(),
        data & 0x80 != 0,
    ensures
        ({
            let f = r.after_serial_write(addr, data);
            &&& f.load == 0 && f.load_count == 0
            &&& f.prg_mode() == 3
            &&& f.control & 0x13 == r.control & 0x13
            &&& f.mirror == r.mirror
            &&& forall|a: u16|
                0xC000 <= a ==> #[trigger] f.cpu_map(a) == MapperReadResult::Address(
                    Some((((r.prg_banks - 1) as usize) * PRG_BANK_SIZE + ((a & 0x3FFF) as usize)) as usize),
                )
        }),
{
    let c = r.control;
    assert(((c | 0x0C) >> 2u8) & 0x03 == 3 && (c | 0x0C) & 0x08 != 0 && (c | 0x0C) & 0x13 == c
        & 0x13) by {
            crate::bits::lemma_u8_fields();
    }
}

proof fn lemma_mmc3_countdown(r: Mmc3Regs, k: nat)
    requires
        r.interrupt_counter == 0,
        r.interrupt_enabled,
        !r.interrupt_active,
        1 <= k <= r.interrupt_step + 1,
    ensures
        r.after_scanlines(k).interrupt_counter == r.interrupt_step - (k - 1),
        r.after_scanlines(k).interrupt_step == r.interrupt_step,
        r.after_scanlines(k).interrupt_enabled,
        r.after_scanlines(k).interrupt_active == (k == r.interrupt_step + 1),
    decreases k,
{
    if k > 1 {
        lemma_mmc3_countdown(r, (k - 1) as nat);
    } else {
        assert(r.after_scanlines(0) == r);
    }
}

/// From a zero counter with the interrupt enabled and not yet raised, the
/// interrupt is raised by scanline clock number `reload + 1` and by none before.
pub proof fn lemma_mmc3_irq_after_reload_plus_one(r: Mmc3Regs)
    requires
        r.interrupt_counter == 0,
        r.interrupt_enabled,
        !r.interrupt_active,
    ensures
        forall|k: nat|
            1 <= k <= r.interrupt_step ==> !(#[trigger] r.after_scanlines(k)).interrupt_active,
        r.after_scanlines((r.interrupt_step + 1) as nat).interrupt_active,
{
    assert forall|k: nat| 1 <= k <= r.interrupt_step implies !(#[trigger] r.after_scanlines(
        k,
    )).interrupt_active by {
        lemma_mmc3_countdown(r, k);
    }
    lemma_mmc3_countdown(r, (r.interrupt_step + 1) as nat);
}

} // verus!
