// A cycle-counted emulation core for the Nintendo Entertainment System.
//
// - `cartridge`: iNES image loading, the cartridge and its mappers (0, 1, 2,
//   3, 4, 7, 66) with their address translation and scanline counter.
// - `cpu`: the 6502 core; `cpu::opcodes` holds the opcode table.
// - `device`: RAM, nametable memory, controllers, the PPU and the APU.
// - `system`: the PPU and CPU buses, OAM DMA, and the master clock.
// - `bits`: facts about masked and shifted integers used by the proofs.
//
// The core produces a 256x240 RGBA framebuffer and a stream of integer channel
// levels at 44.1 kHz; turning those into pixels on screen and sound is left to
// the caller.

use vstd::prelude::*;

pub mod bits;
pub mod cartridge;
pub mod cpu;
pub mod device;
pub mod system;

verus! {

} // verus!
