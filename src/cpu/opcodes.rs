use vstd::prelude::*;

verus! {

/// The operation half of an opcode.
#[derive(PartialEq, Eq, Structural, Clone, Copy, Debug)]
pub enum Op {
    Adc,
    Alr,
    Anc,
    And,
    Ane,
    Arr,
    Asl,
    Bcc,
    Bcs,
    Beq,
    Bit,
    Bmi,
    Bne,
    Bpl,
    Brk,
    Bvc,
    Bvs,
    Clc,
    Cld,
    Cli,
    Clv,
    Cmp,
    Cpx,
    Cpy,
    Dcp,
    Dec,
    Dex,
    Dey,
    Eor,
    Inc,
    Inx,
    Iny,
    Isb,
    Jmp,
    Jsr,
    Las,
    Lax,
    Lda,
    Ldx,
    Ldy,
    Lsr,
    Lxa,
    Nop,
    Ora,
    Pha,
    Php,
    Pla,
    Plp,
    Rla,
    Rol,
    Ror,
    Rra,
    Rti,
    Rts,
    Sax,
    Sbc,
    Sbx,
    Sec,
    Sed,
    Sei,
    Sha,
    Shx,
    Shy,
    Slo,
    Sre,
    Sta,
    Stx,
    Sty,
    Tas,
    Tax,
    Tay,
    Tsx,
    Txa,
    Txs,
    Tya,
}

/// How an instruction finds its operand.
#[derive(PartialEq, Eq, Structural, Clone, Copy, Debug)]
pub enum Mode {
    Implicit,
    Accumulator,
    Immediate,
    ZeroPage,
    ZeroPageOffsetX,
    ZeroPageOffsetY,
    Relative,
    Absolute,
    AbsoluteOffsetX,
    AbsoluteOffsetY,
    Indirect,
    OffsetXIndirect,
    IndirectOffsetY,
    AbsoluteOffsetXUnstable,
    AbsoluteOffsetYUnstable,
    IndirectOffsetYUnstable,
}

/// One entry of the opcode table: the operation, its addressing mode, its
/// base cost in cycles, and whether a page crossing while reading the
/// operand adds a cycle.
#[derive(PartialEq, Eq, Structural, Clone, Copy, Debug)]
pub struct Instr {
    pub op: Op,
    pub mode: Mode,
    pub cycles: u8,
    pub page_penalty: bool,
}

/// The conditional branches.
pub open spec fn is_branch(op: Op) -> bool {
    op == Op::Bcc || op == Op::Bcs || op == Op::Beq || op == Op::Bne || op == Op::Bmi || op
        == Op::Bpl || op == Op::Bvc || op == Op::Bvs
}

/// The plain stores.
pub open spec fn is_store(op: Op) -> bool {
    op == Op::Sta || op == Op::Stx || op == Op::Sty || op == Op::Sax
}

/// The stores whose value and address depend on the base address's high byte.
pub open spec fn is_unstable_store(op: Op) -> bool {
    op == Op::Sha || op == Op::Shx || op == Op::Shy || op == Op::Tas
}

/// The read-modify-write operations.
pub open spec fn is_rmw(op: Op) -> bool {
    op == Op::Asl || op == Op::Lsr || op == Op::Rol || op == Op::Ror || op == Op::Inc || op
        == Op::Dec || op == Op::Slo || op == Op::Rla || op == Op::Sre || op == Op::Rra || op
        == Op::Dcp || op == Op::Isb
}

/// The opcode table: the documented opcodes and the commonly relied-upon
/// undocumented ones; the twelve opcodes that jam the processor have none.
pub open spec fn opcode_table(opcode: u8) -> Option<Instr> {
    match opcode {
        0x00 => Some(Instr { op: Op::Brk, mode: Mode::Implicit, cycles: 7, page_penalty: false }),
        0x01 => Some(Instr { op: Op::Ora, mode: Mode::OffsetXIndirect, cycles: 6, page_penalty: false }),
        0x03 => Some(Instr { op: Op::Slo, mode: Mode::OffsetXIndirect, cycles: 8, page_penalty: false }),
        0x04 => Some(Instr { op: Op::Nop, mode: Mode::ZeroPage, cycles: 3, page_penalty: false }),
        0x05 => Some(Instr { op: Op::Ora, mode: Mode::ZeroPage, cycles: 3, page_penalty: false }),
        0x06 => Some(Instr { op: Op::Asl, mode: Mode::ZeroPage, cycles: 5, page_penalty: false }),
        0x07 => Some(Instr { op: Op::Slo, mode: Mode::ZeroPage, cycles: 5, page_penalty: false }),
        0x08 => Some(Instr { op: Op::Php, mode: Mode::Implicit, cycles: 3, page_penalty: false }),
        0x09 => Some(Instr { op: Op::Ora, mode: Mode::Immediate, cycles: 2, page_penalty: false }),
        0x0A => Some(Instr { op: Op::Asl, mode: Mode::Accumulator, cycles: 2, page_penalty: false }),
        0x0B => Some(Instr { op: Op::Anc, mode: Mode::Immediate, cycles: 2, page_penalty: false }),
        0x0C => Some(Instr { op: Op::Nop, mode: Mode::Absolute, cycles: 4, page_penalty: false }),
        0x0D => Some(Instr { op: Op::Ora, mode: Mode::Absolute, cycles: 4, page_penalty: false }),
        0x0E => Some(Instr { op: Op::Asl, mode: Mode::Absolute, cycles: 6, page_penalty: false }),
        0x0F => Some(Instr { op: Op::Slo, mode: Mode::Absolute, cycles: 6, page_penalty: false }),
        0x10 => Some(Instr { op: Op::Bpl, mode: Mode::Relative, cycles: 2, page_penalty: false }),
        0x11 => Some(Instr { op: Op::Ora, mode: Mode::IndirectOffsetY, cycles: 5, page_penalty: true }),
        0x13 => Some(Instr { op: Op::Slo, mode: Mode::IndirectOffsetY, cycles: 8, page_penalty: false }),
        0x14 => Some(Instr { op: Op::Nop, mode: Mode::ZeroPageOffsetX, cycles: 4, page_penalty: false }),
        0x15 => Some(Instr { op: Op::Ora, mode: Mode::ZeroPageOffsetX, cycles: 4, page_penalty: false }),
        0x16 => Some(Instr { op: Op::Asl, mode: Mode::ZeroPageOffsetX, cycles: 6, page_penalty: false }),
        0x17 => Some(Instr { op: Op::Slo, mode: Mode::ZeroPageOffsetX, cycles: 6, page_penalty: false }),
        0x18 => Some(Instr { op: Op::Clc, mode: Mode::Implicit, cycles: 2, page_penalty: false }),
        0x19 => Some(Instr { op: Op::Ora, mode: Mode::AbsoluteOffsetY, cycles: 4, page_penalty: true }),
        0x1A => Some(Instr { op: Op::Nop, mode: Mode::Implicit, cycles: 2, page_penalty: false }),
        0x1B => Some(Instr { op: Op::Slo, mode: Mode::AbsoluteOffsetY, cycles: 7, page_penalty: false }),
        0x1C => Some(Instr { op: Op::Nop, mode: Mode::AbsoluteOffsetX, cycles: 4, page_penalty: true }),
        0x1D => Some(Instr { op: Op::Ora, mode: Mode::AbsoluteOffsetX, cycles: 4, page_penalty: true }),
        0x1E => Some(Instr { op: Op::Asl, mode: Mode::AbsoluteOffsetX, cycles: 7, page_penalty: false }),
        0x1F => Some(Instr { op: Op::Slo, mode: Mode::AbsoluteOffsetX, cycles: 7, page_penalty: false }),
        0x20 => Some(Instr { op: Op::Jsr, mode: Mode::Absolute, cycles: 6, page_penalty: false }),
        0x21 => Some(Instr { op: Op::And, mode: Mode::OffsetXIndirect, cycles: 6, page_penalty: false }),
        0x23 => Some(Instr { op: Op::Rla, mode: Mode::OffsetXIndirect, cycles: 8, page_penalty: false }),
        0x24 => Some(Instr { op: Op::Bit, mode: Mode::ZeroPage, cycles: 3, page_penalty: false }),
        0x25 => Some(Instr { op: Op::And, mode: Mode::ZeroPage, cycles: 3, page_penalty: false }),
        0x26 => Some(Instr { op: Op::Rol, mode: Mode::ZeroPage, cycles: 5, page_penalty: false }),
        0x27 => Some(Instr { op: Op::Rla, mode: Mode::ZeroPage, cycles: 5, page_penalty: false }),
        0x28 => Some(Instr { op: Op::Plp, mode: Mode::Implicit, cycles: 4, page_penalty: false }),
        0x29 => Some(Instr { op: Op::And, mode: Mode::Immediate, cycles: 2, page_penalty: false }),
        0x2A => Some(Instr { op: Op::Rol, mode: Mode::Accumulator, cycles: 2, page_penalty: false }),
        0x2B => Some(Instr { op: Op::Anc, mode: Mode::Immediate, cycles: 2, page_penalty: false }),
        0x2C => Some(Instr { op: Op::Bit, mode: Mode::Absolute, cycles: 4, page_penalty: false }),
        0x2D => Some(Instr { op: Op::And, mode: Mode::Absolute, cycles: 4, page_penalty: false }),
        0x2E => Some(Instr { op: Op::Rol, mode: Mode::Absolute, cycles: 6, page_penalty: false }),
        0x2F => Some(Instr { op: Op::Rla, mode: Mode::Absolute, cycles: 6, page_penalty: false }),
        0x30 => Some(Instr { op: Op::Bmi, mode: Mode::Relative, cycles: 2, page_penalty: false }),
        0x31 => Some(Instr { op: Op::And, mode: Mode::IndirectOffsetY, cycles: 5, page_penalty: true }),
        0x33 => Some(Instr { op: Op::Rla, mode: Mode::IndirectOffsetY, cycles: 8, page_penalty: false }),
        0x34 => Some(Instr { op: Op::Nop, mode: Mode::ZeroPageOffsetX, cycles: 4, page_penalty: false }),
        0x35 => Some(Instr { op: Op::And, mode: Mode::ZeroPageOffsetX, cycles: 4, page_penalty: false }),
        0x36 => Some(Instr { op: Op::Rol, mode: Mode::ZeroPageOffsetX, cycles: 6, page_penalty: false }),
        0x37 => Some(Instr { op: Op::Rla, mode: Mode::ZeroPageOffsetX, cycles: 6, page_penalty: false }),
        0x38 => Some(Instr { op: Op::Sec, mode: Mode::Implicit, cycles: 2, page_penalty: false }),
        0x39 => Some(Instr { op: Op::And, mode: Mode::AbsoluteOffsetY, cycles: 4, page_penalty: true }),
        0x3A => Some(Instr { op: Op::Nop, mode: Mode::Implicit, cycles: 2, page_penalty: false }),
        0x3B => Some(Instr { op: Op::Rla, mode: Mode::AbsoluteOffsetY, cycles: 7, page_penalty: false }),
        0x3C => Some(Instr { op: Op::Nop, mode: Mode::AbsoluteOffsetX, cycles: 4, page_penalty: true }),
        0x3D => Some(Instr { op: Op::And, mode: Mode::AbsoluteOffsetX, cycles: 4, page_penalty: true }),
        0x3E => Some(Instr { op: Op::Rol, mode: Mode::AbsoluteOffsetX, cycles: 7, page_penalty: false }),
        0x3F => Some(Instr { op: Op::Rla, mode: Mode::AbsoluteOffsetX, cycles: 7, page_penalty: false }),
        0x40 => Some(Instr { op: Op::Rti, mode: Mode::Implicit, cycles: 6, page_penalty: false }),
        0x41 => Some(Instr { op: Op::Eor, mode: Mode::OffsetXIndirect, cycles: 6, page_penalty: false }),
        0x43 => Some(Instr { op: Op::Sre, mode: Mode::OffsetXIndirect, cycles: 8, page_penalty: false }),
        0x44 => Some(Instr { op: Op::Nop, mode: Mode::ZeroPage, cycles: 3, page_penalty: false }),
        0x45 => Some(Instr { op: Op::Eor, mode: Mode::ZeroPage, cycles: 3, page_penalty: false }),
        0x46 => Some(Instr { op: Op::Lsr, mode: Mode::ZeroPage, cycles: 5, page_penalty: false }),
        0x47 => Some(Instr { op: Op::Sre, mode: Mode::ZeroPage, cycles: 5, page_penalty: false }),
        0x48 => Some(Instr { op: Op::Pha, mode: Mode::Implicit, cycles: 3, page_penalty: false }),
        0x49 => Some(Instr { op: Op::Eor, mode: Mode::Immediate, cycles: 2, page_penalty: false }),
        0x4A => Some(Instr { op: Op::Lsr, mode: Mode::Accumulator, cycles: 2, page_penalty: false }),
        0x4B => Some(Instr { op: Op::Alr, mode: Mode::Immediate, cycles: 2, page_penalty: false }),
        0x4C => Some(Instr { op: Op::Jmp, mode: Mode::Absolute, cycles: 3, page_penalty: false }),
        0x4D => Some(Instr { op: Op::Eor, mode: Mode::Absolute, cycles: 4, page_penalty: false }),
        0x4E => Some(Instr { op: Op::Lsr, mode: Mode::Absolute, cycles: 6, page_penalty: false }),
        0x4F => Some(Instr { op: Op::Sre, mode: Mode::Absolute, cycles: 6, page_penalty: false }),
        0x50 => Some(Instr { op: Op::Bvc, mode: Mode::Relative, cycles: 2, page_penalty: false }),
        0x51 => Some(Instr { op: Op::Eor, mode: Mode::IndirectOffsetY, cycles: 5, page_penalty: true }),
        0x53 => Some(Instr { op: Op::Sre, mode: Mode::IndirectOffsetY, cycles: 8, page_penalty: false }),
        0x54 => Some(Instr { op: Op::Nop, mode: Mode::ZeroPageOffsetX, cycles: 4, page_penalty: false }),
        0x55 => Some(Instr { op: Op::Eor, mode: Mode::ZeroPageOffsetX, cycles: 4, page_penalty: false }),
        0x56 => Some(Instr { op: Op::Lsr, mode: Mode::ZeroPageOffsetX, cycles: 6, page_penalty: false }),
        0x57 => Some(Instr { op: Op::Sre, mode: Mode::ZeroPageOffsetX, cycles: 6, page_penalty: false }),
        0x58 => Some(Instr { op: Op::Cli, mode: Mode::Implicit, cycles: 2, page_penalty: false }),
        0x59 => Some(Instr { op: Op::Eor, mode: Mode::AbsoluteOffsetY, cycles: 4, page_penalty: true }),
        0x5A => Some(Instr { op: Op::Nop, mode: Mode::Implicit, cycles: 2, page_penalty: false }),
        0x5B => Some(Instr { op: Op::Sre, mode: Mode::AbsoluteOffsetY, cycles: 7, page_penalty: false }),
        0x5C => Some(Instr { op: Op::Nop, mode: Mode::AbsoluteOffsetX, cycles: 4, page_penalty: true }),
        0x5D => Some(Instr { op: Op::Eor, mode: Mode::AbsoluteOffsetX, cycles: 4, page_penalty: true }),
        0x5E => Some(Instr { op: Op::Lsr, mode: Mode::AbsoluteOffsetX, cycles: 7, page_penalty: false }),
        0x5F => Some(Instr { op: Op::Sre, mode: Mode::AbsoluteOffsetX, cycles: 7, page_penalty: false }),
        0x60 => Some(Instr { op: Op::Rts, mode: Mode::Implicit, cycles: 6, page_penalty: false }),
        0x61 => Some(Instr { op: Op::Adc, mode: Mode::OffsetXIndirect, cycles: 6, page_penalty: false }),
        0x63 => Some(Instr { op: Op::Rra, mode: Mode::OffsetXIndirect, cycles: 8, page_penalty: false }),
        0x64 => Some(Instr { op: Op::Nop, mode: Mode::ZeroPage, cycles: 3, page_penalty: false }),
        0x65 => Some(Instr { op: Op::Adc, mode: Mode::ZeroPage, cycles: 3, page_penalty: false }),
        0x66 => Some(Instr { op: Op::Ror, mode: Mode::ZeroPage, cycles: 5, page_penalty: false }),
        0x67 => Some(Instr { op: Op::Rra, mode: Mode::ZeroPage, cycles: 5, page_penalty: false }),
        0x68 => Some(Instr { op: Op::Pla, mode: Mode::Implicit, cycles: 4, page_penalty: false }),
        0x69 => Some(Instr { op: Op::Adc, mode: Mode::Immediate, cycles: 2, page_penalty: false }),
        0x6A => Some(Instr { op: Op::Ror, mode: Mode::Accumulator, cycles: 2, page_penalty: false }),
        0x6B => Some(Instr { op: Op::Arr, mode: Mode::Immediate, cycles: 2, page_penalty: false }),
        0x6C => Some(Instr { op: Op::Jmp, mode: Mode::Indirect, cycles: 5, page_penalty: false }),
        0x6D => Some(Instr { op: Op::Adc, mode: Mode::Absolute, cycles: 4, page_penalty: false }),
        0x6E => Some(Instr { op: Op::Ror, mode: Mode::Absolute, cycles: 6, page_penalty: false }),
        0x6F => Some(Instr { op: Op::Rra, mode: Mode::Absolute, cycles: 6, page_penalty: false }),
        0x70 => Some(Instr { op: Op::Bvs, mode: Mode::Relative, cycles: 2, page_penalty: false }),
        0x71 => Some(Instr { op: Op::Adc, mode: Mode::IndirectOffsetY, cycles: 5, page_penalty: true }),
        0x73 => Some(Instr { op: Op::Rra, mode: Mode::IndirectOffsetY, cycles: 8, page_penalty: false }),
        0x74 => Some(Instr { op: Op::Nop, mode: Mode::ZeroPageOffsetX, cycles: 4, page_penalty: false }),
        0x75 => Some(Instr { op: Op::Adc, mode: Mode::ZeroPageOffsetX, cycles: 4, page_penalty: false }),
        0x76 => Some(Instr { op: Op::Ror, mode: Mode::ZeroPageOffsetX, cycles: 6, page_penalty: false }),
        0x77 => Some(Instr { op: Op::Rra, mode: Mode::ZeroPageOffsetX, cycles: 6, page_penalty: false }),
        0x78 => Some(Instr { op: Op::Sei, mode: Mode::Implicit, cycles: 2, page_penalty: false }),
        0x79 => Some(Instr { op: Op::Adc, mode: Mode::AbsoluteOffsetY, cycles: 4, page_penalty: true }),
        0x7A => Some(Instr { op: Op::Nop, mode: Mode::Implicit, cycles: 2, page_penalty: false }),
        0x7B => Some(Instr { op: Op::Rra, mode: Mode::AbsoluteOffsetY, cycles: 7, page_penalty: false }),
        0x7C => Some(Instr { op: Op::Nop, mode: Mode::AbsoluteOffsetX, cycles: 4, page_penalty: true }),
        0x7D => Some(Instr { op: Op::Adc, mode: Mode::AbsoluteOffsetX, cycles: 4, page_penalty: true }),
        0x7E => Some(Instr { op: Op::Ror, mode: Mode::AbsoluteOffsetX, cycles: 7, page_penalty: false }),
        0x7F => Some(Instr { op: Op::Rra, mode: Mode::AbsoluteOffsetX, cycles: 7, page_penalty: false }),
        0x80 => Some(Instr { op: Op::Nop, mode: Mode::Immediate, cycles: 2, page_penalty: false }),
        0x81 => Some(Instr { op: Op::Sta, mode: Mode::OffsetXIndirect, cycles: 6, page_penalty: false }),
        0x82 => Some(Instr { op: Op::Nop, mode: Mode::Immediate, cycles: 2, page_penalty: false }),
        0x83 => Some(Instr { op: Op::Sax, mode: Mode::OffsetXIndirect, cycles: 6, page_penalty: false }),
        0x84 => Some(Instr { op: Op::Sty, mode: Mode::ZeroPage, cycles: 3, page_penalty: false }),
        0x85 => Some(Instr { op: Op::Sta, mode: Mode::ZeroPage, cycles: 3, page_penalty: false }),
        0x86 => Some(Instr { op: Op::Stx, mode: Mode::ZeroPage, cycles: 3, page_penalty: false }),
        0x87 => Some(Instr { op: Op::Sax, mode: Mode::ZeroPage, cycles: 3, page_penalty: false }),
        0x88 => Some(Instr { op: Op::Dey, mode: Mode::Implicit, cycles: 2, page_penalty: false }),
        0x89 => Some(Instr { op: Op::Nop, mode: Mode::Immediate, cycles: 2, page_penalty: false }),
        0x8A => Some(Instr { op: Op::Txa, mode: Mode::Implicit, cycles: 2, page_penalty: false }),
        0x8B => Some(Instr { op: Op::Ane, mode: Mode::Immediate, cycles: 2, page_penalty: false }),
        0x8C => Some(Instr { op: Op::Sty, mode: Mode::Absolute, cycles: 4, page_penalty: false }),
        0x8D => Some(Instr { op: Op::Sta, mode: Mode::Absolute, cycles: 4, page_penalty: false }),
        0x8E => Some(Instr { op: Op::Stx, mode: Mode::Absolute, cycles: 4, page_penalty: false }),
        0x8F => Some(Instr { op: Op::Sax, mode: Mode::Absolute, cycles: 4, page_penalty: false }),
        0x90 => Some(Instr { op: Op::Bcc, mode: Mode::Relative, cycles: 2, page_penalty: false }),
        0x91 => Some(Instr { op: Op::Sta, mode: Mode::IndirectOffsetY, cycles: 6, page_penalty: false }),
        0x93 => Some(Instr { op: Op::Sha, mode: Mode::IndirectOffsetYUnstable, cycles: 6, page_penalty: false }),
        0x94 => Some(Instr { op: Op::Sty, mode: Mode::ZeroPageOffsetX, cycles: 4, page_penalty: false }),
        0x95 => Some(Instr { op: Op::Sta, mode: Mode::ZeroPageOffsetX, cycles: 4, page_penalty: false }),
        0x96 => Some(Instr { op: Op::Stx, mode: Mode::ZeroPageOffsetY, cycles: 4, page_penalty: false }),
        0x97 => Some(Instr { op: Op::Sax, mode: Mode::ZeroPageOffsetY, cycles: 4, page_penalty: false }),
        0x98 => Some(Instr { op: Op::Tya, mode: Mode::Implicit, cycles: 2, page_penalty: false }),
        0x99 => Some(Instr { op: Op::Sta, mode: Mode::AbsoluteOffsetY, cycles: 5, page_penalty: false }),
        0x9A => Some(Instr { op: Op::Txs, mode: Mode::Implicit, cycles: 2, page_penalty: false }),
        0x9B => Some(Instr { op: Op::Tas, mode: Mode::AbsoluteOffsetYUnstable, cycles: 5, page_penalty: false }),
        0x9C => Some(Instr { op: Op::Shy, mode: Mode::AbsoluteOffsetXUnstable, cycles: 5, page_penalty: false }),
        0x9D => Some(Instr { op: Op::Sta, mode: Mode::AbsoluteOffsetX, cycles: 5, page_penalty: false }),
        0x9E => Some(Instr { op: Op::Shx, mode: Mode::AbsoluteOffsetYUnstable, cycles: 5, page_penalty: false }),
        0x9F => Some(Instr { op: Op::Sha, mode: Mode::AbsoluteOffsetYUnstable, cycles: 5, page_penalty: false }),
        0xA0 => Some(Instr { op: Op::Ldy, mode: Mode::Immediate, cycles: 2, page_penalty: false }),
        0xA1 => Some(Instr { op: Op::Lda, mode: Mode::OffsetXIndirect, cycles: 6, page_penalty: false }),
        0xA2 => Some(Instr { op: Op::Ldx, mode: Mode::Immediate, cycles: 2, page_penalty: false }),
        0xA3 => Some(Instr { op: Op::Lax, mode: Mode::OffsetXIndirect, cycles: 6, page_penalty: false }),
        0xA4 => Some(Instr { op: Op::Ldy, mode: Mode::ZeroPage, cycles: 3, page_penalty: false }),
        0xA5 => Some(Instr { op: Op::Lda, mode: Mode::ZeroPage, cycles: 3, page_penalty: false }),
        0xA6 => Some(Instr { op: Op::Ldx, mode: Mode::ZeroPage, cycles: 3, page_penalty: false }),
        0xA7 => Some(Instr { op: Op::Lax, mode: Mode::ZeroPage, cycles: 3, page_penalty: false }),
        0xA8 => Some(Instr { op: Op::Tay, mode: Mode::Implicit, cycles: 2, page_penalty: false }),
        0xA9 => Some(Instr { op: Op::Lda, mode: Mode::Immediate, cycles: 2, page_penalty: false }),
        0xAA => Some(Instr { op: Op::Tax, mode: Mode::Implicit, cycles: 2, page_penalty: false }),
        0xAB => Some(Instr { op: Op::Lxa, mode: Mode::Immediate, cycles: 2, page_penalty: false }),
        0xAC => Some(Instr { op: Op::Ldy, mode: Mode::Absolute, cycles: 4, page_penalty: false }),
        0xAD => Some(Instr { op: Op::Lda, mode: Mode::Absolute, cycles: 4, page_penalty: false }),
        0xAE => Some(Instr { op: Op::Ldx, mode: Mode::Absolute, cycles: 4, page_penalty: false }),
        0xAF => Some(Instr { op: Op::Lax, mode: Mode::Absolute, cycles: 4, page_penalty: false }),
        0xB0 => Some(Instr { op: Op::Bcs, mode: Mode::Relative, cycles: 2, page_penalty: false }),
        0xB1 => Some(Instr { op: Op::Lda, mode: Mode::IndirectOffsetY, cycles: 5, page_penalty: true }),
        0xB3 => Some(Instr { op: Op::Lax, mode: Mode::IndirectOffsetY, cycles: 5, page_penalty: true }),
        0xB4 => Some(Instr { op: Op::Ldy, mode: Mode::ZeroPageOffsetX, cycles: 4, page_penalty: false }),
        0xB5 => Some(Instr { op: Op::Lda, mode: Mode::ZeroPageOffsetX, cycles: 4, page_penalty: false }),
        0xB6 => Some(Instr { op: Op::Ldx, mode: Mode::ZeroPageOffsetY, cycles: 4, page_penalty: false }),
        0xB7 => Some(Instr { op: Op::Lax, mode: Mode::ZeroPageOffsetY, cycles: 4, page_penalty: false }),
        0xB8 => Some(Instr { op: Op::Clv, mode: Mode::Implicit, cycles: 2, page_penalty: false }),
        0xB9 => Some(Instr { op: Op::Lda, mode: Mode::AbsoluteOffsetY, cycles: 4, page_penalty: true }),
        0xBA => Some(Instr { op: Op::Tsx, mode: Mode::Implicit, cycles: 2, page_penalty: false }),
        0xBB => Some(Instr { op: Op::Las, mode: Mode::AbsoluteOffsetY, cycles: 4, page_penalty: true }),
        0xBC => Some(Instr { op: Op::Ldy, mode: Mode::AbsoluteOffsetX, cycles: 4, page_penalty: true }),
        0xBD => Some(Instr { op: Op::Lda, mode: Mode::AbsoluteOffsetX, cycles: 4, page_penalty: true }),
        0xBE => Some(Instr { op: Op::Ldx, mode: Mode::AbsoluteOffsetY, cycles: 4, page_penalty: true }),
        0xBF => Some(Instr { op: Op::Lax, mode: Mode::AbsoluteOffsetY, cycles: 4, page_penalty: true }),
        0xC0 => Some(Instr { op: Op::Cpy, mode: Mode::Immediate, cycles: 2, page_penalty: false }),
        0xC1 => Some(Instr { op: Op::Cmp, mode: Mode::OffsetXIndirect, cycles: 6, page_penalty: false }),
        0xC2 => Some(Instr { op: Op::Nop, mode: Mode::Immediate, cycles: 2, page_penalty: false }),
        0xC3 => Some(Instr { op: Op::Dcp, mode: Mode::OffsetXIndirect, cycles: 8, page_penalty: false }),
        0xC4 => Some(Instr { op: Op::Cpy, mode: Mode::ZeroPage, cycles: 3, page_penalty: false }),
        0xC5 => Some(Instr { op: Op::Cmp, mode: Mode::ZeroPage, cycles: 3, page_penalty: false }),
        0xC6 => Some(Instr { op: Op::Dec, mode: Mode::ZeroPage, cycles: 5, page_penalty: false }),
        0xC7 => Some(Instr { op: Op::Dcp, mode: Mode::ZeroPage, cycles: 5, page_penalty: false }),
        0xC8 => Some(Instr { op: Op::Iny, mode: Mode::Implicit, cycles: 2, page_penalty: false }),
        0xC9 => Some(Instr { op: Op::Cmp, mode: Mode::Immediate, cycles: 2, page_penalty: false }),
        0xCA => Some(Instr { op: Op::Dex, mode: Mode::Implicit, cycles: 2, page_penalty: false }),
        0xCB => Some(Instr { op: Op::Sbx, mode: Mode::Immediate, cycles: 2, page_penalty: false }),
        0xCC => Some(Instr { op: Op::Cpy, mode: Mode::Absolute, cycles: 4, page_penalty: false }),
        0xCD => Some(Instr { op: Op::Cmp, mode: Mode::Absolute, cycles: 4, page_penalty: false }),
        0xCE => Some(Instr { op: Op::Dec, mode: Mode::Absolute, cycles: 6, page_penalty: false }),
        0xCF => Some(Instr { op: Op::Dcp, mode: Mode::Absolute, cycles: 6, page_penalty: false }),
        0xD0 => Some(Instr { op: Op::Bne, mode: Mode::Relative, cycles: 2, page_penalty: false }),
        0xD1 => Some(Instr { op: Op::Cmp, mode: Mode::IndirectOffsetY, cycles: 5, page_penalty: true }),
        0xD3 => Some(Instr { op: Op::Dcp, mode: Mode::IndirectOffsetY, cycles: 8, page_penalty: false }),
        0xD4 => Some(Instr { op: Op::Nop, mode: Mode::ZeroPageOffsetX, cycles: 4, page_penalty: false }),
        0xD5 => Some(Instr { op: Op::Cmp, mode: Mode::ZeroPageOffsetX, cycles: 4, page_penalty: false }),
        0xD6 => Some(Instr { op: Op::Dec, mode: Mode::ZeroPageOffsetX, cycles: 6, page_penalty: false }),
        0xD7 => Some(Instr { op: Op::Dcp, mode: Mode::ZeroPageOffsetX, cycles: 6, page_penalty: false }),
        0xD8 => Some(Instr { op: Op::Cld, mode: Mode::Implicit, cycles: 2, page_penalty: false }),
        0xD9 => Some(Instr { op: Op::Cmp, mode: Mode::AbsoluteOffsetY, cycles: 4, page_penalty: true }),
        0xDA => Some(Instr { op: Op::Nop, mode: Mode::Implicit, cycles: 2, page_penalty: false }),
        0xDB => Some(Instr { op: Op::Dcp, mode: Mode::AbsoluteOffsetY, cycles: 7, page_penalty: false }),
        0xDC => Some(Instr { op: Op::Nop, mode: Mode::AbsoluteOffsetX, cycles: 4, page_penalty: true }),
        0xDD => Some(Instr { op: Op::Cmp, mode: Mode::AbsoluteOffsetX, cycles: 4, page_penalty: true }),
        0xDE => Some(Instr { op: Op::Dec, mode: Mode::AbsoluteOffsetX, cycles: 7, page_penalty: false }),
        0xDF => Some(Instr { op: Op::Dcp, mode: Mode::AbsoluteOffsetX, cycles: 7, page_penalty: false }),
        0xE0 => Some(Instr { op: Op::Cpx, mode: Mode::Immediate, cycles: 2, page_penalty: false }),
        0xE1 => Some(Instr { op: Op::Sbc, mode: Mode::OffsetXIndirect, cycles: 6, page_penalty: false }),
        0xE2 => Some(Instr { op: Op::Nop, mode: Mode::Immediate, cycles: 2, page_penalty: false }),
        0xE3 => Some(Instr { op: Op::Isb, mode: Mode::OffsetXIndirect, cycles: 8, page_penalty: false }),
        0xE4 => Some(Instr { op: Op::Cpx, mode: Mode::ZeroPage, cycles: 3, page_penalty: false }),
        0xE5 => Some(Instr { op: Op::Sbc, mode: Mode::ZeroPage, cycles: 3, page_penalty: false }),
        0xE6 => Some(Instr { op: Op::Inc, mode: Mode::ZeroPage, cycles: 5, page_penalty: false }),
        0xE7 => Some(Instr { op: Op::Isb, mode: Mode::ZeroPage, cycles: 5, page_penalty: false }),
        0xE8 => Some(Instr { op: Op::Inx, mode: Mode::Implicit, cycles: 2, page_penalty: false }),
        0xE9 => Some(Instr { op: Op::Sbc, mode: Mode::Immediate, cycles: 2, page_penalty: false }),
        0xEA => Some(Instr { op: Op::Nop, mode: Mode::Implicit, cycles: 2, page_penalty: false }),
        0xEB => Some(Instr { op: Op::Sbc, mode: Mode::Immediate, cycles: 2, page_penalty: false }),
        0xEC => Some(Instr { op: Op::Cpx, mode: Mode::Absolute, cycles: 4, page_penalty: false }),
        0xED => Some(Instr { op: Op::Sbc, mode: Mode::Absolute, cycles: 4, page_penalty: false }),
        0xEE => Some(Instr { op: Op::Inc, mode: Mode::Absolute, cycles: 6, page_penalty: false }),
        0xEF => Some(Instr { op: Op::Isb, mode: Mode::Absolute, cycles: 6, page_penalty: false }),
        0xF0 => Some(Instr { op: Op::Beq, mode: Mode::Relative, cycles: 2, page_penalty: false }),
        0xF1 => Some(Instr { op: Op::Sbc, mode: Mode::IndirectOffsetY, cycles: 5, page_penalty: true }),
        0xF3 => Some(Instr { op: Op::Isb, mode: Mode::IndirectOffsetY, cycles: 8, page_penalty: false }),
        0xF4 => Some(Instr { op: Op::Nop, mode: Mode::ZeroPageOffsetX, cycles: 4, page_penalty: false }),
        0xF5 => Some(Instr { op: Op::Sbc, mode: Mode::ZeroPageOffsetX, cycles: 4, page_penalty: false }),
        0xF6 => Some(Instr { op: Op::Inc, mode: Mode::ZeroPageOffsetX, cycles: 6, page_penalty: false }),
        0xF7 => Some(Instr { op: Op::Isb, mode: Mode::ZeroPageOffsetX, cycles: 6, page_penalty: false }),
        0xF8 => Some(Instr { op: Op::Sed, mode: Mode::Implicit, cycles: 2, page_penalty: false }),
        0xF9 => Some(Instr { op: Op::Sbc, mode: Mode::AbsoluteOffsetY, cycles: 4, page_penalty: true }),
        0xFA => Some(Instr { op: Op::Nop, mode: Mode::Implicit, cycles: 2, page_penalty: false }),
        0xFB => Some(Instr { op: Op::Isb, mode: Mode::AbsoluteOffsetY, cycles: 7, page_penalty: false }),
        0xFC => Some(Instr { op: Op::Nop, mode: Mode::AbsoluteOffsetX, cycles: 4, page_penalty: true }),
        0xFD => Some(Instr { op: Op::Sbc, mode: Mode::AbsoluteOffsetX, cycles: 4, page_penalty: true }),
        0xFE => Some(Instr { op: Op::Inc, mode: Mode::AbsoluteOffsetX, cycles: 7, page_penalty: false }),
        0xFF => Some(Instr { op: Op::Isb, mode: Mode::AbsoluteOffsetX, cycles: 7, page_penalty: false }),
        _ => None,
    }
}

/// Looks `opcode` up in the opcode table.
pub fn decode(opcode: u8) -> (r: Option<Instr>)
    ensures
        r == opcode_table(opcode),
{
    match opcode {
        0x00 => Some(Instr { op: Op::Brk, mode: Mode::Implicit, cycles: 7, page_penalty: false }),
        0x01 => Some(Instr { op: Op::Ora, mode: Mode::OffsetXIndirect, cycles: 6, page_penalty: false }),
        0x03 => Some(Instr { op: Op::Slo, mode: Mode::OffsetXIndirect, cycles: 8, page_penalty: false }),
        0x04 => Some(Instr { op: Op::Nop, mode: Mode::ZeroPage, cycles: 3, page_penalty: false }),
        0x05 => Some(Instr { op: Op::Ora, mode: Mode::ZeroPage, cycles: 3, page_penalty: false }),
        0x06 => Some(Instr { op: Op::Asl, mode: Mode::ZeroPage, cycles: 5, page_penalty: false }),
        0x07 => Some(Instr { op: Op::Slo, mode: Mode::ZeroPage, cycles: 5, page_penalty: false }),
        0x08 => Some(Instr { op: Op::Php, mode: Mode::Implicit, cycles: 3, page_penalty: false }),
        0x09 => Some(Instr { op: Op::Ora, mode: Mode::Immediate, cycles: 2, page_penalty: false }),
        0x0A => Some(Instr { op: Op::Asl, mode: Mode::Accumulator, cycles: 2, page_penalty: false }),
        0x0B => Some(Instr { op: Op::Anc, mode: Mode::Immediate, cycles: 2, page_penalty: false }),
        0x0C => Some(Instr { op: Op::Nop, mode: Mode::Absolute, cycles: 4, page_penalty: false }),
        0x0D => Some(Instr { op: Op::Ora, mode: Mode::Absolute, cycles: 4, page_penalty: false }),
        0x0E => Some(Instr { op: Op::Asl, mode: Mode::Absolute, cycles: 6, page_penalty: false }),
        0x0F => Some(Instr { op: Op::Slo, mode: Mode::Absolute, cycles: 6, page_penalty: false }),
        0x10 => Some(Instr { op: Op::Bpl, mode: Mode::Relative, cycles: 2, page_penalty: false }),
        0x11 => Some(Instr { op: Op::Ora, mode: Mode::IndirectOffsetY, cycles: 5, page_penalty: true }),
        0x13 => Some(Instr { op: Op::Slo, mode: Mode::IndirectOffsetY, cycles: 8, page_penalty: false }),
        0x14 => Some(Instr { op: Op::Nop, mode: Mode::ZeroPageOffsetX, cycles: 4, page_penalty: false }),
        0x15 => Some(Instr { op: Op::Ora, mode: Mode::ZeroPageOffsetX, cycles: 4, page_penalty: false }),
        0x16 => Some(Instr { op: Op::Asl, mode: Mode::ZeroPageOffsetX, cycles: 6, page_penalty: false }),
        0x17 => Some(Instr { op: Op::Slo, mode: Mode::ZeroPageOffsetX, cycles: 6, page_penalty: false }),
        0x18 => Some(Instr { op: Op::Clc, mode: Mode::Implicit, cycles: 2, page_penalty: false }),
        0x19 => Some(Instr { op: Op::Ora, mode: Mode::AbsoluteOffsetY, cycles: 4, page_penalty: true }),
        0x1A => Some(Instr { op: Op::Nop, mode: Mode::Implicit, cycles: 2, page_penalty: false }),
        0x1B => Some(Instr { op: Op::Slo, mode: Mode::AbsoluteOffsetY, cycles: 7, page_penalty: false }),
        0x1C => Some(Instr { op: Op::Nop, mode: Mode::AbsoluteOffsetX, cycles: 4, page_penalty: true }),
        0x1D => Some(Instr { op: Op::Ora, mode: Mode::AbsoluteOffsetX, cycles: 4, page_penalty: true }),
        0x1E => Some(Instr { op: Op::Asl, mode: Mode::AbsoluteOffsetX, cycles: 7, page_penalty: false }),
        0x1F => Some(Instr { op: Op::Slo, mode: Mode::AbsoluteOffsetX, cycles: 7, page_penalty: false }),
        0x20 => Some(Instr { op: Op::Jsr, mode: Mode::Absolute, cycles: 6, page_penalty: false }),
        0x21 => Some(Instr { op: Op::And, mode: Mode::OffsetXIndirect, cycles: 6, page_penalty: false }),
        0x23 => Some(Instr { op: Op::Rla, mode: Mode::OffsetXIndirect, cycles: 8, page_penalty: false }),
        0x24 => Some(Instr { op: Op::Bit, mode: Mode::ZeroPage, cycles: 3, page_penalty: false }),
        0x25 => Some(Instr { op: Op::And, mode: Mode::ZeroPage, cycles: 3, page_penalty: false }),
        0x26 => Some(Instr { op: Op::Rol, mode: Mode::ZeroPage, cycles: 5, page_penalty: false }),
        0x27 => Some(Instr { op: Op::Rla, mode: Mode::ZeroPage, cycles: 5, page_penalty: false }),
        0x28 => Some(Instr { op: Op::Plp, mode: Mode::Implicit, cycles: 4, page_penalty: false }),
        0x29 => Some(Instr { op: Op::And, mode: Mode::Immediate, cycles: 2, page_penalty: false }),
        0x2A => Some(Instr { op: Op::Rol, mode: Mode::Accumulator, cycles: 2, page_penalty: false }),
        0x2B => Some(Instr { op: Op::Anc, mode: Mode::Immediate, cycles: 2, page_penalty: false }),
        0x2C => Some(Instr { op: Op::Bit, mode: Mode::Absolute, cycles: 4, page_penalty: false }),
        0x2D => Some(Instr { op: Op::And, mode: Mode::Absolute, cycles: 4, page_penalty: false }),
        0x2E => Some(Instr { op: Op::Rol, mode: Mode::Absolute, cycles: 6, page_penalty: false }),
        0x2F => Some(Instr { op: Op::Rla, mode: Mode::Absolute, cycles: 6, page_penalty: false }),
        0x30 => Some(Instr { op: Op::Bmi, mode: Mode::Relative, cycles: 2, page_penalty: false }),
        0x31 => Some(Instr { op: Op::And, mode: Mode::IndirectOffsetY, cycles: 5, page_penalty: true }),
        0x33 => Some(Instr { op: Op::Rla, mode: Mode::IndirectOffsetY, cycles: 8, page_penalty: false }),
        0x34 => Some(Instr { op: Op::Nop, mode: Mode::ZeroPageOffsetX, cycles: 4, page_penalty: false }),
        0x35 => Some(Instr { op: Op::And, mode: Mode::ZeroPageOffsetX, cycles: 4, page_penalty: false }),
        0x36 => Some(Instr { op: Op::Rol, mode: Mode::ZeroPageOffsetX, cycles: 6, page_penalty: false }),
        0x37 => Some(Instr { op: Op::Rla, mode: Mode::ZeroPageOffsetX, cycles: 6, page_penalty: false }),
        0x38 => Some(Instr { op: Op::Sec, mode: Mode::Implicit, cycles: 2, page_penalty: false }),
        0x39 => Some(Instr { op: Op::And, mode: Mode::AbsoluteOffsetY, cycles: 4, page_penalty: true }),
        0x3A => Some(Instr { op: Op::Nop, mode: Mode::Implicit, cycles: 2, page_penalty: false }),
        0x3B => Some(Instr { op: Op::Rla, mode: Mode::AbsoluteOffsetY, cycles: 7, page_penalty: false }),
        0x3C => Some(Instr { op: Op::Nop, mode: Mode::AbsoluteOffsetX, cycles: 4, page_penalty: true }),
        0x3D => Some(Instr { op: Op::And, mode: Mode::AbsoluteOffsetX, cycles: 4, page_penalty: true }),
        0x3E => Some(Instr { op: Op::Rol, mode: Mode::AbsoluteOffsetX, cycles: 7, page_penalty: false }),
        0x3F => Some(Instr { op: Op::Rla, mode: Mode::AbsoluteOffsetX, cycles: 7, page_penalty: false }),
        0x40 => Some(Instr { op: Op::Rti, mode: Mode::Implicit, cycles: 6, page_penalty: false }),
        0x41 => Some(Instr { op: Op::Eor, mode: Mode::OffsetXIndirect, cycles: 6, page_penalty: false }),
        0x43 => Some(Instr { op: Op::Sre, mode: Mode::OffsetXIndirect, cycles: 8, page_penalty: false }),
        0x44 => Some(Instr { op: Op::Nop, mode: Mode::ZeroPage, cycles: 3, page_penalty: false }),
        0x45 => Some(Instr { op: Op::Eor, mode: Mode::ZeroPage, cycles: 3, page_penalty: false }),
        0x46 => Some(Instr { op: Op::Lsr, mode: Mode::ZeroPage, cycles: 5, page_penalty: false }),
        0x47 => Some(Instr { op: Op::Sre, mode: Mode::ZeroPage, cycles: 5, page_penalty: false }),
        0x48 => Some(Instr { op: Op::Pha, mode: Mode::Implicit, cycles: 3, page_penalty: false }),
        0x49 => Some(Instr { op: Op::Eor, mode: Mode::Immediate, cycles: 2, page_penalty: false }),
        0x4A => Some(Instr { op: Op::Lsr, mode: Mode::Accumulator, cycles: 2, page_penalty: false }),
        0x4B => Some(Instr { op: Op::Alr, mode: Mode::Immediate, cycles: 2, page_penalty: false }),
        0x4C => Some(Instr { op: Op::Jmp, mode: Mode::Absolute, cycles: 3, page_penalty: false }),
        0x4D => Some(Instr { op: Op::Eor, mode: Mode::Absolute, cycles: 4, page_penalty: false }),
        0x4E => Some(Instr { op: Op::Lsr, mode: Mode::Absolute, cycles: 6, page_penalty: false }),
        0x4F => Some(Instr { op: Op::Sre, mode: Mode::Absolute, cycles: 6, page_penalty: false }),
        0x50 => Some(Instr { op: Op::Bvc, mode: Mode::Relative, cycles: 2, page_penalty: false }),
        0x51 => Some(Instr { op: Op::Eor, mode: Mode::IndirectOffsetY, cycles: 5, page_penalty: true }),
        0x53 => Some(Instr { op: Op::Sre, mode: Mode::IndirectOffsetY, cycles: 8, page_penalty: false }),
        0x54 => Some(Instr { op: Op::Nop, mode: Mode::ZeroPageOffsetX, cycles: 4, page_penalty: false }),
        0x55 => Some(Instr { op: Op::Eor, mode: Mode::ZeroPageOffsetX, cycles: 4, page_penalty: false }),
        0x56 => Some(Instr { op: Op::Lsr, mode: Mode::ZeroPageOffsetX, cycles: 6, page_penalty: false }),
        0x57 => Some(Instr { op: Op::Sre, mode: Mode::ZeroPageOffsetX, cycles: 6, page_penalty: false }),
        0x58 => Some(Instr { op: Op::Cli, mode: Mode::Implicit, cycles: 2, page_penalty: false }),
        0x59 => Some(Instr { op: Op::Eor, mode: Mode::AbsoluteOffsetY, cycles: 4, page_penalty: true }),
        0x5A => Some(Instr { op: Op::Nop, mode: Mode::Implicit, cycles: 2, page_penalty: false }),
        0x5B => Some(Instr { op: Op::Sre, mode: Mode::AbsoluteOffsetY, cycles: 7, page_penalty: false }),
        0x5C => Some(Instr { op: Op::Nop, mode: Mode::AbsoluteOffsetX, cycles: 4, page_penalty: true }),
        0x5D => Some(Instr { op: Op::Eor, mode: Mode::AbsoluteOffsetX, cycles: 4, page_penalty: true }),
        0x5E => Some(Instr { op: Op::Lsr, mode: Mode::AbsoluteOffsetX, cycles: 7, page_penalty: false }),
        0x5F => Some(Instr { op: Op::Sre, mode: Mode::AbsoluteOffsetX, cycles: 7, page_penalty: false }),
        0x60 => Some(Instr { op: Op::Rts, mode: Mode::Implicit, cycles: 6, page_penalty: false }),
        0x61 => Some(Instr { op: Op::Adc, mode: Mode::OffsetXIndirect, cycles: 6, page_penalty: false }),
        0x63 => Some(Instr { op: Op::Rra, mode: Mode::OffsetXIndirect, cycles: 8, page_penalty: false }),
        0x64 => Some(Instr { op: Op::Nop, mode: Mode::ZeroPage, cycles: 3, page_penalty: false }),
        0x65 => Some(Instr { op: Op::Adc, mode: Mode::ZeroPage, cycles: 3, page_penalty: false }),
        0x66 => Some(Instr { op: Op::Ror, mode: Mode::ZeroPage, cycles: 5, page_penalty: false }),
        0x67 => Some(Instr { op: Op::Rra, mode: Mode::ZeroPage, cycles: 5, page_penalty: false }),
        0x68 => Some(Instr { op: Op::Pla, mode: Mode::Implicit, cycles: 4, page_penalty: false }),
        0x69 => Some(Instr { op: Op::Adc, mode: Mode::Immediate, cycles: 2, page_penalty: false }),
        0x6A => Some(Instr { op: Op::Ror, mode: Mode::Accumulator, cycles: 2, page_penalty: false }),
        0x6B => Some(Instr { op: Op::Arr, mode: Mode::Immediate, cycles: 2, page_penalty: false }),
        0x6C => Some(Instr { op: Op::Jmp, mode: Mode::Indirect, cycles: 5, page_penalty: false }),
        0x6D => Some(Instr { op: Op::Adc, mode: Mode::Absolute, cycles: 4, page_penalty: false }),
        0x6E => Some(Instr { op: Op::Ror, mode: Mode::Absolute, cycles: 6, page_penalty: false }),
        0x6F => Some(Instr { op: Op::Rra, mode: Mode::Absolute, cycles: 6, page_penalty: false }),
        0x70 => Some(Instr { op: Op::Bvs, mode: Mode::Relative, cycles: 2, page_penalty: false }),
        0x71 => Some(Instr { op: Op::Adc, mode: Mode::IndirectOffsetY, cycles: 5, page_penalty: true }),
        0x73 => Some(Instr { op: Op::Rra, mode: Mode::IndirectOffsetY, cycles: 8, page_penalty: false }),
        0x74 => Some(Instr { op: Op::Nop, mode: Mode::ZeroPageOffsetX, cycles: 4, page_penalty: false }),
        0x75 => Some(Instr { op: Op::Adc, mode: Mode::ZeroPageOffsetX, cycles: 4, page_penalty: false }),
        0x76 => Some(Instr { op: Op::Ror, mode: Mode::ZeroPageOffsetX, cycles: 6, page_penalty: false }),
        0x77 => Some(Instr { op: Op::Rra, mode: Mode::ZeroPageOffsetX, cycles: 6, page_penalty: false }),
        0x78 => Some(Instr { op: Op::Sei, mode: Mode::Implicit, cycles: 2, page_penalty: false }),
        0x79 => Some(Instr { op: Op::Adc, mode: Mode::AbsoluteOffsetY, cycles: 4, page_penalty: true }),
        0x7A => Some(Instr { op: Op::Nop, mode: Mode::Implicit, cycles: 2, page_penalty: false }),
        0x7B => Some(Instr { op: Op::Rra, mode: Mode::AbsoluteOffsetY, cycles: 7, page_penalty: false }),
        0x7C => Some(Instr { op: Op::Nop, mode: Mode::AbsoluteOffsetX, cycles: 4, page_penalty: true }),
        0x7D => Some(Instr { op: Op::Adc, mode: Mode::AbsoluteOffsetX, cycles: 4, page_penalty: true }),
        0x7E => Some(Instr { op: Op::Ror, mode: Mode::AbsoluteOffsetX, cycles: 7, page_penalty: false }),
        0x7F => Some(Instr { op: Op::Rra, mode: Mode::AbsoluteOffsetX, cycles: 7, page_penalty: false }),
        0x80 => Some(Instr { op: Op::Nop, mode: Mode::Immediate, cycles: 2, page_penalty: false }),
        0x81 => Some(Instr { op: Op::Sta, mode: Mode::OffsetXIndirect, cycles: 6, page_penalty: false }),
        0x82 => Some(Instr { op: Op::Nop, mode: Mode::Immediate, cycles: 2, page_penalty: false }),
        0x83 => Some(Instr { op: Op::Sax, mode: Mode::OffsetXIndirect, cycles: 6, page_penalty: false }),
        0x84 => Some(Instr { op: Op::Sty, mode: Mode::ZeroPage, cycles: 3, page_penalty: false }),
        0x85 => Some(Instr { op: Op::Sta, mode: Mode::ZeroPage, cycles: 3, page_penalty: false }),
        0x86 => Some(Instr { op: Op::Stx, mode: Mode::ZeroPage, cycles: 3, page_penalty: false }),
        0x87 => Some(Instr { op: Op::Sax, mode: Mode::ZeroPage, cycles: 3, page_penalty: false }),
        0x88 => Some(Instr { op: Op::Dey, mode: Mode::Implicit, cycles: 2, page_penalty: false }),
        0x89 => Some(Instr { op: Op::Nop, mode: Mode::Immediate, cycles: 2, page_penalty: false }),
        0x8A => Some(Instr { op: Op::Txa, mode: Mode::Implicit, cycles: 2, page_penalty: false }),
        0x8B => Some(Instr { op: Op::Ane, mode: Mode::Immediate, cycles: 2, page_penalty: false }),
        0x8C => Some(Instr { op: Op::Sty, mode: Mode::Absolute, cycles: 4, page_penalty: false }),
        0x8D => Some(Instr { op: Op::Sta, mode: Mode::Absolute, cycles: 4, page_penalty: false }),
        0x8E => Some(Instr { op: Op::Stx, mode: Mode::Absolute, cycles: 4, page_penalty: false }),
        0x8F => Some(Instr { op: Op::Sax, mode: Mode::Absolute, cycles: 4, page_penalty: false }),
        0x90 => Some(Instr { op: Op::Bcc, mode: Mode::Relative, cycles: 2, page_penalty: false }),
        0x91 => Some(Instr { op: Op::Sta, mode: Mode::IndirectOffsetY, cycles: 6, page_penalty: false }),
        0x93 => Some(Instr { op: Op::Sha, mode: Mode::IndirectOffsetYUnstable, cycles: 6, page_penalty: false }),
        0x94 => Some(Instr { op: Op::Sty, mode: Mode::ZeroPageOffsetX, cycles: 4, page_penalty: false }),
        0x95 => Some(Instr { op: Op::Sta, mode: Mode::ZeroPageOffsetX, cycles: 4, page_penalty: false }),
        0x96 => Some(Instr { op: Op::Stx, mode: Mode::ZeroPageOffsetY, cycles: 4, page_penalty: false }),
        0x97 => Some(Instr { op: Op::Sax, mode: Mode::ZeroPageOffsetY, cycles: 4, page_penalty: false }),
        0x98 => Some(Instr { op: Op::Tya, mode: Mode::Implicit, cycles: 2, page_penalty: false }),
        0x99 => Some(Instr { op: Op::Sta, mode: Mode::AbsoluteOffsetY, cycles: 5, page_penalty: false }),
        0x9A => Some(Instr { op: Op::Txs, mode: Mode::Implicit, cycles: 2, page_penalty: false }),
        0x9B => Some(Instr { op: Op::Tas, mode: Mode::AbsoluteOffsetYUnstable, cycles: 5, page_penalty: false }),
        0x9C => Some(Instr { op: Op::Shy, mode: Mode::AbsoluteOffsetXUnstable, cycles: 5, page_penalty: false }),
        0x9D => Some(Instr { op: Op::Sta, mode: Mode::AbsoluteOffsetX, cycles: 5, page_penalty: false }),
        0x9E => Some(Instr { op: Op::Shx, mode: Mode::AbsoluteOffsetYUnstable, cycles: 5, page_penalty: false }),
        0x9F => Some(Instr { op: Op::Sha, mode: Mode::AbsoluteOffsetYUnstable, cycles: 5, page_penalty: false }),
        0xA0 => Some(Instr { op: Op::Ldy, mode: Mode::Immediate, cycles: 2, page_penalty: false }),
        0xA1 => Some(Instr { op: Op::Lda, mode: Mode::OffsetXIndirect, cycles: 6, page_penalty: false }),
        0xA2 => Some(Instr { op: Op::Ldx, mode: Mode::Immediate, cycles: 2, page_penalty: false }),
        0xA3 => Some(Instr { op: Op::Lax, mode: Mode::OffsetXIndirect, cycles: 6, page_penalty: false }),
        0xA4 => Some(Instr { op: Op::Ldy, mode: Mode::ZeroPage, cycles: 3, page_penalty: false }),
        0xA5 => Some(Instr { op: Op::Lda, mode: Mode::ZeroPage, cycles: 3, page_penalty: false }),
        0xA6 => Some(Instr { op: Op::Ldx, mode: Mode::ZeroPage, cycles: 3, page_penalty: false }),
        0xA7 => Some(Instr { op: Op::Lax, mode: Mode::ZeroPage, cycles: 3, page_penalty: false }),
        0xA8 => Some(Instr { op: Op::Tay, mode: Mode::Implicit, cycles: 2, page_penalty: false }),
        0xA9 => Some(Instr { op: Op::Lda, mode: Mode::Immediate, cycles: 2, page_penalty: false }),
        0xAA => Some(Instr { op: Op::Tax, mode: Mode::Implicit, cycles: 2, page_penalty: false }),
        0xAB => Some(Instr { op: Op::Lxa, mode: Mode::Immediate, cycles: 2, page_penalty: false }),
        0xAC => Some(Instr { op: Op::Ldy, mode: Mode::Absolute, cycles: 4, page_penalty: false }),
        0xAD => Some(Instr { op: Op::Lda, mode: Mode::Absolute, cycles: 4, page_penalty: false }),
        0xAE => Some(Instr { op: Op::Ldx, mode: Mode::Absolute, cycles: 4, page_penalty: false }),
        0xAF => Some(Instr { op: Op::Lax, mode: Mode::Absolute, cycles: 4, page_penalty: false }),
        0xB0 => Some(Instr { op: Op::Bcs, mode: Mode::Relative, cycles: 2, page_penalty: false }),
        0xB1 => Some(Instr { op: Op::Lda, mode: Mode::IndirectOffsetY, cycles: 5, page_penalty: true }),
        0xB3 => Some(Instr { op: Op::Lax, mode: Mode::IndirectOffsetY, cycles: 5, page_penalty: true }),
        0xB4 => Some(Instr { op: Op::Ldy, mode: Mode::ZeroPageOffsetX, cycles: 4, page_penalty: false }),
        0xB5 => Some(Instr { op: Op::Lda, mode: Mode::ZeroPageOffsetX, cycles: 4, page_penalty: false }),
        0xB6 => Some(Instr { op: Op::Ldx, mode: Mode::ZeroPageOffsetY, cycles: 4, page_penalty: false }),
        0xB7 => Some(Instr { op: Op::Lax, mode: Mode::ZeroPageOffsetY, cycles: 4, page_penalty: false }),
        0xB8 => Some(Instr { op: Op::Clv, mode: Mode::Implicit, cycles: 2, page_penalty: false }),
        0xB9 => Some(Instr { op: Op::Lda, mode: Mode::AbsoluteOffsetY, cycles: 4, page_penalty: true }),
        0xBA => Some(Instr { op: Op::Tsx, mode: Mode::Implicit, cycles: 2, page_penalty: false }),
        0xBB => Some(Instr { op: Op::Las, mode: Mode::AbsoluteOffsetY, cycles: 4, page_penalty: true }),
        0xBC => Some(Instr { op: Op::Ldy, mode: Mode::AbsoluteOffsetX, cycles: 4, page_penalty: true }),
        0xBD => Some(Instr { op: Op::Lda, mode: Mode::AbsoluteOffsetX, cycles: 4, page_penalty: true }),
        0xBE => Some(Instr { op: Op::Ldx, mode: Mode::AbsoluteOffsetY, cycles: 4, page_penalty: true }),
        0xBF => Some(Instr { op: Op::Lax, mode: Mode::AbsoluteOffsetY, cycles: 4, page_penalty: true }),
        0xC0 => Some(Instr { op: Op::Cpy, mode: Mode::Immediate, cycles: 2, page_penalty: false }),
        0xC1 => Some(Instr { op: Op::Cmp, mode: Mode::OffsetXIndirect, cycles: 6, page_penalty: false }),
        0xC2 => Some(Instr { op: Op::Nop, mode: Mode::Immediate, cycles: 2, page_penalty: false }),
        0xC3 => Some(Instr { op: Op::Dcp, mode: Mode::OffsetXIndirect, cycles: 8, page_penalty: false }),
        0xC4 => Some(Instr { op: Op::Cpy, mode: Mode::ZeroPage, cycles: 3, page_penalty: false }),
        0xC5 => Some(Instr { op: Op::Cmp, mode: Mode::ZeroPage, cycles: 3, page_penalty: false }),
        0xC6 => Some(Instr { op: Op::Dec, mode: Mode::ZeroPage, cycles: 5, page_penalty: false }),
        0xC7 => Some(Instr { op: Op::Dcp, mode: Mode::ZeroPage, cycles: 5, page_penalty: false }),
        0xC8 => Some(Instr { op: Op::Iny, mode: Mode::Implicit, cycles: 2, page_penalty: false }),
        0xC9 => Some(Instr { op: Op::Cmp, mode: Mode::Immediate, cycles: 2, page_penalty: false }),
        0xCA => Some(Instr { op: Op::Dex, mode: Mode::Implicit, cycles: 2, page_penalty: false }),
        0xCB => Some(Instr { op: Op::Sbx, mode: Mode::Immediate, cycles: 2, page_penalty: false }),
        0xCC => Some(Instr { op: Op::Cpy, mode: Mode::Absolute, cycles: 4, page_penalty: false }),
        0xCD => Some(Instr { op: Op::Cmp, mode: Mode::Absolute, cycles: 4, page_penalty: false }),
        0xCE => Some(Instr { op: Op::Dec, mode: Mode::Absolute, cycles: 6, page_penalty: false }),
        0xCF => Some(Instr { op: Op::Dcp, mode: Mode::Absolute, cycles: 6, page_penalty: false }),
        0xD0 => Some(Instr { op: Op::Bne, mode: Mode::Relative, cycles: 2, page_penalty: false }),
        0xD1 => Some(Instr { op: Op::Cmp, mode: Mode::IndirectOffsetY, cycles: 5, page_penalty: true }),
        0xD3 => Some(Instr { op: Op::Dcp, mode: Mode::IndirectOffsetY, cycles: 8, page_penalty: false }),
        0xD4 => Some(Instr { op: Op::Nop, mode: Mode::ZeroPageOffsetX, cycles: 4, page_penalty: false }),
        0xD5 => Some(Instr { op: Op::Cmp, mode: Mode::ZeroPageOffsetX, cycles: 4, page_penalty: false }),
        0xD6 => Some(Instr { op: Op::Dec, mode: Mode::ZeroPageOffsetX, cycles: 6, page_penalty: false }),
        0xD7 => Some(Instr { op: Op::Dcp, mode: Mode::ZeroPageOffsetX, cycles: 6, page_penalty: false }),
        0xD8 => Some(Instr { op: Op::Cld, mode: Mode::Implicit, cycles: 2, page_penalty: false }),
        0xD9 => Some(Instr { op: Op::Cmp, mode: Mode::AbsoluteOffsetY, cycles: 4, page_penalty: true }),
        0xDA => Some(Instr { op: Op::Nop, mode: Mode::Implicit, cycles: 2, page_penalty: false }),
        0xDB => Some(Instr { op: Op::Dcp, mode: Mode::AbsoluteOffsetY, cycles: 7, page_penalty: false }),
        0xDC => Some(Instr { op: Op::Nop, mode: Mode::AbsoluteOffsetX, cycles: 4, page_penalty: true }),
        0xDD => Some(Instr { op: Op::Cmp, mode: Mode::AbsoluteOffsetX, cycles: 4, page_penalty: true }),
        0xDE => Some(Instr { op: Op::Dec, mode: Mode::AbsoluteOffsetX, cycles: 7, page_penalty: false }),
        0xDF => Some(Instr { op: Op::Dcp, mode: Mode::AbsoluteOffsetX, cycles: 7, page_penalty: false }),
        0xE0 => Some(Instr { op: Op::Cpx, mode: Mode::Immediate, cycles: 2, page_penalty: false }),
        0xE1 => Some(Instr { op: Op::Sbc, mode: Mode::OffsetXIndirect, cycles: 6, page_penalty: false }),
        0xE2 => Some(Instr { op: Op::Nop, mode: Mode::Immediate, cycles: 2, page_penalty: false }),
        0xE3 => Some(Instr { op: Op::Isb, mode: Mode::OffsetXIndirect, cycles: 8, page_penalty: false }),
        0xE4 => Some(Instr { op: Op::Cpx, mode: Mode::ZeroPage, cycles: 3, page_penalty: false }),
        0xE5 => Some(Instr { op: Op::Sbc, mode: Mode::ZeroPage, cycles: 3, page_penalty: false }),
        0xE6 => Some(Instr { op: Op::Inc, mode: Mode::ZeroPage, cycles: 5, page_penalty: false }),
        0xE7 => Some(Instr { op: Op::Isb, mode: Mode::ZeroPage, cycles: 5, page_penalty: false }),
        0xE8 => Some(Instr { op: Op::Inx, mode: Mode::Implicit, cycles: 2, page_penalty: false }),
        0xE9 => Some(Instr { op: Op::Sbc, mode: Mode::Immediate, cycles: 2, page_penalty: false }),
        0xEA => Some(Instr { op: Op::Nop, mode: Mode::Implicit, cycles: 2, page_penalty: false }),
        0xEB => Some(Instr { op: Op::Sbc, mode: Mode::Immediate, cycles: 2, page_penalty: false }),
        0xEC => Some(Instr { op: Op::Cpx, mode: Mode::Absolute, cycles: 4, page_penalty: false }),
        0xED => Some(Instr { op: Op::Sbc, mode: Mode::Absolute, cycles: 4, page_penalty: false }),
        0xEE => Some(Instr { op: Op::Inc, mode: Mode::Absolute, cycles: 6, page_penalty: false }),
        0xEF => Some(Instr { op: Op::Isb, mode: Mode::Absolute, cycles: 6, page_penalty: false }),
        0xF0 => Some(Instr { op: Op::Beq, mode: Mode::Relative, cycles: 2, page_penalty: false }),
        0xF1 => Some(Instr { op: Op::Sbc, mode: Mode::IndirectOffsetY, cycles: 5, page_penalty: true }),
        0xF3 => Some(Instr { op: Op::Isb, mode: Mode::IndirectOffsetY, cycles: 8, page_penalty: false }),
        0xF4 => Some(Instr { op: Op::Nop, mode: Mode::ZeroPageOffsetX, cycles: 4, page_penalty: false }),
        0xF5 => Some(Instr { op: Op::Sbc, mode: Mode::ZeroPageOffsetX, cycles: 4, page_penalty: false }),
        0xF6 => Some(Instr { op: Op::Inc, mode: Mode::ZeroPageOffsetX, cycles: 6, page_penalty: false }),
        0xF7 => Some(Instr { op: Op::Isb, mode: Mode::ZeroPageOffsetX, cycles: 6, page_penalty: false }),
        0xF8 => Some(Instr { op: Op::Sed, mode: Mode::Implicit, cycles: 2, page_penalty: false }),
        0xF9 => Some(Instr { op: Op::Sbc, mode: Mode::AbsoluteOffsetY, cycles: 4, page_penalty: true }),
        0xFA => Some(Instr { op: Op::Nop, mode: Mode::Implicit, cycles: 2, page_penalty: false }),
        0xFB => Some(Instr { op: Op::Isb, mode: Mode::AbsoluteOffsetY, cycles: 7, page_penalty: false }),
        0xFC => Some(Instr { op: Op::Nop, mode: Mode::AbsoluteOffsetX, cycles: 4, page_penalty: true }),
        0xFD => Some(Instr { op: Op::Sbc, mode: Mode::AbsoluteOffsetX, cycles: 4, page_penalty: true }),
        0xFE => Some(Instr { op: Op::Inc, mode: Mode::AbsoluteOffsetX, cycles: 7, page_penalty: false }),
        0xFF => Some(Instr { op: Op::Isb, mode: Mode::AbsoluteOffsetX, cycles: 7, page_penalty: false }),
        _ => None,
    }
}

/// A page crossing costs a cycle only to instructions that read their
/// operand: never to a store or a read-modify-write.
pub proof fn lemma_page_penalty_only_on_reads(opcode: u8)
    ensures
        opcode_table(opcode) matches Some(i) ==> (i.page_penalty ==> !is_store(i.op)
            && !is_unstable_store(i.op) && !is_rmw(i.op) && !is_branch(i.op)),
{
}

/// Every table entry costs between two and eight cycles.
pub proof fn lemma_table_cycles_bounded(opcode: u8)
    ensures
        opcode_table(opcode) matches Some(i) ==> 2 <= i.cycles <= 8,
{
}

} // verus!
