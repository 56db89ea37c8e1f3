use vstd::prelude::*;

pub mod opcodes;

use crate::cpu::opcodes::{
    decode, lemma_table_cycles_bounded, is_branch, is_rmw, is_store, is_unstable_store, opcode_table, Instr, Mode, Op,
};
use crate::system::{quiet_addr, vector_word, CpuBus};

verus! {

pub const FLAG_C: u8 = 0x01;
pub const FLAG_Z: u8 = 0x02;
pub const FLAG_I: u8 = 0x04;
pub const FLAG_D: u8 = 0x08;
pub const FLAG_V: u8 = 0x40;
pub const FLAG_N: u8 = 0x80;
/// Bits that exist only on pushed copies of the status register.
pub const B_FLAG: u8 = 0x10;
pub const U_FLAG: u8 = 0x20;
/// The six flags the status register holds.
pub const LIVE_FLAGS: u8 = 0xCF;

pub const STACK_PAGE: u16 = 0x0100;
pub const NMI_VECTOR: u16 = 0xFFFA;
pub const RESET_VECTOR: u16 = 0xFFFC;
pub const IRQ_VECTOR: u16 = 0xFFFE;

/// `p` with `mask` set when `cond` holds and cleared otherwise.
pub open spec fn flag(p: u8, mask: u8, cond: bool) -> u8 {
    if cond {
        p | mask
    } else {
        p & !mask
    }
}

/// `p` with Z and N set from `v`.
pub open spec fn with_zn(p: u8, v: u8) -> u8 {
    flag(flag(p, FLAG_Z, v == 0), FLAG_N, v & 0x80 != 0)
}

/// Whether the condition of branch `op` holds under status `p`.
pub open spec fn branch_condition(op: Op, p: u8) -> bool {
    match op {
        Op::Bcs => p & FLAG_C != 0,
        Op::Bcc => p & FLAG_C == 0,
        Op::Beq => p & FLAG_Z != 0,
        Op::Bne => p & FLAG_Z == 0,
        Op::Bmi => p & FLAG_N != 0,
        Op::Bpl => p & FLAG_N == 0,
        Op::Bvs => p & FLAG_V != 0,
        _ => p & FLAG_V == 0,
    }
}

/// The value a read-modify-write operation stores, from the value read and
/// the carry flag.
pub open spec fn rmw_value(op: Op, v: u8, carry: bool) -> u8 {
    let c: u8 = if carry {
        1
    } else {
        0
    };
    match op {
        Op::Asl | Op::Slo => v << 1u8,
        Op::Lsr | Op::Sre => v >> 1u8,
        Op::Rol | Op::Rla => (v << 1u8) | c,
        Op::Ror | Op::Rra => (v >> 1u8) | (c << 7u8),
        Op::Inc | Op::Isb => v.wrapping_add(1),
        Op::Dec | Op::Dcp => v.wrapping_sub(1),
        _ => v,
    }
}

/// The value read-modify-write `op` stores after reading `v` in state `c`.
pub open spec fn rmw_stored(op: Op, c: Cpu, v: u8) -> u8 {
    rmw_value(op, v, c.p & FLAG_C != 0)
}

/// Where a branch with offset byte `offset` lands from `next`, the address
/// after the branch instruction.
pub open spec fn branch_target(next: u16, offset: u8) -> u16 {
    if offset < 0x80 {
        next.wrapping_add(offset as u16)
    } else {
        next.wrapping_sub((256 - offset) as u16)
    }
}

/// The address the indirect-jump bug reads the high byte from.
pub open spec fn increment_no_carry_spec(addr: u16) -> u16 {
    (addr & 0xFF00) | (((addr & 0xFF) + 1) % 256) as u16
}

/// The value an unstable store starts from, before the high-byte AND.
pub open spec fn unstable_value(op: Op, c: Cpu) -> u8 {
    match op {
        Op::Shx => c.x,
        Op::Shy => c.y,
        _ => c.a & c.x,
    }
}

/// Where an unstable store of `value` through `operand` writes, and what.
pub open spec fn unstable_write(operand: Operand, value: u8) -> (u16, u8) {
    let stored = value & ((operand.base >> 8u16) as u8).wrapping_add(1);
    let addr = if operand.page_crossed {
        operand.addr & (((stored as u16) << 8u16) | 0xFF)
    } else {
        operand.addr
    };
    (addr, stored)
}

/// A read-modify-write through `operand` that read `v`: on memory it wrote
/// `v` back and then the new value, and `v` is the byte held at the address
/// where that does not depend on the bus latch; on the accumulator `v` is A.
pub open spec fn rmw_done(
    instr: Instr,
    operand: Operand,
    o: Cpu,
    f: Cpu,
    ob: CpuBus,
    fb: CpuBus,
    v: u8,
) -> bool {
    let n = rmw_stored(instr.op, o, v);
    &&& instr.mode != Mode::Accumulator ==> {
        &&& fb.write_log@ == ob.write_log@.push((operand.addr, v)).push((operand.addr, n))
        &&& f == rmw_result(instr.op, o, v, n)
        &&& ob.fixed_byte(operand.addr) is Some ==> v == ob.fixed_byte(operand.addr).unwrap()
    }
    &&& instr.mode == Mode::Accumulator ==> v == o.a && f == rmw_result(
        instr.op,
        Cpu { a: n, ..o },
        v,
        n,
    )
}

/// The little-endian word of two bytes.
pub open spec fn le_word(lo: u8, hi: u8) -> u16 {
    ((hi as u16) << 8u16) | (lo as u16)
}

/// The operand decoded from the bytes at `pc` (the address after the
/// opcode), wherever those bytes do not depend on the bus latch: the
/// immediate value or branch offset, the zero-page address, or the 16-bit
/// base address or indirect pointer.
pub open spec fn operand_matches(mode: Mode, op: Operand, b: CpuBus, pc: u16) -> bool {
    let b0 = b.fixed_byte(pc);
    let b1 = b.fixed_byte(pc.wrapping_add(1));
    match mode {
        Mode::Immediate | Mode::Relative => b0 is Some ==> op.value == b0.unwrap(),
        Mode::ZeroPage => b0 is Some ==> op.addr == b0.unwrap() as u16,
        Mode::ZeroPageOffsetX | Mode::ZeroPageOffsetY => b0 is Some ==> op.base == b0.unwrap() as u16,
        Mode::Absolute | Mode::AbsoluteOffsetX | Mode::AbsoluteOffsetY | Mode::AbsoluteOffsetXUnstable
        | Mode::AbsoluteOffsetYUnstable | Mode::Indirect => b0 is Some && b1 is Some ==> op.base
            == le_word(b0.unwrap(), b1.unwrap()),
        _ => true,
    }
}

/// For an indirect jump, the target is the word at the pointer, its high
/// byte read without carry into the pointer's high byte.
pub open spec fn indirect_matches(mode: Mode, op: Operand, b: CpuBus) -> bool {
    let lo = b.fixed_byte(op.base);
    let hi = b.fixed_byte(increment_no_carry_spec(op.base));
    mode == Mode::Indirect && lo is Some && hi is Some ==> op.addr == le_word(lo.unwrap(), hi.unwrap())
}

/// Whether a mode reads its data from memory at the operand's address.
pub open spec fn reads_memory(mode: Mode) -> bool {
    mode != Mode::Immediate && mode != Mode::Accumulator && mode != Mode::Implicit
}

/// A byte that does not depend on the latch is what any read of it returns.
pub proof fn lemma_fixed_peek(b: CpuBus, a: u16, last: u8)
    requires
        b.fixed_byte(a) is Some,
    ensures
        quiet_addr(a),
        b.peek(a, last) == b.fixed_byte(a).unwrap(),
{
}

/// The stack and jump operations.
pub open spec fn is_control_op(op: Op) -> bool {
    op == Op::Brk || op == Op::Jmp || op == Op::Jsr || op == Op::Rts || op == Op::Rti || op == Op::Pha
        || op == Op::Php || op == Op::Pla || op == Op::Plp
}

/// Whether `base` and `addr` lie on different 256-byte pages.
pub open spec fn crosses(base: u16, addr: u16) -> bool {
    (base >> 8u16) != (addr >> 8u16)
}

/// The cost in cycles of an instruction: its base count, one more for a
/// page crossing where the table says so, and for a taken branch one more,
/// or two when it lands on another page.
pub open spec fn cycle_cost(i: Instr, page_crossed: bool, branch_taken: bool) -> int {
    i.cycles + if is_branch(i.op) {
        if branch_taken {
            if page_crossed {
                2int
            } else {
                1int
            }
        } else {
            0int
        }
    } else if i.page_penalty && page_crossed {
        1int
    } else {
        0int
    }
}

/// An addressing mode indexed by X or Y, whose effective address may land
/// on another page than its base.
pub open spec fn is_indexed(mode: Mode) -> bool {
    mode == Mode::AbsoluteOffsetX || mode == Mode::AbsoluteOffsetY || mode == Mode::IndirectOffsetY
        || mode == Mode::AbsoluteOffsetXUnstable || mode == Mode::AbsoluteOffsetYUnstable || mode
        == Mode::IndirectOffsetYUnstable
}

/// What decoding an addressing mode produced: an immediate value, the base
/// address before indexing, the effective address, and whether indexing
/// (or a branch offset) crossed a page.
#[derive(PartialEq, Eq, Structural, Clone, Copy, Debug)]
pub struct Operand {
    pub value: u8,
    pub base: u16,
    pub addr: u16,
    pub page_crossed: bool,
}

/// The record of one executed instruction.
#[derive(PartialEq, Eq, Structural, Clone, Copy, Debug)]
pub struct Executed {
    pub opcode: u8,
    pub instr: Instr,
    pub operand: Operand,
    pub cycles: u8,
    pub branch_taken: bool,
}

/// Adds with carry in: the 8-bit sum and the carry out.
pub fn carry_add(lhs: u8, rhs: u8, c_in: bool) -> (r: (u8, bool))
    ensures
        r.0 == (lhs + rhs + if c_in {
            1int
        } else {
            0int
        }) % 256,
        r.1 == (lhs + rhs + if c_in {
            1int
        } else {
            0int
        } > 255),
{
    let sum: u16 = lhs as u16 + rhs as u16 + if c_in {
        1u16
    } else {
        0u16
    };
    assert(sum & 0xFF == sum % 256) by (bit_vector);
    ((sum & 0xFF) as u8, sum > 0xFF)
}

/// Emulates the indirect-jump bug: the pointer's high byte is fetched from
/// the same page.
pub fn increment_no_carry(addr: u16) -> (r: u16)
    ensures
        r == (addr & 0xFF00) | (((addr & 0xFF) + 1) % 256) as u16,
{
    let low = (addr & 0xFF) as u8;
    let r = (addr & 0xFF00) | (low.wrapping_add(1) as u16);
    assert(addr & 0xFF < 256) by {
        crate::bits::lemma_u16_fields();
    }
    assert(low.wrapping_add(1) as u16 == (((addr & 0xFF) + 1) % 256) as u16);
    r
}

/// The 6502 processor state.
pub struct Cpu {
    pub a: u8,
    pub x: u8,
    pub y: u8,
    pub s: u8,
    pub p: u8,
    pub pc: u16,
    /// Cycles left of the instruction in progress.
    pub cycle_counter: u8,
    pub irq_pending: bool,
    pub nmi_pending: bool,
    /// Set when one of the twelve opcodes outside the table (0x02, 0x12, ...,
    /// 0xF2) was fetched. This is the library's form of the fatal stop for an
    /// illegal opcode: the processor executes nothing more, and the caller
    /// sees the flag and decides how to fail.
    pub jammed: bool,
}

impl Cpu {
    /// The word two pulls from stack pointer `s` assemble, low byte first.
    pub open spec fn stack_word(ram: crate::device::Ram, s: u8) -> u16 {
        le_word(
            ram.byte_at(Self::stack_addr(s.wrapping_add(1))),
            ram.byte_at(Self::stack_addr(s.wrapping_add(2))),
        )
    }

    /// The address of the stack slot `s` points at.
    pub open spec fn stack_addr(s: u8) -> u16 {
        STACK_PAGE | (s as u16)
    }

    /// Power-up: registers cleared, stack pointer 0xFD, interrupts masked,
    /// and the program counter loaded from the reset vector.
    pub fn new(bus: &mut CpuBus) -> (r: Cpu)
        requires
            old(bus).wf(),
        ensures
            *final(bus) == (CpuBus { last_bus_value: final(bus).last_bus_value, ..*old(bus) }),
            final(bus).wf(),
            r.pc == old(bus).peek_16(RESET_VECTOR),
            r.a == 0 && r.x == 0 && r.y == 0,
            r.s == 0xFD,
            r.p == FLAG_I,
            r.cycle_counter == 0,
            !r.irq_pending && !r.nmi_pending && !r.jammed,
            read_only(*old(bus), *final(bus)),
            final(bus).same_memory(old(bus)),
            final(bus).ppu.ticks == old(bus).ppu.ticks,
    {
        assert(RESET_VECTOR.wrapping_add(1) == 0xFFFD);
        let pc = bus.read_16(RESET_VECTOR);
        Cpu {
            a: 0,
            x: 0,
            y: 0,
            s: 0xFD,
            p: FLAG_I,
            pc,
            cycle_counter: 0,
            irq_pending: false,
            nmi_pending: false,
            jammed: false,
        }
    }

    /// Reset: the stack pointer moves down three without writing, interrupts
    /// are masked, and the program counter is loaded from the reset vector.
    pub fn reset(&mut self, bus: &mut CpuBus)
        requires
            old(bus).wf(),
        ensures
            *final(bus) == (CpuBus { last_bus_value: final(bus).last_bus_value, ..*old(bus) }),
            final(bus).wf(),
            final(self).pc == old(bus).peek_16(RESET_VECTOR),
            final(self).s == old(self).s.wrapping_sub(3),
            final(self).p == old(self).p | FLAG_I,
            final(self).a == old(self).a && final(self).x == old(self).x && final(self).y == old(self).y,
            final(self).cycle_counter == 0,
            !final(self).jammed,
            read_only(*old(bus), *final(bus)),
            final(bus).same_memory(old(bus)),
            final(bus).ppu.ticks == old(bus).ppu.ticks,
    {
        self.s = self.s.wrapping_sub(3);
        self.p = self.p | FLAG_I;
        self.cycle_counter = 0;
        self.jammed = false;
        assert(RESET_VECTOR.wrapping_add(1) == 0xFFFD);
        self.pc = bus.read_16(RESET_VECTOR);
    }

    /// Latches an IRQ, unless interrupts are masked.
    pub fn signal_irq(&mut self)
        ensures
            *final(self) == (Cpu {
                irq_pending: old(self).irq_pending || old(self).p & FLAG_I == 0,
                ..*old(self)
            }),
    {
        if self.p & FLAG_I == 0 {
            self.irq_pending = true;
        }
    }

    /// Latches an NMI.
    pub fn signal_nmi(&mut self)
        ensures
            *final(self) == (Cpu { nmi_pending: true, ..*old(self) }),
    {
        self.nmi_pending = true;
    }

    fn set_zn(&mut self, v: u8)
        ensures
            *final(self) == (Cpu { p: with_zn(old(self).p, v), ..*old(self) }),
    {
        let p1 = if v == 0 {
            self.p | FLAG_Z
        } else {
            self.p & !FLAG_Z
        };
        self.p = if v & 0x80 != 0 {
            p1 | FLAG_N
        } else {
            p1 & !FLAG_N
        };
    }

    fn set_flag(&mut self, mask: u8, cond: bool)
        ensures
            *final(self) == (Cpu { p: flag(old(self).p, mask, cond), ..*old(self) }),
    {
        self.p = if cond {
            self.p | mask
        } else {
            self.p & !mask
        };
    }

    /// Adds `rhs` and the carry into A, setting C, Z, V and N.
    pub fn execute_add(&mut self, rhs: u8)
        ensures
            ({
                let c: int = if old(self).p & FLAG_C != 0 {
                    1
                } else {
                    0
                };
                let sum = old(self).a + rhs + c;
                let result = (sum % 256) as u8;
                &&& final(self).a == result
                &&& final(self).p == with_zn(
                    flag(
                        flag(old(self).p, FLAG_C, sum > 255),
                        FLAG_V,
                        (old(self).a & 0x80) == (rhs & 0x80) && (old(self).a & 0x80) != (result
                            & 0x80),
                    ),
                    result,
                )
            }),
            final(self).x == old(self).x && final(self).y == old(self).y,
            final(self).s == old(self).s && final(self).pc == old(self).pc,
            final(self).cycle_counter == old(self).cycle_counter,
            final(self).jammed == old(self).jammed,
            final(self).irq_pending == old(self).irq_pending,
            final(self).nmi_pending == old(self).nmi_pending,
    {
        let lhs = self.a;
        let c_in = self.p & FLAG_C != 0;
        let (result, c_out) = carry_add(lhs, rhs, c_in);
        let lhs_sign = lhs & 0x80;
        let rhs_sign = rhs & 0x80;
        let result_sign = result & 0x80;
        self.a = result;
        self.set_flag(FLAG_C, c_out);
        self.set_flag(FLAG_V, lhs_sign == rhs_sign && lhs_sign != result_sign);
        self.set_zn(result);
    }

    fn push(&mut self, bus: &mut CpuBus, data: u8)
        requires
            old(bus).wf(),
        ensures
            final(bus).wf(),
            final(bus).write_log@ == old(bus).write_log@.push((Self::stack_addr(old(self).s), data)),
            written(*old(bus), *final(bus)),
            final(bus).ppu.ticks == old(bus).ppu.ticks,
            final(bus).dma == old(bus).dma,
            final(bus).ppu_bus == old(bus).ppu_bus,
            final(bus).last_bus_value == data,
            *final(bus) == (CpuBus {
                ram: final(bus).ram,
                last_bus_value: data,
                write_log: final(bus).write_log,
                ..*old(bus)
            }),
            final(bus).ram@ == old(bus).ram@.update(
                old(bus).ram.index_of(Self::stack_addr(old(self).s)),
                data,
            ),
            *final(self) == (Cpu { s: old(self).s.wrapping_sub(1), ..*old(self) }),
    {
        let s = self.s;
        assert(STACK_PAGE | (s as u16) <= 0x1FF) by (bit_vector);
        bus.write(STACK_PAGE | (s as u16), data);
        self.s = s.wrapping_sub(1);
    }

    fn push_16(&mut self, bus: &mut CpuBus, data: u16)
        requires
            old(bus).wf(),
        ensures
            final(bus).wf(),
            final(bus).write_log@ == old(bus).write_log@.push(
                (Self::stack_addr(old(self).s), (data >> 8u16) as u8),
            ).push((Self::stack_addr(old(self).s.wrapping_sub(1)), (data & 0xFF) as u8)),
            written(*old(bus), *final(bus)),
            final(bus).ppu.ticks == old(bus).ppu.ticks,
            final(bus).dma == old(bus).dma,
            final(bus).ppu_bus == old(bus).ppu_bus,
            *final(bus) == (CpuBus {
                ram: final(bus).ram,
                last_bus_value: final(bus).last_bus_value,
                write_log: final(bus).write_log,
                ..*old(bus)
            }),
            *final(self) == (Cpu { s: old(self).s.wrapping_sub(2), ..*old(self) }),
    {
        self.push(bus, (data >> 8u16) as u8);
        self.push(bus, (data & 0xFF) as u8);
        assert(old(self).s.wrapping_sub(1).wrapping_sub(1) == old(self).s.wrapping_sub(2));
    }

    fn pop(&mut self, bus: &mut CpuBus) -> (r: u8)
        requires
            old(bus).wf(),
        ensures
            final(bus).wf(),
            final(bus).same_memory(old(bus)),
            read_only(*old(bus), *final(bus)),
            final(bus).ppu.ticks == old(bus).ppu.ticks,
            *final(self) == (Cpu { s: old(self).s.wrapping_add(1), ..*old(self) }),
            r == old(bus).ram.byte_at(Self::stack_addr(old(self).s.wrapping_add(1))),
    {
        let s = self.s.wrapping_add(1);
        self.s = s;
        let addr = STACK_PAGE | (s as u16);
        assert(STACK_PAGE | (s as u16) <= 0x1FF) by (bit_vector);
        bus.read(addr)
    }

    fn pop_16(&mut self, bus: &mut CpuBus) -> (r: u16)
        requires
            old(bus).wf(),
        ensures
            final(bus).wf(),
            final(bus).same_memory(old(bus)),
            read_only(*old(bus), *final(bus)),
            final(bus).ppu.ticks == old(bus).ppu.ticks,
            *final(self) == (Cpu { s: old(self).s.wrapping_add(2), ..*old(self) }),
            r == Self::stack_word(old(bus).ram, old(self).s),
    {
        let low = self.pop(bus);
        let high = self.pop(bus);
        assert(old(self).s.wrapping_add(1).wrapping_add(1) == old(self).s.wrapping_add(2));
        ((high as u16) << 8u16) | (low as u16)
    }

    /// Entering an interrupt handler: PC and P pushed (U set, B as given), interrupts masked, PC loaded from `vector`.
    pub open spec fn interrupted(o: Cpu, f: Cpu, ob: CpuBus, fb: CpuBus, vector: u16, return_addr: u16, b_flag: bool) -> bool {
        &&& (f.pc == vector_word(
                ob.ppu_bus.cart,
                vector,
                o.p | U_FLAG | if b_flag {
                    B_FLAG
                } else {
                    0
                },
            ))
        &&& (fb.write_log@ == ob.write_log@.push(
                (Self::stack_addr(o.s), (return_addr >> 8u16) as u8),
            ).push((Self::stack_addr(o.s.wrapping_sub(1)), (return_addr & 0xFF) as u8)).push(
                (
                    Self::stack_addr(o.s.wrapping_sub(2)),
                    o.p | U_FLAG | if b_flag {
                        B_FLAG
                    } else {
                        0
                    },
                ),
            ))
        &&& (f.s == o.s.wrapping_sub(3))
        &&& (f.p == o.p | FLAG_I)
        &&& (f.a == o.a && f.x == o.x && f.y == o.y)
        &&& (f.jammed == o.jammed)
        &&& (f.cycle_counter == o.cycle_counter)
        &&& (f.irq_pending == o.irq_pending)
        &&& (f.nmi_pending == o.nmi_pending)
        &&& (written(ob, fb))
        &&& (fb.ppu.ticks == ob.ppu.ticks)
        &&& (fb.dma == ob.dma)
        &&& fb.ppu == ob.ppu && fb.apu == ob.apu && fb.dma == ob.dma && fb.ppu_bus == ob.ppu_bus
        &&& fb.controller == ob.controller
    }

    /// Enters an interrupt handler: pushes PC and P (U set, B as given),
    /// masks interrupts and loads PC from `vector`.
    fn interrupt(&mut self, bus: &mut CpuBus, vector: u16, return_addr: u16, b_flag: bool)
        requires
            old(bus).wf(),
            0xFFFA <= vector <= 0xFFFE,
        ensures
            final(bus).wf(),
            Self::interrupted(*old(self), *final(self), *old(bus), *final(bus), vector, return_addr, b_flag),
    {
        self.push_16(bus, return_addr);
        let pushed = self.p | U_FLAG | if b_flag {
            B_FLAG
        } else {
            0
        };
        self.push(bus, pushed);
        assert(old(self).s.wrapping_sub(2).wrapping_sub(1) == old(self).s.wrapping_sub(3));
        self.p = self.p | FLAG_I;
        assert(bus.last_bus_value == pushed && bus.ppu_bus == old(bus).ppu_bus);
        assert(vector.wrapping_add(1) == vector + 1);
        assert(quiet_addr(vector) && quiet_addr(vector.wrapping_add(1)));
        assert(bus.peek_16(vector) == vector_word(bus.ppu_bus.cart, vector, bus.last_bus_value));
        self.pc = bus.read_16(vector);
    }
}

/// The CPU after adding `rhs` and the carry into A.
pub open spec fn add_result(c: Cpu, rhs: u8) -> Cpu {
    let carry: int = if c.p & FLAG_C != 0 {
        1
    } else {
        0
    };
    let sum = c.a + rhs + carry;
    let result = (sum % 256) as u8;
    Cpu {
        a: result,
        p: with_zn(
            flag(
                flag(c.p, FLAG_C, sum > 255),
                FLAG_V,
                (c.a & 0x80) == (rhs & 0x80) && (c.a & 0x80) != (result & 0x80),
            ),
            result,
        ),
        ..c
    }
}

/// The flags after comparing `lhs` with `rhs`.
pub open spec fn compare_flags(p: u8, lhs: u8, rhs: u8) -> u8 {
    with_zn(flag(p, FLAG_C, lhs >= rhs), lhs.wrapping_sub(rhs))
}

/// The register effect of an operation that reads one operand byte `v`.
pub open spec fn read_op_result(op: Op, c: Cpu, v: u8) -> Cpu {
    match op {
        Op::Adc => add_result(c, v),
        Op::Sbc => add_result(c, !v),
        Op::And => Cpu { a: c.a & v, p: with_zn(c.p, c.a & v), ..c },
        Op::Eor => Cpu { a: c.a ^ v, p: with_zn(c.p, c.a ^ v), ..c },
        Op::Ora => Cpu { a: c.a | v, p: with_zn(c.p, c.a | v), ..c },
        Op::Bit => Cpu {
            p: flag(flag(flag(c.p, FLAG_Z, c.a & v == 0), FLAG_V, v & 0x40 != 0), FLAG_N, v & 0x80
                != 0),
            ..c
        },
        Op::Cmp => Cpu { p: compare_flags(c.p, c.a, v), ..c },
        Op::Cpx => Cpu { p: compare_flags(c.p, c.x, v), ..c },
        Op::Cpy => Cpu { p: compare_flags(c.p, c.y, v), ..c },
        Op::Lda => Cpu { a: v, p: with_zn(c.p, v), ..c },
        Op::Ldx => Cpu { x: v, p: with_zn(c.p, v), ..c },
        Op::Ldy => Cpu { y: v, p: with_zn(c.p, v), ..c },
        Op::Lax => Cpu { a: v, x: v, p: with_zn(c.p, v), ..c },
        Op::Anc => Cpu {
            a: c.a & v,
            p: with_zn(flag(c.p, FLAG_C, c.a & 0x80 != 0), c.a & v),
            ..c
        },
        Op::Alr => Cpu {
            a: (c.a & v) >> 1u8,
            p: with_zn(flag(c.p, FLAG_C, (c.a & v) & 0x01 != 0), (c.a & v) >> 1u8),
            ..c
        },
        Op::Arr => {
            let carry: u8 = if c.p & FLAG_C != 0 {
                1
            } else {
                0
            };
            let result = ((c.a & v) >> 1u8) | (carry << 7u8);
            Cpu { a: result, p: with_zn(flag(c.p, FLAG_C, (c.a & v) & 0x01 != 0), result), ..c }
        },
        Op::Ane => Cpu { a: c.a & c.x & v, p: with_zn(c.p, c.a & c.x & v), ..c },
        Op::Lxa => Cpu { a: c.a & v, x: c.a & v, ..c },
        Op::Las => Cpu { a: v & c.s, x: v & c.s, s: v & c.s, p: with_zn(c.p, v & c.s), ..c },
        Op::Sbx => Cpu {
            x: (c.a & c.x).wrapping_sub(v),
            p: compare_flags(c.p, c.a & c.x, v),
            ..c
        },
        _ => c,
    }
}

/// The register effect of read-modify-write `op` that read `v` and wrote
/// `n`.
pub open spec fn rmw_result(op: Op, c: Cpu, v: u8, n: u8) -> Cpu {
    match op {
        Op::Asl | Op::Rol => Cpu { p: with_zn(flag(c.p, FLAG_C, v & 0x80 != 0), n), ..c },
        Op::Lsr | Op::Ror => Cpu { p: with_zn(flag(c.p, FLAG_C, v & 0x01 != 0), n), ..c },
        Op::Inc | Op::Dec => Cpu { p: with_zn(c.p, n), ..c },
        Op::Dcp => Cpu { p: compare_flags(c.p, c.a, n), ..c },
        Op::Isb => add_result(c, !n),
        Op::Rla => Cpu {
            a: c.a & n,
            p: with_zn(flag(c.p, FLAG_C, v & 0x80 != 0), c.a & n),
            ..c
        },
        Op::Rra => add_result(Cpu { p: flag(c.p, FLAG_C, v & 0x01 != 0), ..c }, n),
        Op::Slo => Cpu {
            a: c.a | n,
            p: with_zn(flag(c.p, FLAG_C, v & 0x80 != 0), c.a | n),
            ..c
        },
        Op::Sre => Cpu {
            a: c.a ^ n,
            p: with_zn(flag(c.p, FLAG_C, v & 0x01 != 0), c.a ^ n),
            ..c
        },
        _ => c,
    }
}

/// The effect of an operation that takes no operand and no memory.
pub open spec fn implied_result(op: Op, c: Cpu) -> Cpu {
    match op {
        Op::Clc => Cpu { p: flag(c.p, FLAG_C, false), ..c },
        Op::Cld => Cpu { p: flag(c.p, FLAG_D, false), ..c },
        Op::Cli => Cpu { p: flag(c.p, FLAG_I, false), ..c },
        Op::Clv => Cpu { p: flag(c.p, FLAG_V, false), ..c },
        Op::Sec => Cpu { p: flag(c.p, FLAG_C, true), ..c },
        Op::Sed => Cpu { p: flag(c.p, FLAG_D, true), ..c },
        Op::Sei => Cpu { p: flag(c.p, FLAG_I, true), ..c },
        Op::Inx => Cpu { x: c.x.wrapping_add(1), p: with_zn(c.p, c.x.wrapping_add(1)), ..c },
        Op::Iny => Cpu { y: c.y.wrapping_add(1), p: with_zn(c.p, c.y.wrapping_add(1)), ..c },
        Op::Dex => Cpu { x: c.x.wrapping_sub(1), p: with_zn(c.p, c.x.wrapping_sub(1)), ..c },
        Op::Dey => Cpu { y: c.y.wrapping_sub(1), p: with_zn(c.p, c.y.wrapping_sub(1)), ..c },
        Op::Tax => Cpu { x: c.a, p: with_zn(c.p, c.a), ..c },
        Op::Tay => Cpu { y: c.a, p: with_zn(c.p, c.a), ..c },
        Op::Txa => Cpu { a: c.x, p: with_zn(c.p, c.x), ..c },
        Op::Tya => Cpu { a: c.y, p: with_zn(c.p, c.y), ..c },
        Op::Tsx => Cpu { x: c.s, p: with_zn(c.p, c.s), ..c },
        Op::Txs => Cpu { s: c.x, ..c },
        _ => c,
    }
}

/// The operations that read one operand byte and change only registers.
pub open spec fn is_read_op(op: Op) -> bool {
    op == Op::Nop || op == Op::Adc || op == Op::Sbc || op == Op::And || op == Op::Eor || op == Op::Ora
        || op == Op::Bit || op == Op::Cmp || op == Op::Cpx || op == Op::Cpy || op == Op::Lda || op
        == Op::Ldx || op == Op::Ldy || op == Op::Lax || op == Op::Anc || op == Op::Alr || op
        == Op::Arr || op == Op::Ane || op == Op::Lxa || op == Op::Las || op == Op::Sbx
}

/// The operations that touch neither an operand nor memory.
pub open spec fn is_implied_op(op: Op) -> bool {
    op == Op::Clc || op == Op::Cld || op == Op::Cli || op == Op::Clv || op == Op::Sec || op == Op::Sed
        || op == Op::Sei || op == Op::Inx || op == Op::Iny || op == Op::Dex || op == Op::Dey || op
        == Op::Tax || op == Op::Tay || op == Op::Txa || op == Op::Tya || op == Op::Tsx || op
        == Op::Txs
}

/// How many operand bytes follow the opcode in an addressing mode.
pub open spec fn operand_bytes(mode: Mode) -> u16 {
    match mode {
        Mode::Implicit | Mode::Accumulator => 0,
        Mode::Absolute | Mode::AbsoluteOffsetX | Mode::AbsoluteOffsetY | Mode::Indirect
        | Mode::AbsoluteOffsetXUnstable | Mode::AbsoluteOffsetYUnstable => 2,
        _ => 1,
    }
}

/// The index register an indexed mode adds: X for the X-indexed modes,
/// Y otherwise.
pub open spec fn index_of(mode: Mode, x: u8, y: u8) -> u8 {
    if mode == Mode::AbsoluteOffsetX || mode == Mode::AbsoluteOffsetXUnstable {
        x
    } else {
        y
    }
}

/// The value a plain store writes.
pub open spec fn store_value(op: Op, cpu: Cpu) -> u8 {
    match op {
        Op::Sta => cpu.a,
        Op::Stx => cpu.x,
        Op::Sty => cpu.y,
        _ => cpu.a & cpu.x,
    }
}

/// A read made through the bus alone: memory, DMA, log and PPU position
/// are untouched.
pub open spec fn read_only(before: CpuBus, after: CpuBus) -> bool {
    &&& after.wf()
    &&& after.same_memory(&before)
    &&& after.ppu.ticks == before.ppu.ticks
    &&& after.ppu.scanline == before.ppu.scanline
    &&& after.ppu.dot == before.ppu.dot
    &&& after.ppu.nmi == before.ppu.nmi
    &&& after.ppu.ctrl == before.ppu.ctrl && after.ppu.mask == before.ppu.mask
    &&& after.ppu.odd_frame == before.ppu.odd_frame
    &&& after.apu.even_cycle == before.apu.even_cycle
}

/// Reads one after another are reads.
pub proof fn lemma_read_only_trans(a: CpuBus, b: CpuBus, c: CpuBus)
    requires
        read_only(a, b),
        read_only(b, c),
    ensures
        read_only(a, c),
{
}

/// The bus after writes: DMA may only have been started, and the PPU
/// position is untouched.
pub open spec fn written(before: CpuBus, after: CpuBus) -> bool {
    &&& after.wf()
    &&& after.ppu.ticks == before.ppu.ticks
    &&& after.ppu.scanline == before.ppu.scanline
    &&& after.ppu.dot == before.ppu.dot
    &&& after.apu.even_cycle == before.apu.even_cycle
    &&& after.ppu_bus.cart.prg_rom == before.ppu_bus.cart.prg_rom
}

impl Cpu {
    /// Decodes the addressing mode at PC, making the reads the hardware
    /// makes, and advances PC past the operand bytes.
    pub fn resolve(&mut self, bus: &mut CpuBus, mode: Mode) -> (r: Operand)
        requires
            old(bus).wf(),
        ensures
            read_only(*old(bus), *final(bus)),
            *final(self) == (Cpu { pc: old(self).pc.wrapping_add(operand_bytes(mode)), ..*old(self) }),
            is_indexed(mode) ==> r.addr == r.base.wrapping_add(
                index_of(mode, old(self).x, old(self).y) as u16,
            ) && r.page_crossed == crosses(r.base, r.addr),
            mode == Mode::Relative ==> r.page_crossed == crosses(r.base, r.addr) && r.base == final(self).pc,
            !is_indexed(mode) && mode != Mode::Relative ==> !r.page_crossed,
            mode == Mode::Relative ==> r.addr == branch_target(r.base, r.value) && r.base == old(self).pc.wrapping_add(1),
            mode == Mode::Absolute ==> r.addr == r.base,
            indirect_matches(mode, r, *old(bus)),
            operand_matches(mode, r, *old(bus), old(self).pc),
    {
        let pc = self.pc;
        match mode {
            Mode::Implicit | Mode::Accumulator => {
                let _ = bus.read(pc);
                Operand { value: 0, base: pc, addr: pc, page_crossed: false }
            },
            Mode::Immediate => {
                let value = bus.read(pc);
                self.pc = pc.wrapping_add(1);
                Operand { value, base: pc, addr: pc, page_crossed: false }
            },
            Mode::ZeroPage => {
                let zp = bus.read(pc) as u16;
                self.pc = pc.wrapping_add(1);
                Operand { value: 0, base: zp, addr: zp, page_crossed: false }
            },
            Mode::ZeroPageOffsetX | Mode::ZeroPageOffsetY => {
                let zp = bus.read(pc);
                self.pc = pc.wrapping_add(1);
                let _ = bus.read(zp as u16);
                let index = if mode == Mode::ZeroPageOffsetX {
                    self.x
                } else {
                    self.y
                };
                let addr = zp.wrapping_add(index) as u16;
                Operand { value: 0, base: zp as u16, addr, page_crossed: false }
            },
            Mode::Relative => {
                let offset = bus.read(pc);
                let next = pc.wrapping_add(1);
                self.pc = next;
                let _ = bus.read(next);
                let addr = if offset < 0x80 {
                    next.wrapping_add(offset as u16)
                } else {
                    next.wrapping_sub(256 - offset as u16)
                };
                Operand {
                    value: offset,
                    base: next,
                    addr,
                    page_crossed: (next >> 8u16) != (addr >> 8u16),
                }
            },
            Mode::Absolute => {
                let addr = bus.read_16(pc);
                self.pc = pc.wrapping_add(2);
                Operand { value: 0, base: addr, addr, page_crossed: false }
            },
            Mode::AbsoluteOffsetX | Mode::AbsoluteOffsetY | Mode::AbsoluteOffsetXUnstable
            | Mode::AbsoluteOffsetYUnstable => {
                let base = bus.read_16(pc);
                self.pc = pc.wrapping_add(2);
                let index = if mode == Mode::AbsoluteOffsetX || mode == Mode::AbsoluteOffsetXUnstable {
                    self.x
                } else {
                    self.y
                };
                let addr = base.wrapping_add(index as u16);
                Operand { value: 0, base, addr, page_crossed: (base >> 8u16) != (addr >> 8u16) }
            },
            Mode::Indirect => {
                let pointer = bus.read_16(pc);
                self.pc = pc.wrapping_add(2);
                let low = bus.read(pointer);
                let high = bus.read(increment_no_carry(pointer));
                let addr = ((high as u16) << 8u16) | (low as u16);
                Operand { value: 0, base: pointer, addr, page_crossed: false }
            },
            Mode::OffsetXIndirect => {
                let zp = bus.read(pc);
                self.pc = pc.wrapping_add(1);
                let _ = bus.read(zp as u16);
                let pointer = zp.wrapping_add(self.x);
                let low = bus.read(pointer as u16);
                let high = bus.read(pointer.wrapping_add(1) as u16);
                let addr = ((high as u16) << 8u16) | (low as u16);
                Operand { value: 0, base: addr, addr, page_crossed: false }
            },
            Mode::IndirectOffsetY | Mode::IndirectOffsetYUnstable => {
                let zp = bus.read(pc);
                self.pc = pc.wrapping_add(1);
                let low = bus.read(zp as u16);
                let high = bus.read(zp.wrapping_add(1) as u16);
                let base = ((high as u16) << 8u16) | (low as u16);
                let addr = base.wrapping_add(self.y as u16);
                Operand { value: 0, base, addr, page_crossed: (base >> 8u16) != (addr >> 8u16) }
            },
        }
    }

    /// Reads the operand's data, with the extra read an indexed mode makes
    /// on the wrong page when it crosses one.
    fn load(&mut self, bus: &mut CpuBus, mode: Mode, operand: Operand) -> (r: u8)
        requires
            old(bus).wf(),
        ensures
            read_only(*old(bus), *final(bus)),
            *final(self) == *old(self),
            mode == Mode::Immediate ==> r == operand.value,
            mode == Mode::Accumulator ==> r == old(self).a,
            reads_memory(mode) && old(bus).fixed_byte(operand.addr) is Some ==> r == old(bus).fixed_byte(operand.addr).unwrap(),
    {
        proof {
            if old(bus).fixed_byte(operand.addr) is Some {
                lemma_fixed_peek(*old(bus), operand.addr, 0);
            }
        }
        if mode == Mode::Immediate {
            operand.value
        } else if mode == Mode::Accumulator {
            self.a
        } else {
            if is_indexed_mode(mode) && operand.page_crossed {
                let _ = bus.read((operand.base & 0xFF00) | (operand.addr & 0x00FF));
            }
            bus.read(operand.addr)
        }
    }

    /// Writes `value` to the operand's address, after the extra read that
    /// indexed stores always make.
    fn store(&mut self, bus: &mut CpuBus, mode: Mode, operand: Operand, value: u8)
        requires
            old(bus).wf(),
        ensures
            exists|mid: CpuBus|
                read_only(*old(bus), mid) && #[trigger] CpuBus::write_done(
                    mid,
                    *final(bus),
                    operand.addr,
                    value,
                ),
            written(*old(bus), *final(bus)),
            final(bus).write_log@ == old(bus).write_log@.push((operand.addr, value)),
            *final(self) == *old(self),
    {
        if is_indexed_mode(mode) {
            let _ = bus.read((operand.base & 0xFF00) | (operand.addr & 0x00FF));
        }
        let ghost mid = *bus;
        bus.write(operand.addr, value);
        assert(read_only(*old(bus), mid));
    }

    /// The unstable stores: the value is ANDed with the base address's high
    /// byte plus one, and on a page crossing that value also replaces the
    /// high byte of the address.
    fn store_unstable(&mut self, bus: &mut CpuBus, operand: Operand, value: u8)
        requires
            old(bus).wf(),
        ensures
            written(*old(bus), *final(bus)),
            ({
                let stored = value & ((operand.base >> 8u16) as u8).wrapping_add(1);
                let addr = if operand.page_crossed {
                    operand.addr & (((stored as u16) << 8u16) | 0xFF)
                } else {
                    operand.addr
                };
                final(bus).write_log@ == old(bus).write_log@.push((addr, stored))
            }),
            *final(self) == *old(self),
    {
        let stored = value & ((operand.base >> 8u16) as u8).wrapping_add(1);
        let addr = if operand.page_crossed {
            operand.addr & (((stored as u16) << 8u16) | 0xFF)
        } else {
            operand.addr
        };
        bus.write(addr, stored);
    }

    /// Read-modify-write: reads the old value, writes it back unchanged,
    /// then writes the new value; on the accumulator it only replaces A.
    /// Returns the old and the new value.
    fn modify(&mut self, bus: &mut CpuBus, mode: Mode, operand: Operand, op: Op) -> (r: (u8, u8))
        requires
            old(bus).wf(),
        ensures
            written(*old(bus), *final(bus)),
            r.1 == rmw_value(op, r.0, old(self).p & FLAG_C != 0),
            mode == Mode::Accumulator ==> r.0 == old(self).a && *final(self) == (Cpu {
                a: r.1,
                ..*old(self)
            }) && final(bus).write_log == old(bus).write_log,
            mode != Mode::Accumulator ==> *final(self) == *old(self) && final(bus).write_log@ == old(bus).write_log@.push((operand.addr, r.0)).push((operand.addr, r.1)),
            mode != Mode::Accumulator && old(bus).fixed_byte(operand.addr) is Some ==> r.0 == old(bus).fixed_byte(operand.addr).unwrap(),
    {
        let carry = self.p & FLAG_C != 0;
        let c: u8 = if carry {
            1
        } else {
            0
        };
        let old_value = if mode == Mode::Accumulator {
            self.a
        } else {
            if is_indexed_mode(mode) {
                let _ = bus.read((operand.base & 0xFF00) | (operand.addr & 0x00FF));
            }
            bus.read(operand.addr)
        };
        let new_value = match op {
            Op::Asl | Op::Slo => old_value << 1u8,
            Op::Lsr | Op::Sre => old_value >> 1u8,
            Op::Rol | Op::Rla => (old_value << 1u8) | c,
            Op::Ror | Op::Rra => (old_value >> 1u8) | (c << 7u8),
            Op::Inc | Op::Isb => old_value.wrapping_add(1),
            Op::Dec | Op::Dcp => old_value.wrapping_sub(1),
            _ => old_value,
        };
        if mode == Mode::Accumulator {
            self.a = new_value;
        } else {
            bus.write(operand.addr, old_value);
            bus.write(operand.addr, new_value);
        }
        (old_value, new_value)
    }
}

/// Executable form of `is_indexed`.
pub fn is_indexed_mode(mode: Mode) -> (r: bool)
    ensures
        r == is_indexed(mode),
{
    match mode {
        Mode::AbsoluteOffsetX | Mode::AbsoluteOffsetY | Mode::IndirectOffsetY
        | Mode::AbsoluteOffsetXUnstable | Mode::AbsoluteOffsetYUnstable
        | Mode::IndirectOffsetYUnstable => true,
        _ => false,
    }
}

impl Cpu {
    fn compare(&mut self, lhs: u8, rhs: u8)
        ensures
            *final(self) == (Cpu {
                p: with_zn(flag(old(self).p, FLAG_C, lhs >= rhs), lhs.wrapping_sub(rhs)),
                ..*old(self)
            }),
    {
        self.set_flag(FLAG_C, lhs >= rhs);
        self.set_zn(lhs.wrapping_sub(rhs));
    }

    fn run_read(&mut self, bus: &mut CpuBus, instr: Instr, operand: Operand)
        requires
            old(bus).wf(),
        ensures
            read_only(*old(bus), *final(bus)),
            exists|v: u8| #[trigger] read_op_result(instr.op, *old(self), v) == *final(self) && (
            reads_memory(instr.mode) && old(bus).fixed_byte(operand.addr) is Some ==> v == old(bus).fixed_byte(operand.addr).unwrap()),
            instr.mode == Mode::Immediate ==> *final(self) == read_op_result(
                instr.op,
                *old(self),
                operand.value,
            ),
    {
        let mode = instr.mode;
        let v = if instr.op == Op::Nop && (mode == Mode::Implicit || mode == Mode::Immediate) {
            0
        } else {
            self.load(bus, mode, operand)
        };
        self.apply_read(instr.op, v);
    }

    /// The register effects of the operations that read one operand byte.
    fn apply_read(&mut self, op: Op, v: u8)
        ensures
            final(self).pc == old(self).pc,
            final(self).cycle_counter == old(self).cycle_counter,
            final(self).jammed == old(self).jammed,
            final(self).irq_pending == old(self).irq_pending,
            final(self).nmi_pending == old(self).nmi_pending,
            *final(self) == read_op_result(op, *old(self), v),
    {
        match op {
            Op::Nop => {},
            Op::Adc => {
                self.execute_add(v);
            },
            Op::Sbc => {
                self.execute_add(!v);
            },
            Op::And => {
                self.a = self.a & v;
                self.set_zn(self.a);
            },
            Op::Eor => {
                self.a = self.a ^ v;
                self.set_zn(self.a);
            },
            Op::Ora => {
                self.a = self.a | v;
                self.set_zn(self.a);
            },
            Op::Bit => {
                self.set_flag(FLAG_Z, self.a & v == 0);
                self.set_flag(FLAG_V, v & 0x40 != 0);
                self.set_flag(FLAG_N, v & 0x80 != 0);
            },
            Op::Cmp => {
                self.compare(self.a, v);
            },
            Op::Cpx => {
                self.compare(self.x, v);
            },
            Op::Cpy => {
                self.compare(self.y, v);
            },
            Op::Lda => {
                self.a = v;
                self.set_zn(self.a);
            },
            Op::Ldx => {
                self.x = v;
                self.set_zn(self.x);
            },
            Op::Ldy => {
                self.y = v;
                self.set_zn(self.y);
            },
            Op::Lax => {
                self.a = v;
                self.x = v;
                self.set_zn(v);
            },
            Op::Anc => {
                let lhs = self.a;
                                let result = lhs & v;
                self.a = result;
                self.set_flag(FLAG_C, lhs & 0x80 != 0);
                self.set_zn(result);
            },
            Op::Alr => {
                let and_result = self.a & v;
                let result = and_result >> 1u8;
                self.a = result;
                self.set_flag(FLAG_C, and_result & 0x01 != 0);
                self.set_zn(result);
            },
            Op::Arr => {
                let and_result = self.a & v;
                let c: u8 = if self.p & FLAG_C != 0 {
                    1
                } else {
                    0
                };
                let result = (and_result >> 1u8) | (c << 7u8);
                self.a = result;
                self.set_flag(FLAG_C, and_result & 0x01 != 0);
                self.set_zn(result);
            },
            Op::Ane => {
                let result = self.a & self.x & v;
                self.a = result;
                self.set_zn(result);
            },
            Op::Lxa => {
                let result = self.a & v;
                self.a = result;
                self.x = result;
            },
            Op::Las => {
                let result = v & self.s;
                self.a = result;
                self.x = result;
                self.s = result;
                self.set_zn(result);
            },
            Op::Sbx => {
                let lhs = self.a & self.x;
                                let result = lhs.wrapping_sub(v);
                self.x = result;
                self.set_flag(FLAG_C, lhs >= v);
                self.set_zn(result);
            },
            _ => {},
        }
    }

    fn run_rmw(&mut self, bus: &mut CpuBus, instr: Instr, operand: Operand)
        requires
            old(bus).wf(),
            is_rmw(instr.op),
        ensures
            written(*old(bus), *final(bus)),
            exists|v: u8|
                #![trigger rmw_stored(instr.op, *old(self), v)]
                rmw_done(instr, operand, *old(self), *final(self), *old(bus), *final(bus), v),
    {
        let (old_value, new_value) = self.modify(bus, instr.mode, operand, instr.op);
        self.apply_rmw(instr.op, old_value, new_value);
        assert(new_value == rmw_stored(instr.op, *old(self), old_value));
    }

    /// The register effect of a read-modify-write operation that read `v`
    /// and wrote `n`.
    fn apply_rmw(&mut self, op: Op, v: u8, n: u8)
        ensures
            *final(self) == rmw_result(op, *old(self), v, n),
    {
        match op {
            Op::Asl | Op::Rol => {
                self.set_flag(FLAG_C, v & 0x80 != 0);
                self.set_zn(n);
            },
            Op::Lsr | Op::Ror => {
                self.set_flag(FLAG_C, v & 0x01 != 0);
                self.set_zn(n);
            },
            Op::Inc | Op::Dec => {
                self.set_zn(n);
            },
            Op::Dcp => {
                self.compare(self.a, n);
            },
            Op::Isb => {
                self.execute_add(!n);
            },
            Op::Rla => {
                self.set_flag(FLAG_C, v & 0x80 != 0);
                self.a = self.a & n;
                self.set_zn(self.a);
            },
            Op::Rra => {
                self.set_flag(FLAG_C, v & 0x01 != 0);
                self.execute_add(n);
            },
            Op::Slo => {
                self.set_flag(FLAG_C, v & 0x80 != 0);
                self.a = self.a | n;
                self.set_zn(self.a);
            },
            Op::Sre => {
                self.set_flag(FLAG_C, v & 0x01 != 0);
                self.a = self.a ^ n;
                self.set_zn(self.a);
            },
            _ => {},
        }
    }

    fn run_store(&mut self, bus: &mut CpuBus, instr: Instr, operand: Operand)
        requires
            old(bus).wf(),
        ensures
            is_store(instr.op) ==> exists|mid: CpuBus|
                read_only(*old(bus), mid) && #[trigger] CpuBus::write_done(
                    mid,
                    *final(bus),
                    operand.addr,
                    store_value(instr.op, *old(self)),
                ),
            written(*old(bus), *final(bus)),
            final(self).pc == old(self).pc,
            is_store(instr.op) ==> final(bus).write_log@ == old(bus).write_log@.push(
                (operand.addr, store_value(instr.op, *old(self))),
            ),
            is_store(instr.op) ==> *final(self) == *old(self),
            is_unstable_store(instr.op) ==> final(bus).write_log@ == old(bus).write_log@.push(
                unstable_write(operand, unstable_value(instr.op, *old(self))),
            ),
            is_unstable_store(instr.op) ==> *final(self) == if instr.op == Op::Tas {
                Cpu { s: old(self).a & old(self).x, ..*old(self) }
            } else {
                *old(self)
            },
            final(self).cycle_counter == old(self).cycle_counter,
            final(self).jammed == old(self).jammed,
            final(self).irq_pending == old(self).irq_pending,
            final(self).nmi_pending == old(self).nmi_pending,
    {
        let mode = instr.mode;
        match instr.op {
            Op::Sta => {
                self.store(bus, mode, operand, self.a);
            },
            Op::Stx => {
                self.store(bus, mode, operand, self.x);
            },
            Op::Sty => {
                self.store(bus, mode, operand, self.y);
            },
            Op::Sax => {
                self.store(bus, mode, operand, self.a & self.x);
            },
            Op::Sha => {
                self.store_unstable(bus, operand, self.a & self.x);
            },
            Op::Shx => {
                self.store_unstable(bus, operand, self.x);
            },
            Op::Shy => {
                self.store_unstable(bus, operand, self.y);
            },
            Op::Tas => {
                let value = self.a & self.x;
                self.store_unstable(bus, operand, value);
                self.s = value;
            },
            _ => {},
        }
    }

    /// The effect of the stack and jump operations: BRK, JMP, JSR, RTS, RTI, PHA, PHP, PLA and PLP.
    pub open spec fn control_done(instr: Instr, operand: Operand, o: Cpu, f: Cpu, ob: CpuBus, fb: CpuBus) -> bool {
        &&& (instr.op == Op::Jmp ==> f == (Cpu { pc: operand.addr, ..o }))
        &&& (instr.op == Op::Jsr ==> f.pc == operand.addr && f.s == o.s.wrapping_sub(2) && fb.write_log@ == ob.write_log@.push(
                (Self::stack_addr(o.s), (o.pc.wrapping_sub(1) >> 8u16) as u8),
            ).push(
                (Self::stack_addr(o.s.wrapping_sub(1)), (o.pc.wrapping_sub(1)
                    & 0xFF) as u8),
            ))
        &&& (instr.op == Op::Pha ==> f == (Cpu { s: o.s.wrapping_sub(1), ..o })
                && fb.write_log@ == ob.write_log@.push(
                (Self::stack_addr(o.s), o.a),
            ))
        &&& (instr.op == Op::Php ==> f == (Cpu { s: o.s.wrapping_sub(1), ..o })
                && fb.write_log@ == ob.write_log@.push(
                (Self::stack_addr(o.s), o.p | U_FLAG | B_FLAG),
            ))
        &&& (instr.op == Op::Pla ==> {
                let v = ob.ram.byte_at(Self::stack_addr(o.s.wrapping_add(1)));
                f == (Cpu {
                    s: o.s.wrapping_add(1),
                    a: v,
                    p: with_zn(o.p, v),
                    ..o
                })
            })
        &&& (instr.op == Op::Plp ==> f == (Cpu {
                s: o.s.wrapping_add(1),
                p: ob.ram.byte_at(Self::stack_addr(o.s.wrapping_add(1))) & LIVE_FLAGS,
                ..o
            }))
        &&& (instr.op == Op::Rti ==> f == (Cpu {
                s: o.s.wrapping_add(3),
                p: ob.ram.byte_at(Self::stack_addr(o.s.wrapping_add(1))) & LIVE_FLAGS,
                pc: Self::stack_word(ob.ram, o.s.wrapping_add(1)),
                ..o
            }))
        &&& (instr.op == Op::Rts ==> f == (Cpu {
                s: o.s.wrapping_add(2),
                pc: Self::stack_word(ob.ram, o.s).wrapping_add(1),
                ..o
            }))
        &&& (instr.op == Op::Jsr ==> f == (Cpu {
                s: o.s.wrapping_sub(2),
                pc: operand.addr,
                ..o
            }))
        &&& (instr.op == Op::Brk ==> f == (Cpu {
                s: o.s.wrapping_sub(3),
                p: o.p | FLAG_I,
                pc: f.pc,
                ..o
            }))
        &&& (instr.op == Op::Rts || instr.op == Op::Rti || instr.op == Op::Pla || instr.op == Op::Plp
                || instr.op == Op::Jmp ==> read_only(ob, fb))
        &&& (instr.op == Op::Brk || instr.op == Op::Jsr || instr.op == Op::Pha || instr.op == Op::Php
                ==> fb.ppu == ob.ppu && fb.apu == ob.apu && fb.dma
                == ob.dma && fb.ppu_bus == ob.ppu_bus && fb.controller
                == ob.controller)
        &&& (instr.op == Op::Brk ==> f.pc == vector_word(
                ob.ppu_bus.cart,
                IRQ_VECTOR,
                o.p | U_FLAG | B_FLAG,
            ))
        &&& (instr.op == Op::Brk ==> f.s == o.s.wrapping_sub(3) && f.p
                == o.p | FLAG_I && fb.write_log@ == ob.write_log@.push(
                (Self::stack_addr(o.s), (o.pc.wrapping_add(1) >> 8u16) as u8),
            ).push(
                (Self::stack_addr(o.s.wrapping_sub(1)), (o.pc.wrapping_add(1)
                    & 0xFF) as u8),
            ).push((Self::stack_addr(o.s.wrapping_sub(2)), o.p | U_FLAG | B_FLAG)))
        &&& (f.cycle_counter == o.cycle_counter)
        &&& (f.irq_pending == o.irq_pending)
        &&& (f.nmi_pending == o.nmi_pending)
    }

    fn run_control(&mut self, bus: &mut CpuBus, instr: Instr, operand: Operand)
        requires
            old(bus).wf(),
        ensures
            written(*old(bus), *final(bus)),
            final(self).jammed == old(self).jammed,
            Self::control_done(instr, operand, *old(self), *final(self), *old(bus), *final(bus)),
    {
        match instr.op {
            Op::Brk => {
                let ret = self.pc.wrapping_add(1);
                self.interrupt(bus, IRQ_VECTOR, ret, true);
            },
            Op::Jmp => {
                self.pc = operand.addr;
            },
            Op::Jsr => {
                let ret = self.pc.wrapping_sub(1);
                self.push_16(bus, ret);
                self.pc = operand.addr;
            },
            Op::Rts => {
                let ret = self.pop_16(bus);
                self.pc = ret.wrapping_add(1);
            },
            Op::Rti => {
                let p = self.pop(bus);
                self.p = p & LIVE_FLAGS;
                self.pc = self.pop_16(bus);
            },
            Op::Pha => {
                self.push(bus, self.a);
            },
            Op::Php => {
                self.push(bus, self.p | U_FLAG | B_FLAG);
            },
            Op::Pla => {
                self.a = self.pop(bus);
                self.set_zn(self.a);
            },
            Op::Plp => {
                let p = self.pop(bus);
                self.p = p & LIVE_FLAGS;
            },
            _ => {},
        }
    }

    fn run_implied(&mut self, op: Op)
        ensures
            *final(self) == implied_result(op, *old(self)),
    {
        match op {
            Op::Clc => {
                self.set_flag(FLAG_C, false);
            },
            Op::Cld => {
                self.set_flag(FLAG_D, false);
            },
            Op::Cli => {
                self.set_flag(FLAG_I, false);
            },
            Op::Clv => {
                self.set_flag(FLAG_V, false);
            },
            Op::Sec => {
                self.set_flag(FLAG_C, true);
            },
            Op::Sed => {
                self.set_flag(FLAG_D, true);
            },
            Op::Sei => {
                self.set_flag(FLAG_I, true);
            },
            Op::Inx => {
                self.x = self.x.wrapping_add(1);
                self.set_zn(self.x);
            },
            Op::Iny => {
                self.y = self.y.wrapping_add(1);
                self.set_zn(self.y);
            },
            Op::Dex => {
                self.x = self.x.wrapping_sub(1);
                self.set_zn(self.x);
            },
            Op::Dey => {
                self.y = self.y.wrapping_sub(1);
                self.set_zn(self.y);
            },
            Op::Tax => {
                self.x = self.a;
                self.set_zn(self.a);
            },
            Op::Tay => {
                self.y = self.a;
                self.set_zn(self.a);
            },
            Op::Txa => {
                self.a = self.x;
                self.set_zn(self.x);
            },
            Op::Tya => {
                self.a = self.y;
                self.set_zn(self.y);
            },
            Op::Tsx => {
                self.x = self.s;
                self.set_zn(self.s);
            },
            Op::Txs => {
                self.s = self.x;
            },
            _ => {},
        }
    }

    /// Carries out the operation of `instr` on a decoded operand. Returns
    /// whether a branch was taken.
    #[verifier::rlimit(60)]
    pub fn run(&mut self, bus: &mut CpuBus, instr: Instr, operand: Operand) -> (taken: bool)
        requires
            old(bus).wf(),
        ensures
            is_read_op(instr.op) || is_implied_op(instr.op) || is_branch(instr.op) ==> read_only(
                *old(bus),
                *final(bus),
            ),
            is_control_op(instr.op) ==> Self::control_done(
                instr,
                operand,
                *old(self),
                *final(self),
                *old(bus),
                *final(bus),
            ),
            is_store(instr.op) ==> exists|mid: CpuBus|
                read_only(*old(bus), mid) && #[trigger] CpuBus::write_done(
                    mid,
                    *final(bus),
                    operand.addr,
                    store_value(instr.op, *old(self)),
                ),
            is_read_op(instr.op) ==> exists|v: u8| #[trigger] read_op_result(instr.op, *old(self), v)
                == *final(self) && (reads_memory(instr.mode) && old(bus).fixed_byte(operand.addr) is Some
                ==> v == old(bus).fixed_byte(operand.addr).unwrap()),
            is_read_op(instr.op) && instr.mode == Mode::Immediate ==> *final(self)
                == read_op_result(instr.op, *old(self), operand.value),
            is_implied_op(instr.op) ==> *final(self) == implied_result(instr.op, *old(self)),
            is_rmw(instr.op) ==> exists|v: u8|
                #![trigger rmw_stored(instr.op, *old(self), v)]
                rmw_done(instr, operand, *old(self), *final(self), *old(bus), *final(bus), v),
            written(*old(bus), *final(bus)),
            !is_branch(instr.op) ==> !taken,
            is_branch(instr.op) ==> taken == branch_condition(instr.op, old(self).p),
            is_branch(instr.op) ==> *final(self) == (Cpu { pc: final(self).pc, ..*old(self) }),
            is_branch(instr.op) && taken ==> final(self).pc == operand.addr,
            is_branch(instr.op) && !taken ==> final(self).pc == old(self).pc,
            is_store(instr.op) ==> final(bus).write_log@ == old(bus).write_log@.push(
                (operand.addr, store_value(instr.op, *old(self))),
            ),
            is_store(instr.op) ==> *final(self) == *old(self),
            is_unstable_store(instr.op) ==> final(bus).write_log@ == old(bus).write_log@.push(
                unstable_write(operand, unstable_value(instr.op, *old(self))),
            ),
            is_unstable_store(instr.op) ==> *final(self) == if instr.op == Op::Tas {
                Cpu { s: old(self).a & old(self).x, ..*old(self) }
            } else {
                *old(self)
            },
            instr.op == Op::Jmp ==> *final(self) == (Cpu { pc: operand.addr, ..*old(self) }),
            final(self).cycle_counter == old(self).cycle_counter,
            final(self).jammed == old(self).jammed,
            final(self).irq_pending == old(self).irq_pending,
            final(self).nmi_pending == old(self).nmi_pending,
    {
        match instr.op {
            Op::Bcs | Op::Bcc | Op::Beq | Op::Bne | Op::Bmi | Op::Bpl | Op::Bvs | Op::Bvc => {
                let p = self.p;
                let condition = match instr.op {
                    Op::Bcs => p & FLAG_C != 0,
                    Op::Bcc => p & FLAG_C == 0,
                    Op::Beq => p & FLAG_Z != 0,
                    Op::Bne => p & FLAG_Z == 0,
                    Op::Bmi => p & FLAG_N != 0,
                    Op::Bpl => p & FLAG_N == 0,
                    Op::Bvs => p & FLAG_V != 0,
                    _ => p & FLAG_V == 0,
                };
                if condition {
                    self.pc = operand.addr;
                }
                condition
            },
            Op::Nop | Op::Adc | Op::Sbc | Op::And | Op::Eor | Op::Ora | Op::Bit | Op::Cmp | Op::Cpx | Op::Cpy | Op::Lda | Op::Ldx | Op::Ldy | Op::Lax | Op::Anc | Op::Alr | Op::Arr | Op::Ane | Op::Lxa | Op::Las | Op::Sbx => {
                self.run_read(bus, instr, operand);
                false
            },
            Op::Asl | Op::Rol | Op::Lsr | Op::Ror | Op::Inc | Op::Dec | Op::Dcp | Op::Isb | Op::Rla | Op::Rra | Op::Slo | Op::Sre => {
                self.run_rmw(bus, instr, operand);
                false
            },
            Op::Sta | Op::Stx | Op::Sty | Op::Sax | Op::Sha | Op::Shx | Op::Shy | Op::Tas => {
                self.run_store(bus, instr, operand);
                false
            },
            Op::Brk | Op::Jmp | Op::Jsr | Op::Rts | Op::Rti | Op::Pha | Op::Php | Op::Pla | Op::Plp => {
                self.run_control(bus, instr, operand);
                false
            },
            _ => {
                self.run_implied(instr.op);
                false
            },
        }
    }
}

impl Cpu {
    /// What fetching and executing one instruction does: the opcode byte at
    /// PC selects a table entry, or jams the processor when it has none; the
    /// cost, the operand and the effect on registers and on the bus follow
    /// the entry.
    #[verifier::opaque]
    pub open spec fn executes(o: Cpu, f: Cpu, ob: CpuBus, fb: CpuBus, r: Option<Executed>) -> bool {
        &&& written(ob, fb)
        &&& quiet_addr(o.pc) ==> (r.is_none() <==> opcode_table(
            ob.peek(o.pc, ob.last_bus_value),
        ).is_none())
        &&& r.is_none() ==> f == (Cpu { pc: o.pc.wrapping_add(1), jammed: true, ..o })
        &&& f.jammed == (o.jammed || r.is_none())
        &&& f.cycle_counter == o.cycle_counter
        &&& f.irq_pending == o.irq_pending
        &&& f.nmi_pending == o.nmi_pending
        &&& r matches Some(e) ==> {
            let fetched = Cpu {
                pc: o.pc.wrapping_add(1).wrapping_add(operand_bytes(e.instr.mode)),
                ..o
            };
            &&& quiet_addr(o.pc) ==> e.opcode == ob.peek(o.pc, ob.last_bus_value)
            &&& opcode_table(e.opcode) == Some(e.instr)
            &&& e.cycles == cycle_cost(e.instr, e.operand.page_crossed, e.branch_taken)
            &&& is_indexed(e.instr.mode) ==> e.operand.addr == e.operand.base.wrapping_add(
                index_of(e.instr.mode, o.x, o.y) as u16,
            ) && e.operand.page_crossed == crosses(e.operand.base, e.operand.addr)
            &&& e.instr.mode == Mode::Relative ==> e.operand.page_crossed == crosses(
                e.operand.base,
                e.operand.addr,
            ) && e.operand.base == fetched.pc && e.operand.addr == branch_target(
                fetched.pc,
                e.operand.value,
            )
            &&& !is_indexed(e.instr.mode) && e.instr.mode != Mode::Relative
                ==> !e.operand.page_crossed
            &&& is_branch(e.instr.op) ==> e.branch_taken == branch_condition(e.instr.op, o.p)
                && f == (Cpu {
                    pc: if e.branch_taken {
                        e.operand.addr
                } else {
                    fetched.pc
                },
                ..o
            })
            &&& !is_branch(e.instr.op) ==> !e.branch_taken
            &&& operand_matches(e.instr.mode, e.operand, ob, o.pc.wrapping_add(1))
            &&& indirect_matches(e.instr.mode, e.operand, ob)
            &&& is_read_op(e.instr.op) ==> exists|v: u8| #[trigger] read_op_result(e.instr.op, fetched, v)
                == f && (reads_memory(e.instr.mode) && ob.fixed_byte(e.operand.addr) is Some ==> v
                == ob.fixed_byte(e.operand.addr).unwrap())
            &&& is_read_op(e.instr.op) && e.instr.mode == Mode::Immediate ==> f == read_op_result(
                e.instr.op,
                fetched,
                e.operand.value,
            )
            &&& is_implied_op(e.instr.op) ==> f == implied_result(e.instr.op, fetched)
            &&& is_store(e.instr.op) ==> f == fetched && fb.write_log@ == ob.write_log@.push(
                (e.operand.addr, store_value(e.instr.op, o)),
            )
            &&& is_unstable_store(e.instr.op) ==> fb.write_log@ == ob.write_log@.push(
                unstable_write(e.operand, unstable_value(e.instr.op, o)),
            ) && f == if e.instr.op == Op::Tas {
                Cpu { s: o.a & o.x, ..fetched }
            } else {
                fetched
            }
            &&& is_rmw(e.instr.op) ==> exists|v: u8|
                #![trigger rmw_stored(e.instr.op, fetched, v)]
                rmw_done(e.instr, e.operand, fetched, f, ob, fb, v)
            &&& e.instr.op == Op::Jmp ==> f == (Cpu { pc: e.operand.addr, ..fetched })
            &&& is_read_op(e.instr.op) || is_implied_op(e.instr.op) || is_branch(e.instr.op)
                ==> read_only(ob, fb)
            &&& is_control_op(e.instr.op) ==> exists|mid: CpuBus|
                read_only(ob, mid) && #[trigger] Cpu::control_done(
                    e.instr,
                    e.operand,
                    fetched,
                    f,
                    mid,
                    fb,
                )
            &&& is_store(e.instr.op) ==> exists|mid: CpuBus|
                read_only(ob, mid) && #[trigger] CpuBus::write_done(
                    mid,
                    fb,
                    e.operand.addr,
                    store_value(e.instr.op, o),
                )
        }
    }

    /// Fetches, decodes and executes one instruction, and returns what it
    /// did and what it costs; none when the opcode jams the processor,
    /// which then stops.
    #[verifier::rlimit(80)]
    pub fn execute_instruction(&mut self, bus: &mut CpuBus) -> (r: Option<Executed>)
        requires
            old(bus).wf(),
        ensures
            written(*old(bus), *final(bus)),
            r matches Some(e) ==> 2 <= e.cycles <= 10,
            final(self).jammed == (old(self).jammed || r.is_none()),
            final(self).cycle_counter == old(self).cycle_counter,
            final(bus).wf(),
            Self::executes(*old(self), *final(self), *old(bus), *final(bus), r),
    {
        let opcode = bus.read(self.pc);
        self.pc = self.pc.wrapping_add(1);
        proof {
            lemma_table_cycles_bounded(opcode);
        }
        let instr = match decode(opcode) {
            Some(i) => i,
            None => {
                self.jammed = true;
                proof {
                    reveal(Cpu::executes);
                }
                return None;
            },
        };
        let operand = self.resolve(bus, instr.mode);
        let ghost fetched = *self;
        let ghost mid_bus = *bus;
        assert(fetched == Cpu {
            pc: old(self).pc.wrapping_add(1).wrapping_add(operand_bytes(instr.mode)),
            ..*old(self)
        });
        assert(mid_bus.write_log == old(bus).write_log && mid_bus.ram == old(bus).ram
            && mid_bus.ppu_bus == old(bus).ppu_bus);
        let branch_taken = self.run(bus, instr, operand);
        let extra: u8 = if is_branch_op(instr.op) {
            if branch_taken {
                if operand.page_crossed {
                    2
                } else {
                    1
                }
            } else {
                0
            }
        } else if instr.page_penalty && operand.page_crossed {
            1
        } else {
            0
        };
        let e = Executed { opcode, instr, operand, cycles: instr.cycles + extra, branch_taken };
        assert(opcode_table(e.opcode) == Some(e.instr));
        assert(e.cycles == cycle_cost(e.instr, e.operand.page_crossed, e.branch_taken));
        assert(is_store(e.instr.op) ==> bus.write_log@ == old(bus).write_log@.push(
                    (e.operand.addr, store_value(e.instr.op, *old(self)))));
        assert(is_branch(e.instr.op) ==> e.branch_taken == branch_condition(e.instr.op, old(self).p));
        proof {
            if is_rmw(instr.op) {
                let v = choose|v: u8| rmw_done(instr, operand, fetched, *self, mid_bus, *bus, v);
                assert(rmw_stored(instr.op, fetched, v) == rmw_stored(instr.op, fetched, v));
                assert(mid_bus.fixed_byte(operand.addr) == old(bus).fixed_byte(operand.addr));
                assert(rmw_done(instr, operand, fetched, *self, *old(bus), *bus, v));
            }
            if is_store(instr.op) {
                let mid = choose|mid: CpuBus|
                    read_only(mid_bus, mid) && #[trigger] CpuBus::write_done(
                        mid,
                        *bus,
                        operand.addr,
                        store_value(instr.op, fetched),
                    );
                lemma_read_only_trans(*old(bus), mid_bus, mid);
                assert(store_value(instr.op, fetched) == store_value(instr.op, *old(self)));
            }
            if is_read_op(instr.op) || is_implied_op(instr.op) || is_branch(instr.op) {
                lemma_read_only_trans(*old(bus), mid_bus, *bus);
            }
            if is_control_op(instr.op) {
                assert(Cpu::control_done(instr, operand, fetched, *self, mid_bus, *bus));
            }
            reveal(Cpu::executes);
        }
        assert(written(*old(bus), *bus));
        assert(quiet_addr(old(self).pc) ==> e.opcode == old(bus).peek(old(self).pc, old(bus).last_bus_value));
        assert(is_read_op(e.instr.op) ==> exists|v: u8| *self == read_op_result(e.instr.op, fetched, v));
        assert(is_implied_op(e.instr.op) ==> *self == implied_result(e.instr.op, fetched));
        assert(is_store(e.instr.op) ==> *self == fetched);
        assert(e.instr.mode == Mode::Relative ==> e.operand.base == fetched.pc);
        assert(e.instr.op == Op::Jmp ==> *self == Cpu { pc: e.operand.addr, ..fetched });
        assert(is_branch(e.instr.op) ==> *self == Cpu { pc: if e.branch_taken { e.operand.addr } else { fetched.pc }, ..fetched });
        Some(e)
    }

    /// What one CPU cycle does: count down, or start an NMI, an IRQ or the next instruction.
    pub open spec fn clock_done(o: Cpu, f: Cpu, ob: CpuBus, fb: CpuBus, r: (u8, Option<Executed>)) -> bool {
        &&& (o.cycle_counter > 0 ==> r == (0u8, None::<Executed>) && f == (Cpu {
                cycle_counter: (o.cycle_counter - 1) as u8,
                ..o
            }) && fb == ob)
        &&& (o.jammed && o.cycle_counter == 0 ==> r == (0u8, None::<Executed>)
                && f == o && fb == ob)
        &&& (o.cycle_counter == 0 && !o.jammed && o.nmi_pending ==> {
                &&& r == (8u8, None::<Executed>)
                &&& f.cycle_counter == 7
                &&& Self::interrupted(
                    Cpu { nmi_pending: false, ..o },
                    Cpu { cycle_counter: 0, ..f },
                    ob,
                    fb,
                    NMI_VECTOR,
                    o.pc,
                    false,
                )
            })
        &&& (o.cycle_counter == 0 && !o.jammed && !o.nmi_pending && o.irq_pending ==> {
                &&& r == (7u8, None::<Executed>)
                &&& f.cycle_counter == 6
                &&& Self::interrupted(
                    Cpu { irq_pending: false, ..o },
                    Cpu { cycle_counter: 0, ..f },
                    ob,
                    fb,
                    IRQ_VECTOR,
                    o.pc,
                    false,
                )
            })
        &&& (o.cycle_counter == 0 && !o.jammed && !o.nmi_pending && !o.irq_pending ==> {
                &&& Self::executes(
                    o,
                    Cpu { cycle_counter: 0, ..f },
                    ob,
                    fb,
                    r.1,
                )
                &&& r.1 matches Some(e) ==> r.0 == e.cycles && f.cycle_counter == e.cycles
                    - 1
                &&& r.1 is None ==> r.0 == 0 && f.cycle_counter == 0
            })
    }

    /// One CPU cycle. When the current instruction is finished, starts the
    /// next one: an NMI (8 cycles), else an IRQ (7 cycles), else the next
    /// instruction; its whole effect happens now and the following cycles
    /// only count down. Returns the cost of what was started (0 if nothing
    /// was), and the instruction when one was executed.
    #[verifier::rlimit(40)]
    pub fn clock(&mut self, bus: &mut CpuBus) -> (r: (u8, Option<Executed>))
        requires
            old(bus).wf(),
        ensures
            written(*old(bus), *final(bus)),
            final(bus).wf(),
            Self::clock_done(*old(self), *final(self), *old(bus), *final(bus), r),
    {
        if self.cycle_counter == 0 {
            if self.jammed {
                return (0, None);
            }
            if self.nmi_pending {
                self.nmi_pending = false;
                let pc = self.pc;
                self.interrupt(bus, NMI_VECTOR, pc, false);
                self.cycle_counter = 7;
                (8, None)
            } else if self.irq_pending {
                self.irq_pending = false;
                let pc = self.pc;
                self.interrupt(bus, IRQ_VECTOR, pc, false);
                self.cycle_counter = 6;
                (7, None)
            } else {
                let r = self.execute_instruction(bus);
                let ghost after = *self;
                match r {
                    Some(e) => {
                        self.cycle_counter = e.cycles - 1;
                        assert(after == Cpu { cycle_counter: 0, ..*self });
                        (e.cycles, Some(e))
                    },
                    None => {
                        assert(after == Cpu { cycle_counter: 0, ..*self });
                        (0, None)
                    },
                }
            }
        } else {
            self.cycle_counter = self.cycle_counter - 1;
            (0, None)
        }
    }
}

/// Executable form of `is_branch`.
pub fn is_branch_op(op: Op) -> (r: bool)
    ensures
        r == is_branch(op),
{
    match op {
        Op::Bcc | Op::Bcs | Op::Beq | Op::Bne | Op::Bmi | Op::Bpl | Op::Bvc | Op::Bvs => true,
        _ => false,
    }
}

} // verus!
