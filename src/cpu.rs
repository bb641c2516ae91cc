//! The processor: registers, addressing modes, stack and instruction execution.
//!
//! The behaviour of one instruction is stated by the spec function
//! `step_spec`; `Cpu::step` and `Cpu::exec` are proved to follow it.

use vstd::prelude::*;

use crate::flags::{has_bits, with_bits, StatusFlags};
use crate::instruction::{decode, lemma_decode_cycles, AddressingMode, Instruction, Mnemonic};
use crate::mem::{
    byte_at, hi_byte, lo_byte, reset_image, signed8, word_at, wrap16, wrap8, Memory,
    ADDR_RESET_VECTOR,
};

verus! {

/// NMI vector: low byte at `0xFFFA`, high byte at `0xFFFB`.
pub const VECTOR_NMI: u16 = 0xFFFA;
/// Reset vector: low byte at `0xFFFC`, high byte at `0xFFFD`.
pub const VECTOR_RES: u16 = 0xFFFC;
/// IRQ and BRK vector: low byte at `0xFFFE`, high byte at `0xFFFF`.
pub const VECTOR_IRQ: u16 = 0xFFFE;

/// The stack occupies `0x0100..=0x01FF`.
pub const STACK_BASE: u16 = 0x0100;
/// The zero page occupies `0x0000..=0x00FF`.
pub const ZERO_PAGE_BASE: u16 = 0x0000;
/// The stack pointer after a reset.
pub const INITIAL_STACK_POINTER: u8 = 0xFD;
/// A reset takes 7 cycles.
pub const CYCLES_AFTER_RESET: u64 = 7;

/// Why an instruction could not be executed.
#[derive(Clone, Copy, PartialEq, Eq, Debug, Structural)]
pub enum ExecError {
    /// The byte does not encode an instruction.
    DecodeError(u8),
    /// The instruction is not implemented in the current mode (ADC and SBC
    /// with the decimal flag set); the opcode byte is given.
    UnsupportedMode(u8),
}

/// The register file.
#[derive(Clone, Copy, Debug)]
pub struct Cpu {
    /// Program counter: the address of the next opcode.
    pub pc: u16,
    /// Accumulator.
    pub ac: u8,
    pub x: u8,
    pub y: u8,
    /// Status register.
    pub sr: StatusFlags,
    /// Stack pointer: the next push goes to `0x0100 + sp`.
    pub sp: u8,
    /// Cycles elapsed; saturates at `u64::MAX`.
    pub cycles: u64,
}

// ---------------------------------------------------------------------------
// The meaning of an instruction, stated over the registers and the memory
// contents.
// ---------------------------------------------------------------------------

/// The zero-page address `b + i`, wrapped within the zero page.
pub open spec fn zp_indexed(b: u8, i: u8) -> u16 {
    wrap8(b + i) as u16
}

/// The stack address for stack pointer `sp`.
pub open spec fn stack_addr(sp: u8) -> u16 {
    (0x100 + sp) as u16
}

/// Whether `a` and `b` lie on different 256-byte pages.
pub open spec fn page_differs(a: u16, b: u16) -> bool {
    a / 0x100 != b / 0x100
}

pub open spec fn carry_in(sr: u8) -> int {
    if has_bits(sr, StatusFlags::C) {
        1
    } else {
        0
    }
}

/// `sr` with Z and N set from the value `v`.
pub open spec fn nz(sr: u8, v: u8) -> u8 {
    with_bits(with_bits(sr, StatusFlags::Z, v == 0), StatusFlags::N, v >= 0x80)
}

/// `c` with the status register `bits`.
pub open spec fn with_sr(c: Cpu, bits: u8) -> Cpu {
    Cpu { sr: StatusFlags { bits }, ..c }
}

/// Result and status register of ADC in binary mode.
pub open spec fn adc(a: u8, v: u8, sr: u8) -> (u8, u8) {
    let sum = a + v + carry_in(sr);
    let r = wrap8(sum);
    let s = with_bits(sr, StatusFlags::C, sum > 0xFF);
    let s = with_bits(s, StatusFlags::V, (!(a ^ v) & (a ^ r) & 0x80u8) != 0);
    (r, nz(s, r))
}

/// Result and status register of SBC in binary mode.
pub open spec fn sbc(a: u8, v: u8, sr: u8) -> (u8, u8) {
    let diff = a - v - (1 - carry_in(sr));
    let r = wrap8(diff);
    let s = with_bits(sr, StatusFlags::C, diff >= 0);
    let s = with_bits(s, StatusFlags::V, ((a ^ v) & (a ^ r) & 0x80u8) != 0);
    (r, nz(s, r))
}

/// Status register after comparing `reg` with `v`.
pub open spec fn compare(reg: u8, v: u8, sr: u8) -> u8 {
    let s = with_bits(sr, StatusFlags::Z, reg == v);
    let s = with_bits(s, StatusFlags::C, reg >= v);
    with_bits(s, StatusFlags::N, wrap8(reg - v) >= 0x80)
}

/// Status register after BIT with accumulator `a` and operand `v`.
pub open spec fn bit_test(a: u8, v: u8, sr: u8) -> u8 {
    let s = with_bits(sr, StatusFlags::N, v & 0x80u8 != 0);
    let s = with_bits(s, StatusFlags::V, v & 0x40u8 != 0);
    with_bits(s, StatusFlags::Z, a & v == 0)
}

/// Result and status register of ASL, LSR, ROL or ROR on `v`.
pub open spec fn shift(mn: Mnemonic, v: u8, sr: u8) -> (u8, u8) {
    let left = mn == Mnemonic::ASL || mn == Mnemonic::ROL;
    let fill = if mn == Mnemonic::ROL || mn == Mnemonic::ROR { carry_in(sr) } else { 0 };
    let r: u8 = if left { wrap8(v * 2 + fill) } else { (v / 2 + 0x80 * fill) as u8 };
    let c_out = if left { v >= 0x80 } else { v % 2 == 1 };
    (r, nz(with_bits(sr, StatusFlags::C, c_out), r))
}

/// Whether the branch `mn` is taken under the status register `sr`.
pub open spec fn branch_taken(mn: Mnemonic, sr: u8) -> bool {
    match mn {
        Mnemonic::BCC => !has_bits(sr, StatusFlags::C),
        Mnemonic::BCS => has_bits(sr, StatusFlags::C),
        Mnemonic::BEQ => has_bits(sr, StatusFlags::Z),
        Mnemonic::BNE => !has_bits(sr, StatusFlags::Z),
        Mnemonic::BPL => !has_bits(sr, StatusFlags::N),
        Mnemonic::BMI => has_bits(sr, StatusFlags::N),
        Mnemonic::BVC => !has_bits(sr, StatusFlags::V),
        Mnemonic::BVS => has_bits(sr, StatusFlags::V),
        _ => false,
    }
}

/// A pulled status byte, with the reserved and B bits kept from `cur`.
pub open spec fn pulled_sr(pulled: u8, cur: u8) -> u8 {
    let s = with_bits(pulled, StatusFlags::RESERVED, has_bits(cur, StatusFlags::RESERVED));
    with_bits(s, StatusFlags::B, has_bits(cur, StatusFlags::B))
}

impl Cpu {
    /// The effective address of an operand in `mode` whose bytes start at `p`
    /// (for immediate mode, `p` itself).
    pub open spec fn effective_addr(self, m: Seq<u8>, mode: AddressingMode, p: u16) -> u16 {
        match mode {
            AddressingMode::ZPG => byte_at(m, p) as u16,
            AddressingMode::ZPX => zp_indexed(byte_at(m, p), self.x),
            AddressingMode::ZPY => zp_indexed(byte_at(m, p), self.y),
            AddressingMode::ABS => word_at(m, p),
            AddressingMode::ABX => wrap16(word_at(m, p) + self.x),
            AddressingMode::ABY => wrap16(word_at(m, p) + self.y),
            AddressingMode::IND => word_at(m, word_at(m, p)),
            AddressingMode::IDX => word_at(m, zp_indexed(byte_at(m, p), self.x)),
            AddressingMode::IDY => wrap16(word_at(m, byte_at(m, p) as u16) + self.y),
            AddressingMode::REL => wrap16(self.pc + signed8(byte_at(m, p))),
            _ => p,
        }
    }

    /// The operand value: the accumulator, or the byte at the effective address.
    pub open spec fn operand(self, m: Seq<u8>, mode: AddressingMode, p: u16) -> u8 {
        if mode == AddressingMode::ACC {
            self.ac
        } else {
            byte_at(m, self.effective_addr(m, mode, p))
        }
    }

    pub open spec fn push8(self, m: Seq<u8>, v: u8) -> (Cpu, Seq<u8>) {
        (Cpu { sp: wrap8(self.sp - 1), ..self }, m.update(stack_addr(self.sp) as int, v))
    }

    /// Pushes a 16-bit value high byte first: the high byte goes to the stack
    /// address of SP, the low byte to the one below it.
    pub open spec fn push16(self, m: Seq<u8>, v: u16) -> (Cpu, Seq<u8>) {
        (
            Cpu { sp: wrap8(self.sp - 2), ..self },
            m.update(stack_addr(self.sp) as int, hi_byte(v)).update(
                stack_addr(wrap8(self.sp - 1)) as int,
                lo_byte(v),
            ),
        )
    }

    pub open spec fn pop8(self, m: Seq<u8>) -> (Cpu, u8) {
        let sp = wrap8(self.sp + 1);
        (Cpu { sp, ..self }, byte_at(m, stack_addr(sp)))
    }

    /// Pulls a 16-bit value: the low byte from the stack address of SP + 1,
    /// the high byte from SP + 2.
    pub open spec fn pop16(self, m: Seq<u8>) -> (Cpu, u16) {
        let sp = wrap8(self.sp + 2);
        (
            Cpu { sp, ..self },
            (byte_at(m, stack_addr(wrap8(self.sp + 1))) + 0x100 * byte_at(m, stack_addr(sp))) as u16,
        )
    }
}

/// ADC, SBC, AND, EOR, ORA, CMP, CPX, CPY, BIT and the loads.
pub open spec fn exec_read(c: Cpu, m: Seq<u8>, ins: Instruction, p: u16) -> Cpu {
    let v = c.operand(m, ins.addr_mode, p);
    let sr = c.sr.bits;
    match ins.mnemonic {
        Mnemonic::ADC => with_sr(Cpu { ac: adc(c.ac, v, sr).0, ..c }, adc(c.ac, v, sr).1),
        Mnemonic::SBC => with_sr(Cpu { ac: sbc(c.ac, v, sr).0, ..c }, sbc(c.ac, v, sr).1),
        Mnemonic::AND => with_sr(Cpu { ac: c.ac & v, ..c }, nz(sr, c.ac & v)),
        Mnemonic::EOR => with_sr(Cpu { ac: c.ac ^ v, ..c }, nz(sr, c.ac ^ v)),
        Mnemonic::ORA => with_sr(Cpu { ac: c.ac | v, ..c }, nz(sr, c.ac | v)),
        Mnemonic::CMP => with_sr(c, compare(c.ac, v, sr)),
        Mnemonic::CPX => with_sr(c, compare(c.x, v, sr)),
        Mnemonic::CPY => with_sr(c, compare(c.y, v, sr)),
        Mnemonic::BIT => with_sr(c, bit_test(c.ac, v, sr)),
        Mnemonic::LDA => with_sr(Cpu { ac: v, ..c }, nz(sr, v)),
        Mnemonic::LDX => with_sr(Cpu { x: v, ..c }, nz(sr, v)),
        _ => with_sr(Cpu { y: v, ..c }, nz(sr, v)),
    }
}

/// The register-only instructions: transfers, flag operations, INX, INY, DEX, DEY, NOP.
pub open spec fn exec_implied(c: Cpu, mn: Mnemonic) -> Cpu {
    let sr = c.sr.bits;
    match mn {
        Mnemonic::TAX => with_sr(Cpu { x: c.ac, ..c }, nz(sr, c.ac)),
        Mnemonic::TAY => with_sr(Cpu { y: c.ac, ..c }, nz(sr, c.ac)),
        Mnemonic::TXA => with_sr(Cpu { ac: c.x, ..c }, nz(sr, c.x)),
        Mnemonic::TYA => with_sr(Cpu { ac: c.y, ..c }, nz(sr, c.y)),
        Mnemonic::TSX => with_sr(Cpu { x: c.sp, ..c }, nz(sr, c.sp)),
        Mnemonic::TXS => Cpu { sp: c.x, ..c },
        Mnemonic::CLC => with_sr(c, sr & !StatusFlags::C),
        Mnemonic::CLD => with_sr(c, sr & !StatusFlags::D),
        Mnemonic::CLI => with_sr(c, sr & !StatusFlags::I),
        Mnemonic::CLV => with_sr(c, sr & !StatusFlags::V),
        Mnemonic::SEC => with_sr(c, sr | StatusFlags::C),
        Mnemonic::SED => with_sr(c, sr | StatusFlags::D),
        Mnemonic::SEI => with_sr(c, sr | StatusFlags::I),
        Mnemonic::INX => with_sr(Cpu { x: wrap8(c.x + 1), ..c }, nz(sr, wrap8(c.x + 1))),
        Mnemonic::INY => with_sr(Cpu { y: wrap8(c.y + 1), ..c }, nz(sr, wrap8(c.y + 1))),
        Mnemonic::DEX => with_sr(Cpu { x: wrap8(c.x - 1), ..c }, nz(sr, wrap8(c.x - 1))),
        Mnemonic::DEY => with_sr(Cpu { y: wrap8(c.y - 1), ..c }, nz(sr, wrap8(c.y - 1))),
        _ => c,
    }
}

/// The stores and the read-modify-write instructions (shifts, INC, DEC).
pub open spec fn exec_write(c: Cpu, m: Seq<u8>, ins: Instruction, p: u16) -> (Cpu, Seq<u8>) {
    let mode = ins.addr_mode;
    let ea = c.effective_addr(m, mode, p);
    let v = c.operand(m, mode, p);
    let sr = c.sr.bits;
    match ins.mnemonic {
        Mnemonic::STA => (c, m.update(ea as int, c.ac)),
        Mnemonic::STX => (c, m.update(ea as int, c.x)),
        Mnemonic::STY => (c, m.update(ea as int, c.y)),
        Mnemonic::INC => (with_sr(c, nz(sr, wrap8(v + 1))), m.update(ea as int, wrap8(v + 1))),
        Mnemonic::DEC => (with_sr(c, nz(sr, wrap8(v - 1))), m.update(ea as int, wrap8(v - 1))),
        _ => {
            let (r, s) = shift(ins.mnemonic, v, sr);
            if mode == AddressingMode::ACC {
                (with_sr(Cpu { ac: r, ..c }, s), m)
            } else {
                (with_sr(c, s), m.update(ea as int, r))
            }
        },
    }
}

/// Jumps, subroutines, interrupts and the stack instructions.
pub open spec fn exec_control(c: Cpu, m: Seq<u8>, ins: Instruction, p: u16) -> (Cpu, Seq<u8>) {
    let sr = c.sr.bits;
    match ins.mnemonic {
        Mnemonic::JMP => (Cpu { pc: c.effective_addr(m, ins.addr_mode, p), ..c }, m),
        Mnemonic::JSR => {
            let (c1, m1) = c.push16(m, wrap16(c.pc - 1));
            (Cpu { pc: word_at(m1, p), ..c1 }, m1)
        },
        Mnemonic::RTS => {
            let (c1, ret) = c.pop16(m);
            (Cpu { pc: wrap16(ret + 1), ..c1 }, m)
        },
        Mnemonic::BRK => {
            let (c1, m1) = c.push16(m, wrap16(c.pc + 1));
            let (c2, m2) = c1.push8(m1, sr | StatusFlags::B | StatusFlags::RESERVED);
            (Cpu { pc: word_at(m2, VECTOR_IRQ), ..with_sr(c2, sr | StatusFlags::I) }, m2)
        },
        Mnemonic::RTI => {
            let (c1, pulled) = c.pop8(m);
            let (c2, ret) = c1.pop16(m);
            (Cpu { pc: ret, ..with_sr(c2, pulled_sr(pulled, sr)) }, m)
        },
        Mnemonic::PHA => c.push8(m, c.ac),
        Mnemonic::PHP => c.push8(m, sr | StatusFlags::RESERVED | StatusFlags::B),
        Mnemonic::PLA => {
            let (c1, v) = c.pop8(m);
            (with_sr(Cpu { ac: v, ..c1 }, nz(sr, v)), m)
        },
        _ => {
            let (c1, v) = c.pop8(m);
            (with_sr(c1, pulled_sr(v, sr)), m)
        },
    }
}

/// A branch: the new state and the extra cycles (1 when taken within the
/// page, 2 when taken to another page, 0 when not taken).
pub open spec fn exec_branch(c: Cpu, m: Seq<u8>, ins: Instruction, p: u16) -> (Cpu, u8) {
    if branch_taken(ins.mnemonic, c.sr.bits) {
        let target = c.effective_addr(m, AddressingMode::REL, p);
        (Cpu { pc: target, ..c }, if page_differs(c.pc, target) { 2 } else { 1 })
    } else {
        (c, 0)
    }
}

/// Which part of the instruction set a mnemonic belongs to.
pub open spec fn is_read(mn: Mnemonic) -> bool {
    mn == Mnemonic::ADC || mn == Mnemonic::SBC || mn == Mnemonic::AND || mn == Mnemonic::EOR
        || mn == Mnemonic::ORA || mn == Mnemonic::CMP || mn == Mnemonic::CPX || mn == Mnemonic::CPY
        || mn == Mnemonic::BIT || mn == Mnemonic::LDA || mn == Mnemonic::LDX || mn == Mnemonic::LDY
}

pub open spec fn is_write(mn: Mnemonic) -> bool {
    mn == Mnemonic::STA || mn == Mnemonic::STX || mn == Mnemonic::STY || mn == Mnemonic::INC
        || mn == Mnemonic::DEC || mn == Mnemonic::ASL || mn == Mnemonic::LSR || mn == Mnemonic::ROL
        || mn == Mnemonic::ROR
}

pub open spec fn is_branch(mn: Mnemonic) -> bool {
    mn == Mnemonic::BCC || mn == Mnemonic::BCS || mn == Mnemonic::BEQ || mn == Mnemonic::BNE
        || mn == Mnemonic::BPL || mn == Mnemonic::BMI || mn == Mnemonic::BVC || mn == Mnemonic::BVS
}

pub open spec fn is_control(mn: Mnemonic) -> bool {
    mn == Mnemonic::JMP || mn == Mnemonic::JSR || mn == Mnemonic::RTS || mn == Mnemonic::BRK
        || mn == Mnemonic::RTI || mn == Mnemonic::PHA || mn == Mnemonic::PHP || mn == Mnemonic::PLA
        || mn == Mnemonic::PLP
}

/// Executes `ins`, whose operand bytes start at `p`, on a processor whose
/// program counter already points past the instruction; gives the new state
/// and the extra cycles.
#[verifier::opaque]
pub open spec fn execute(c: Cpu, m: Seq<u8>, ins: Instruction, p: u16) -> (Cpu, Seq<u8>, u8) {
    if is_read(ins.mnemonic) {
        (exec_read(c, m, ins, p), m, 0)
    } else if is_write(ins.mnemonic) {
        let (c1, m1) = exec_write(c, m, ins, p);
        (c1, m1, 0)
    } else if is_branch(ins.mnemonic) {
        let (c1, extra) = exec_branch(c, m, ins, p);
        (c1, m, extra)
    } else if is_control(ins.mnemonic) {
        let (c1, m1) = exec_control(c, m, ins, p);
        (c1, m1, 0)
    } else {
        (exec_implied(c, ins.mnemonic), m, 0)
    }
}

pub open spec fn sat_add(a: u64, b: int) -> u64 {
    if a + b > u64::MAX {
        u64::MAX
    } else {
        (a + b) as u64
    }
}

/// One instruction: fetch the opcode at PC, decode it, advance PC past it,
/// execute it, set the reserved bit and count its cycles. Gives the new
/// registers, the new memory and the cycles used.
pub open spec fn step_spec(c: Cpu, m: Seq<u8>) -> Result<(Cpu, Seq<u8>, u64), ExecError> {
    let opcode = byte_at(m, c.pc);
    match decode(opcode) {
        None => Err(ExecError::DecodeError(opcode)),
        Some(ins) => {
            if (ins.mnemonic == Mnemonic::ADC || ins.mnemonic == Mnemonic::SBC) && has_bits(
                c.sr.bits,
                StatusFlags::D,
            ) {
                Err(ExecError::UnsupportedMode(opcode))
            } else {
                let c1 = Cpu { pc: wrap16(c.pc + ins.addr_mode.len()), ..c };
                let (c2, m2, extra) = execute(c1, m, ins, wrap16(c.pc + 1));
                let used = ins.cycles + extra;
                Ok(
                    (
                        Cpu {
                            cycles: sat_add(c2.cycles, used),
                            ..with_sr(c2, c2.sr.bits | StatusFlags::RESERVED)
                        },
                        m2,
                        used as u64,
                    ),
                )
            }
        },
    }
}


/// Runs instructions while the cycle budget lasts: each one's cycles are
/// taken from the budget, which stops at zero. An instruction that cannot be
/// executed ends the run with its error and leaves the state as it was
/// before it.
pub open spec fn run(c: Cpu, m: Seq<u8>, budget: nat) -> (Cpu, Seq<u8>, Result<(), ExecError>)
    decreases budget,
{
    if budget == 0 {
        (c, m, Ok(()))
    } else {
        match step_spec(c, m) {
            Err(e) => (c, m, Err(e)),
            Ok((c1, m1, used)) => {
                proof {
                    lemma_decode_cycles(byte_at(m, c.pc));
                }
                run(c1, m1, if budget > used { (budget - used) as nat } else { 0 })
            },
        }
    }
}

impl Cpu {
    /// All registers zero but the status register, whose reserved bit is set.
    pub fn create() -> (r: Cpu)
        ensures
            r.pc == 0 && r.ac == 0 && r.x == 0 && r.y == 0 && r.sp == 0 && r.cycles == 0,
            r.sr.bits == StatusFlags::RESERVED,
    {
        Cpu { pc: 0, ac: 0, x: 0, y: 0, sr: StatusFlags::default(), sp: 0, cycles: 0 }
    }

    /// Whether a branch by `rel` from `cur_addr` lands on another page.
    pub fn is_page_crossed(cur_addr: u16, rel: i8) -> (r: bool)
        ensures
            r == page_differs(cur_addr, wrap16(cur_addr + rel)),
    {
        let target_addr = cur_addr.wrapping_add_signed(rel as i16);
        Self::is_page_different(cur_addr, target_addr)
    }

    /// Whether the two addresses lie on different 256-byte pages.
    pub fn is_page_different(cur_addr: u16, target_addr: u16) -> (r: bool)
        ensures
            r == page_differs(cur_addr, target_addr),
            r == ((cur_addr >> 8u16) != (target_addr >> 8u16)),
    {
        assert(cur_addr >> 8u16 == cur_addr / 0x100) by (bit_vector);
        assert(target_addr >> 8u16 == target_addr / 0x100) by (bit_vector);
        let current_page = cur_addr / 0x100;
        let target_page = target_addr / 0x100;
        current_page != target_page
    }

    /// Resets memory and registers: PC from the reset vector, SP at
    /// `INITIAL_STACK_POINTER`, only the reserved flag set, 7 cycles counted.
    pub fn reset(&mut self, mem: &mut Memory)
        ensures
            final(mem).wf(),
            final(mem)@ == reset_image(),
            final(mem).next_write() is None,
            final(self).pc == ADDR_RESET_VECTOR,
            final(self).ac == 0 && final(self).x == 0 && final(self).y == 0,
            final(self).sr.bits == StatusFlags::RESERVED,
            final(self).sp == INITIAL_STACK_POINTER,
            final(self).cycles == CYCLES_AFTER_RESET,
    {
        mem.reset();
        self.ac = 0;
        self.x = 0;
        self.y = 0;
        self.sr = StatusFlags::default();
        self.pc = mem.read_u16(VECTOR_RES);
        self.sp = INITIAL_STACK_POINTER;
        self.cycles = CYCLES_AFTER_RESET;
    }

    /// The stack address for the stack pointer value `addr`.
    pub fn addr_stack(&self, addr: u8) -> (r: u16)
        ensures
            r == stack_addr(addr),
            0x0100 <= r <= 0x01FF,
    {
        STACK_BASE + addr as u16
    }

    /// Pushes a byte: it goes to the stack address of SP, then SP decrements.
    pub fn stack_push_u8(&mut self, mem: &mut Memory, value: u8)
        requires
            old(mem).wf(),
        ensures
            final(mem).wf(),
            final(mem).next_write() == old(mem).next_write(),
            (*final(self), final(mem)@) == old(self).push8(old(mem)@, value),
    {
        mem.store_u8(self.addr_stack(self.sp), value);
        self.sp = self.sp.wrapping_sub(1);
    }

    /// Pushes a 16-bit value high byte first: the high byte goes to the
    /// stack address of SP, the low byte to the one below it, then SP
    /// decrements by 2.
    pub fn stack_push_u16(&mut self, mem: &mut Memory, value: u16)
        requires
            old(mem).wf(),
        ensures
            final(mem).wf(),
            final(mem).next_write() == old(mem).next_write(),
            (*final(self), final(mem)@) == old(self).push16(old(mem)@, value),
    {
        mem.store_u8(self.addr_stack(self.sp), (value / 0x100) as u8);
        mem.store_u8(self.addr_stack(self.sp.wrapping_sub(1)), (value % 0x100) as u8);
        self.sp = self.sp.wrapping_sub(2);
    }

    /// Pulls a byte: SP increments, then the byte at its stack address is read.
    pub fn stack_pop_u8(&mut self, mem: &Memory) -> (r: u8)
        requires
            mem.wf(),
        ensures
            (*final(self), r) == old(self).pop8(mem@),
    {
        self.sp = self.sp.wrapping_add(1);
        mem.read_u8(self.addr_stack(self.sp))
    }

    /// Pulls a 16-bit value pushed by `stack_push_u16`: the low byte from
    /// the stack address of SP + 1, the high byte from SP + 2; SP increments
    /// by 2.
    pub fn stack_pop_u16(&mut self, mem: &Memory) -> (r: u16)
        requires
            mem.wf(),
        ensures
            (*final(self), r) == old(self).pop16(mem@),
    {
        let lo = mem.read_u8(self.addr_stack(self.sp.wrapping_add(1))) as u16;
        let hi = mem.read_u8(self.addr_stack(self.sp.wrapping_add(2))) as u16;
        self.sp = self.sp.wrapping_add(2);
        lo + hi * 0x100
    }

    pub fn addr_zpg(&self, addr: u8) -> (r: u16)
        ensures
            r == addr as u16,
            r <= 0x00FF,
    {
        ZERO_PAGE_BASE + addr as u16
    }

    pub fn fetch_addr_zpg(&self, mem: &Memory, addr: u16) -> (r: u16)
        requires
            mem.wf(),
        ensures
            r == self.effective_addr(mem@, AddressingMode::ZPG, addr),
            r <= 0x00FF,
    {
        self.addr_zpg(mem.read_u8(addr))
    }

    /// `addr + X` within the zero page.
    pub fn addr_zpx(&self, addr: u8) -> (r: u16)
        ensures
            r == zp_indexed(addr, self.x),
            r <= 0x00FF,
    {
        ZERO_PAGE_BASE + addr.wrapping_add(self.x) as u16
    }

    pub fn fetch_addr_zpx(&self, mem: &Memory, addr: u16) -> (r: u16)
        requires
            mem.wf(),
        ensures
            r == self.effective_addr(mem@, AddressingMode::ZPX, addr),
            r <= 0x00FF,
    {
        self.addr_zpx(mem.read_u8(addr))
    }

    /// `addr + Y` within the zero page.
    pub fn addr_zpy(&self, addr: u8) -> (r: u16)
        ensures
            r == zp_indexed(addr, self.y),
            r <= 0x00FF,
    {
        ZERO_PAGE_BASE + addr.wrapping_add(self.y) as u16
    }

    pub fn fetch_addr_zpy(&self, mem: &Memory, addr: u16) -> (r: u16)
        requires
            mem.wf(),
        ensures
            r == self.effective_addr(mem@, AddressingMode::ZPY, addr),
            r <= 0x00FF,
    {
        self.addr_zpy(mem.read_u8(addr))
    }

    pub fn addr_abs(&self, addr: u16) -> (r: u16)
        ensures
            r == addr,
    {
        addr
    }

    pub fn fetch_addr_abs(&self, mem: &Memory, addr: u16) -> (r: u16)
        requires
            mem.wf(),
        ensures
            r == self.effective_addr(mem@, AddressingMode::ABS, addr),
    {
        self.addr_abs(mem.read_u16(addr))
    }

    /// `addr + X`, wrapping at `0xFFFF`.
    pub fn addr_abx(&self, addr: u16) -> (r: u16)
        ensures
            r == wrap16(addr + self.x),
    {
        addr.wrapping_add(self.x as u16)
    }

    pub fn fetch_addr_abx(&self, mem: &Memory, addr: u16) -> (r: u16)
        requires
            mem.wf(),
        ensures
            r == self.effective_addr(mem@, AddressingMode::ABX, addr),
    {
        self.addr_abx(mem.read_u16(addr))
    }

    /// `addr + Y`, wrapping at `0xFFFF`.
    pub fn addr_aby(&self, addr: u16) -> (r: u16)
        ensures
            r == wrap16(addr + self.y),
    {
        addr.wrapping_add(self.y as u16)
    }

    pub fn fetch_addr_aby(&self, mem: &Memory, addr: u16) -> (r: u16)
        requires
            mem.wf(),
        ensures
            r == self.effective_addr(mem@, AddressingMode::ABY, addr),
    {
        self.addr_aby(mem.read_u16(addr))
    }

    /// The address stored at `addr`.
    pub fn addr_ind(&self, mem: &Memory, addr: u16) -> (r: u16)
        requires
            mem.wf(),
        ensures
            r == word_at(mem@, addr),
    {
        mem.read_u16(addr)
    }

    pub fn fetch_addr_ind(&self, mem: &Memory, addr: u16) -> (r: u16)
        requires
            mem.wf(),
        ensures
            r == self.effective_addr(mem@, AddressingMode::IND, addr),
    {
        self.addr_ind(mem, mem.read_u16(addr))
    }

    /// The address stored at the zero-page address `addr + X`.
    pub fn addr_idx(&self, mem: &Memory, addr: u8) -> (r: u16)
        requires
            mem.wf(),
        ensures
            r == word_at(mem@, zp_indexed(addr, self.x)),
    {
        mem.read_u16(self.addr_zpx(addr))
    }

    pub fn fetch_addr_idx(&self, mem: &Memory, addr: u16) -> (r: u16)
        requires
            mem.wf(),
        ensures
            r == self.effective_addr(mem@, AddressingMode::IDX, addr),
    {
        self.addr_idx(mem, mem.read_u8(addr))
    }

    /// The address stored at the zero-page address `addr`, plus Y.
    pub fn addr_idy(&self, mem: &Memory, addr: u8) -> (r: u16)
        requires
            mem.wf(),
        ensures
            r == wrap16(word_at(mem@, addr as u16) + self.y),
    {
        mem.read_u16(ZERO_PAGE_BASE + addr as u16).wrapping_add(self.y as u16)
    }

    pub fn fetch_addr_idy(&self, mem: &Memory, addr: u16) -> (r: u16)
        requires
            mem.wf(),
        ensures
            r == self.effective_addr(mem@, AddressingMode::IDY, addr),
    {
        self.addr_idy(mem, mem.read_u8(addr))
    }

    /// PC plus the signed offset `rel`, wrapping around.
    pub fn addr_rel(&self, rel: i8) -> (r: u16)
        ensures
            r == wrap16(self.pc + rel),
    {
        self.pc.wrapping_add_signed(rel as i16)
    }

    pub fn fetch_addr_rel(&self, mem: &Memory, addr: u16) -> (r: u16)
        requires
            mem.wf(),
        ensures
            r == self.effective_addr(mem@, AddressingMode::REL, addr),
    {
        self.addr_rel(mem.read_i8(addr))
    }

    /// The effective address of the operand of `ins`, whose bytes start at
    /// `addr`; for the modes without an address (immediate, implied,
    /// accumulator), `addr` itself.
    pub fn fetch_addr(&self, mem: &Memory, ins: &Instruction, addr: u16) -> (r: u16)
        requires
            mem.wf(),
        ensures
            r == self.effective_addr(mem@, ins.addr_mode, addr),
    {
        match ins.addr_mode {
            AddressingMode::ZPG => self.fetch_addr_zpg(mem, addr),
            AddressingMode::ZPX => self.fetch_addr_zpx(mem, addr),
            AddressingMode::ZPY => self.fetch_addr_zpy(mem, addr),
            AddressingMode::ABS => self.fetch_addr_abs(mem, addr),
            AddressingMode::ABX => self.fetch_addr_abx(mem, addr),
            AddressingMode::ABY => self.fetch_addr_aby(mem, addr),
            AddressingMode::IND => self.fetch_addr_ind(mem, addr),
            AddressingMode::IDX => self.fetch_addr_idx(mem, addr),
            AddressingMode::IDY => self.fetch_addr_idy(mem, addr),
            AddressingMode::REL => self.fetch_addr_rel(mem, addr),
            _ => addr,
        }
    }

    /// The operand of `ins`: the accumulator, or the byte at its effective address.
    fn fetch_operand(&self, mem: &Memory, ins: &Instruction, p: u16) -> (r: u8)
        requires
            mem.wf(),
        ensures
            r == self.operand(mem@, ins.addr_mode, p),
    {
        if ins.addr_mode == AddressingMode::ACC {
            self.ac
        } else {
            mem.read_u8(self.fetch_addr(mem, ins, p))
        }
    }

    /// Sets Z and N from `v`.
    fn set_nz(&mut self, v: u8)
        ensures
            *final(self) == with_sr(*old(self), nz(old(self).sr.bits, v)),
    {
        self.sr.set(StatusFlags::Z, v == 0);
        self.sr.set(StatusFlags::N, v >= 0x80);
    }

    /// Sets Z, C and N from the comparison of `reg` with `v`.
    fn compare_with(&mut self, reg: u8, v: u8)
        ensures
            *final(self) == with_sr(*old(self), compare(reg, v, old(self).sr.bits)),
    {
        self.sr.set(StatusFlags::Z, reg == v);
        self.sr.set(StatusFlags::C, reg >= v);
        self.sr.set(StatusFlags::N, reg.wrapping_sub(v) >= 0x80);
    }

    fn handle_read(&mut self, mem: &Memory, ins: &Instruction, p: u16)
        requires
            mem.wf(),
            is_read(ins.mnemonic),
        ensures
            *final(self) == exec_read(*old(self), mem@, *ins, p),
    {
        let v = self.fetch_operand(mem, ins, p);
        let a = self.ac;
        match ins.mnemonic {
            Mnemonic::ADC => {
                let carry: u16 = if self.sr.contains(StatusFlags::C) { 1 } else { 0 };
                let sum: u16 = a as u16 + v as u16 + carry;
                let r = (sum % 0x100) as u8;
                self.sr.set(StatusFlags::C, sum > 0xFF);
                self.sr.set(StatusFlags::V, (!(a ^ v) & (a ^ r) & 0x80u8) != 0);
                self.ac = r;
                self.set_nz(r);
            },
            Mnemonic::SBC => {
                let borrow: i16 = if self.sr.contains(StatusFlags::C) { 0 } else { 1 };
                let diff: i16 = a as i16 - v as i16 - borrow;
                let r: u8 = if diff < 0 { (diff + 0x100) as u8 } else { diff as u8 };
                self.sr.set(StatusFlags::C, diff >= 0);
                self.sr.set(StatusFlags::V, ((a ^ v) & (a ^ r) & 0x80u8) != 0);
                self.ac = r;
                self.set_nz(r);
            },
            Mnemonic::AND => {
                self.ac = a & v;
                self.set_nz(a & v);
            },
            Mnemonic::EOR => {
                self.ac = a ^ v;
                self.set_nz(a ^ v);
            },
            Mnemonic::ORA => {
                self.ac = a | v;
                self.set_nz(a | v);
            },
            Mnemonic::CMP => self.compare_with(a, v),
            Mnemonic::CPX => self.compare_with(self.x, v),
            Mnemonic::CPY => self.compare_with(self.y, v),
            Mnemonic::BIT => {
                self.sr.set(StatusFlags::N, v & 0x80u8 != 0);
                self.sr.set(StatusFlags::V, v & 0x40u8 != 0);
                self.sr.set(StatusFlags::Z, a & v == 0);
            },
            Mnemonic::LDA => {
                self.ac = v;
                self.set_nz(v);
            },
            Mnemonic::LDX => {
                self.x = v;
                self.set_nz(v);
            },
            _ => {
                self.y = v;
                self.set_nz(v);
            },
        }
    }

    fn handle_implied(&mut self, mnemonic: Mnemonic)
        ensures
            *final(self) == exec_implied(*old(self), mnemonic),
    {
        match mnemonic {
            Mnemonic::TAX => {
                self.x = self.ac;
                self.set_nz(self.ac);
            },
            Mnemonic::TAY => {
                self.y = self.ac;
                self.set_nz(self.ac);
            },
            Mnemonic::TXA => {
                self.ac = self.x;
                self.set_nz(self.x);
            },
            Mnemonic::TYA => {
                self.ac = self.y;
                self.set_nz(self.y);
            },
            Mnemonic::TSX => {
                self.x = self.sp;
                self.set_nz(self.sp);
            },
            // the only transfer that leaves the flags alone
            Mnemonic::TXS => self.sp = self.x,
            Mnemonic::CLC => self.sr.remove(StatusFlags::C),
            Mnemonic::CLD => self.sr.remove(StatusFlags::D),
            Mnemonic::CLI => self.sr.remove(StatusFlags::I),
            Mnemonic::CLV => self.sr.remove(StatusFlags::V),
            Mnemonic::SEC => self.sr.insert(StatusFlags::C),
            Mnemonic::SED => self.sr.insert(StatusFlags::D),
            Mnemonic::SEI => self.sr.insert(StatusFlags::I),
            Mnemonic::INX => {
                self.x = self.x.wrapping_add(1);
                self.set_nz(self.x);
            },
            Mnemonic::INY => {
                self.y = self.y.wrapping_add(1);
                self.set_nz(self.y);
            },
            Mnemonic::DEX => {
                self.x = self.x.wrapping_sub(1);
                self.set_nz(self.x);
            },
            Mnemonic::DEY => {
                self.y = self.y.wrapping_sub(1);
                self.set_nz(self.y);
            },
            _ => {},
        }
    }

    fn handle_write(&mut self, mem: &mut Memory, ins: &Instruction, p: u16)
        requires
            old(mem).wf(),
            is_write(ins.mnemonic),
        ensures
            final(mem).wf(),
            final(mem).next_write() == old(mem).next_write(),
            (*final(self), final(mem)@) == exec_write(*old(self), old(mem)@, *ins, p),
    {
        let ea = self.fetch_addr(mem, ins, p);
        let v = self.fetch_operand(mem, ins, p);
        match ins.mnemonic {
            Mnemonic::STA => mem.store_u8(ea, self.ac),
            Mnemonic::STX => mem.store_u8(ea, self.x),
            Mnemonic::STY => mem.store_u8(ea, self.y),
            Mnemonic::INC => {
                let r = v.wrapping_add(1);
                mem.store_u8(ea, r);
                self.set_nz(r);
            },
            Mnemonic::DEC => {
                let r = v.wrapping_sub(1);
                mem.store_u8(ea, r);
                self.set_nz(r);
            },
            _ => {
                let mn = ins.mnemonic;
                let carry: u16 = if self.sr.contains(StatusFlags::C) { 1 } else { 0 };
                let left = mn == Mnemonic::ASL || mn == Mnemonic::ROL;
                // the rotates shift the old carry in
                let fill: u16 = if mn == Mnemonic::ROL || mn == Mnemonic::ROR { carry } else { 0 };
                let r: u8 = if left {
                    ((v as u16 * 2 + fill) % 0x100) as u8
                } else {
                    (v as u16 / 2 + 0x80 * fill) as u8
                };
                let carry_out = if left { v >= 0x80 } else { v % 2 == 1 };
                self.sr.set(StatusFlags::C, carry_out);
                self.set_nz(r);
                if ins.addr_mode == AddressingMode::ACC {
                    self.ac = r;
                } else {
                    mem.store_u8(ea, r);
                }
            },
        }
    }

    fn handle_branch(&mut self, mem: &Memory, ins: &Instruction, p: u16) -> (extra: u8)
        requires
            mem.wf(),
        ensures
            (*final(self), extra) == exec_branch(*old(self), mem@, *ins, p),
    {
        let taken = match ins.mnemonic {
            Mnemonic::BCC => !self.sr.contains(StatusFlags::C),
            Mnemonic::BCS => self.sr.contains(StatusFlags::C),
            Mnemonic::BEQ => self.sr.contains(StatusFlags::Z),
            Mnemonic::BNE => !self.sr.contains(StatusFlags::Z),
            Mnemonic::BPL => !self.sr.contains(StatusFlags::N),
            Mnemonic::BMI => self.sr.contains(StatusFlags::N),
            Mnemonic::BVC => !self.sr.contains(StatusFlags::V),
            Mnemonic::BVS => self.sr.contains(StatusFlags::V),
            _ => false,
        };
        if taken {
            let target = self.fetch_addr_rel(mem, p);
            // one more cycle within the page, two when the page changes
            let extra: u8 = if Self::is_page_different(self.pc, target) { 2 } else { 1 };
            self.pc = target;
            extra
        } else {
            0
        }
    }

    fn handle_control(&mut self, mem: &mut Memory, ins: &Instruction, p: u16)
        requires
            old(mem).wf(),
            is_control(ins.mnemonic),
        ensures
            final(mem).wf(),
            final(mem).next_write() == old(mem).next_write(),
            (*final(self), final(mem)@) == exec_control(*old(self), old(mem)@, *ins, p),
    {
        match ins.mnemonic {
            Mnemonic::JMP | Mnemonic::JSR | Mnemonic::RTS => self.handle_jump(mem, ins, p),
            Mnemonic::BRK | Mnemonic::RTI => self.handle_interrupt(mem, ins),
            _ => self.handle_stack(mem, ins),
        }
    }

    fn handle_jump(&mut self, mem: &mut Memory, ins: &Instruction, p: u16)
        requires
            old(mem).wf(),
            ins.mnemonic == Mnemonic::JMP || ins.mnemonic == Mnemonic::JSR || ins.mnemonic
                == Mnemonic::RTS,
        ensures
            final(mem).wf(),
            final(mem).next_write() == old(mem).next_write(),
            (*final(self), final(mem)@) == exec_control(*old(self), old(mem)@, *ins, p),
    {
        match ins.mnemonic {
            Mnemonic::JMP => self.pc = self.fetch_addr(mem, ins, p),
            Mnemonic::JSR => {
                // the address of the last byte of the JSR instruction
                self.stack_push_u16(mem, self.pc.wrapping_sub(1));
                self.pc = self.fetch_addr_abs(mem, p);
            },
            _ => {
                let ret = self.stack_pop_u16(mem);
                self.pc = ret.wrapping_add(1);
            },
        }
    }

    fn handle_interrupt(&mut self, mem: &mut Memory, ins: &Instruction)
        requires
            old(mem).wf(),
            ins.mnemonic == Mnemonic::BRK || ins.mnemonic == Mnemonic::RTI,
        ensures
            final(mem).wf(),
            final(mem).next_write() == old(mem).next_write(),
            forall|p: u16|
                (*final(self), final(mem)@) == #[trigger] exec_control(*old(self), old(mem)@, *ins, p),
    {
        let sr = self.sr.bits;
        if ins.mnemonic == Mnemonic::BRK {
            self.stack_push_u16(mem, self.pc.wrapping_add(1));
            self.stack_push_u8(mem, sr | StatusFlags::B | StatusFlags::RESERVED);
            self.sr.insert(StatusFlags::I);
            self.pc = mem.read_u16(VECTOR_IRQ);
        } else {
            let pulled = self.stack_pop_u8(mem);
            let ret = self.stack_pop_u16(mem);
            self.sr = self.pulled_flags(pulled, sr);
            self.pc = ret;
        }
    }

    fn handle_stack(&mut self, mem: &mut Memory, ins: &Instruction)
        requires
            old(mem).wf(),
            ins.mnemonic == Mnemonic::PHA || ins.mnemonic == Mnemonic::PHP || ins.mnemonic
                == Mnemonic::PLA || ins.mnemonic == Mnemonic::PLP,
        ensures
            final(mem).wf(),
            final(mem).next_write() == old(mem).next_write(),
            forall|p: u16|
                (*final(self), final(mem)@) == #[trigger] exec_control(*old(self), old(mem)@, *ins, p),
    {
        let sr = self.sr.bits;
        match ins.mnemonic {
            Mnemonic::PHA => self.stack_push_u8(mem, self.ac),
            // pushed with the reserved and B bits set
            Mnemonic::PHP => self.stack_push_u8(mem, sr | StatusFlags::RESERVED | StatusFlags::B),
            Mnemonic::PLA => {
                let v = self.stack_pop_u8(mem);
                self.ac = v;
                self.set_nz(v);
            },
            _ => {
                let pulled = self.stack_pop_u8(mem);
                self.sr = self.pulled_flags(pulled, sr);
            },
        }
    }

    /// A pulled status byte; its reserved and B bits are ignored in favour
    /// of those of `cur`.
    fn pulled_flags(&self, pulled: u8, cur: u8) -> (r: StatusFlags)
        ensures
            r.bits == pulled_sr(pulled, cur),
    {
        let cur = StatusFlags::from_bits_truncate(cur);
        let mut s = StatusFlags::from_bits_truncate(pulled);
        s.set(StatusFlags::RESERVED, cur.contains(StatusFlags::RESERVED));
        s.set(StatusFlags::B, cur.contains(StatusFlags::B));
        s
    }

    /// Executes `ins`, whose operand bytes start at `cur_addr`; PC already
    /// points past the instruction. Returns the extra cycles of a taken branch.
    fn handle_opcode(&mut self, mem: &mut Memory, ins: &Instruction, cur_addr: u16) -> (r: u8)
        requires
            old(mem).wf(),
        ensures
            final(mem).wf(),
            final(mem).next_write() == old(mem).next_write(),
            (*final(self), final(mem)@, r) == execute(*old(self), old(mem)@, *ins, cur_addr),
    {
        reveal(execute);
        match ins.mnemonic {
            Mnemonic::ADC | Mnemonic::SBC | Mnemonic::AND | Mnemonic::EOR | Mnemonic::ORA
            | Mnemonic::CMP | Mnemonic::CPX | Mnemonic::CPY | Mnemonic::BIT | Mnemonic::LDA
            | Mnemonic::LDX | Mnemonic::LDY => {
                self.handle_read(mem, ins, cur_addr);
                0
            },
            Mnemonic::STA | Mnemonic::STX | Mnemonic::STY | Mnemonic::INC | Mnemonic::DEC
            | Mnemonic::ASL | Mnemonic::LSR | Mnemonic::ROL | Mnemonic::ROR => {
                self.handle_write(mem, ins, cur_addr);
                0
            },
            Mnemonic::BCC | Mnemonic::BCS | Mnemonic::BEQ | Mnemonic::BNE | Mnemonic::BPL
            | Mnemonic::BMI | Mnemonic::BVC | Mnemonic::BVS => self.handle_branch(mem, ins, cur_addr),
            Mnemonic::JMP | Mnemonic::JSR | Mnemonic::RTS | Mnemonic::BRK | Mnemonic::RTI
            | Mnemonic::PHA | Mnemonic::PHP | Mnemonic::PLA | Mnemonic::PLP => {
                self.handle_control(mem, ins, cur_addr);
                0
            },
            _ => {
                self.handle_implied(ins.mnemonic);
                0
            },
        }
    }

    /// Executes the instruction at PC.
    ///
    /// Returns the cycles it took, or why it could not be executed; in that
    /// case nothing has changed.
    pub fn step(&mut self, mem: &mut Memory) -> (r: Result<u64, ExecError>)
        requires
            old(mem).wf(),
        ensures
            final(mem).wf(),
            final(mem).next_write() == old(mem).next_write(),
            match step_spec(*old(self), old(mem)@) {
                Ok((c, m, used)) => r == Ok::<u64, ExecError>(used) && *final(self) == c
                    && final(mem)@ == m,
                Err(e) => r == Err::<u64, ExecError>(e) && *final(self) == *old(self)
                    && final(mem)@ == old(mem)@,
            },
            r is Ok ==> r->Ok_0 >= 2,
            r is Ok ==> has_bits(final(self).sr.bits, StatusFlags::RESERVED),
    {
        let opcode = mem.read_u8(self.pc);
        let cur_addr = self.pc.wrapping_add(1);
        let ins = match Instruction::from_opcode(opcode) {
            Ok(ins) => ins,
            Err(e) => return Err(e),
        };
        // decimal mode is not implemented
        if (ins.mnemonic == Mnemonic::ADC || ins.mnemonic == Mnemonic::SBC) && self.sr.contains(
            StatusFlags::D,
        ) {
            return Err(ExecError::UnsupportedMode(opcode));
        }
        self.pc = self.pc.wrapping_add(ins.bytes() as u16);
        let extra = self.handle_opcode(mem, &ins, cur_addr);
        proof {
            let b = self.sr.bits;
            assert((b | 0x20u8) & 0x20u8 == 0x20u8) by (bit_vector);
        }
        self.sr.insert(StatusFlags::RESERVED);
        let used: u64 = ins.cycles as u64 + extra as u64;
        self.cycles = self.cycles.saturating_add(used);
        Ok(used)
    }

    /// Executes instructions until `max_cycles` cycles are used up (the last
    /// instruction may overrun them) or an instruction cannot be executed.
    pub fn exec(&mut self, mem: &mut Memory, max_cycles: u64) -> (r: Result<(), ExecError>)
        requires
            old(mem).wf(),
        ensures
            final(mem).wf(),
            final(mem).next_write() == old(mem).next_write(),
            (*final(self), final(mem)@, r) == run(*old(self), old(mem)@, max_cycles as nat),
    {
        let mut cycles_to_execute = max_cycles;
        while cycles_to_execute > 0
            invariant
                mem.wf(),
                mem.next_write() == old(mem).next_write(),
                run(*self, mem@, cycles_to_execute as nat) == run(*old(self), old(mem)@, max_cycles as nat),
            decreases cycles_to_execute,
        {
            match self.step(mem) {
                Ok(used) => {
                    cycles_to_execute = cycles_to_execute.saturating_sub(used);
                },
                Err(e) => {
                    return Err(e);
                },
            }
        }
        Ok(())
    }
}

} // verus!
