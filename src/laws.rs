//! Properties that relate several instructions, proved over the semantics
//! that `cpu::step_spec` states.

use vstd::prelude::*;

use crate::cpu::{
    branch_taken, exec_branch, exec_control, exec_implied, exec_read, exec_write, execute,
    is_branch, page_differs, shift, stack_addr, step_spec, with_sr, zp_indexed, Cpu,
};
use crate::flags::{group_flag_lemmas, has_bits, StatusFlags};
use crate::instruction::{decode, entry, AddressingMode, Mnemonic, Opcode};
use crate::mem::{byte_at, hi_byte, lo_byte, signed8, word_at, wrap16, wrap8};

verus! {

/// Zero page indexing (ZPX, ZPY and the pointer of IDX) stays in the zero
/// page, whatever the base and the index.
pub proof fn zero_page_indexing_stays_in_page(b: u8, i: u8)
    ensures
        zp_indexed(b, i) <= 0x00FF,
{
}

/// Every stack address lies in `0x0100..=0x01FF`.
pub proof fn stack_addresses_stay_in_page(sp: u8)
    ensures
        0x0100 <= stack_addr(sp) <= 0x01FF,
{
}

/// The registers and memory after one instruction that executes.
pub open spec fn next(c: Cpu, m: Seq<u8>) -> (Cpu, Seq<u8>) {
    (step_spec(c, m)->Ok_0.0, step_spec(c, m)->Ok_0.1)
}

/// Whether the carry flag is set.
pub open spec fn carry(c: Cpu) -> bool {
    has_bits(c.sr.bits, StatusFlags::C)
}

/// Rotating the accumulator left and then right (`ROL A; ROR A`) gives the
/// accumulator and the carry back.
pub proof fn rol_then_ror_restores(c: Cpu, m: Seq<u8>)
    requires
        byte_at(m, c.pc) == 0x2A,
        byte_at(m, wrap16(c.pc + 1)) == 0x6A,
    ensures
        step_spec(c, m) is Ok,
        step_spec(next(c, m).0, next(c, m).1) is Ok,
        next(next(c, m).0, next(c, m).1).0.ac == c.ac,
        carry(next(next(c, m).0, next(c, m).1).0) == carry(c),
        next(next(c, m).0, next(c, m).1).1 == m,
{
    broadcast use group_flag_lemmas;

    let rol = entry(Opcode::ROL_ACC, Mnemonic::ROL, AddressingMode::ACC, 2);
    let ror = entry(Opcode::ROR_ACC, Mnemonic::ROR, AddressingMode::ACC, 2);
    assert(decode(0x2A) == Some(rol)) by {
        reveal(decode);
    }
    assert(decode(0x6A) == Some(ror)) by {
        reveal(decode);
    }
    let c0 = Cpu { pc: wrap16(c.pc + 1), ..c };
    let (r1, s1) = shift(Mnemonic::ROL, c.ac, c.sr.bits);
    assert(execute(c0, m, rol, wrap16(c.pc + 1)) == (with_sr(Cpu { ac: r1, ..c0 }, s1), m, 0u8)) by {
        reveal(execute);
    }
    let c1 = next(c, m).0;
    assert(c1.ac == r1);
    assert(carry(c1) == (c.ac >= 0x80));
    let c2 = Cpu { pc: wrap16(c1.pc + 1), ..c1 };
    let (r2, s2) = shift(Mnemonic::ROR, c1.ac, c1.sr.bits);
    assert(execute(c2, m, ror, wrap16(c1.pc + 1)) == (with_sr(Cpu { ac: r2, ..c2 }, s2), m, 0u8)) by {
        reveal(execute);
    }
    assert(r2 == c.ac);
}

/// Rotating the accumulator right and then left (`ROR A; ROL A`) gives the
/// accumulator and the carry back.
pub proof fn ror_then_rol_restores(c: Cpu, m: Seq<u8>)
    requires
        byte_at(m, c.pc) == 0x6A,
        byte_at(m, wrap16(c.pc + 1)) == 0x2A,
    ensures
        step_spec(c, m) is Ok,
        step_spec(next(c, m).0, next(c, m).1) is Ok,
        next(next(c, m).0, next(c, m).1).0.ac == c.ac,
        carry(next(next(c, m).0, next(c, m).1).0) == carry(c),
        next(next(c, m).0, next(c, m).1).1 == m,
{
    broadcast use group_flag_lemmas;

    let rol = entry(Opcode::ROL_ACC, Mnemonic::ROL, AddressingMode::ACC, 2);
    let ror = entry(Opcode::ROR_ACC, Mnemonic::ROR, AddressingMode::ACC, 2);
    assert(decode(0x2A) == Some(rol)) by {
        reveal(decode);
    }
    assert(decode(0x6A) == Some(ror)) by {
        reveal(decode);
    }
    let c0 = Cpu { pc: wrap16(c.pc + 1), ..c };
    let (r1, s1) = shift(Mnemonic::ROR, c.ac, c.sr.bits);
    assert(execute(c0, m, ror, wrap16(c.pc + 1)) == (with_sr(Cpu { ac: r1, ..c0 }, s1), m, 0u8)) by {
        reveal(execute);
    }
    let c1 = next(c, m).0;
    assert(c1.ac == r1);
    assert(carry(c1) == (c.ac % 2 == 1));
    let c2 = Cpu { pc: wrap16(c1.pc + 1), ..c1 };
    let (r2, s2) = shift(Mnemonic::ROL, c1.ac, c1.sr.bits);
    assert(execute(c2, m, rol, wrap16(c1.pc + 1)) == (with_sr(Cpu { ac: r2, ..c2 }, s2), m, 0u8)) by {
        reveal(execute);
    }
    assert(r2 == c.ac);
}

/// `CLC; ADC #v` at PC, decimal mode off: the accumulator gains `v`.
proof fn clear_carry_then_add(c: Cpu, m: Seq<u8>, v: u8)
    requires
        !has_bits(c.sr.bits, StatusFlags::D),
        byte_at(m, c.pc) == 0x18,
        byte_at(m, wrap16(c.pc + 1)) == 0x69,
        byte_at(m, wrap16(c.pc + 2)) == v,
    ensures
        step_spec(c, m) is Ok,
        step_spec(next(c, m).0, next(c, m).1) is Ok,
        next(next(c, m).0, next(c, m).1).1 == m,
        next(next(c, m).0, next(c, m).1).0.ac == wrap8(c.ac + v),
        next(next(c, m).0, next(c, m).1).0.pc == wrap16(c.pc + 3),
        !has_bits(next(next(c, m).0, next(c, m).1).0.sr.bits, StatusFlags::D),
{
    broadcast use group_flag_lemmas;

    let clc = entry(Opcode::CLC, Mnemonic::CLC, AddressingMode::IMP, 2);
    let adc_imm = entry(Opcode::ADC_IMM, Mnemonic::ADC, AddressingMode::IMM, 2);
    assert(decode(0x18) == Some(clc)) by {
        reveal(decode);
    }
    assert(decode(0x69) == Some(adc_imm)) by {
        reveal(decode);
    }
    let c0 = Cpu { pc: wrap16(c.pc + 1), ..c };
    assert(execute(c0, m, clc, wrap16(c.pc + 1)) == (exec_implied(c0, Mnemonic::CLC), m, 0u8)) by {
        reveal(execute);
    }
    let c1 = next(c, m).0;
    assert(next(c, m).1 == m);
    assert(!carry(c1) && !has_bits(c1.sr.bits, StatusFlags::D));
    let c1a = Cpu { pc: wrap16(c1.pc + 2), ..c1 };
    assert(execute(c1a, m, adc_imm, wrap16(c1.pc + 1)) == (
        exec_read(c1a, m, adc_imm, wrap16(c1.pc + 1)),
        m,
        0u8,
    )) by {
        reveal(execute);
    }
}

/// `SEC; SBC #v` at PC, decimal mode off: the accumulator loses `v`, and the
/// carry tells whether no borrow was needed.
proof fn set_carry_then_subtract(c: Cpu, m: Seq<u8>, v: u8)
    requires
        !has_bits(c.sr.bits, StatusFlags::D),
        byte_at(m, c.pc) == 0x38,
        byte_at(m, wrap16(c.pc + 1)) == 0xE9,
        byte_at(m, wrap16(c.pc + 2)) == v,
    ensures
        step_spec(c, m) is Ok,
        step_spec(next(c, m).0, next(c, m).1) is Ok,
        next(next(c, m).0, next(c, m).1).1 == m,
        next(next(c, m).0, next(c, m).1).0.ac == wrap8(c.ac - v),
        carry(next(next(c, m).0, next(c, m).1).0) == (c.ac >= v),
        next(next(c, m).0, next(c, m).1).0.pc == wrap16(c.pc + 3),
{
    broadcast use group_flag_lemmas;

    let sec = entry(Opcode::SEC, Mnemonic::SEC, AddressingMode::IMP, 2);
    let sbc_imm = entry(Opcode::SBC_IMM, Mnemonic::SBC, AddressingMode::IMM, 2);
    assert(decode(0x38) == Some(sec)) by {
        reveal(decode);
    }
    assert(decode(0xE9) == Some(sbc_imm)) by {
        reveal(decode);
    }
    let c0 = Cpu { pc: wrap16(c.pc + 1), ..c };
    assert(execute(c0, m, sec, wrap16(c.pc + 1)) == (exec_implied(c0, Mnemonic::SEC), m, 0u8)) by {
        reveal(execute);
    }
    let c1 = next(c, m).0;
    assert(next(c, m).1 == m);
    assert(carry(c1) && !has_bits(c1.sr.bits, StatusFlags::D));
    let c1a = Cpu { pc: wrap16(c1.pc + 2), ..c1 };
    assert(execute(c1a, m, sbc_imm, wrap16(c1.pc + 1)) == (
        exec_read(c1a, m, sbc_imm, wrap16(c1.pc + 1)),
        m,
        0u8,
    )) by {
        reveal(execute);
    }
}

/// The state after the program `CLC; ADC #v; SEC; SBC #v` at PC.
pub open spec fn after_add_sub(c: Cpu, m: Seq<u8>) -> Cpu {
    let (c1, m1) = next(c, m);
    let (c2, m2) = next(c1, m1);
    let (c3, m3) = next(c2, m2);
    next(c3, m3).0
}

/// Adding `v` with the carry clear and then subtracting `v` with the carry
/// set (`CLC; ADC #v; SEC; SBC #v`, decimal mode off) gives the accumulator
/// back. The carry then tells whether the addition stayed below 256.
pub proof fn add_then_subtract_restores(c: Cpu, m: Seq<u8>, v: u8)
    requires
        !has_bits(c.sr.bits, StatusFlags::D),
        byte_at(m, c.pc) == 0x18,
        byte_at(m, wrap16(c.pc + 1)) == 0x69,
        byte_at(m, wrap16(c.pc + 2)) == v,
        byte_at(m, wrap16(c.pc + 3)) == 0x38,
        byte_at(m, wrap16(c.pc + 4)) == 0xE9,
        byte_at(m, wrap16(c.pc + 5)) == v,
    ensures
        after_add_sub(c, m).ac == c.ac,
        carry(after_add_sub(c, m)) == (c.ac + v <= 0xFF),
        after_add_sub(c, m).pc == wrap16(c.pc + 6),
{
    clear_carry_then_add(c, m, v);
    let (c1, m1) = next(c, m);
    let (c2, m2) = next(c1, m1);
    assert(byte_at(m2, c2.pc) == 0x38);
    assert(byte_at(m2, wrap16(c2.pc + 1)) == 0xE9);
    assert(byte_at(m2, wrap16(c2.pc + 2)) == v);
    set_carry_then_subtract(c2, m2, v);
}

/// Incrementing and then decrementing a zero-page byte (`INC a; DEC a`)
/// leaves memory as it was, provided the program does not overwrite itself.
pub proof fn inc_then_dec_restores(c: Cpu, m: Seq<u8>, a: u8)
    requires
        m.len() == 0x10000,
        byte_at(m, c.pc) == 0xE6,
        byte_at(m, wrap16(c.pc + 1)) == a,
        byte_at(m, wrap16(c.pc + 2)) == 0xC6,
        byte_at(m, wrap16(c.pc + 3)) == a,
        a as u16 != wrap16(c.pc + 2),
        a as u16 != wrap16(c.pc + 3),
    ensures
        step_spec(c, m) is Ok,
        step_spec(next(c, m).0, next(c, m).1) is Ok,
        next(next(c, m).0, next(c, m).1).1 == m,
{
    broadcast use group_flag_lemmas;

    let inc = entry(Opcode::INC_ZPG, Mnemonic::INC, AddressingMode::ZPG, 5);
    let dec = entry(Opcode::DEC_ZPG, Mnemonic::DEC, AddressingMode::ZPG, 5);
    assert(decode(0xE6) == Some(inc)) by {
        reveal(decode);
    }
    assert(decode(0xC6) == Some(dec)) by {
        reveal(decode);
    }
    let v = byte_at(m, a as u16);
    let c0 = Cpu { pc: wrap16(c.pc + 2), ..c };
    assert(execute(c0, m, inc, wrap16(c.pc + 1)) == {
        let (c1, m1) = exec_write(c0, m, inc, wrap16(c.pc + 1));
        (c1, m1, 0u8)
    }) by {
        reveal(execute);
    }
    let (c1, m1) = next(c, m);
    assert(m1 == m.update(a as int, wrap8(v + 1)));
    assert(byte_at(m1, c1.pc) == 0xC6);
    let c1a = Cpu { pc: wrap16(c1.pc + 2), ..c1 };
    assert(execute(c1a, m1, dec, wrap16(c1.pc + 1)) == {
        let (c2, m2) = exec_write(c1a, m1, dec, wrap16(c1.pc + 1));
        (c2, m2, 0u8)
    }) by {
        reveal(execute);
    }
    let m2 = next(c1, m1).1;
    assert(m2 == m1.update(a as int, v));
    assert(m2 =~= m);
}

/// Decrementing a zero-page byte twice (`DEC a; DEC a`) subtracts 2 modulo
/// 256, provided the program does not overwrite itself.
pub proof fn dec_twice_subtracts_two(c: Cpu, m: Seq<u8>, a: u8)
    requires
        m.len() == 0x10000,
        byte_at(m, c.pc) == 0xC6,
        byte_at(m, wrap16(c.pc + 1)) == a,
        byte_at(m, wrap16(c.pc + 2)) == 0xC6,
        byte_at(m, wrap16(c.pc + 3)) == a,
        a as u16 != wrap16(c.pc + 2),
        a as u16 != wrap16(c.pc + 3),
    ensures
        step_spec(c, m) is Ok,
        step_spec(next(c, m).0, next(c, m).1) is Ok,
        next(next(c, m).0, next(c, m).1).1 == m.update(a as int, wrap8(byte_at(m, a as u16) - 2)),
{
    broadcast use group_flag_lemmas;

    let dec = entry(Opcode::DEC_ZPG, Mnemonic::DEC, AddressingMode::ZPG, 5);
    assert(decode(0xC6) == Some(dec)) by {
        reveal(decode);
    }
    let v = byte_at(m, a as u16);
    let c0 = Cpu { pc: wrap16(c.pc + 2), ..c };
    assert(execute(c0, m, dec, wrap16(c.pc + 1)) == {
        let (c1, m1) = exec_write(c0, m, dec, wrap16(c.pc + 1));
        (c1, m1, 0u8)
    }) by {
        reveal(execute);
    }
    let (c1, m1) = next(c, m);
    assert(m1 == m.update(a as int, wrap8(v - 1)));
    assert(byte_at(m1, c1.pc) == 0xC6);
    let c1a = Cpu { pc: wrap16(c1.pc + 2), ..c1 };
    assert(execute(c1a, m1, dec, wrap16(c1.pc + 1)) == {
        let (c2, m2) = exec_write(c1a, m1, dec, wrap16(c1.pc + 1));
        (c2, m2, 0u8)
    }) by {
        reveal(execute);
    }
    let m2 = next(c1, m1).1;
    assert(m2 =~= m.update(a as int, wrap8(v - 2)));
}

/// Every branch of the table is a two-byte, two-cycle instruction.
proof fn lemma_branch_entry(b: u8)
    requires
        decode(b) is Some,
        is_branch(decode(b)->Some_0.mnemonic),
    ensures
        decode(b)->Some_0.addr_mode == AddressingMode::REL,
        decode(b)->Some_0.cycles == 2,
{
    reveal(decode);
}

/// A branch not taken moves PC past its two bytes and costs only its two
/// cycles; a branch taken moves PC by the signed offset from there and costs
/// one more cycle, or two more when the target lies on another page.
pub proof fn branch_law(c: Cpu, m: Seq<u8>)
    requires
        decode(byte_at(m, c.pc)) is Some,
        is_branch(decode(byte_at(m, c.pc))->Some_0.mnemonic),
    ensures
        step_spec(c, m) is Ok,
        ({
            let (c1, m1, used) = step_spec(c, m)->Ok_0;
            let after = wrap16(c.pc + 2);
            let target = wrap16(c.pc + 2 + signed8(byte_at(m, wrap16(c.pc + 1))));
            &&& m1 == m
            &&& !branch_taken(decode(byte_at(m, c.pc))->Some_0.mnemonic, c.sr.bits) ==> c1.pc
                == after && used == 2
            &&& branch_taken(decode(byte_at(m, c.pc))->Some_0.mnemonic, c.sr.bits) ==> c1.pc
                == target && used == 2 + if page_differs(after, target) {
                2int
            } else {
                1int
            }
        }),
{
    let ins = decode(byte_at(m, c.pc))->Some_0;
    lemma_branch_entry(byte_at(m, c.pc));
    let c0 = Cpu { pc: wrap16(c.pc + 2), ..c };
    let p = wrap16(c.pc + 1);
    assert(execute(c0, m, ins, p) == (exec_branch(c0, m, ins, p).0, m, exec_branch(c0, m, ins, p).1))
        by {
        reveal(execute);
    }
}

/// Every BIT of the table reads its operand in zero page or absolute mode.
proof fn lemma_bit_entry(b: u8)
    requires
        decode(b) is Some,
        decode(b)->Some_0.mnemonic == Mnemonic::BIT,
    ensures
        decode(b)->Some_0.addr_mode == AddressingMode::ZPG || decode(b)->Some_0.addr_mode
            == AddressingMode::ABS,
{
    reveal(decode);
}

/// BIT copies bit 7 of its operand into N and bit 6 into V, sets Z when the
/// operand has no bit in common with the accumulator, and leaves the
/// accumulator alone.
pub proof fn bit_law(c: Cpu, m: Seq<u8>)
    requires
        decode(byte_at(m, c.pc)) is Some,
        decode(byte_at(m, c.pc))->Some_0.mnemonic == Mnemonic::BIT,
    ensures
        step_spec(c, m) is Ok,
        ({
            let c1 = next(c, m).0;
            let v = byte_at(
                m,
                c.effective_addr(m, decode(byte_at(m, c.pc))->Some_0.addr_mode, wrap16(c.pc + 1)),
            );
            &&& has_bits(c1.sr.bits, StatusFlags::N) == ((v >> 7u8) & 1 == 1)
            &&& has_bits(c1.sr.bits, StatusFlags::V) == ((v >> 6u8) & 1 == 1)
            &&& has_bits(c1.sr.bits, StatusFlags::Z) == (c.ac & v == 0)
            &&& c1.ac == c.ac
        }),
{
    broadcast use group_flag_lemmas;

    let ins = decode(byte_at(m, c.pc))->Some_0;
    lemma_bit_entry(byte_at(m, c.pc));
    let c0 = Cpu { pc: wrap16(c.pc + ins.addr_mode.len()), ..c };
    let p = wrap16(c.pc + 1);
    assert(execute(c0, m, ins, p) == (exec_read(c0, m, ins, p), m, 0u8)) by {
        reveal(execute);
    }
    let v = byte_at(m, c.effective_addr(m, ins.addr_mode, p));
    assert(c0.effective_addr(m, ins.addr_mode, p) == c.effective_addr(m, ins.addr_mode, p));
    assert((v & 0x80u8 != 0) == ((v >> 7u8) & 1 == 1)) by (bit_vector);
    assert((v & 0x40u8 != 0) == ((v >> 6u8) & 1 == 1)) by (bit_vector);
}

/// JSR at PC: pushes the address of its own last byte and jumps to its
/// operand, read after the push.
proof fn jsr_step(c: Cpu, m: Seq<u8>)
    requires
        m.len() == 0x10000,
        byte_at(m, c.pc) == 0x20,
    ensures
        step_spec(c, m) is Ok,
        next(c, m).1 == c.push16(m, wrap16(c.pc + 2)).1,
        byte_at(next(c, m).1, stack_addr(c.sp)) == hi_byte(wrap16(c.pc + 2)),
        byte_at(next(c, m).1, stack_addr(wrap8(c.sp - 1))) == lo_byte(wrap16(c.pc + 2)),
        next(c, m).0.sp == wrap8(c.sp - 2),
        next(c, m).0.pc == word_at(next(c, m).1, wrap16(c.pc + 1)),
{
    let jsr = entry(Opcode::JSR_ABS, Mnemonic::JSR, AddressingMode::ABS, 6);
    assert(decode(0x20) == Some(jsr)) by {
        reveal(decode);
    }
    let c0 = Cpu { pc: wrap16(c.pc + 3), ..c };
    let p = wrap16(c.pc + 1);
    assert(execute(c0, m, jsr, p) == (exec_control(c0, m, jsr, p).0, exec_control(c0, m, jsr, p).1, 0u8))
        by {
        reveal(execute);
    }
    assert(stack_addr(c.sp) != stack_addr(wrap8(c.sp - 1)));
}

/// RTS at PC: pulls an address and continues after it.
proof fn rts_step(c: Cpu, m: Seq<u8>)
    requires
        byte_at(m, c.pc) == 0x60,
    ensures
        step_spec(c, m) is Ok,
        next(c, m).1 == m,
        next(c, m).0.sp == wrap8(c.sp + 2),
        next(c, m).0.pc == wrap16(c.pop16(m).1 + 1),
{
    let rts = entry(Opcode::RTS, Mnemonic::RTS, AddressingMode::IMP, 6);
    assert(decode(0x60) == Some(rts)) by {
        reveal(decode);
    }
    let c0 = Cpu { pc: wrap16(c.pc + 1), ..c };
    let p = wrap16(c.pc + 1);
    assert(execute(c0, m, rts, p) == (exec_control(c0, m, rts, p).0, m, 0u8)) by {
        reveal(execute);
    }
}

/// JSR at `S` pushes `S + 2`, the address of its own last byte, and jumps;
/// an RTS at the target then returns to `S + 3` with the stack pointer
/// restored. The return address is pushed high byte first, so it sits
/// at SP + 1 (low) and SP + 2 (high) after the JSR. Holds when the two
/// pushed bytes overwrite neither the JSR operand nor the RTS.
pub proof fn jsr_then_rts_returns(c: Cpu, m: Seq<u8>)
    requires
        m.len() == 0x10000,
        byte_at(m, c.pc) == 0x20,
        byte_at(m, word_at(m, wrap16(c.pc + 1))) == 0x60,
        stack_addr(c.sp) != wrap16(c.pc + 1),
        stack_addr(c.sp) != wrap16(c.pc + 2),
        stack_addr(c.sp) != word_at(m, wrap16(c.pc + 1)),
        stack_addr(wrap8(c.sp - 1)) != wrap16(c.pc + 1),
        stack_addr(wrap8(c.sp - 1)) != wrap16(c.pc + 2),
        stack_addr(wrap8(c.sp - 1)) != word_at(m, wrap16(c.pc + 1)),
    ensures
        step_spec(c, m) is Ok,
        next(c, m).0.pc == word_at(m, wrap16(c.pc + 1)),
        byte_at(next(c, m).1, stack_addr(c.sp)) == hi_byte(wrap16(c.pc + 2)),
        byte_at(next(c, m).1, stack_addr(wrap8(c.sp - 1))) == lo_byte(wrap16(c.pc + 2)),
        next(c, m).0.pop16(next(c, m).1).1 == wrap16(c.pc + 2),
        step_spec(next(c, m).0, next(c, m).1) is Ok,
        next(next(c, m).0, next(c, m).1).0.pc == wrap16(c.pc + 3),
        next(next(c, m).0, next(c, m).1).0.sp == c.sp,
{
    jsr_step(c, m);
    let p = wrap16(c.pc + 1);
    let (c1, m1) = next(c, m);
    assert(byte_at(m1, p) == byte_at(m, p));
    assert(byte_at(m1, wrap16(p + 1)) == byte_at(m, wrap16(p + 1)));
    assert(c1.pc == word_at(m, p));
    assert(byte_at(m1, c1.pc) == 0x60);
    assert(wrap8(c1.sp + 2) == c.sp);
    assert(stack_addr(c.sp) != stack_addr(wrap8(c.sp - 1)));
    assert(wrap8(c1.sp + 1) == wrap8(c.sp - 1));
    rts_step(c1, m1);
}

} // verus!
