use rust_6502_emu::cpu::{
    Cpu, CYCLES_AFTER_RESET, INITIAL_STACK_POINTER, STACK_BASE, VECTOR_IRQ,
};
use rust_6502_emu::flags::StatusFlags;
use rust_6502_emu::instruction::{AddressingMode, Instruction, Mnemonic, Opcode};
use rust_6502_emu::mem::{Memory, ADDR_RESET_VECTOR};

fn setup() -> (Cpu, Memory) {
    let mut mem = Memory::create();
    let mut cpu = Cpu::create();
    cpu.reset(&mut mem);
    (cpu, mem)
}

fn op(opcode: Opcode) -> u8 {
    opcode.byte()
}

fn ins(opcode: u8) -> Instruction {
    Instruction::from_opcode(opcode).unwrap()
}

const RESERVED: u8 = StatusFlags::RESERVED;

#[test]
fn is_page_crossed() {
    assert!(!Cpu::is_page_crossed(0x01FF, -128)); // Target: 0x017F    C-Page: 1   T-Page: 1
    assert!(Cpu::is_page_crossed(0x0200, -128)); // Target: 0x0180    C-Page: 2   T-Page: 1   -> crossed

    assert!(!Cpu::is_page_crossed(0x01FF, -1)); // Target: 0x01FE    C-Page: 1   T-Page: 1
    assert!(Cpu::is_page_crossed(0x0200, -1)); // Target: 0x01FF    C-Page: 2   T-Page: 1   -> crossed

    assert!(Cpu::is_page_crossed(0x01FF, 1)); // Target: 0x0200    C-Page: 1   T-Page: 2   -> crossed
    assert!(!Cpu::is_page_crossed(0x0200, 1)); // Target: 0x0201    C-Page: 2   T-Page: 2

    assert!(Cpu::is_page_crossed(0x01FF, 127)); // Target: 0x027E    C-Page: 1   T-Page: 2   -> crossed
    assert!(!Cpu::is_page_crossed(0x0200, 127)); // Target: 0x027F    C-Page: 2   T-Page: 2
}

#[test]
fn initial_state() {
    let (cpu, _) = setup();

    assert_eq!(cpu.ac, 0);
    assert_eq!(cpu.x, 0);
    assert_eq!(cpu.y, 0);
    assert_eq!(cpu.sr.bits(), StatusFlags::RESERVED);
    assert_eq!(cpu.sp, INITIAL_STACK_POINTER);
    assert_eq!(cpu.pc, ADDR_RESET_VECTOR); // ensures working memory as well

    assert_eq!(cpu.cycles, CYCLES_AFTER_RESET);
}

#[test]
fn addr_stack() {
    let (cpu, _) = setup();

    assert_eq!(cpu.addr_stack(0xCD), STACK_BASE | 0xCD);
}

#[test]
fn stack() {
    let (mut cpu, mut mem) = setup();

    cpu.stack_push_u8(&mut mem, 0xAA);
    assert_eq!(cpu.stack_pop_u8(&mem), 0xAA);

    cpu.stack_push_u16(&mut mem, 0xABCD);
    assert_eq!(cpu.stack_pop_u16(&mem), 0xABCD);
}

#[test]
fn fetch_addr_zpx() {
    let (cpu, mut mem) = setup();

    let addr: u8 = 0xF0;
    let addr_expected: u16 = addr as u16;
    let data: u8 = 0xAA;
    mem.write_u8(Some(addr_expected), data);
    mem.write_u8(Some(ADDR_RESET_VECTOR), op(Opcode::NOP) /* opcode does not matter */);
    mem.write_u8(Some(ADDR_RESET_VECTOR + 1), addr);

    let addr_effective = cpu.fetch_addr_zpg(&mem, ADDR_RESET_VECTOR + 1);
    println!("addr: {:02X}  expected_addr: {:04X}  effective addr: {:04X}", addr, addr_expected, addr_effective);
    assert_eq!(addr_effective, addr_expected);
    assert_eq!(mem.read_u8(addr_effective), data);
}

#[test]
fn fetch_addr_pgxy() {
    let (mut cpu, mut mem) = setup();

    let addr: u8 = 0x80;
    let addr_expected: u16 = 0x8F;
    let data: u8 = 0xAA;

    cpu.reset(&mut mem);
    cpu.x = 0x0F;
    mem.write_u8(Some(addr_expected), data);
    mem.write_u8(Some(ADDR_RESET_VECTOR), op(Opcode::NOP) /* opcode does not matter */);
    mem.write_u8(Some(ADDR_RESET_VECTOR + 1), addr);
    let addr_effective = cpu.fetch_addr_zpx(&mem, ADDR_RESET_VECTOR + 1);
    println!("addr: {:02X}  expected_addr: {:04X}  effective addr: {:04X}", addr, addr_expected, addr_effective);
    assert_eq!(addr_effective, addr_expected);
    assert_eq!(mem.read_u8(addr_effective), data);

    cpu.reset(&mut mem);
    cpu.y = 0x0F;
    mem.write_u8(Some(addr_expected), data);
    mem.write_u8(Some(ADDR_RESET_VECTOR), op(Opcode::NOP) /* opcode does not matter */);
    mem.write_u8(Some(ADDR_RESET_VECTOR + 1), addr);
    let addr_effective = cpu.fetch_addr_zpy(&mem, ADDR_RESET_VECTOR + 1);
    println!("addr: {:02X}  expected_addr: {:04X}  effective addr: {:04X}", addr, addr_expected, addr_effective);
    assert_eq!(addr_effective, addr_expected);
    assert_eq!(mem.read_u8(addr_effective), data);
}

#[test]
fn fetch_addr_abs() {
    let (cpu, mut mem) = setup();

    let addr: u16 = 0xA000;
    let addr_expected: u16 = addr;
    let data: u8 = 0xAA;
    mem.write_u8(Some(addr_expected), data);
    mem.write_u8(Some(ADDR_RESET_VECTOR), op(Opcode::NOP) /* opcode does not matter */);
    mem.write_u16(Some(ADDR_RESET_VECTOR + 1), addr);

    let addr_effective = cpu.fetch_addr_abs(&mem, ADDR_RESET_VECTOR + 1);
    println!("addr: {:02X}  expected_addr: {:04X}  effective addr: {:04X}", addr, addr_expected, addr_effective);
    assert_eq!(addr_effective, addr_expected);
    assert_eq!(mem.read_u8(addr_effective), data);
}

#[test]
fn fetch_addr_abxy() {
    let (mut cpu, mut mem) = setup();

    let addr: u16 = 0xA000;
    let data: u8 = 0xAA;

    cpu.reset(&mut mem);
    cpu.x = 0x0F;
    let addr_expected: u16 = addr.wrapping_add(cpu.x as u16);
    mem.write_u8(Some(addr_expected), data);
    mem.write_u8(Some(ADDR_RESET_VECTOR), op(Opcode::NOP) /* opcode does not matter */);
    mem.write_u16(Some(ADDR_RESET_VECTOR + 1), addr);

    let addr_effective = cpu.fetch_addr_abx(&mem, ADDR_RESET_VECTOR + 1);
    println!("addr: {:02X}  expected_addr: {:04X}  effective addr: {:04X}", addr, addr_expected, addr_effective);
    assert_eq!(addr_effective, addr_expected);
    assert_eq!(mem.read_u8(addr_effective), data);

    cpu.reset(&mut mem);
    cpu.y = 0x0F;
    let addr_expected: u16 = addr.wrapping_add(cpu.y as u16);
    mem.write_u8(Some(addr_expected), data);
    mem.write_u8(Some(ADDR_RESET_VECTOR), op(Opcode::NOP) /* opcode does not matter */);
    mem.write_u16(Some(ADDR_RESET_VECTOR + 1), addr);

    let addr_effective = cpu.fetch_addr_aby(&mem, ADDR_RESET_VECTOR + 1);
    println!("addr: {:02X}  expected_addr: {:04X}  effective addr: {:04X}", addr, addr_expected, addr_effective);
    assert_eq!(addr_effective, addr_expected);
    assert_eq!(mem.read_u8(addr_effective), data);
}

#[test]
fn fetch_addr_ind() {
    let (cpu, mut mem) = setup();

    let addr: u16 = 0xA000;
    let addr_expected: u16 = 0x0B00;
    let data: u8 = 0xAA;
    mem.write_u16(Some(addr), addr_expected); // address holds indirect address
    mem.write_u8(Some(addr_expected), data); // indirect address holds data
    mem.write_u8(Some(ADDR_RESET_VECTOR), op(Opcode::NOP) /* opcode does not matter */);
    mem.write_u16(Some(ADDR_RESET_VECTOR + 1), addr);

    let addr_effective = cpu.fetch_addr_ind(&mem, ADDR_RESET_VECTOR + 1);
    println!("addr: {:02X}  expected_addr: {:04X}  effective addr: {:04X}", addr, addr_expected, addr_effective);
    assert_eq!(addr_effective, addr_expected);
    assert_eq!(mem.read_u8(addr_effective), data);
}

#[test]
fn fetch_addr_idxy() {
    let (mut cpu, mut mem) = setup();

    let addr: u8 = 0xF0;
    let data: u8 = 0xAA;

    cpu.reset(&mut mem);
    let addr_expected: u16 = 0x0B00;
    cpu.x = 3;
    mem.write_u16(Some(addr.wrapping_add(cpu.x) as u16), addr_expected); // address holds indirect address
    mem.write_u8(Some(addr_expected), data); // indirect address holds data
    mem.write_u8(Some(ADDR_RESET_VECTOR), op(Opcode::NOP) /* opcode does not matter */);
    mem.write_u8(Some(ADDR_RESET_VECTOR + 1), addr);

    let addr_effective = cpu.fetch_addr_idx(&mem, ADDR_RESET_VECTOR + 1);
    println!("addr: {:02X}  expected_addr: {:04X}  effective addr: {:04X}", addr, addr_expected, addr_effective);
    assert_eq!(addr_effective, addr_expected);
    assert_eq!(mem.read_u8(addr_effective), data);

    cpu.reset(&mut mem);
    let addr_expected: u16 = 0x0B03;
    cpu.y = 3;
    mem.write_u16(Some(addr as u16), addr_expected.wrapping_sub(cpu.y as u16)); // address holds indirect address
    mem.write_u8(Some(addr_expected), data); // indirect address holds data
    mem.write_u8(Some(ADDR_RESET_VECTOR), op(Opcode::NOP) /* opcode does not matter */);
    mem.write_u8(Some(ADDR_RESET_VECTOR + 1), addr);

    let addr_effective = cpu.fetch_addr_idy(&mem, ADDR_RESET_VECTOR + 1);
    println!("addr: {:02X}  expected_addr: {:04X}  effective addr: {:04X}", addr, addr_expected, addr_effective);
    assert_eq!(addr_effective, addr_expected);
    assert_eq!(mem.read_u8(addr_effective), data);
}

#[test]
fn fetch_addr_rel() {
    let (cpu, mut mem) = setup();

    let addr: i8 = -10;
    let addr_expected: u16 = cpu.pc.wrapping_add(addr as u16);
    let data: u8 = 0xAA;
    mem.write_u8(Some(addr_expected), data);
    mem.write_u8(Some(ADDR_RESET_VECTOR), op(Opcode::NOP) /* opcode does not matter */);
    mem.write_i8(Some(ADDR_RESET_VECTOR + 1), addr);

    let addr_effective = cpu.fetch_addr_rel(&mem, ADDR_RESET_VECTOR + 1);
    println!("addr: {:02X}  expected_addr: {:04X}  effective addr: {:04X}", addr, addr_expected, addr_effective);
    assert_eq!(addr_effective, addr_expected);
    assert_eq!(mem.read_u8(addr_effective), data);
}

#[test]
fn ins_nop() {
    let (mut cpu, mut mem) = setup();

    mem.write_u8(Some(ADDR_RESET_VECTOR), op(Opcode::NOP));
    let pc_orig = cpu.pc;
    cpu.exec(&mut mem, 1).unwrap();

    // verify we're at next instruction
    assert_eq!(cpu.pc, pc_orig + 1);

    // verify 2 cycles happened
    assert_eq!(cpu.cycles, CYCLES_AFTER_RESET + ins(op(Opcode::NOP)).cycles as u64);
}

#[test]
fn ins_adcsbc() {
    let (mut cpu, mut mem) = setup();

    for (opcode, ac, value, carry, value_expect, sr_expect) in [
        // ADC
        (Opcode::ADC_IMM, 0x01, 0x01, false, 0x02, RESERVED),
        (Opcode::ADC_IMM, 0x7F, 0x01, false, 0x80, RESERVED | StatusFlags::N | StatusFlags::V),
        (Opcode::ADC_IMM, 0x7F, 0x00, true, 0x80, RESERVED | StatusFlags::N | StatusFlags::V), // test if carry is taken into account
        (Opcode::ADC_IMM, 0xfF, 0xFF, false, 0xFE, RESERVED | StatusFlags::N | StatusFlags::C),
        // SBC
        (Opcode::SBC_IMM, 0x02, 0x01, false, 0x00, RESERVED | StatusFlags::C | StatusFlags::Z),
        (Opcode::SBC_IMM, 0x03, 0x01, false, 0x01, RESERVED | StatusFlags::C),
        (Opcode::SBC_IMM, 0x03, 0x00, true, 0x03, RESERVED | StatusFlags::C), // test if carry is taken into account
        (Opcode::SBC_IMM, 0xFF, 0x01, false, 0xFD, RESERVED | StatusFlags::C | StatusFlags::N),
    ] {
        cpu.reset(&mut mem);
        cpu.ac = ac;
        cpu.sr.set(StatusFlags::C, carry);
        mem.write_u8(Some(ADDR_RESET_VECTOR), op(opcode));
        mem.write_u8(None, value);
        cpu.exec(&mut mem, 1).unwrap();
        assert_eq!(cpu.ac, value_expect);
        assert_eq!(cpu.sr.bits(), sr_expect);
    }
}

#[test]
fn ins_cmpcpxcpy() {
    let (mut cpu, mut mem) = setup();

    for opcode in [Opcode::CMP_IMM, Opcode::CPX_IMM, Opcode::CPY_IMM] {
        for (value_reg, value_imm, sr_expect) in [
            (0x02, 0x01, RESERVED | StatusFlags::C),
            (0x01, 0x02, RESERVED | StatusFlags::N),
            (0x01, 0xFF, RESERVED),
            (0x0A, 0x0A, RESERVED | StatusFlags::Z | StatusFlags::C),
        ] {
            cpu.reset(&mut mem);

            let ins = ins(op(opcode));
            match ins.mnemonic {
                Mnemonic::CMP => cpu.ac = value_reg,
                Mnemonic::CPX => cpu.x = value_reg,
                Mnemonic::CPY => cpu.y = value_reg,
                _ => panic!("Unhandled mnemonic for compare test {:?}", ins.mnemonic),
            };
            mem.write_u8(Some(ADDR_RESET_VECTOR), op(opcode));
            mem.write_u8(None, value_imm);
            cpu.exec(&mut mem, 1).unwrap();
            assert_eq!(cpu.sr.bits(), sr_expect);
        }
    }
}

#[test]
fn ins_jmp() {
    let (mut cpu, mut mem) = setup();
    let target_addr: u16 = ADDR_RESET_VECTOR + 0x10;
    let target_addr_ind: u16 = 0xAA00;

    // JMP ABS
    cpu.reset(&mut mem);
    mem.write_u8(Some(ADDR_RESET_VECTOR), op(Opcode::JMP_ABS));
    mem.write_u16(None, target_addr);
    cpu.exec(&mut mem, 1).unwrap();
    assert_eq!(cpu.pc, target_addr);

    // JMP IND
    cpu.reset(&mut mem);
    mem.write_u16(Some(target_addr), target_addr_ind);
    mem.write_u8(Some(ADDR_RESET_VECTOR), op(Opcode::JMP_IND));
    mem.write_u16(None, target_addr);
    cpu.exec(&mut mem, 1).unwrap();
    assert_eq!(cpu.pc, target_addr_ind);
}

#[test]
fn ins_bit() {
    let (mut cpu, mut mem) = setup();

    for opcode in [Opcode::BIT_ZPG, Opcode::BIT_ABS] {
        for (ac, value, sr_expect) in [
            (0x01, 0x01, RESERVED),
            (0x01, 0x00, RESERVED | StatusFlags::Z),
            (0x00, 0x01, RESERVED | StatusFlags::Z),
            (0x01, StatusFlags::N, RESERVED | StatusFlags::Z | StatusFlags::N),
            (0x01, StatusFlags::V, RESERVED | StatusFlags::Z | StatusFlags::V),
        ] {
            let addr: u16 = 0x000A;
            cpu.reset(&mut mem);
            cpu.ac = ac;
            mem.write_u8(Some(addr), value);
            mem.write_u8(Some(ADDR_RESET_VECTOR), op(opcode));
            if opcode == Opcode::BIT_ZPG {
                mem.write_u8(None, (addr & 0xFF) as u8);
            } else {
                mem.write_u16(None, addr);
            }
            cpu.exec(&mut mem, 1).unwrap();
            assert_eq!(cpu.sr.bits(), sr_expect);
        }
    }
}

/// Runs one logic instruction in each of its eight addressing modes.
fn check_logic(opcodes: [Opcode; 8], cases: [(u8, u8, u8, u8); 5]) {
    let (mut cpu, mut mem) = setup();

    for opcode in opcodes {
        let mode = ins(op(opcode)).addr_mode;
        for (ac, value, ac_expect, sr_expect) in cases {
            cpu.reset(&mut mem);
            cpu.ac = ac;

            let addr: u16 = 0x000A;
            println!("ac:{:02X} value:{:02X} ac_expect:{:?} sf_expect:{:?}", ac, value, ac_expect, sr_expect);
            cpu.x = 0;
            cpu.y = 0;
            if matches!(
                mode,
                AddressingMode::ZPG | AddressingMode::ZPX | AddressingMode::ABS | AddressingMode::ABX | AddressingMode::ABY
            ) {
                mem.write_u8(Some(addr), value);
            } else if matches!(mode, AddressingMode::IDX | AddressingMode::IDY) {
                mem.write_u16(Some(addr), addr + 2);
                mem.write_u8(Some(addr + 2), value);
            }
            mem.write_u8(Some(ADDR_RESET_VECTOR), op(opcode));
            if mode == AddressingMode::IMM {
                mem.write_u8(None, value);
            } else if matches!(
                mode,
                AddressingMode::ZPG | AddressingMode::ZPX | AddressingMode::IDX | AddressingMode::IDY
            ) {
                mem.write_u8(None, (addr & 0xFF) as u8);
            } else {
                mem.write_u16(None, addr);
            }

            cpu.exec(&mut mem, 1).unwrap();
            assert_eq!(cpu.ac, ac_expect);
            assert_eq!(cpu.sr.bits(), sr_expect);
        }
    }
}

#[test]
fn ins_and() {
    check_logic(
        [
            Opcode::AND_IMM, Opcode::AND_ZPG, Opcode::AND_ZPX, Opcode::AND_ABS,
            Opcode::AND_ABX, Opcode::AND_ABY, Opcode::AND_IDX, Opcode::AND_IDY,
        ],
        [
            (0x00, 0x00, 0x00, RESERVED | StatusFlags::Z),
            (0x01, 0x00, 0x00, RESERVED | StatusFlags::Z),
            (0x00, 0x01, 0x00, RESERVED | StatusFlags::Z),
            (0xA1, 0x0F, 0x01, RESERVED),
            (0xFF, 0xF0, 0xF0, RESERVED | StatusFlags::N),
        ],
    );
}

#[test]
fn ins_ora() {
    check_logic(
        [
            Opcode::ORA_IMM, Opcode::ORA_ZPG, Opcode::ORA_ZPX, Opcode::ORA_ABS,
            Opcode::ORA_ABX, Opcode::ORA_ABY, Opcode::ORA_IDX, Opcode::ORA_IDY,
        ],
        [
            (0x00, 0x00, 0x00, RESERVED | StatusFlags::Z),
            (0x01, 0x00, 0x01, RESERVED),
            (0x00, 0x01, 0x01, RESERVED),
            (0x01, 0x01, 0x01, RESERVED),
            (0xF0, 0x0F, 0xFF, RESERVED | StatusFlags::N),
        ],
    );
}

#[test]
fn ins_eor() {
    check_logic(
        [
            Opcode::EOR_IMM, Opcode::EOR_ZPG, Opcode::EOR_ZPX, Opcode::EOR_ABS,
            Opcode::EOR_ABX, Opcode::EOR_ABY, Opcode::EOR_IDX, Opcode::EOR_IDY,
        ],
        [
            (0x00, 0x00, 0x00, RESERVED | StatusFlags::Z),
            (0x01, 0x00, 0x01, RESERVED),
            (0x00, 0x01, 0x01, RESERVED),
            (0x01, 0x01, 0x00, RESERVED | StatusFlags::Z),
            (0xF0, 0x0F, 0xFF, RESERVED | StatusFlags::N),
        ],
    );
}

#[test]
fn ins_cxxsxx() {
    let (mut cpu, mut mem) = setup();

    for (opcode, sr_before, sr_expect) in [
        (Opcode::CLC, RESERVED | StatusFlags::C, RESERVED),
        (Opcode::CLD, RESERVED | StatusFlags::D, RESERVED),
        (Opcode::CLI, RESERVED | StatusFlags::I, RESERVED),
        (Opcode::CLV, RESERVED | StatusFlags::V, RESERVED),
        (Opcode::SEC, RESERVED, RESERVED | StatusFlags::C),
        (Opcode::SED, RESERVED, RESERVED | StatusFlags::D),
        (Opcode::SEI, RESERVED, RESERVED | StatusFlags::I),
    ] {
        cpu.reset(&mut mem);
        cpu.sr = StatusFlags::from_bits_truncate(sr_before);
        mem.write_u8(Some(ADDR_RESET_VECTOR), op(opcode));
        cpu.exec(&mut mem, 1).unwrap();
        assert_eq!(cpu.sr.bits(), sr_expect);
    }
}

#[test]
fn ins_bxx() {
    let (mut cpu, mut mem) = setup();
    let empty = StatusFlags::empty().bits();

    // test with both positive and negative relative address
    for rel in [-128i8, 16, 0, -16, 127] {
        for (opcode, srf, jmp) in [
            (Opcode::BCC_REL, StatusFlags::C, false),
            (Opcode::BCC_REL, empty, true),
            (Opcode::BCS_REL, StatusFlags::C, true),
            (Opcode::BCS_REL, empty, false),
            (Opcode::BEQ_REL, StatusFlags::Z, true),
            (Opcode::BEQ_REL, empty, false),
            (Opcode::BNE_REL, StatusFlags::Z, false),
            (Opcode::BNE_REL, empty, true),
            (Opcode::BPL_REL, StatusFlags::N, false),
            (Opcode::BPL_REL, empty, true),
            (Opcode::BMI_REL, StatusFlags::N, true),
            (Opcode::BMI_REL, empty, false),
            (Opcode::BVC_REL, StatusFlags::V, false),
            (Opcode::BVC_REL, empty, true),
            (Opcode::BVS_REL, StatusFlags::V, true),
            (Opcode::BVS_REL, empty, false),
        ] {
            let addr_nobranch = ADDR_RESET_VECTOR + 2;
            let addr_branch = (ADDR_RESET_VECTOR + 2 as u16).wrapping_add(rel as u16);

            cpu.reset(&mut mem);
            cpu.sr.insert(srf);
            mem.write_u8(Some(ADDR_RESET_VECTOR), op(opcode));
            mem.write_i8(None, rel);

            let cycles_orig = cpu.cycles;
            cpu.exec(&mut mem, 1).unwrap();

            assert_eq!(cpu.pc, if jmp { addr_branch } else { addr_nobranch });

            let mut expected_cycles = ins(op(opcode)).cycles as u64;
            if jmp {
                // jump occured: same page -> +1, page crossed -> +2
                expected_cycles += if Cpu::is_page_crossed(ADDR_RESET_VECTOR + 2, rel) { 2 } else { 1 };
            }
            assert_eq!(cpu.cycles - cycles_orig, expected_cycles);
        }
    }
}

#[test]
fn ins_asllsrrolror() {
    let (mut cpu, mut mem) = setup();

    for (opcode, value, carry, value_expect, sr_expect) in [
        (Opcode::ASL_ACC, 0x00, false, 0x00, RESERVED | StatusFlags::Z),
        (Opcode::ASL_ZPG, 0x00, false, 0x00, RESERVED | StatusFlags::Z),
        (Opcode::ASL_ACC, 0x80, false, 0x00, RESERVED | StatusFlags::Z | StatusFlags::C),
        (Opcode::ASL_ZPG, 0x80, false, 0x00, RESERVED | StatusFlags::Z | StatusFlags::C),
        (Opcode::ASL_ACC, 0x01, false, 0x02, RESERVED),
        (Opcode::ASL_ACC, 0x40, false, 0x80, RESERVED | StatusFlags::N),
        (Opcode::LSR_ACC, 0x00, false, 0x00, RESERVED | StatusFlags::Z),
        (Opcode::LSR_ZPG, 0x00, false, 0x00, RESERVED | StatusFlags::Z),
        (Opcode::LSR_ACC, 0x01, false, 0x00, RESERVED | StatusFlags::Z | StatusFlags::C),
        (Opcode::LSR_ZPG, 0x01, false, 0x00, RESERVED | StatusFlags::Z | StatusFlags::C),
        (Opcode::LSR_ACC, 0x02, false, 0x01, RESERVED),
        (Opcode::ROL_ACC, 0x00, false, 0x00, RESERVED | StatusFlags::Z),
        (Opcode::ROL_ZPG, 0x00, false, 0x00, RESERVED | StatusFlags::Z),
        (Opcode::ROL_ACC, 0x80, false, 0x00, RESERVED | StatusFlags::Z | StatusFlags::C),
        (Opcode::ROL_ZPG, 0x80, false, 0x00, RESERVED | StatusFlags::Z | StatusFlags::C),
        (Opcode::ROL_ACC, 0x01, false, 0x02, RESERVED),
        (Opcode::ROL_ACC, 0x40, false, 0x80, RESERVED | StatusFlags::N),
        (Opcode::ROL_ACC, 0x00, true, 0x01, RESERVED),
        (Opcode::ROR_ACC, 0x00, false, 0x00, RESERVED | StatusFlags::Z),
        (Opcode::ROR_ZPG, 0x00, false, 0x00, RESERVED | StatusFlags::Z),
        (Opcode::ROR_ACC, 0x01, false, 0x00, RESERVED | StatusFlags::Z | StatusFlags::C),
        (Opcode::ROR_ZPG, 0x01, false, 0x00, RESERVED | StatusFlags::Z | StatusFlags::C),
        (Opcode::ROR_ACC, 0x02, false, 0x01, RESERVED),
        (Opcode::ROR_ACC, 0x00, true, 0x80, RESERVED | StatusFlags::N),
    ] {
        cpu.reset(&mut mem);

        let ins = ins(op(opcode));

        let addr: u16 = 0xA;
        mem.write_u8(Some(ADDR_RESET_VECTOR), op(opcode));
        if ins.addr_mode == AddressingMode::ACC {
            cpu.ac = value;
        } else {
            if matches!(ins.addr_mode, AddressingMode::ZPG | AddressingMode::ZPX) {
                mem.write_u8(None, addr as u8);
            } else {
                mem.write_u16(None, addr);
            }

            mem.write_u8(Some(addr), value);
        }

        cpu.sr.set(StatusFlags::C, carry);

        cpu.exec(&mut mem, 1).unwrap();

        let value_read = if ins.addr_mode == AddressingMode::ACC { cpu.ac } else { mem.read_u8(addr) };

        assert_eq!(value_read, value_expect);
        assert_eq!(cpu.sr.bits(), sr_expect);
    }
}

#[test]
fn ins_incdec() {
    let (mut cpu, mut mem) = setup();

    let inc_zpg = op(Opcode::INC_ZPG);
    let inc_zpx = op(Opcode::INC_ZPX);
    let inc_abs = op(Opcode::INC_ABS);
    let inc_abx = op(Opcode::INC_ABX);
    let dec_zpg = op(Opcode::DEC_ZPG);
    let dec_zpx = op(Opcode::DEC_ZPX);
    let dec_abs = op(Opcode::DEC_ABS);
    let dec_abx = op(Opcode::DEC_ABX);

    for opcode in [inc_zpg, inc_zpx | inc_abs | inc_abx | dec_zpg, dec_zpx | dec_abs | dec_abx] {
        for value in [0xFE, 0xFF] {
            let rel_addr: u8 = 0xAA;
            let abs_addr: u16 = 0xCAFE;

            cpu.reset(&mut mem);
            mem.write_u8(Some(ADDR_RESET_VECTOR), opcode);

            let mut addr: u16;
            if [inc_zpg, inc_zpx, dec_zpg, dec_zpx].contains(&opcode) {
                addr = rel_addr as u16;
                mem.write_u8(None, rel_addr);
            } else if [inc_abs, inc_abx, dec_abs, dec_abx].contains(&opcode) {
                addr = abs_addr;
                mem.write_u16(None, abs_addr);
            } else {
                panic!("Unhandled test case INC/DEC {:02X}", opcode)
            }

            if [inc_zpx, inc_abx].contains(&opcode) {
                cpu.x = 1;
                addr = addr.wrapping_add(cpu.x as u16);
            }
            mem.write_u8(Some(addr), value); // memory location that gets incremented
            cpu.exec(&mut mem, 1).unwrap();

            let result = mem.read_u8(addr);
            assert_eq!(
                result,
                if [inc_zpg, inc_zpx, inc_abs, inc_abx].contains(&opcode) {
                    value.wrapping_add(1)
                } else {
                    value.wrapping_sub(1)
                }
            );
            if result == 0 {
                assert!(cpu.sr.contains(StatusFlags::Z),)
            }
            if result & 0b10000000 != 0 {
                assert!(cpu.sr.contains(StatusFlags::N))
            }
        }
    }

    for opcode in [Opcode::INX, Opcode::INY, Opcode::DEX, Opcode::DEY] {
        for value in [0xFE, 0xFF] {
            cpu.reset(&mut mem);
            mem.write_u8(Some(ADDR_RESET_VECTOR), op(opcode));

            match opcode {
                Opcode::INX | Opcode::DEX => cpu.x = value,
                Opcode::INY | Opcode::DEY => cpu.y = value,
                _ => panic!("Unhandled test case INC/DEC {:?}", opcode),
            }

            cpu.exec(&mut mem, 1).unwrap();

            let result = match opcode {
                Opcode::INX | Opcode::DEX => cpu.x,
                Opcode::INY | Opcode::DEY => cpu.y,
                _ => panic!("Unhandled test case INC/DEC {:?}", opcode),
            };
            assert_eq!(
                result,
                if matches!(opcode, Opcode::INX | Opcode::INY) {
                    value.wrapping_add(1)
                } else {
                    value.wrapping_sub(1)
                }
            );
            if result == 0 {
                assert!(cpu.sr.contains(StatusFlags::Z),)
            }
            if result & 0b10000000 != 0 {
                assert!(cpu.sr.contains(StatusFlags::N))
            }
        }
    }
}

#[test]
fn ins_ldaldxldy() {
    let (mut cpu, mut mem) = setup();

    for opcode in [
        Opcode::LDA_IMM, Opcode::LDA_ZPG, Opcode::LDA_ZPX, Opcode::LDA_ABS, Opcode::LDA_ABX,
        Opcode::LDA_ABY, Opcode::LDA_IDY, Opcode::LDA_IDY,
        Opcode::LDX_IMM, Opcode::LDX_ZPG, Opcode::LDX_ZPY, Opcode::LDX_ABS, Opcode::LDX_ABY,
        Opcode::LDY_IMM, Opcode::LDY_ZPG, Opcode::LDY_ZPY, Opcode::LDY_ABS, Opcode::LDY_ABY,
    ] {
        for (value, sr_expect) in [
            (0x00, RESERVED | StatusFlags::Z),
            (0x01, RESERVED),
            (0xF0, RESERVED | StatusFlags::N),
        ] {
            cpu.reset(&mut mem);

            let ins = ins(op(opcode));
            let addr: u16 = 0x000A;
            cpu.x = 0;
            cpu.y = 0;
            if matches!(
                ins.addr_mode,
                AddressingMode::ZPG | AddressingMode::ZPX | AddressingMode::ZPY | AddressingMode::ABS
                    | AddressingMode::ABX | AddressingMode::ABY
            ) {
                mem.write_u8(Some(addr), value);
            } else if matches!(ins.addr_mode, AddressingMode::IDX | AddressingMode::IDY) {
                mem.write_u16(Some(addr), addr + 2);
                mem.write_u8(Some(addr + 2), value);
            }
            mem.write_u8(Some(ADDR_RESET_VECTOR), op(opcode));
            if ins.addr_mode == AddressingMode::IMM {
                mem.write_u8(None, value);
            } else if matches!(
                ins.addr_mode,
                AddressingMode::ZPG | AddressingMode::ZPX | AddressingMode::ZPY | AddressingMode::IDX
                    | AddressingMode::IDY
            ) {
                mem.write_u8(None, (addr & 0xFF) as u8);
            } else {
                mem.write_u16(None, addr);
            }

            cpu.exec(&mut mem, 1).unwrap();

            let value_reg = match ins.mnemonic {
                Mnemonic::LDA => cpu.ac,
                Mnemonic::LDX => cpu.x,
                Mnemonic::LDY => cpu.y,
                _ => panic!("Unhandled test case LD* {:?}", opcode),
            };
            assert_eq!(value_reg, value);
            assert_eq!(cpu.sr.bits(), sr_expect);
        }
    }
}

#[test]
fn ins_stastxsty() {
    let (mut cpu, mut mem) = setup();

    for opcode in [
        Opcode::STA_ZPG, Opcode::STA_ZPX, Opcode::STA_ABS, Opcode::STA_ABX, Opcode::STA_ABY,
        Opcode::STA_IDY, Opcode::STA_IDY,
        Opcode::STX_ZPG, Opcode::STX_ZPY, Opcode::STX_ABS,
        Opcode::STY_ZPG, Opcode::STY_ZPX, Opcode::STY_ABS,
    ] {
        cpu.reset(&mut mem);

        let ins = ins(op(opcode));
        let addr: u16 = 0x000A;
        let value: u8 = 0xBB;

        match ins.mnemonic {
            Mnemonic::STA => cpu.ac = value,
            Mnemonic::STX => cpu.x = value,
            Mnemonic::STY => cpu.y = value,
            _ => panic!("Unhandled test case ST* {:?}", opcode),
        };

        mem.write_u8(Some(ADDR_RESET_VECTOR), op(opcode));

        if ins.addr_mode == AddressingMode::IMM {
            mem.write_u8(None, value);
        } else if matches!(
            ins.addr_mode,
            AddressingMode::ZPG | AddressingMode::ZPX | AddressingMode::ZPY | AddressingMode::IDX
                | AddressingMode::IDY
        ) {
            mem.write_u8(None, (addr & 0xFF) as u8);

            if matches!(ins.addr_mode, AddressingMode::IDX | AddressingMode::IDY) {
                mem.write_u16(Some(addr), addr + 2); // write indirect address
            }
        } else {
            mem.write_u16(None, addr);
        }

        cpu.exec(&mut mem, 1).unwrap();

        let value_read = match ins.addr_mode {
            AddressingMode::ZPG | AddressingMode::ZPX | AddressingMode::ZPY | AddressingMode::ABS
            | AddressingMode::ABX | AddressingMode::ABY => mem.read_u8(addr),
            AddressingMode::IDX | AddressingMode::IDY => mem.read_u8(addr + 2),
            _ => panic!("Unhandled addressing mode {:?}", ins.addr_mode),
        };

        assert_eq!(value, value_read);
    }
}

#[test]
fn ins_txx() {
    let (mut cpu, mut mem) = setup();

    for opcode in [Opcode::TAX, Opcode::TAY, Opcode::TSX, Opcode::TXA, Opcode::TXS, Opcode::TYA] {
        for (value, sr_expect) in [
            (0x00, RESERVED | StatusFlags::Z),
            (0x01, RESERVED),
            (0xF0, RESERVED | StatusFlags::N),
        ] {
            cpu.reset(&mut mem);

            match opcode {
                Opcode::TAX | Opcode::TAY => cpu.ac = value,
                Opcode::TXA | Opcode::TXS => cpu.x = value,
                Opcode::TYA => cpu.y = value,
                Opcode::TSX => cpu.sp = value,
                _ => panic!("Unhandled T** opcode {:?}", opcode),
            };

            mem.write_u8(Some(ADDR_RESET_VECTOR), op(opcode));

            cpu.exec(&mut mem, 1).unwrap();

            let value_read = match opcode {
                Opcode::TXA | Opcode::TYA => cpu.ac,
                Opcode::TAX | Opcode::TSX => cpu.x,
                Opcode::TAY => cpu.y,
                Opcode::TXS => cpu.sp,
                _ => panic!("Unhandled T** opcode {:?}", opcode),
            };

            assert_eq!(value, value_read);
            if opcode != Opcode::TXS {
                assert_eq!(cpu.sr.bits(), sr_expect);
            }
        }
    }
}

#[test]
fn ins_pha() {
    let (mut cpu, mut mem) = setup();

    let value: u8 = 0xAA;
    let sp_orig = cpu.sp;
    cpu.ac = value;

    mem.write_u8(Some(ADDR_RESET_VECTOR), op(Opcode::PHA));

    cpu.exec(&mut mem, 1).unwrap();

    assert_eq!(value, mem.read_u8(cpu.addr_stack(sp_orig)));
    assert_eq!(cpu.sp, sp_orig - 1);
}

#[test]
fn ins_php() {
    let (mut cpu, mut mem) = setup();

    let sp_orig = cpu.sp;
    let srf = StatusFlags::C;
    cpu.sr.set(srf, true);

    mem.write_u8(Some(ADDR_RESET_VECTOR), op(Opcode::PHP));

    cpu.exec(&mut mem, 1).unwrap();

    assert_eq!(RESERVED | StatusFlags::B | srf, mem.read_u8(cpu.addr_stack(sp_orig)));
    assert_eq!(cpu.sp, sp_orig - 1);
}

#[test]
fn ins_pla() {
    let (mut cpu, mut mem) = setup();

    for value in [0x00, 0x01, 0xF0] {
        cpu.reset(&mut mem);

        cpu.sp = 0x0A;
        let sp_orig = cpu.sp;

        mem.write_u8(Some(cpu.addr_stack(cpu.sp + 1)), value);

        mem.write_u8(Some(ADDR_RESET_VECTOR), op(Opcode::PLA));

        cpu.exec(&mut mem, 1).unwrap();

        assert_eq!(value, cpu.ac);
        assert_eq!(cpu.sp, sp_orig + 1);
        assert_eq!(cpu.sr.contains(StatusFlags::Z), value == 0);
        assert_eq!(cpu.sr.contains(StatusFlags::N), value & 0b10000000 != 0);
    }
}

#[test]
fn ins_plp() {
    let (mut cpu, mut mem) = setup();

    let srf = StatusFlags::default().bits() | StatusFlags::C;
    cpu.sp = 0x0A;
    mem.write_u8(Some(cpu.addr_stack(cpu.sp + 1)), srf);

    let sp_orig = cpu.sp;

    cpu.sr.set(StatusFlags::B, true);

    mem.write_u8(Some(ADDR_RESET_VECTOR), op(Opcode::PLP));

    cpu.exec(&mut mem, 1).unwrap();

    assert_eq!(cpu.sp, sp_orig + 1);
    assert_eq!(cpu.sr.bits(), srf | StatusFlags::B); // B should still be set
}

#[test]
fn ins_jsrrts() {
    let (mut cpu, mut mem) = setup();

    let addr: u16 = 0xABCD;
    let sp_orig = cpu.sp;

    mem.write_u8(Some(ADDR_RESET_VECTOR), op(Opcode::JSR_ABS));
    mem.write_u16(None, addr);
    mem.write_u8(None, op(Opcode::NOP)); // next instruction

    cpu.exec(&mut mem, 1).unwrap();

    assert_eq!(cpu.pc, addr);
    assert_eq!(cpu.sp, sp_orig - 2 /* return addr */);
    // pushed high byte first: the return address sits just above SP
    assert_eq!(mem.read_u16(cpu.addr_stack(cpu.sp + 1)), ADDR_RESET_VECTOR + 2);

    let sp_orig = cpu.sp;
    mem.write_u8(Some(addr), op(Opcode::RTS));

    cpu.exec(&mut mem, 1).unwrap();

    assert_eq!(cpu.pc, ADDR_RESET_VECTOR + 3 /* after JSR instruction at NOP */);
    assert_eq!(cpu.sp, sp_orig + 2 /* return addr */);
}

#[test]
fn ins_brkrti() {
    let (mut cpu, mut mem) = setup();

    let addr: u16 = 0xABCD;
    let break_mark: u8 = 0xAA;
    let sp_orig = cpu.sp;

    // prepare reset vector with ISR
    mem.write_u16(Some(VECTOR_IRQ), addr);
    mem.write_u8(Some(addr), op(Opcode::NOP));
    mem.write_u8(Some(addr), op(Opcode::RTI));

    // break
    mem.write_u8(Some(ADDR_RESET_VECTOR), op(Opcode::BRK));
    mem.write_u8(None, break_mark); // Optional break mark
    mem.write_u8(None, op(Opcode::NOP)); // next instruction

    cpu.exec(&mut mem, 1).unwrap();

    assert_eq!(cpu.pc, addr);
    assert_eq!(cpu.sp, sp_orig - 3 /* SR and return address */);
    assert_eq!(
        StatusFlags::from_bits_truncate(mem.read_u8(cpu.addr_stack(cpu.sp + 1))).bits(),
        RESERVED | StatusFlags::B
    );
    // pushed high byte first, before the status byte
    assert_eq!(mem.read_u16(cpu.addr_stack(cpu.sp + 2)), ADDR_RESET_VECTOR + 2);

    let sp_orig = cpu.sp;

    cpu.exec(&mut mem, 1).unwrap();

    assert_eq!(cpu.pc, ADDR_RESET_VECTOR + 2 /* after BRK instruction + break mark at NOP */);
    assert_eq!(cpu.sp, sp_orig + 3 /* SR and return address */);
    assert_eq!(mem.read_u8(ADDR_RESET_VECTOR + 1), break_mark);
}
