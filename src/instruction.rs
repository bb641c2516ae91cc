//! The instruction set: opcodes, mnemonics, addressing modes and the table
//! that maps each opcode byte to its instruction.

use vstd::prelude::*;

use crate::cpu::ExecError;

verus! {

/// Every opcode that the emulator executes, named after its mnemonic and
/// addressing mode.
#[allow(non_camel_case_types)]
#[derive(Clone, Copy, PartialEq, Eq, Debug, Structural)]
pub enum Opcode {
    ADC_IMM,
    ADC_ZPG,
    ADC_ZPX,
    ADC_ABS,
    ADC_ABX,
    ADC_ABY,
    ADC_IDX,
    ADC_IDY,
    SBC_IMM,
    SBC_ZPG,
    SBC_ZPX,
    SBC_ABS,
    SBC_ABX,
    SBC_ABY,
    SBC_IDX,
    SBC_IDY,
    CMP_IMM,
    CMP_ZPG,
    CMP_ZPX,
    CMP_ABS,
    CMP_ABX,
    CMP_ABY,
    CMP_IDX,
    CMP_IDY,
    CPX_IMM,
    CPX_ZPG,
    CPX_ABS,
    CPY_IMM,
    CPY_ZPG,
    CPY_ABS,
    BCC_REL,
    BCS_REL,
    BEQ_REL,
    BNE_REL,
    BPL_REL,
    BMI_REL,
    BVC_REL,
    BVS_REL,
    BIT_ZPG,
    BIT_ABS,
    ASL_ACC,
    ASL_ZPG,
    ASL_ZPX,
    ASL_ABS,
    ASL_ABX,
    LSR_ACC,
    LSR_ZPG,
    LSR_ZPX,
    LSR_ABS,
    LSR_ABX,
    ROL_ACC,
    ROL_ZPG,
    ROL_ZPX,
    ROL_ABS,
    ROL_ABX,
    ROR_ACC,
    ROR_ZPG,
    ROR_ZPX,
    ROR_ABS,
    ROR_ABX,
    AND_IMM,
    AND_ZPG,
    AND_ZPX,
    AND_ABS,
    AND_ABX,
    AND_ABY,
    AND_IDX,
    AND_IDY,
    EOR_IMM,
    EOR_ZPG,
    EOR_ZPX,
    EOR_ABS,
    EOR_ABX,
    EOR_ABY,
    EOR_IDX,
    EOR_IDY,
    ORA_IMM,
    ORA_ZPG,
    ORA_ZPX,
    ORA_ABS,
    ORA_ABX,
    ORA_ABY,
    ORA_IDX,
    ORA_IDY,
    CLC,
    CLD,
    CLI,
    CLV,
    SEC,
    SED,
    SEI,
    INC_ZPG,
    INC_ZPX,
    INC_ABS,
    INC_ABX,
    INX,
    INY,
    DEC_ZPG,
    DEC_ZPX,
    DEC_ABS,
    DEC_ABX,
    DEX,
    DEY,
    JMP_ABS,
    JMP_IND,
    JSR_ABS,
    RTS,
    LDA_IMM,
    LDA_ZPG,
    LDA_ZPX,
    LDA_ABS,
    LDA_ABX,
    LDA_ABY,
    LDA_IDX,
    LDA_IDY,
    LDX_IMM,
    LDX_ZPG,
    LDX_ZPY,
    LDX_ABS,
    LDX_ABY,
    LDY_IMM,
    LDY_ZPG,
    LDY_ZPY,
    LDY_ABS,
    LDY_ABY,
    STA_ZPG,
    STA_ZPX,
    STA_ABS,
    STA_ABX,
    STA_ABY,
    STA_IDX,
    STA_IDY,
    STX_ZPG,
    STX_ZPY,
    STX_ABS,
    STY_ZPG,
    STY_ZPX,
    STY_ABS,
    TAX,
    TAY,
    TSX,
    TXA,
    TXS,
    TYA,
    PHA,
    PHP,
    PLA,
    PLP,
    NOP,
    BRK,
    RTI,
}

/// The operation an instruction performs, whatever its addressing mode.
#[derive(Clone, Copy, PartialEq, Eq, Debug, Structural)]
pub enum Mnemonic {
    /// Add with Carry
    ADC,
    /// Logical AND
    AND,
    /// Arithmetic Shift Left
    ASL,
    /// Branch if Carry Clear
    BCC,
    /// Branch if Carry Set
    BCS,
    /// Branch if Equal
    BEQ,
    /// Bit Test
    BIT,
    /// Branch if Minus
    BMI,
    /// Branch if Not Equal
    BNE,
    /// Branch if Positive
    BPL,
    /// Break
    BRK,
    /// Branch if Overflow Clear
    BVC,
    /// Branch if Overflow Set
    BVS,
    /// Clear Carry Flag
    CLC,
    /// Clear Decimal Mode
    CLD,
    /// Clear Interrupt Disable
    CLI,
    /// Clear Overflow Flag
    CLV,
    /// Compare Accumulator
    CMP,
    /// Compare X Register
    CPX,
    /// Compare Y Register
    CPY,
    /// Decrement Memory
    DEC,
    /// Decrement X Register
    DEX,
    /// Decrement Y Register
    DEY,
    /// Exclusive OR
    EOR,
    /// Increment Memory
    INC,
    /// Increment X Register
    INX,
    /// Increment Y Register
    INY,
    /// Jump
    JMP,
    /// Jump to Subroutine
    JSR,
    /// Load Accumulator
    LDA,
    /// Load X Register
    LDX,
    /// Load Y Register
    LDY,
    /// Logical Shift Right
    LSR,
    /// No Operation
    NOP,
    /// Logical OR
    ORA,
    /// Push Accumulator
    PHA,
    /// Push Processor Status
    PHP,
    /// Pull Accumulator
    PLA,
    /// Pull Processor Status
    PLP,
    /// Rotate Left
    ROL,
    /// Rotate Right
    ROR,
    /// Return from Interrupt
    RTI,
    /// Return from Subroutine
    RTS,
    /// Subtract with Carry
    SBC,
    /// Set Carry Flag
    SEC,
    /// Set Decimal Mode
    SED,
    /// Set Interrupt Disable
    SEI,
    /// Store Accumulator
    STA,
    /// Store X Register
    STX,
    /// Store Y Register
    STY,
    /// Transfer Accumulator to X
    TAX,
    /// Transfer Accumulator to Y
    TAY,
    /// Transfer Stack Pointer to X
    TSX,
    /// Transfer X to Accumulator
    TXA,
    /// Transfer X to Stack Pointer
    TXS,
    /// Transfer Y to Accumulator
    TYA,
}

/// How an instruction finds its operand.
#[derive(Clone, Copy, PartialEq, Eq, Debug, Structural)]
pub enum AddressingMode {
    /// Implied: no operand.
    IMP,
    /// The accumulator is the operand.
    ACC,
    /// The operand is the byte after the opcode.
    IMM,
    /// Zero page.
    ZPG,
    /// Zero page, indexed by X.
    ZPX,
    /// Zero page, indexed by Y.
    ZPY,
    /// A signed offset from the next instruction.
    REL,
    /// Absolute.
    ABS,
    /// Absolute, indexed by X.
    ABX,
    /// Absolute, indexed by Y.
    ABY,
    /// Indirect: the operand is the address of the target address.
    IND,
    /// Indexed indirect: `(oper,X)`.
    IDX,
    /// Indirect indexed: `(oper),Y`.
    IDY,
}

/// An entry of the instruction table.
#[derive(Clone, Copy, PartialEq, Eq, Debug, Structural)]
pub struct Instruction {
    pub opcode: Opcode,
    pub mnemonic: Mnemonic,
    pub addr_mode: AddressingMode,
    /// Cycles the instruction takes, before penalties for taken branches.
    pub cycles: u8,
}

/// The table entry built from its parts.
pub open spec fn entry(opcode: Opcode, mnemonic: Mnemonic, addr_mode: AddressingMode, cycles: u8) -> Instruction {
    Instruction { opcode, mnemonic, addr_mode, cycles }
}

/// The instruction table: the instruction that an opcode byte encodes, if any.
#[verifier::opaque]
pub open spec fn decode(byte: u8) -> Option<Instruction> {
    match byte {
        0x69 => Some(entry(Opcode::ADC_IMM, Mnemonic::ADC, AddressingMode::IMM, 2)),
        0x65 => Some(entry(Opcode::ADC_ZPG, Mnemonic::ADC, AddressingMode::ZPG, 3)),
        0x75 => Some(entry(Opcode::ADC_ZPX, Mnemonic::ADC, AddressingMode::ZPX, 4)),
        0x6D => Some(entry(Opcode::ADC_ABS, Mnemonic::ADC, AddressingMode::ABS, 4)),
        0x7D => Some(entry(Opcode::ADC_ABX, Mnemonic::ADC, AddressingMode::ABX, 4)),
        0x79 => Some(entry(Opcode::ADC_ABY, Mnemonic::ADC, AddressingMode::ABY, 4)),
        0x61 => Some(entry(Opcode::ADC_IDX, Mnemonic::ADC, AddressingMode::IDX, 6)),
        0x71 => Some(entry(Opcode::ADC_IDY, Mnemonic::ADC, AddressingMode::IDY, 5)),
        0xE9 => Some(entry(Opcode::SBC_IMM, Mnemonic::SBC, AddressingMode::IMM, 2)),
        0xE5 => Some(entry(Opcode::SBC_ZPG, Mnemonic::SBC, AddressingMode::ZPG, 3)),
        0xF5 => Some(entry(Opcode::SBC_ZPX, Mnemonic::SBC, AddressingMode::ZPX, 4)),
        0xED => Some(entry(Opcode::SBC_ABS, Mnemonic::SBC, AddressingMode::ABS, 4)),
        0xFD => Some(entry(Opcode::SBC_ABX, Mnemonic::SBC, AddressingMode::ABX, 4)),
        0xF9 => Some(entry(Opcode::SBC_ABY, Mnemonic::SBC, AddressingMode::ABY, 4)),
        0xE1 => Some(entry(Opcode::SBC_IDX, Mnemonic::SBC, AddressingMode::IDX, 6)),
        0xF1 => Some(entry(Opcode::SBC_IDY, Mnemonic::SBC, AddressingMode::IDY, 5)),
        0xC9 => Some(entry(Opcode::CMP_IMM, Mnemonic::CMP, AddressingMode::IMM, 2)),
        0xC5 => Some(entry(Opcode::CMP_ZPG, Mnemonic::CMP, AddressingMode::ZPG, 3)),
        0xD5 => Some(entry(Opcode::CMP_ZPX, Mnemonic::CMP, AddressingMode::ZPX, 4)),
        0xCD => Some(entry(Opcode::CMP_ABS, Mnemonic::CMP, AddressingMode::ABS, 4)),
        0xDD => Some(entry(Opcode::CMP_ABX, Mnemonic::CMP, AddressingMode::ABX, 4)),
        0xD9 => Some(entry(Opcode::CMP_ABY, Mnemonic::CMP, AddressingMode::ABY, 4)),
        0xC1 => Some(entry(Opcode::CMP_IDX, Mnemonic::CMP, AddressingMode::IDX, 6)),
        0xD1 => Some(entry(Opcode::CMP_IDY, Mnemonic::CMP, AddressingMode::IDY, 5)),
        0xE0 => Some(entry(Opcode::CPX_IMM, Mnemonic::CPX, AddressingMode::IMM, 2)),
        0xE4 => Some(entry(Opcode::CPX_ZPG, Mnemonic::CPX, AddressingMode::ZPG, 3)),
        0xEC => Some(entry(Opcode::CPX_ABS, Mnemonic::CPX, AddressingMode::ABS, 4)),
        0xC0 => Some(entry(Opcode::CPY_IMM, Mnemonic::CPY, AddressingMode::IMM, 2)),
        0xC4 => Some(entry(Opcode::CPY_ZPG, Mnemonic::CPY, AddressingMode::ZPG, 3)),
        0xCC => Some(entry(Opcode::CPY_ABS, Mnemonic::CPY, AddressingMode::ABS, 4)),
        0x90 => Some(entry(Opcode::BCC_REL, Mnemonic::BCC, AddressingMode::REL, 2)),
        0xB0 => Some(entry(Opcode::BCS_REL, Mnemonic::BCS, AddressingMode::REL, 2)),
        0xF0 => Some(entry(Opcode::BEQ_REL, Mnemonic::BEQ, AddressingMode::REL, 2)),
        0xD0 => Some(entry(Opcode::BNE_REL, Mnemonic::BNE, AddressingMode::REL, 2)),
        0x10 => Some(entry(Opcode::BPL_REL, Mnemonic::BPL, AddressingMode::REL, 2)),
        0x30 => Some(entry(Opcode::BMI_REL, Mnemonic::BMI, AddressingMode::REL, 2)),
        0x50 => Some(entry(Opcode::BVC_REL, Mnemonic::BVC, AddressingMode::REL, 2)),
        0x70 => Some(entry(Opcode::BVS_REL, Mnemonic::BVS, AddressingMode::REL, 2)),
        0x24 => Some(entry(Opcode::BIT_ZPG, Mnemonic::BIT, AddressingMode::ZPG, 3)),
        0x2C => Some(entry(Opcode::BIT_ABS, Mnemonic::BIT, AddressingMode::ABS, 4)),
        0x0A => Some(entry(Opcode::ASL_ACC, Mnemonic::ASL, AddressingMode::ACC, 2)),
        0x06 => Some(entry(Opcode::ASL_ZPG, Mnemonic::ASL, AddressingMode::ZPG, 5)),
        0x16 => Some(entry(Opcode::ASL_ZPX, Mnemonic::ASL, AddressingMode::ZPX, 6)),
        0x0E => Some(entry(Opcode::ASL_ABS, Mnemonic::ASL, AddressingMode::ABS, 6)),
        0x1E => Some(entry(Opcode::ASL_ABX, Mnemonic::ASL, AddressingMode::ABX, 7)),
        0x4A => Some(entry(Opcode::LSR_ACC, Mnemonic::LSR, AddressingMode::ACC, 2)),
        0x46 => Some(entry(Opcode::LSR_ZPG, Mnemonic::LSR, AddressingMode::ZPG, 5)),
        0x56 => Some(entry(Opcode::LSR_ZPX, Mnemonic::LSR, AddressingMode::ZPX, 6)),
        0x4E => Some(entry(Opcode::LSR_ABS, Mnemonic::LSR, AddressingMode::ABS, 6)),
        0x5E => Some(entry(Opcode::LSR_ABX, Mnemonic::LSR, AddressingMode::ABX, 7)),
        0x2A => Some(entry(Opcode::ROL_ACC, Mnemonic::ROL, AddressingMode::ACC, 2)),
        0x26 => Some(entry(Opcode::ROL_ZPG, Mnemonic::ROL, AddressingMode::ZPG, 5)),
        0x36 => Some(entry(Opcode::ROL_ZPX, Mnemonic::ROL, AddressingMode::ZPX, 6)),
        0x2E => Some(entry(Opcode::ROL_ABS, Mnemonic::ROL, AddressingMode::ABS, 6)),
        0x3E => Some(entry(Opcode::ROL_ABX, Mnemonic::ROL, AddressingMode::ABX, 7)),
        0x6A => Some(entry(Opcode::ROR_ACC, Mnemonic::ROR, AddressingMode::ACC, 2)),
        0x66 => Some(entry(Opcode::ROR_ZPG, Mnemonic::ROR, AddressingMode::ZPG, 5)),
        0x76 => Some(entry(Opcode::ROR_ZPX, Mnemonic::ROR, AddressingMode::ZPX, 6)),
        0x6E => Some(entry(Opcode::ROR_ABS, Mnemonic::ROR, AddressingMode::ABS, 6)),
        0x7E => Some(entry(Opcode::ROR_ABX, Mnemonic::ROR, AddressingMode::ABX, 7)),
        0x29 => Some(entry(Opcode::AND_IMM, Mnemonic::AND, AddressingMode::IMM, 2)),
        0x25 => Some(entry(Opcode::AND_ZPG, Mnemonic::AND, AddressingMode::ZPG, 3)),
        0x35 => Some(entry(Opcode::AND_ZPX, Mnemonic::AND, AddressingMode::ZPX, 4)),
        0x2D => Some(entry(Opcode::AND_ABS, Mnemonic::AND, AddressingMode::ABS, 4)),
        0x3D => Some(entry(Opcode::AND_ABX, Mnemonic::AND, AddressingMode::ABX, 4)),
        0x39 => Some(entry(Opcode::AND_ABY, Mnemonic::AND, AddressingMode::ABY, 4)),
        0x21 => Some(entry(Opcode::AND_IDX, Mnemonic::AND, AddressingMode::IDX, 6)),
        0x31 => Some(entry(Opcode::AND_IDY, Mnemonic::AND, AddressingMode::IDY, 5)),
        0x49 => Some(entry(Opcode::EOR_IMM, Mnemonic::EOR, AddressingMode::IMM, 2)),
        0x45 => Some(entry(Opcode::EOR_ZPG, Mnemonic::EOR, AddressingMode::ZPG, 3)),
        0x55 => Some(entry(Opcode::EOR_ZPX, Mnemonic::EOR, AddressingMode::ZPX, 4)),
        0x4D => Some(entry(Opcode::EOR_ABS, Mnemonic::EOR, AddressingMode::ABS, 4)),
        0x5D => Some(entry(Opcode::EOR_ABX, Mnemonic::EOR, AddressingMode::ABX, 4)),
        0x59 => Some(entry(Opcode::EOR_ABY, Mnemonic::EOR, AddressingMode::ABY, 4)),
        0x41 => Some(entry(Opcode::EOR_IDX, Mnemonic::EOR, AddressingMode::IDX, 6)),
        0x51 => Some(entry(Opcode::EOR_IDY, Mnemonic::EOR, AddressingMode::IDY, 5)),
        0x09 => Some(entry(Opcode::ORA_IMM, Mnemonic::ORA, AddressingMode::IMM, 2)),
        0x05 => Some(entry(Opcode::ORA_ZPG, Mnemonic::ORA, AddressingMode::ZPG, 3)),
        0x15 => Some(entry(Opcode::ORA_ZPX, Mnemonic::ORA, AddressingMode::ZPX, 4)),
        0x0D => Some(entry(Opcode::ORA_ABS, Mnemonic::ORA, AddressingMode::ABS, 4)),
        0x1D => Some(entry(Opcode::ORA_ABX, Mnemonic::ORA, AddressingMode::ABX, 4)),
        0x19 => Some(entry(Opcode::ORA_ABY, Mnemonic::ORA, AddressingMode::ABY, 4)),
        0x01 => Some(entry(Opcode::ORA_IDX, Mnemonic::ORA, AddressingMode::IDX, 6)),
        0x11 => Some(entry(Opcode::ORA_IDY, Mnemonic::ORA, AddressingMode::IDY, 5)),
        0x18 => Some(entry(Opcode::CLC, Mnemonic::CLC, AddressingMode::IMP, 2)),
        0xD8 => Some(entry(Opcode::CLD, Mnemonic::CLD, AddressingMode::IMP, 2)),
        0x58 => Some(entry(Opcode::CLI, Mnemonic::CLI, AddressingMode::IMP, 2)),
        0xB8 => Some(entry(Opcode::CLV, Mnemonic::CLV, AddressingMode::IMP, 2)),
        0x38 => Some(entry(Opcode::SEC, Mnemonic::SEC, AddressingMode::IMP, 2)),
        0xF8 => Some(entry(Opcode::SED, Mnemonic::SED, AddressingMode::IMP, 2)),
        0x78 => Some(entry(Opcode::SEI, Mnemonic::SEI, AddressingMode::IMP, 2)),
        0xE6 => Some(entry(Opcode::INC_ZPG, Mnemonic::INC, AddressingMode::ZPG, 5)),
        0xF6 => Some(entry(Opcode::INC_ZPX, Mnemonic::INC, AddressingMode::ZPX, 6)),
        0xEE => Some(entry(Opcode::INC_ABS, Mnemonic::INC, AddressingMode::ABS, 6)),
        0xFE => Some(entry(Opcode::INC_ABX, Mnemonic::INC, AddressingMode::ABX, 7)),
        0xE8 => Some(entry(Opcode::INX, Mnemonic::INX, AddressingMode::IMP, 2)),
        0xC8 => Some(entry(Opcode::INY, Mnemonic::INY, AddressingMode::IMP, 2)),
        0xC6 => Some(entry(Opcode::DEC_ZPG, Mnemonic::DEC, AddressingMode::ZPG, 5)),
        0xD6 => Some(entry(Opcode::DEC_ZPX, Mnemonic::DEC, AddressingMode::ZPX, 6)),
        0xCE => Some(entry(Opcode::DEC_ABS, Mnemonic::DEC, AddressingMode::ABS, 6)),
        0xDE => Some(entry(Opcode::DEC_ABX, Mnemonic::DEC, AddressingMode::ABX, 7)),
        0xCA => Some(entry(Opcode::DEX, Mnemonic::DEX, AddressingMode::IMP, 2)),
        0x88 => Some(entry(Opcode::DEY, Mnemonic::DEY, AddressingMode::IMP, 2)),
        0x4C => Some(entry(Opcode::JMP_ABS, Mnemonic::JMP, AddressingMode::ABS, 3)),
        0x6C => Some(entry(Opcode::JMP_IND, Mnemonic::JMP, AddressingMode::IND, 5)),
        0x20 => Some(entry(Opcode::JSR_ABS, Mnemonic::JSR, AddressingMode::ABS, 6)),
        0x60 => Some(entry(Opcode::RTS, Mnemonic::RTS, AddressingMode::IMP, 6)),
        0xA9 => Some(entry(Opcode::LDA_IMM, Mnemonic::LDA, AddressingMode::IMM, 2)),
        0xA5 => Some(entry(Opcode::LDA_ZPG, Mnemonic::LDA, AddressingMode::ZPG, 3)),
        0xB5 => Some(entry(Opcode::LDA_ZPX, Mnemonic::LDA, AddressingMode::ZPX, 4)),
        0xAD => Some(entry(Opcode::LDA_ABS, Mnemonic::LDA, AddressingMode::ABS, 4)),
        0xBD => Some(entry(Opcode::LDA_ABX, Mnemonic::LDA, AddressingMode::ABX, 4)),
        0xB9 => Some(entry(Opcode::LDA_ABY, Mnemonic::LDA, AddressingMode::ABY, 4)),
        0xA1 => Some(entry(Opcode::LDA_IDX, Mnemonic::LDA, AddressingMode::IDX, 6)),
        0xB1 => Some(entry(Opcode::LDA_IDY, Mnemonic::LDA, AddressingMode::IDY, 5)),
        0xA2 => Some(entry(Opcode::LDX_IMM, Mnemonic::LDX, AddressingMode::IMM, 2)),
        0xA6 => Some(entry(Opcode::LDX_ZPG, Mnemonic::LDX, AddressingMode::ZPG, 3)),
        0xB6 => Some(entry(Opcode::LDX_ZPY, Mnemonic::LDX, AddressingMode::ZPY, 4)),
        0xAE => Some(entry(Opcode::LDX_ABS, Mnemonic::LDX, AddressingMode::ABS, 4)),
        0xBE => Some(entry(Opcode::LDX_ABY, Mnemonic::LDX, AddressingMode::ABY, 4)),
        0xA0 => Some(entry(Opcode::LDY_IMM, Mnemonic::LDY, AddressingMode::IMM, 2)),
        0xA4 => Some(entry(Opcode::LDY_ZPG, Mnemonic::LDY, AddressingMode::ZPG, 3)),
        0xB4 => Some(entry(Opcode::LDY_ZPY, Mnemonic::LDY, AddressingMode::ZPY, 4)),
        0xAC => Some(entry(Opcode::LDY_ABS, Mnemonic::LDY, AddressingMode::ABS, 4)),
        0xBC => Some(entry(Opcode::LDY_ABY, Mnemonic::LDY, AddressingMode::ABY, 4)),
        0x85 => Some(entry(Opcode::STA_ZPG, Mnemonic::STA, AddressingMode::ZPG, 3)),
        0x95 => Some(entry(Opcode::STA_ZPX, Mnemonic::STA, AddressingMode::ZPX, 4)),
        0x8D => Some(entry(Opcode::STA_ABS, Mnemonic::STA, AddressingMode::ABS, 4)),
        0x9D => Some(entry(Opcode::STA_ABX, Mnemonic::STA, AddressingMode::ABX, 5)),
        0x99 => Some(entry(Opcode::STA_ABY, Mnemonic::STA, AddressingMode::ABY, 5)),
        0x81 => Some(entry(Opcode::STA_IDX, Mnemonic::STA, AddressingMode::IDX, 6)),
        0x91 => Some(entry(Opcode::STA_IDY, Mnemonic::STA, AddressingMode::IDY, 6)),
        0x86 => Some(entry(Opcode::STX_ZPG, Mnemonic::STX, AddressingMode::ZPG, 3)),
        0x96 => Some(entry(Opcode::STX_ZPY, Mnemonic::STX, AddressingMode::ZPY, 4)),
        0x8E => Some(entry(Opcode::STX_ABS, Mnemonic::STX, AddressingMode::ABS, 4)),
        0x84 => Some(entry(Opcode::STY_ZPG, Mnemonic::STY, AddressingMode::ZPG, 3)),
        0x94 => Some(entry(Opcode::STY_ZPX, Mnemonic::STY, AddressingMode::ZPX, 4)),
        0x8C => Some(entry(Opcode::STY_ABS, Mnemonic::STY, AddressingMode::ABS, 4)),
        0xAA => Some(entry(Opcode::TAX, Mnemonic::TAX, AddressingMode::IMP, 2)),
        0xA8 => Some(entry(Opcode::TAY, Mnemonic::TAY, AddressingMode::IMP, 2)),
        0xBA => Some(entry(Opcode::TSX, Mnemonic::TSX, AddressingMode::IMP, 2)),
        0x8A => Some(entry(Opcode::TXA, Mnemonic::TXA, AddressingMode::IMP, 2)),
        0x9A => Some(entry(Opcode::TXS, Mnemonic::TXS, AddressingMode::IMP, 2)),
        0x98 => Some(entry(Opcode::TYA, Mnemonic::TYA, AddressingMode::IMP, 2)),
        0x48 => Some(entry(Opcode::PHA, Mnemonic::PHA, AddressingMode::IMP, 3)),
        0x08 => Some(entry(Opcode::PHP, Mnemonic::PHP, AddressingMode::IMP, 3)),
        0x68 => Some(entry(Opcode::PLA, Mnemonic::PLA, AddressingMode::IMP, 4)),
        0x28 => Some(entry(Opcode::PLP, Mnemonic::PLP, AddressingMode::IMP, 4)),
        0xEA => Some(entry(Opcode::NOP, Mnemonic::NOP, AddressingMode::IMP, 2)),
        0x00 => Some(entry(Opcode::BRK, Mnemonic::BRK, AddressingMode::IMP, 7)),
        0x40 => Some(entry(Opcode::RTI, Mnemonic::RTI, AddressingMode::IMP, 6)),
        _ => None,
    }
}

/// Every instruction of the table takes at least two cycles.
pub proof fn lemma_decode_cycles(byte: u8)
    ensures
        decode(byte) is Some ==> decode(byte).unwrap().cycles >= 2,
{
    reveal(decode);
}

impl Opcode {
    /// The byte that encodes this opcode.
    pub fn byte(self) -> (r: u8)
        ensures
            decode(r) is Some,
            decode(r).unwrap().opcode == self,
    {
        reveal(decode);
        match self {
            Opcode::ADC_IMM => 0x69,
            Opcode::ADC_ZPG => 0x65,
            Opcode::ADC_ZPX => 0x75,
            Opcode::ADC_ABS => 0x6D,
            Opcode::ADC_ABX => 0x7D,
            Opcode::ADC_ABY => 0x79,
            Opcode::ADC_IDX => 0x61,
            Opcode::ADC_IDY => 0x71,
            Opcode::SBC_IMM => 0xE9,
            Opcode::SBC_ZPG => 0xE5,
            Opcode::SBC_ZPX => 0xF5,
            Opcode::SBC_ABS => 0xED,
            Opcode::SBC_ABX => 0xFD,
            Opcode::SBC_ABY => 0xF9,
            Opcode::SBC_IDX => 0xE1,
            Opcode::SBC_IDY => 0xF1,
            Opcode::CMP_IMM => 0xC9,
            Opcode::CMP_ZPG => 0xC5,
            Opcode::CMP_ZPX => 0xD5,
            Opcode::CMP_ABS => 0xCD,
            Opcode::CMP_ABX => 0xDD,
            Opcode::CMP_ABY => 0xD9,
            Opcode::CMP_IDX => 0xC1,
            Opcode::CMP_IDY => 0xD1,
            Opcode::CPX_IMM => 0xE0,
            Opcode::CPX_ZPG => 0xE4,
            Opcode::CPX_ABS => 0xEC,
            Opcode::CPY_IMM => 0xC0,
            Opcode::CPY_ZPG => 0xC4,
            Opcode::CPY_ABS => 0xCC,
            Opcode::BCC_REL => 0x90,
            Opcode::BCS_REL => 0xB0,
            Opcode::BEQ_REL => 0xF0,
            Opcode::BNE_REL => 0xD0,
            Opcode::BPL_REL => 0x10,
            Opcode::BMI_REL => 0x30,
            Opcode::BVC_REL => 0x50,
            Opcode::BVS_REL => 0x70,
            Opcode::BIT_ZPG => 0x24,
            Opcode::BIT_ABS => 0x2C,
            Opcode::ASL_ACC => 0x0A,
            Opcode::ASL_ZPG => 0x06,
            Opcode::ASL_ZPX => 0x16,
            Opcode::ASL_ABS => 0x0E,
            Opcode::ASL_ABX => 0x1E,
            Opcode::LSR_ACC => 0x4A,
            Opcode::LSR_ZPG => 0x46,
            Opcode::LSR_ZPX => 0x56,
            Opcode::LSR_ABS => 0x4E,
            Opcode::LSR_ABX => 0x5E,
            Opcode::ROL_ACC => 0x2A,
            Opcode::ROL_ZPG => 0x26,
            Opcode::ROL_ZPX => 0x36,
            Opcode::ROL_ABS => 0x2E,
            Opcode::ROL_ABX => 0x3E,
            Opcode::ROR_ACC => 0x6A,
            Opcode::ROR_ZPG => 0x66,
            Opcode::ROR_ZPX => 0x76,
            Opcode::ROR_ABS => 0x6E,
            Opcode::ROR_ABX => 0x7E,
            Opcode::AND_IMM => 0x29,
            Opcode::AND_ZPG => 0x25,
            Opcode::AND_ZPX => 0x35,
            Opcode::AND_ABS => 0x2D,
            Opcode::AND_ABX => 0x3D,
            Opcode::AND_ABY => 0x39,
            Opcode::AND_IDX => 0x21,
            Opcode::AND_IDY => 0x31,
            Opcode::EOR_IMM => 0x49,
            Opcode::EOR_ZPG => 0x45,
            Opcode::EOR_ZPX => 0x55,
            Opcode::EOR_ABS => 0x4D,
            Opcode::EOR_ABX => 0x5D,
            Opcode::EOR_ABY => 0x59,
            Opcode::EOR_IDX => 0x41,
            Opcode::EOR_IDY => 0x51,
            Opcode::ORA_IMM => 0x09,
            Opcode::ORA_ZPG => 0x05,
            Opcode::ORA_ZPX => 0x15,
            Opcode::ORA_ABS => 0x0D,
            Opcode::ORA_ABX => 0x1D,
            Opcode::ORA_ABY => 0x19,
            Opcode::ORA_IDX => 0x01,
            Opcode::ORA_IDY => 0x11,
            Opcode::CLC => 0x18,
            Opcode::CLD => 0xD8,
            Opcode::CLI => 0x58,
            Opcode::CLV => 0xB8,
            Opcode::SEC => 0x38,
            Opcode::SED => 0xF8,
            Opcode::SEI => 0x78,
            Opcode::INC_ZPG => 0xE6,
            Opcode::INC_ZPX => 0xF6,
            Opcode::INC_ABS => 0xEE,
            Opcode::INC_ABX => 0xFE,
            Opcode::INX => 0xE8,
            Opcode::INY => 0xC8,
            Opcode::DEC_ZPG => 0xC6,
            Opcode::DEC_ZPX => 0xD6,
            Opcode::DEC_ABS => 0xCE,
            Opcode::DEC_ABX => 0xDE,
            Opcode::DEX => 0xCA,
            Opcode::DEY => 0x88,
            Opcode::JMP_ABS => 0x4C,
            Opcode::JMP_IND => 0x6C,
            Opcode::JSR_ABS => 0x20,
            Opcode::RTS => 0x60,
            Opcode::LDA_IMM => 0xA9,
            Opcode::LDA_ZPG => 0xA5,
            Opcode::LDA_ZPX => 0xB5,
            Opcode::LDA_ABS => 0xAD,
            Opcode::LDA_ABX => 0xBD,
            Opcode::LDA_ABY => 0xB9,
            Opcode::LDA_IDX => 0xA1,
            Opcode::LDA_IDY => 0xB1,
            Opcode::LDX_IMM => 0xA2,
            Opcode::LDX_ZPG => 0xA6,
            Opcode::LDX_ZPY => 0xB6,
            Opcode::LDX_ABS => 0xAE,
            Opcode::LDX_ABY => 0xBE,
            Opcode::LDY_IMM => 0xA0,
            Opcode::LDY_ZPG => 0xA4,
            Opcode::LDY_ZPY => 0xB4,
            Opcode::LDY_ABS => 0xAC,
            Opcode::LDY_ABY => 0xBC,
            Opcode::STA_ZPG => 0x85,
            Opcode::STA_ZPX => 0x95,
            Opcode::STA_ABS => 0x8D,
            Opcode::STA_ABX => 0x9D,
            Opcode::STA_ABY => 0x99,
            Opcode::STA_IDX => 0x81,
            Opcode::STA_IDY => 0x91,
            Opcode::STX_ZPG => 0x86,
            Opcode::STX_ZPY => 0x96,
            Opcode::STX_ABS => 0x8E,
            Opcode::STY_ZPG => 0x84,
            Opcode::STY_ZPX => 0x94,
            Opcode::STY_ABS => 0x8C,
            Opcode::TAX => 0xAA,
            Opcode::TAY => 0xA8,
            Opcode::TSX => 0xBA,
            Opcode::TXA => 0x8A,
            Opcode::TXS => 0x9A,
            Opcode::TYA => 0x98,
            Opcode::PHA => 0x48,
            Opcode::PHP => 0x08,
            Opcode::PLA => 0x68,
            Opcode::PLP => 0x28,
            Opcode::NOP => 0xEA,
            Opcode::BRK => 0x00,
            Opcode::RTI => 0x40,
        }
    }
}

impl Instruction {
    /// Looks an opcode byte up in the instruction table.
    pub fn from_opcode(opcode: u8) -> (r: Result<Instruction, ExecError>)
        ensures
            r == (match decode(opcode) {
                Some(ins) => Ok(ins),
                None => Err(ExecError::DecodeError(opcode)),
            }),
            r is Ok ==> r->Ok_0.cycles >= 2,
    {
        reveal(decode);
        let (op, mnemonic, mode, cycles) = match opcode {
            0x69 => (Opcode::ADC_IMM, Mnemonic::ADC, AddressingMode::IMM, 2u8),
            0x65 => (Opcode::ADC_ZPG, Mnemonic::ADC, AddressingMode::ZPG, 3u8),
            0x75 => (Opcode::ADC_ZPX, Mnemonic::ADC, AddressingMode::ZPX, 4u8),
            0x6D => (Opcode::ADC_ABS, Mnemonic::ADC, AddressingMode::ABS, 4u8),
            0x7D => (Opcode::ADC_ABX, Mnemonic::ADC, AddressingMode::ABX, 4u8),
            0x79 => (Opcode::ADC_ABY, Mnemonic::ADC, AddressingMode::ABY, 4u8),
            0x61 => (Opcode::ADC_IDX, Mnemonic::ADC, AddressingMode::IDX, 6u8),
            0x71 => (Opcode::ADC_IDY, Mnemonic::ADC, AddressingMode::IDY, 5u8),
            0xE9 => (Opcode::SBC_IMM, Mnemonic::SBC, AddressingMode::IMM, 2u8),
            0xE5 => (Opcode::SBC_ZPG, Mnemonic::SBC, AddressingMode::ZPG, 3u8),
            0xF5 => (Opcode::SBC_ZPX, Mnemonic::SBC, AddressingMode::ZPX, 4u8),
            0xED => (Opcode::SBC_ABS, Mnemonic::SBC, AddressingMode::ABS, 4u8),
            0xFD => (Opcode::SBC_ABX, Mnemonic::SBC, AddressingMode::ABX, 4u8),
            0xF9 => (Opcode::SBC_ABY, Mnemonic::SBC, AddressingMode::ABY, 4u8),
            0xE1 => (Opcode::SBC_IDX, Mnemonic::SBC, AddressingMode::IDX, 6u8),
            0xF1 => (Opcode::SBC_IDY, Mnemonic::SBC, AddressingMode::IDY, 5u8),
            0xC9 => (Opcode::CMP_IMM, Mnemonic::CMP, AddressingMode::IMM, 2u8),
            0xC5 => (Opcode::CMP_ZPG, Mnemonic::CMP, AddressingMode::ZPG, 3u8),
            0xD5 => (Opcode::CMP_ZPX, Mnemonic::CMP, AddressingMode::ZPX, 4u8),
            0xCD => (Opcode::CMP_ABS, Mnemonic::CMP, AddressingMode::ABS, 4u8),
            0xDD => (Opcode::CMP_ABX, Mnemonic::CMP, AddressingMode::ABX, 4u8),
            0xD9 => (Opcode::CMP_ABY, Mnemonic::CMP, AddressingMode::ABY, 4u8),
            0xC1 => (Opcode::CMP_IDX, Mnemonic::CMP, AddressingMode::IDX, 6u8),
            0xD1 => (Opcode::CMP_IDY, Mnemonic::CMP, AddressingMode::IDY, 5u8),
            0xE0 => (Opcode::CPX_IMM, Mnemonic::CPX, AddressingMode::IMM, 2u8),
            0xE4 => (Opcode::CPX_ZPG, Mnemonic::CPX, AddressingMode::ZPG, 3u8),
            0xEC => (Opcode::CPX_ABS, Mnemonic::CPX, AddressingMode::ABS, 4u8),
            0xC0 => (Opcode::CPY_IMM, Mnemonic::CPY, AddressingMode::IMM, 2u8),
            0xC4 => (Opcode::CPY_ZPG, Mnemonic::CPY, AddressingMode::ZPG, 3u8),
            0xCC => (Opcode::CPY_ABS, Mnemonic::CPY, AddressingMode::ABS, 4u8),
            0x90 => (Opcode::BCC_REL, Mnemonic::BCC, AddressingMode::REL, 2u8),
            0xB0 => (Opcode::BCS_REL, Mnemonic::BCS, AddressingMode::REL, 2u8),
            0xF0 => (Opcode::BEQ_REL, Mnemonic::BEQ, AddressingMode::REL, 2u8),
            0xD0 => (Opcode::BNE_REL, Mnemonic::BNE, AddressingMode::REL, 2u8),
            0x10 => (Opcode::BPL_REL, Mnemonic::BPL, AddressingMode::REL, 2u8),
            0x30 => (Opcode::BMI_REL, Mnemonic::BMI, AddressingMode::REL, 2u8),
            0x50 => (Opcode::BVC_REL, Mnemonic::BVC, AddressingMode::REL, 2u8),
            0x70 => (Opcode::BVS_REL, Mnemonic::BVS, AddressingMode::REL, 2u8),
            0x24 => (Opcode::BIT_ZPG, Mnemonic::BIT, AddressingMode::ZPG, 3u8),
            0x2C => (Opcode::BIT_ABS, Mnemonic::BIT, AddressingMode::ABS, 4u8),
            0x0A => (Opcode::ASL_ACC, Mnemonic::ASL, AddressingMode::ACC, 2u8),
            0x06 => (Opcode::ASL_ZPG, Mnemonic::ASL, AddressingMode::ZPG, 5u8),
            0x16 => (Opcode::ASL_ZPX, Mnemonic::ASL, AddressingMode::ZPX, 6u8),
            0x0E => (Opcode::ASL_ABS, Mnemonic::ASL, AddressingMode::ABS, 6u8),
            0x1E => (Opcode::ASL_ABX, Mnemonic::ASL, AddressingMode::ABX, 7u8),
            0x4A => (Opcode::LSR_ACC, Mnemonic::LSR, AddressingMode::ACC, 2u8),
            0x46 => (Opcode::LSR_ZPG, Mnemonic::LSR, AddressingMode::ZPG, 5u8),
            0x56 => (Opcode::LSR_ZPX, Mnemonic::LSR, AddressingMode::ZPX, 6u8),
            0x4E => (Opcode::LSR_ABS, Mnemonic::LSR, AddressingMode::ABS, 6u8),
            0x5E => (Opcode::LSR_ABX, Mnemonic::LSR, AddressingMode::ABX, 7u8),
            0x2A => (Opcode::ROL_ACC, Mnemonic::ROL, AddressingMode::ACC, 2u8),
            0x26 => (Opcode::ROL_ZPG, Mnemonic::ROL, AddressingMode::ZPG, 5u8),
            0x36 => (Opcode::ROL_ZPX, Mnemonic::ROL, AddressingMode::ZPX, 6u8),
            0x2E => (Opcode::ROL_ABS, Mnemonic::ROL, AddressingMode::ABS, 6u8),
            0x3E => (Opcode::ROL_ABX, Mnemonic::ROL, AddressingMode::ABX, 7u8),
            0x6A => (Opcode::ROR_ACC, Mnemonic::ROR, AddressingMode::ACC, 2u8),
            0x66 => (Opcode::ROR_ZPG, Mnemonic::ROR, AddressingMode::ZPG, 5u8),
            0x76 => (Opcode::ROR_ZPX, Mnemonic::ROR, AddressingMode::ZPX, 6u8),
            0x6E => (Opcode::ROR_ABS, Mnemonic::ROR, AddressingMode::ABS, 6u8),
            0x7E => (Opcode::ROR_ABX, Mnemonic::ROR, AddressingMode::ABX, 7u8),
            0x29 => (Opcode::AND_IMM, Mnemonic::AND, AddressingMode::IMM, 2u8),
            0x25 => (Opcode::AND_ZPG, Mnemonic::AND, AddressingMode::ZPG, 3u8),
            0x35 => (Opcode::AND_ZPX, Mnemonic::AND, AddressingMode::ZPX, 4u8),
            0x2D => (Opcode::AND_ABS, Mnemonic::AND, AddressingMode::ABS, 4u8),
            0x3D => (Opcode::AND_ABX, Mnemonic::AND, AddressingMode::ABX, 4u8),
            0x39 => (Opcode::AND_ABY, Mnemonic::AND, AddressingMode::ABY, 4u8),
            0x21 => (Opcode::AND_IDX, Mnemonic::AND, AddressingMode::IDX, 6u8),
            0x31 => (Opcode::AND_IDY, Mnemonic::AND, AddressingMode::IDY, 5u8),
            0x49 => (Opcode::EOR_IMM, Mnemonic::EOR, AddressingMode::IMM, 2u8),
            0x45 => (Opcode::EOR_ZPG, Mnemonic::EOR, AddressingMode::ZPG, 3u8),
            0x55 => (Opcode::EOR_ZPX, Mnemonic::EOR, AddressingMode::ZPX, 4u8),
            0x4D => (Opcode::EOR_ABS, Mnemonic::EOR, AddressingMode::ABS, 4u8),
            0x5D => (Opcode::EOR_ABX, Mnemonic::EOR, AddressingMode::ABX, 4u8),
            0x59 => (Opcode::EOR_ABY, Mnemonic::EOR, AddressingMode::ABY, 4u8),
            0x41 => (Opcode::EOR_IDX, Mnemonic::EOR, AddressingMode::IDX, 6u8),
            0x51 => (Opcode::EOR_IDY, Mnemonic::EOR, AddressingMode::IDY, 5u8),
            0x09 => (Opcode::ORA_IMM, Mnemonic::ORA, AddressingMode::IMM, 2u8),
            0x05 => (Opcode::ORA_ZPG, Mnemonic::ORA, AddressingMode::ZPG, 3u8),
            0x15 => (Opcode::ORA_ZPX, Mnemonic::ORA, AddressingMode::ZPX, 4u8),
            0x0D => (Opcode::ORA_ABS, Mnemonic::ORA, AddressingMode::ABS, 4u8),
            0x1D => (Opcode::ORA_ABX, Mnemonic::ORA, AddressingMode::ABX, 4u8),
            0x19 => (Opcode::ORA_ABY, Mnemonic::ORA, AddressingMode::ABY, 4u8),
            0x01 => (Opcode::ORA_IDX, Mnemonic::ORA, AddressingMode::IDX, 6u8),
            0x11 => (Opcode::ORA_IDY, Mnemonic::ORA, AddressingMode::IDY, 5u8),
            0x18 => (Opcode::CLC, Mnemonic::CLC, AddressingMode::IMP, 2u8),
            0xD8 => (Opcode::CLD, Mnemonic::CLD, AddressingMode::IMP, 2u8),
            0x58 => (Opcode::CLI, Mnemonic::CLI, AddressingMode::IMP, 2u8),
            0xB8 => (Opcode::CLV, Mnemonic::CLV, AddressingMode::IMP, 2u8),
            0x38 => (Opcode::SEC, Mnemonic::SEC, AddressingMode::IMP, 2u8),
            0xF8 => (Opcode::SED, Mnemonic::SED, AddressingMode::IMP, 2u8),
            0x78 => (Opcode::SEI, Mnemonic::SEI, AddressingMode::IMP, 2u8),
            0xE6 => (Opcode::INC_ZPG, Mnemonic::INC, AddressingMode::ZPG, 5u8),
            0xF6 => (Opcode::INC_ZPX, Mnemonic::INC, AddressingMode::ZPX, 6u8),
            0xEE => (Opcode::INC_ABS, Mnemonic::INC, AddressingMode::ABS, 6u8),
            0xFE => (Opcode::INC_ABX, Mnemonic::INC, AddressingMode::ABX, 7u8),
            0xE8 => (Opcode::INX, Mnemonic::INX, AddressingMode::IMP, 2u8),
            0xC8 => (Opcode::INY, Mnemonic::INY, AddressingMode::IMP, 2u8),
            0xC6 => (Opcode::DEC_ZPG, Mnemonic::DEC, AddressingMode::ZPG, 5u8),
            0xD6 => (Opcode::DEC_ZPX, Mnemonic::DEC, AddressingMode::ZPX, 6u8),
            0xCE => (Opcode::DEC_ABS, Mnemonic::DEC, AddressingMode::ABS, 6u8),
            0xDE => (Opcode::DEC_ABX, Mnemonic::DEC, AddressingMode::ABX, 7u8),
            0xCA => (Opcode::DEX, Mnemonic::DEX, AddressingMode::IMP, 2u8),
            0x88 => (Opcode::DEY, Mnemonic::DEY, AddressingMode::IMP, 2u8),
            0x4C => (Opcode::JMP_ABS, Mnemonic::JMP, AddressingMode::ABS, 3u8),
            0x6C => (Opcode::JMP_IND, Mnemonic::JMP, AddressingMode::IND, 5u8),
            0x20 => (Opcode::JSR_ABS, Mnemonic::JSR, AddressingMode::ABS, 6u8),
            0x60 => (Opcode::RTS, Mnemonic::RTS, AddressingMode::IMP, 6u8),
            0xA9 => (Opcode::LDA_IMM, Mnemonic::LDA, AddressingMode::IMM, 2u8),
            0xA5 => (Opcode::LDA_ZPG, Mnemonic::LDA, AddressingMode::ZPG, 3u8),
            0xB5 => (Opcode::LDA_ZPX, Mnemonic::LDA, AddressingMode::ZPX, 4u8),
            0xAD => (Opcode::LDA_ABS, Mnemonic::LDA, AddressingMode::ABS, 4u8),
            0xBD => (Opcode::LDA_ABX, Mnemonic::LDA, AddressingMode::ABX, 4u8),
            0xB9 => (Opcode::LDA_ABY, Mnemonic::LDA, AddressingMode::ABY, 4u8),
            0xA1 => (Opcode::LDA_IDX, Mnemonic::LDA, AddressingMode::IDX, 6u8),
            0xB1 => (Opcode::LDA_IDY, Mnemonic::LDA, AddressingMode::IDY, 5u8),
            0xA2 => (Opcode::LDX_IMM, Mnemonic::LDX, AddressingMode::IMM, 2u8),
            0xA6 => (Opcode::LDX_ZPG, Mnemonic::LDX, AddressingMode::ZPG, 3u8),
            0xB6 => (Opcode::LDX_ZPY, Mnemonic::LDX, AddressingMode::ZPY, 4u8),
            0xAE => (Opcode::LDX_ABS, Mnemonic::LDX, AddressingMode::ABS, 4u8),
            0xBE => (Opcode::LDX_ABY, Mnemonic::LDX, AddressingMode::ABY, 4u8),
            0xA0 => (Opcode::LDY_IMM, Mnemonic::LDY, AddressingMode::IMM, 2u8),
            0xA4 => (Opcode::LDY_ZPG, Mnemonic::LDY, AddressingMode::ZPG, 3u8),
            0xB4 => (Opcode::LDY_ZPY, Mnemonic::LDY, AddressingMode::ZPY, 4u8),
            0xAC => (Opcode::LDY_ABS, Mnemonic::LDY, AddressingMode::ABS, 4u8),
            0xBC => (Opcode::LDY_ABY, Mnemonic::LDY, AddressingMode::ABY, 4u8),
            0x85 => (Opcode::STA_ZPG, Mnemonic::STA, AddressingMode::ZPG, 3u8),
            0x95 => (Opcode::STA_ZPX, Mnemonic::STA, AddressingMode::ZPX, 4u8),
            0x8D => (Opcode::STA_ABS, Mnemonic::STA, AddressingMode::ABS, 4u8),
            0x9D => (Opcode::STA_ABX, Mnemonic::STA, AddressingMode::ABX, 5u8),
            0x99 => (Opcode::STA_ABY, Mnemonic::STA, AddressingMode::ABY, 5u8),
            0x81 => (Opcode::STA_IDX, Mnemonic::STA, AddressingMode::IDX, 6u8),
            0x91 => (Opcode::STA_IDY, Mnemonic::STA, AddressingMode::IDY, 6u8),
            0x86 => (Opcode::STX_ZPG, Mnemonic::STX, AddressingMode::ZPG, 3u8),
            0x96 => (Opcode::STX_ZPY, Mnemonic::STX, AddressingMode::ZPY, 4u8),
            0x8E => (Opcode::STX_ABS, Mnemonic::STX, AddressingMode::ABS, 4u8),
            0x84 => (Opcode::STY_ZPG, Mnemonic::STY, AddressingMode::ZPG, 3u8),
            0x94 => (Opcode::STY_ZPX, Mnemonic::STY, AddressingMode::ZPX, 4u8),
            0x8C => (Opcode::STY_ABS, Mnemonic::STY, AddressingMode::ABS, 4u8),
            0xAA => (Opcode::TAX, Mnemonic::TAX, AddressingMode::IMP, 2u8),
            0xA8 => (Opcode::TAY, Mnemonic::TAY, AddressingMode::IMP, 2u8),
            0xBA => (Opcode::TSX, Mnemonic::TSX, AddressingMode::IMP, 2u8),
            0x8A => (Opcode::TXA, Mnemonic::TXA, AddressingMode::IMP, 2u8),
            0x9A => (Opcode::TXS, Mnemonic::TXS, AddressingMode::IMP, 2u8),
            0x98 => (Opcode::TYA, Mnemonic::TYA, AddressingMode::IMP, 2u8),
            0x48 => (Opcode::PHA, Mnemonic::PHA, AddressingMode::IMP, 3u8),
            0x08 => (Opcode::PHP, Mnemonic::PHP, AddressingMode::IMP, 3u8),
            0x68 => (Opcode::PLA, Mnemonic::PLA, AddressingMode::IMP, 4u8),
            0x28 => (Opcode::PLP, Mnemonic::PLP, AddressingMode::IMP, 4u8),
            0xEA => (Opcode::NOP, Mnemonic::NOP, AddressingMode::IMP, 2u8),
            0x00 => (Opcode::BRK, Mnemonic::BRK, AddressingMode::IMP, 7u8),
            0x40 => (Opcode::RTI, Mnemonic::RTI, AddressingMode::IMP, 6u8),
            _ => {
                return Err(ExecError::DecodeError(opcode));
            },
        };
        Ok(Instruction { opcode: op, mnemonic, addr_mode: mode, cycles })
    }

    /// Length of the instruction in bytes, opcode included.
    pub fn bytes(&self) -> (r: u8)
        ensures
            r == self.addr_mode.len(),
    {
        self.addr_mode.instruction_bytes()
    }
}

impl AddressingMode {
    /// Length in bytes of an instruction in this mode, opcode included.
    pub open spec fn len(self) -> u8 {
        match self {
            AddressingMode::IMP | AddressingMode::ACC => 1,
            AddressingMode::IMM | AddressingMode::ZPG | AddressingMode::ZPX | AddressingMode::ZPY
            | AddressingMode::REL | AddressingMode::IDX | AddressingMode::IDY => 2,
            AddressingMode::ABS | AddressingMode::ABX | AddressingMode::ABY | AddressingMode::IND => 3,
        }
    }

    /// Short name, long name and operand syntax of the mode.
    pub open spec fn info_spec(self) -> (Seq<char>, Seq<char>, Seq<char>) {
        match self {
            AddressingMode::IMP => ("IMP"@, "Implied"@, ""@),
            AddressingMode::ACC => ("ACC"@, "Accumulator"@, "A"@),
            AddressingMode::IMM => ("IMM"@, "Immediate"@, "#oper"@),
            AddressingMode::ZPG => ("ZPG"@, "Zero Page"@, "oper"@),
            AddressingMode::ZPX => ("ZPX"@, "Zero Page,X"@, "oper,X"@),
            AddressingMode::ZPY => ("ZPY"@, "Zero Page,Y"@, "oper,Y"@),
            AddressingMode::REL => ("REL"@, "Relative"@, "oper"@),
            AddressingMode::ABS => ("ABS"@, "Absolute"@, "oper"@),
            AddressingMode::ABX => ("ABX"@, "Absolute,X"@, "oper,X"@),
            AddressingMode::ABY => ("ABY"@, "Absolute,Y"@, "oper,Y"@),
            AddressingMode::IND => ("IND"@, "Indirect"@, "(oper)"@),
            AddressingMode::IDX => ("IDX"@, "Indexed Indirect"@, "(oper,X)"@),
            AddressingMode::IDY => ("IDY"@, "Indirect Indexed"@, "(oper),Y"@),
        }
    }

    /// The three-letter abbreviation, such as `ZPX`.
    pub fn abbr(&self) -> (r: &'static str)
        ensures
            r@ == self.info_spec().0,
    {
        let (abbr, _, _) = self.info();
        abbr
    }

    /// The full name, such as `Zero Page,X`.
    pub fn name(&self) -> (r: &'static str)
        ensures
            r@ == self.info_spec().1,
    {
        let (_, name, _) = self.info();
        name
    }

    /// The operand syntax, such as `oper,X`.
    pub fn operands(&self) -> (r: &'static str)
        ensures
            r@ == self.info_spec().2,
    {
        let (_, _, operands) = self.info();
        operands
    }

    fn info(&self) -> (r: (&'static str, &'static str, &'static str))
        ensures
            r.0@ == self.info_spec().0,
            r.1@ == self.info_spec().1,
            r.2@ == self.info_spec().2,
    {
        match self {
            AddressingMode::IMP => ("IMP", "Implied", ""),
            AddressingMode::ACC => ("ACC", "Accumulator", "A"),
            AddressingMode::IMM => ("IMM", "Immediate", "#oper"),
            AddressingMode::ZPG => ("ZPG", "Zero Page", "oper"),
            AddressingMode::ZPX => ("ZPX", "Zero Page,X", "oper,X"),
            AddressingMode::ZPY => ("ZPY", "Zero Page,Y", "oper,Y"),
            AddressingMode::REL => ("REL", "Relative", "oper"),
            AddressingMode::ABS => ("ABS", "Absolute", "oper"),
            AddressingMode::ABX => ("ABX", "Absolute,X", "oper,X"),
            AddressingMode::ABY => ("ABY", "Absolute,Y", "oper,Y"),
            AddressingMode::IND => ("IND", "Indirect", "(oper)"),
            AddressingMode::IDX => ("IDX", "Indexed Indirect", "(oper,X)"),
            AddressingMode::IDY => ("IDY", "Indirect Indexed", "(oper),Y"),
        }
    }

    /// Length in bytes of an instruction in this mode, opcode included.
    pub fn instruction_bytes(&self) -> (r: u8)
        ensures
            r == self.len(),
    {
        match self {
            AddressingMode::IMP | AddressingMode::ACC => 1,
            AddressingMode::IMM | AddressingMode::ZPG | AddressingMode::ZPX | AddressingMode::ZPY
            | AddressingMode::REL | AddressingMode::IDX | AddressingMode::IDY => 2,
            AddressingMode::ABS | AddressingMode::ABX | AddressingMode::ABY | AddressingMode::IND => 3,
        }
    }
}

} // verus!
