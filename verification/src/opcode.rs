//! The instruction set: mnemonics and the opcode matrix.

use vstd::prelude::*;
use crate::addressing::AddressingMode;

verus! {

/// The 56 documented instructions.
#[derive(Clone, Copy, Debug, PartialEq, Eq, Structural)]
pub enum Mnemonic {
    /// Add with carry.
    ADC,
    /// Bitwise and with the accumulator.
    AND,
    /// Arithmetic shift left.
    ASL,
    /// Branch if carry clear.
    BCC,
    /// Branch if carry set.
    BCS,
    /// Branch if zero set.
    BEQ,
    /// Bit test.
    BIT,
    /// Branch if negative set.
    BMI,
    /// Branch if zero clear.
    BNE,
    /// Branch if negative clear.
    BPL,
    /// Software interrupt.
    BRK,
    /// Branch if overflow clear.
    BVC,
    /// Branch if overflow set.
    BVS,
    /// Clear carry.
    CLC,
    /// Clear decimal.
    CLD,
    /// Clear interrupt disable.
    CLI,
    /// Clear overflow.
    CLV,
    /// Compare with the accumulator.
    CMP,
    /// Compare with X.
    CPX,
    /// Compare with Y.
    CPY,
    /// Decrement memory.
    DEC,
    /// Decrement X.
    DEX,
    /// Decrement Y.
    DEY,
    /// Bitwise exclusive or with the accumulator.
    EOR,
    /// Increment memory.
    INC,
    /// Increment X.
    INX,
    /// Increment Y.
    INY,
    /// Jump.
    JMP,
    /// Jump to subroutine.
    JSR,
    /// Load the accumulator.
    LDA,
    /// Load X.
    LDX,
    /// Load Y.
    LDY,
    /// Logical shift right.
    LSR,
    /// No operation.
    NOP,
    /// Bitwise or with the accumulator.
    ORA,
    /// Push the accumulator.
    PHA,
    /// Push the status register.
    PHP,
    /// Pull the accumulator.
    PLA,
    /// Pull the status register.
    PLP,
    /// Rotate left through carry.
    ROL,
    /// Rotate right through carry.
    ROR,
    /// Return from interrupt.
    RTI,
    /// Return from subroutine.
    RTS,
    /// Subtract with carry.
    SBC,
    /// Set carry.
    SEC,
    /// Set decimal.
    SED,
    /// Set interrupt disable.
    SEI,
    /// Store the accumulator.
    STA,
    /// Store X.
    STX,
    /// Store Y.
    STY,
    /// Transfer A to X.
    TAX,
    /// Transfer A to Y.
    TAY,
    /// Transfer SP to X.
    TSX,
    /// Transfer X to A.
    TXA,
    /// Transfer X to SP.
    TXS,
    /// Transfer Y to A.
    TYA,
}

/// The families of instructions.
#[derive(Clone, Copy, Debug, PartialEq, Eq, Structural)]
pub enum Kind {
    /// Loads, stores and transfers between registers.
    Move,
    /// Pushes and pulls.
    Stack,
    /// Additions, subtractions, comparisons, increments and decrements.
    Arithmetic,
    /// Bitwise operations, shifts and rotates.
    Logic,
    /// Conditional branches.
    Branch,
    /// Jumps, subroutines, interrupts and NOP.
    Control,
    /// Instructions that set or clear one flag.
    Flag,
}

impl Mnemonic {
    /// The family that the instruction belongs to.
    pub open spec fn kind(self) -> Kind {
        match self {
            Mnemonic::LDA | Mnemonic::LDX | Mnemonic::LDY | Mnemonic::STA | Mnemonic::STX | Mnemonic::STY | Mnemonic::TAX | Mnemonic::TAY | Mnemonic::TSX | Mnemonic::TXA | Mnemonic::TXS | Mnemonic::TYA => Kind::Move,
            Mnemonic::PHA | Mnemonic::PHP | Mnemonic::PLA | Mnemonic::PLP => Kind::Stack,
            Mnemonic::ADC | Mnemonic::SBC | Mnemonic::CMP | Mnemonic::CPX | Mnemonic::CPY | Mnemonic::INC | Mnemonic::DEC | Mnemonic::INX | Mnemonic::INY | Mnemonic::DEX | Mnemonic::DEY => Kind::Arithmetic,
            Mnemonic::AND | Mnemonic::ORA | Mnemonic::EOR | Mnemonic::BIT | Mnemonic::ASL | Mnemonic::LSR | Mnemonic::ROL | Mnemonic::ROR => Kind::Logic,
            Mnemonic::BCC | Mnemonic::BCS | Mnemonic::BEQ | Mnemonic::BNE | Mnemonic::BMI | Mnemonic::BPL | Mnemonic::BVC | Mnemonic::BVS => Kind::Branch,
            Mnemonic::JMP | Mnemonic::JSR | Mnemonic::RTS | Mnemonic::RTI | Mnemonic::BRK | Mnemonic::NOP => Kind::Control,
            Mnemonic::CLC | Mnemonic::CLD | Mnemonic::CLI | Mnemonic::CLV | Mnemonic::SEC | Mnemonic::SED | Mnemonic::SEI => Kind::Flag,
        }
    }

    /// Whether the instruction works on the accumulator when it is given the
    /// accumulator mode, and on memory otherwise.
    pub open spec fn shifts(self) -> bool {
        self == Mnemonic::ASL || self == Mnemonic::LSR || self == Mnemonic::ROL
            || self == Mnemonic::ROR
    }

    /// Whether the instruction takes no operand at all, so that its
    /// addressing mode plays no part.
    pub open spec fn is_implied(self) -> bool {
        match self {
            Mnemonic::BRK | Mnemonic::CLC | Mnemonic::CLD | Mnemonic::CLI | Mnemonic::CLV
            | Mnemonic::DEX | Mnemonic::DEY | Mnemonic::INX | Mnemonic::INY | Mnemonic::NOP
            | Mnemonic::PHA | Mnemonic::PHP | Mnemonic::PLA | Mnemonic::PLP | Mnemonic::RTI
            | Mnemonic::RTS | Mnemonic::SEC | Mnemonic::SED | Mnemonic::SEI | Mnemonic::TAX
            | Mnemonic::TAY | Mnemonic::TSX | Mnemonic::TXA | Mnemonic::TXS | Mnemonic::TYA => true,
            _ => false,
        }
    }

    /// Whether the instruction can run in `mode`: an instruction that needs
    /// an effective address must be given a mode that has one.
    pub open spec fn accepts(self, mode: AddressingMode) -> bool {
        self.is_implied() || mode.has_address() || (self.shifts() && mode
            == AddressingMode::ACC)
    }
}

impl Mnemonic {
    /// Tells whether the instruction can run in `mode`.
    pub fn takes(self, mode: AddressingMode) -> (b: bool)
        ensures
            b == self.accepts(mode),
    {
        match mode {
            AddressingMode::IMP => match self {
                Mnemonic::BRK | Mnemonic::CLC | Mnemonic::CLD | Mnemonic::CLI | Mnemonic::CLV
                | Mnemonic::DEX | Mnemonic::DEY | Mnemonic::INX | Mnemonic::INY | Mnemonic::NOP
                | Mnemonic::PHA | Mnemonic::PHP | Mnemonic::PLA | Mnemonic::PLP | Mnemonic::RTI
                | Mnemonic::RTS | Mnemonic::SEC | Mnemonic::SED | Mnemonic::SEI | Mnemonic::TAX
                | Mnemonic::TAY | Mnemonic::TSX | Mnemonic::TXA | Mnemonic::TXS
                | Mnemonic::TYA => true,
                _ => false,
            },
            AddressingMode::ACC => match self {
                Mnemonic::BRK | Mnemonic::CLC | Mnemonic::CLD | Mnemonic::CLI | Mnemonic::CLV
                | Mnemonic::DEX | Mnemonic::DEY | Mnemonic::INX | Mnemonic::INY | Mnemonic::NOP
                | Mnemonic::PHA | Mnemonic::PHP | Mnemonic::PLA | Mnemonic::PLP | Mnemonic::RTI
                | Mnemonic::RTS | Mnemonic::SEC | Mnemonic::SED | Mnemonic::SEI | Mnemonic::TAX
                | Mnemonic::TAY | Mnemonic::TSX | Mnemonic::TXA | Mnemonic::TXS
                | Mnemonic::TYA | Mnemonic::ASL | Mnemonic::LSR | Mnemonic::ROL
                | Mnemonic::ROR => true,
                _ => false,
            },
            _ => true,
        }
    }
}

/// The opcode matrix, read by opcode: the instruction and addressing mode
/// that `op` encodes, or `None` where `op` is not one of the 151 documented
/// opcodes.
pub open spec fn decoded(op: u8) -> Option<(Mnemonic, AddressingMode)> {
    match op {
        0x00 => Some((Mnemonic::BRK, AddressingMode::IMP)),
        0x01 => Some((Mnemonic::ORA, AddressingMode::IDX)),
        0x05 => Some((Mnemonic::ORA, AddressingMode::ZP0)),
        0x06 => Some((Mnemonic::ASL, AddressingMode::ZP0)),
        0x08 => Some((Mnemonic::PHP, AddressingMode::IMP)),
        0x09 => Some((Mnemonic::ORA, AddressingMode::IMM)),
        0x0A => Some((Mnemonic::ASL, AddressingMode::ACC)),
        0x0D => Some((Mnemonic::ORA, AddressingMode::ABS)),
        0x0E => Some((Mnemonic::ASL, AddressingMode::ABS)),
        0x10 => Some((Mnemonic::BPL, AddressingMode::REL)),
        0x11 => Some((Mnemonic::ORA, AddressingMode::IDY)),
        0x15 => Some((Mnemonic::ORA, AddressingMode::ZPX)),
        0x16 => Some((Mnemonic::ASL, AddressingMode::ZPX)),
        0x18 => Some((Mnemonic::CLC, AddressingMode::IMP)),
        0x19 => Some((Mnemonic::ORA, AddressingMode::ABY)),
        0x1D => Some((Mnemonic::ORA, AddressingMode::ABX)),
        0x1E => Some((Mnemonic::ASL, AddressingMode::ABX)),
        0x20 => Some((Mnemonic::JSR, AddressingMode::ABS)),
        0x21 => Some((Mnemonic::AND, AddressingMode::IDX)),
        0x24 => Some((Mnemonic::BIT, AddressingMode::ZP0)),
        0x25 => Some((Mnemonic::AND, AddressingMode::ZP0)),
        0x26 => Some((Mnemonic::ROL, AddressingMode::ZP0)),
        0x28 => Some((Mnemonic::PLP, AddressingMode::IMP)),
        0x29 => Some((Mnemonic::AND, AddressingMode::IMM)),
        0x2A => Some((Mnemonic::ROL, AddressingMode::ACC)),
        0x2C => Some((Mnemonic::BIT, AddressingMode::ABS)),
        0x2D => Some((Mnemonic::AND, AddressingMode::ABS)),
        0x2E => Some((Mnemonic::ROL, AddressingMode::ABS)),
        0x30 => Some((Mnemonic::BMI, AddressingMode::REL)),
        0x31 => Some((Mnemonic::AND, AddressingMode::IDY)),
        0x35 => Some((Mnemonic::AND, AddressingMode::ZPX)),
        0x36 => Some((Mnemonic::ROL, AddressingMode::ZPX)),
        0x38 => Some((Mnemonic::SEC, AddressingMode::IMP)),
        0x39 => Some((Mnemonic::AND, AddressingMode::ABY)),
        0x3D => Some((Mnemonic::AND, AddressingMode::ABX)),
        0x3E => Some((Mnemonic::ROL, AddressingMode::ABX)),
        0x40 => Some((Mnemonic::RTI, AddressingMode::IMP)),
        0x41 => Some((Mnemonic::EOR, AddressingMode::IDX)),
        0x45 => Some((Mnemonic::EOR, AddressingMode::ZP0)),
        0x46 => Some((Mnemonic::LSR, AddressingMode::ZP0)),
        0x48 => Some((Mnemonic::PHA, AddressingMode::IMP)),
        0x49 => Some((Mnemonic::EOR, AddressingMode::IMM)),
        0x4A => Some((Mnemonic::LSR, AddressingMode::ACC)),
        0x4C => Some((Mnemonic::JMP, AddressingMode::ABS)),
        0x4D => Some((Mnemonic::EOR, AddressingMode::ABS)),
        0x4E => Some((Mnemonic::LSR, AddressingMode::ABS)),
        0x50 => Some((Mnemonic::BVC, AddressingMode::REL)),
        0x51 => Some((Mnemonic::EOR, AddressingMode::IDY)),
        0x55 => Some((Mnemonic::EOR, AddressingMode::ZPX)),
        0x56 => Some((Mnemonic::LSR, AddressingMode::ZPX)),
        0x58 => Some((Mnemonic::CLI, AddressingMode::IMP)),
        0x59 => Some((Mnemonic::EOR, AddressingMode::ABY)),
        0x5D => Some((Mnemonic::EOR, AddressingMode::ABX)),
        0x5E => Some((Mnemonic::LSR, AddressingMode::ABX)),
        0x60 => Some((Mnemonic::RTS, AddressingMode::IMP)),
        0x61 => Some((Mnemonic::ADC, AddressingMode::IDX)),
        0x65 => Some((Mnemonic::ADC, AddressingMode::ZP0)),
        0x66 => Some((Mnemonic::ROR, AddressingMode::ZP0)),
        0x68 => Some((Mnemonic::PLA, AddressingMode::IMP)),
        0x69 => Some((Mnemonic::ADC, AddressingMode::IMM)),
        0x6A => Some((Mnemonic::ROR, AddressingMode::ACC)),
        0x6C => Some((Mnemonic::JMP, AddressingMode::IND)),
        0x6D => Some((Mnemonic::ADC, AddressingMode::ABS)),
        0x6E => Some((Mnemonic::ROR, AddressingMode::ABS)),
        0x70 => Some((Mnemonic::BVS, AddressingMode::REL)),
        0x71 => Some((Mnemonic::ADC, AddressingMode::IDY)),
        0x75 => Some((Mnemonic::ADC, AddressingMode::ZPX)),
        0x76 => Some((Mnemonic::ROR, AddressingMode::ZPX)),
        0x78 => Some((Mnemonic::SEI, AddressingMode::IMP)),
        0x79 => Some((Mnemonic::ADC, AddressingMode::ABY)),
        0x7D => Some((Mnemonic::ADC, AddressingMode::ABX)),
        0x7E => Some((Mnemonic::ROR, AddressingMode::ABX)),
        0x81 => Some((Mnemonic::STA, AddressingMode::IDX)),
        0x84 => Some((Mnemonic::STY, AddressingMode::ZP0)),
        0x85 => Some((Mnemonic::STA, AddressingMode::ZP0)),
        0x86 => Some((Mnemonic::STX, AddressingMode::ZP0)),
        0x88 => Some((Mnemonic::DEY, AddressingMode::IMP)),
        0x8A => Some((Mnemonic::TXA, AddressingMode::IMP)),
        0x8C => Some((Mnemonic::STY, AddressingMode::ABS)),
        0x8D => Some((Mnemonic::STA, AddressingMode::ABS)),
        0x8E => Some((Mnemonic::STX, AddressingMode::ABS)),
        0x90 => Some((Mnemonic::BCC, AddressingMode::REL)),
        0x91 => Some((Mnemonic::STA, AddressingMode::IDY)),
        0x94 => Some((Mnemonic::STY, AddressingMode::ZPX)),
        0x95 => Some((Mnemonic::STA, AddressingMode::ZPX)),
        0x96 => Some((Mnemonic::STX, AddressingMode::ZPY)),
        0x98 => Some((Mnemonic::TYA, AddressingMode::IMP)),
        0x99 => Some((Mnemonic::STA, AddressingMode::ABY)),
        0x9A => Some((Mnemonic::TXS, AddressingMode::IMP)),
        0x9D => Some((Mnemonic::STA, AddressingMode::ABX)),
        0xA0 => Some((Mnemonic::LDY, AddressingMode::IMM)),
        0xA1 => Some((Mnemonic::LDA, AddressingMode::IDX)),
        0xA2 => Some((Mnemonic::LDX, AddressingMode::IMM)),
        0xA4 => Some((Mnemonic::LDY, AddressingMode::ZP0)),
        0xA5 => Some((Mnemonic::LDA, AddressingMode::ZP0)),
        0xA6 => Some((Mnemonic::LDX, AddressingMode::ZP0)),
        0xA8 => Some((Mnemonic::TAY, AddressingMode::IMP)),
        0xA9 => Some((Mnemonic::LDA, AddressingMode::IMM)),
        0xAA => Some((Mnemonic::TAX, AddressingMode::IMP)),
        0xAC => Some((Mnemonic::LDY, AddressingMode::ABS)),
        0xAD => Some((Mnemonic::LDA, AddressingMode::ABS)),
        0xAE => Some((Mnemonic::LDX, AddressingMode::ABS)),
        0xB0 => Some((Mnemonic::BCS, AddressingMode::REL)),
        0xB1 => Some((Mnemonic::LDA, AddressingMode::IDY)),
        0xB4 => Some((Mnemonic::LDY, AddressingMode::ZPX)),
        0xB5 => Some((Mnemonic::LDA, AddressingMode::ZPX)),
        0xB6 => Some((Mnemonic::LDX, AddressingMode::ZPY)),
        0xB8 => Some((Mnemonic::CLV, AddressingMode::IMP)),
        0xB9 => Some((Mnemonic::LDA, AddressingMode::ABY)),
        0xBA => Some((Mnemonic::TSX, AddressingMode::IMP)),
        0xBC => Some((Mnemonic::LDY, AddressingMode::ABX)),
        0xBD => Some((Mnemonic::LDA, AddressingMode::ABX)),
        0xBE => Some((Mnemonic::LDX, AddressingMode::ABY)),
        0xC0 => Some((Mnemonic::CPY, AddressingMode::IMM)),
        0xC1 => Some((Mnemonic::CMP, AddressingMode::IDX)),
        0xC4 => Some((Mnemonic::CPY, AddressingMode::ZP0)),
        0xC5 => Some((Mnemonic::CMP, AddressingMode::ZP0)),
        0xC6 => Some((Mnemonic::DEC, AddressingMode::ZP0)),
        0xC8 => Some((Mnemonic::INY, AddressingMode::IMP)),
        0xC9 => Some((Mnemonic::CMP, AddressingMode::IMM)),
        0xCA => Some((Mnemonic::DEX, AddressingMode::IMP)),
        0xCC => Some((Mnemonic::CPY, AddressingMode::ABS)),
        0xCD => Some((Mnemonic::CMP, AddressingMode::ABS)),
        0xCE => Some((Mnemonic::DEC, AddressingMode::ABS)),
        0xD0 => Some((Mnemonic::BNE, AddressingMode::REL)),
        0xD1 => Some((Mnemonic::CMP, AddressingMode::IDY)),
        0xD5 => Some((Mnemonic::CMP, AddressingMode::ZPX)),
        0xD6 => Some((Mnemonic::DEC, AddressingMode::ZPX)),
        0xD8 => Some((Mnemonic::CLD, AddressingMode::IMP)),
        0xD9 => Some((Mnemonic::CMP, AddressingMode::ABY)),
        0xDD => Some((Mnemonic::CMP, AddressingMode::ABX)),
        0xDE => Some((Mnemonic::DEC, AddressingMode::ABX)),
        0xE0 => Some((Mnemonic::CPX, AddressingMode::IMM)),
        0xE1 => Some((Mnemonic::SBC, AddressingMode::IDX)),
        0xE4 => Some((Mnemonic::CPX, AddressingMode::ZP0)),
        0xE5 => Some((Mnemonic::SBC, AddressingMode::ZP0)),
        0xE6 => Some((Mnemonic::INC, AddressingMode::ZP0)),
        0xE8 => Some((Mnemonic::INX, AddressingMode::IMP)),
        0xE9 => Some((Mnemonic::SBC, AddressingMode::IMM)),
        0xEA => Some((Mnemonic::NOP, AddressingMode::IMP)),
        0xEC => Some((Mnemonic::CPX, AddressingMode::ABS)),
        0xED => Some((Mnemonic::SBC, AddressingMode::ABS)),
        0xEE => Some((Mnemonic::INC, AddressingMode::ABS)),
        0xF0 => Some((Mnemonic::BEQ, AddressingMode::REL)),
        0xF1 => Some((Mnemonic::SBC, AddressingMode::IDY)),
        0xF5 => Some((Mnemonic::SBC, AddressingMode::ZPX)),
        0xF6 => Some((Mnemonic::INC, AddressingMode::ZPX)),
        0xF8 => Some((Mnemonic::SED, AddressingMode::IMP)),
        0xF9 => Some((Mnemonic::SBC, AddressingMode::ABY)),
        0xFD => Some((Mnemonic::SBC, AddressingMode::ABX)),
        0xFE => Some((Mnemonic::INC, AddressingMode::ABX)),
        _ => None,
    }
}

/// Looks `op` up in the opcode matrix. An opcode that is found always names
/// a mode that its instruction accepts.
pub fn decode(op: u8) -> (entry: Option<(Mnemonic, AddressingMode)>)
    ensures
        entry == decoded(op),
        entry matches Some((mnemonic, mode)) ==> mnemonic.accepts(mode),
{
    match op {
        0x00 => Some((Mnemonic::BRK, AddressingMode::IMP)),
        0x01 => Some((Mnemonic::ORA, AddressingMode::IDX)),
        0x05 => Some((Mnemonic::ORA, AddressingMode::ZP0)),
        0x06 => Some((Mnemonic::ASL, AddressingMode::ZP0)),
        0x08 => Some((Mnemonic::PHP, AddressingMode::IMP)),
        0x09 => Some((Mnemonic::ORA, AddressingMode::IMM)),
        0x0A => Some((Mnemonic::ASL, AddressingMode::ACC)),
        0x0D => Some((Mnemonic::ORA, AddressingMode::ABS)),
        0x0E => Some((Mnemonic::ASL, AddressingMode::ABS)),
        0x10 => Some((Mnemonic::BPL, AddressingMode::REL)),
        0x11 => Some((Mnemonic::ORA, AddressingMode::IDY)),
        0x15 => Some((Mnemonic::ORA, AddressingMode::ZPX)),
        0x16 => Some((Mnemonic::ASL, AddressingMode::ZPX)),
        0x18 => Some((Mnemonic::CLC, AddressingMode::IMP)),
        0x19 => Some((Mnemonic::ORA, AddressingMode::ABY)),
        0x1D => Some((Mnemonic::ORA, AddressingMode::ABX)),
        0x1E => Some((Mnemonic::ASL, AddressingMode::ABX)),
        0x20 => Some((Mnemonic::JSR, AddressingMode::ABS)),
        0x21 => Some((Mnemonic::AND, AddressingMode::IDX)),
        0x24 => Some((Mnemonic::BIT, AddressingMode::ZP0)),
        0x25 => Some((Mnemonic::AND, AddressingMode::ZP0)),
        0x26 => Some((Mnemonic::ROL, AddressingMode::ZP0)),
        0x28 => Some((Mnemonic::PLP, AddressingMode::IMP)),
        0x29 => Some((Mnemonic::AND, AddressingMode::IMM)),
        0x2A => Some((Mnemonic::ROL, AddressingMode::ACC)),
        0x2C => Some((Mnemonic::BIT, AddressingMode::ABS)),
        0x2D => Some((Mnemonic::AND, AddressingMode::ABS)),
        0x2E => Some((Mnemonic::ROL, AddressingMode::ABS)),
        0x30 => Some((Mnemonic::BMI, AddressingMode::REL)),
        0x31 => Some((Mnemonic::AND, AddressingMode::IDY)),
        0x35 => Some((Mnemonic::AND, AddressingMode::ZPX)),
        0x36 => Some((Mnemonic::ROL, AddressingMode::ZPX)),
        0x38 => Some((Mnemonic::SEC, AddressingMode::IMP)),
        0x39 => Some((Mnemonic::AND, AddressingMode::ABY)),
        0x3D => Some((Mnemonic::AND, AddressingMode::ABX)),
        0x3E => Some((Mnemonic::ROL, AddressingMode::ABX)),
        0x40 => Some((Mnemonic::RTI, AddressingMode::IMP)),
        0x41 => Some((Mnemonic::EOR, AddressingMode::IDX)),
        0x45 => Some((Mnemonic::EOR, AddressingMode::ZP0)),
        0x46 => Some((Mnemonic::LSR, AddressingMode::ZP0)),
        0x48 => Some((Mnemonic::PHA, AddressingMode::IMP)),
        0x49 => Some((Mnemonic::EOR, AddressingMode::IMM)),
        0x4A => Some((Mnemonic::LSR, AddressingMode::ACC)),
        0x4C => Some((Mnemonic::JMP, AddressingMode::ABS)),
        0x4D => Some((Mnemonic::EOR, AddressingMode::ABS)),
        0x4E => Some((Mnemonic::LSR, AddressingMode::ABS)),
        0x50 => Some((Mnemonic::BVC, AddressingMode::REL)),
        0x51 => Some((Mnemonic::EOR, AddressingMode::IDY)),
        0x55 => Some((Mnemonic::EOR, AddressingMode::ZPX)),
        0x56 => Some((Mnemonic::LSR, AddressingMode::ZPX)),
        0x58 => Some((Mnemonic::CLI, AddressingMode::IMP)),
        0x59 => Some((Mnemonic::EOR, AddressingMode::ABY)),
        0x5D => Some((Mnemonic::EOR, AddressingMode::ABX)),
        0x5E => Some((Mnemonic::LSR, AddressingMode::ABX)),
        0x60 => Some((Mnemonic::RTS, AddressingMode::IMP)),
        0x61 => Some((Mnemonic::ADC, AddressingMode::IDX)),
        0x65 => Some((Mnemonic::ADC, AddressingMode::ZP0)),
        0x66 => Some((Mnemonic::ROR, AddressingMode::ZP0)),
        0x68 => Some((Mnemonic::PLA, AddressingMode::IMP)),
        0x69 => Some((Mnemonic::ADC, AddressingMode::IMM)),
        0x6A => Some((Mnemonic::ROR, AddressingMode::ACC)),
        0x6C => Some((Mnemonic::JMP, AddressingMode::IND)),
        0x6D => Some((Mnemonic::ADC, AddressingMode::ABS)),
        0x6E => Some((Mnemonic::ROR, AddressingMode::ABS)),
        0x70 => Some((Mnemonic::BVS, AddressingMode::REL)),
        0x71 => Some((Mnemonic::ADC, AddressingMode::IDY)),
        0x75 => Some((Mnemonic::ADC, AddressingMode::ZPX)),
        0x76 => Some((Mnemonic::ROR, AddressingMode::ZPX)),
        0x78 => Some((Mnemonic::SEI, AddressingMode::IMP)),
        0x79 => Some((Mnemonic::ADC, AddressingMode::ABY)),
        0x7D => Some((Mnemonic::ADC, AddressingMode::ABX)),
        0x7E => Some((Mnemonic::ROR, AddressingMode::ABX)),
        0x81 => Some((Mnemonic::STA, AddressingMode::IDX)),
        0x84 => Some((Mnemonic::STY, AddressingMode::ZP0)),
        0x85 => Some((Mnemonic::STA, AddressingMode::ZP0)),
        0x86 => Some((Mnemonic::STX, AddressingMode::ZP0)),
        0x88 => Some((Mnemonic::DEY, AddressingMode::IMP)),
        0x8A => Some((Mnemonic::TXA, AddressingMode::IMP)),
        0x8C => Some((Mnemonic::STY, AddressingMode::ABS)),
        0x8D => Some((Mnemonic::STA, AddressingMode::ABS)),
        0x8E => Some((Mnemonic::STX, AddressingMode::ABS)),
        0x90 => Some((Mnemonic::BCC, AddressingMode::REL)),
        0x91 => Some((Mnemonic::STA, AddressingMode::IDY)),
        0x94 => Some((Mnemonic::STY, AddressingMode::ZPX)),
        0x95 => Some((Mnemonic::STA, AddressingMode::ZPX)),
        0x96 => Some((Mnemonic::STX, AddressingMode::ZPY)),
        0x98 => Some((Mnemonic::TYA, AddressingMode::IMP)),
        0x99 => Some((Mnemonic::STA, AddressingMode::ABY)),
        0x9A => Some((Mnemonic::TXS, AddressingMode::IMP)),
        0x9D => Some((Mnemonic::STA, AddressingMode::ABX)),
        0xA0 => Some((Mnemonic::LDY, AddressingMode::IMM)),
        0xA1 => Some((Mnemonic::LDA, AddressingMode::IDX)),
        0xA2 => Some((Mnemonic::LDX, AddressingMode::IMM)),
        0xA4 => Some((Mnemonic::LDY, AddressingMode::ZP0)),
        0xA5 => Some((Mnemonic::LDA, AddressingMode::ZP0)),
        0xA6 => Some((Mnemonic::LDX, AddressingMode::ZP0)),
        0xA8 => Some((Mnemonic::TAY, AddressingMode::IMP)),
        0xA9 => Some((Mnemonic::LDA, AddressingMode::IMM)),
        0xAA => Some((Mnemonic::TAX, AddressingMode::IMP)),
        0xAC => Some((Mnemonic::LDY, AddressingMode::ABS)),
        0xAD => Some((Mnemonic::LDA, AddressingMode::ABS)),
        0xAE => Some((Mnemonic::LDX, AddressingMode::ABS)),
        0xB0 => Some((Mnemonic::BCS, AddressingMode::REL)),
        0xB1 => Some((Mnemonic::LDA, AddressingMode::IDY)),
        0xB4 => Some((Mnemonic::LDY, AddressingMode::ZPX)),
        0xB5 => Some((Mnemonic::LDA, AddressingMode::ZPX)),
        0xB6 => Some((Mnemonic::LDX, AddressingMode::ZPY)),
        0xB8 => Some((Mnemonic::CLV, AddressingMode::IMP)),
        0xB9 => Some((Mnemonic::LDA, AddressingMode::ABY)),
        0xBA => Some((Mnemonic::TSX, AddressingMode::IMP)),
        0xBC => Some((Mnemonic::LDY, AddressingMode::ABX)),
        0xBD => Some((Mnemonic::LDA, AddressingMode::ABX)),
        0xBE => Some((Mnemonic::LDX, AddressingMode::ABY)),
        0xC0 => Some((Mnemonic::CPY, AddressingMode::IMM)),
        0xC1 => Some((Mnemonic::CMP, AddressingMode::IDX)),
        0xC4 => Some((Mnemonic::CPY, AddressingMode::ZP0)),
        0xC5 => Some((Mnemonic::CMP, AddressingMode::ZP0)),
        0xC6 => Some((Mnemonic::DEC, AddressingMode::ZP0)),
        0xC8 => Some((Mnemonic::INY, AddressingMode::IMP)),
        0xC9 => Some((Mnemonic::CMP, AddressingMode::IMM)),
        0xCA => Some((Mnemonic::DEX, AddressingMode::IMP)),
        0xCC => Some((Mnemonic::CPY, AddressingMode::ABS)),
        0xCD => Some((Mnemonic::CMP, AddressingMode::ABS)),
        0xCE => Some((Mnemonic::DEC, AddressingMode::ABS)),
        0xD0 => Some((Mnemonic::BNE, AddressingMode::REL)),
        0xD1 => Some((Mnemonic::CMP, AddressingMode::IDY)),
        0xD5 => Some((Mnemonic::CMP, AddressingMode::ZPX)),
        0xD6 => Some((Mnemonic::DEC, AddressingMode::ZPX)),
        0xD8 => Some((Mnemonic::CLD, AddressingMode::IMP)),
        0xD9 => Some((Mnemonic::CMP, AddressingMode::ABY)),
        0xDD => Some((Mnemonic::CMP, AddressingMode::ABX)),
        0xDE => Some((Mnemonic::DEC, AddressingMode::ABX)),
        0xE0 => Some((Mnemonic::CPX, AddressingMode::IMM)),
        0xE1 => Some((Mnemonic::SBC, AddressingMode::IDX)),
        0xE4 => Some((Mnemonic::CPX, AddressingMode::ZP0)),
        0xE5 => Some((Mnemonic::SBC, AddressingMode::ZP0)),
        0xE6 => Some((Mnemonic::INC, AddressingMode::ZP0)),
        0xE8 => Some((Mnemonic::INX, AddressingMode::IMP)),
        0xE9 => Some((Mnemonic::SBC, AddressingMode::IMM)),
        0xEA => Some((Mnemonic::NOP, AddressingMode::IMP)),
        0xEC => Some((Mnemonic::CPX, AddressingMode::ABS)),
        0xED => Some((Mnemonic::SBC, AddressingMode::ABS)),
        0xEE => Some((Mnemonic::INC, AddressingMode::ABS)),
        0xF0 => Some((Mnemonic::BEQ, AddressingMode::REL)),
        0xF1 => Some((Mnemonic::SBC, AddressingMode::IDY)),
        0xF5 => Some((Mnemonic::SBC, AddressingMode::ZPX)),
        0xF6 => Some((Mnemonic::INC, AddressingMode::ZPX)),
        0xF8 => Some((Mnemonic::SED, AddressingMode::IMP)),
        0xF9 => Some((Mnemonic::SBC, AddressingMode::ABY)),
        0xFD => Some((Mnemonic::SBC, AddressingMode::ABX)),
        0xFE => Some((Mnemonic::INC, AddressingMode::ABX)),
        _ => None,
    }
}

/// The opcode matrix, read by instruction: the opcode that encodes
/// `mnemonic` in `mode`, or `None` where the instruction has no such form.
pub open spec fn opcode_of(mnemonic: Mnemonic, mode: AddressingMode) -> Option<u8> {
    match (mnemonic, mode) {
        (Mnemonic::ADC, AddressingMode::IMM) => Some(0x69u8),
        (Mnemonic::ADC, AddressingMode::ZP0) => Some(0x65u8),
        (Mnemonic::ADC, AddressingMode::ZPX) => Some(0x75u8),
        (Mnemonic::ADC, AddressingMode::ABS) => Some(0x6Du8),
        (Mnemonic::ADC, AddressingMode::ABX) => Some(0x7Du8),
        (Mnemonic::ADC, AddressingMode::ABY) => Some(0x79u8),
        (Mnemonic::ADC, AddressingMode::IDX) => Some(0x61u8),
        (Mnemonic::ADC, AddressingMode::IDY) => Some(0x71u8),
        (Mnemonic::AND, AddressingMode::IMM) => Some(0x29u8),
        (Mnemonic::AND, AddressingMode::ZP0) => Some(0x25u8),
        (Mnemonic::AND, AddressingMode::ZPX) => Some(0x35u8),
        (Mnemonic::AND, AddressingMode::ABS) => Some(0x2Du8),
        (Mnemonic::AND, AddressingMode::ABX) => Some(0x3Du8),
        (Mnemonic::AND, AddressingMode::ABY) => Some(0x39u8),
        (Mnemonic::AND, AddressingMode::IDX) => Some(0x21u8),
        (Mnemonic::AND, AddressingMode::IDY) => Some(0x31u8),
        (Mnemonic::ASL, AddressingMode::ACC) => Some(0x0Au8),
        (Mnemonic::ASL, AddressingMode::ZP0) => Some(0x06u8),
        (Mnemonic::ASL, AddressingMode::ZPX) => Some(0x16u8),
        (Mnemonic::ASL, AddressingMode::ABS) => Some(0x0Eu8),
        (Mnemonic::ASL, AddressingMode::ABX) => Some(0x1Eu8),
        (Mnemonic::BCC, AddressingMode::REL) => Some(0x90u8),
        (Mnemonic::BCS, AddressingMode::REL) => Some(0xB0u8),
        (Mnemonic::BEQ, AddressingMode::REL) => Some(0xF0u8),
        (Mnemonic::BIT, AddressingMode::ZP0) => Some(0x24u8),
        (Mnemonic::BIT, AddressingMode::ABS) => Some(0x2Cu8),
        (Mnemonic::BMI, AddressingMode::REL) => Some(0x30u8),
        (Mnemonic::BNE, AddressingMode::REL) => Some(0xD0u8),
        (Mnemonic::BPL, AddressingMode::REL) => Some(0x10u8),
        (Mnemonic::BRK, AddressingMode::IMP) => Some(0x00u8),
        (Mnemonic::BVC, AddressingMode::REL) => Some(0x50u8),
        (Mnemonic::BVS, AddressingMode::REL) => Some(0x70u8),
        (Mnemonic::CLC, AddressingMode::IMP) => Some(0x18u8),
        (Mnemonic::CLD, AddressingMode::IMP) => Some(0xD8u8),
        (Mnemonic::CLI, AddressingMode::IMP) => Some(0x58u8),
        (Mnemonic::CLV, AddressingMode::IMP) => Some(0xB8u8),
        (Mnemonic::CMP, AddressingMode::IMM) => Some(0xC9u8),
        (Mnemonic::CMP, AddressingMode::ZP0) => Some(0xC5u8),
        (Mnemonic::CMP, AddressingMode::ZPX) => Some(0xD5u8),
        (Mnemonic::CMP, AddressingMode::ABS) => Some(0xCDu8),
        (Mnemonic::CMP, AddressingMode::ABX) => Some(0xDDu8),
        (Mnemonic::CMP, AddressingMode::ABY) => Some(0xD9u8),
        (Mnemonic::CMP, AddressingMode::IDX) => Some(0xC1u8),
        (Mnemonic::CMP, AddressingMode::IDY) => Some(0xD1u8),
        (Mnemonic::CPX, AddressingMode::IMM) => Some(0xE0u8),
        (Mnemonic::CPX, AddressingMode::ZP0) => Some(0xE4u8),
        (Mnemonic::CPX, AddressingMode::ABS) => Some(0xECu8),
        (Mnemonic::CPY, AddressingMode::IMM) => Some(0xC0u8),
        (Mnemonic::CPY, AddressingMode::ZP0) => Some(0xC4u8),
        (Mnemonic::CPY, AddressingMode::ABS) => Some(0xCCu8),
        (Mnemonic::DEC, AddressingMode::ZP0) => Some(0xC6u8),
        (Mnemonic::DEC, AddressingMode::ZPX) => Some(0xD6u8),
        (Mnemonic::DEC, AddressingMode::ABS) => Some(0xCEu8),
        (Mnemonic::DEC, AddressingMode::ABX) => Some(0xDEu8),
        (Mnemonic::DEX, AddressingMode::IMP) => Some(0xCAu8),
        (Mnemonic::DEY, AddressingMode::IMP) => Some(0x88u8),
        (Mnemonic::EOR, AddressingMode::IMM) => Some(0x49u8),
        (Mnemonic::EOR, AddressingMode::ZP0) => Some(0x45u8),
        (Mnemonic::EOR, AddressingMode::ZPX) => Some(0x55u8),
        (Mnemonic::EOR, AddressingMode::ABS) => Some(0x4Du8),
        (Mnemonic::EOR, AddressingMode::ABX) => Some(0x5Du8),
        (Mnemonic::EOR, AddressingMode::ABY) => Some(0x59u8),
        (Mnemonic::EOR, AddressingMode::IDX) => Some(0x41u8),
        (Mnemonic::EOR, AddressingMode::IDY) => Some(0x51u8),
        (Mnemonic::INC, AddressingMode::ZP0) => Some(0xE6u8),
        (Mnemonic::INC, AddressingMode::ZPX) => Some(0xF6u8),
        (Mnemonic::INC, AddressingMode::ABS) => Some(0xEEu8),
        (Mnemonic::INC, AddressingMode::ABX) => Some(0xFEu8),
        (Mnemonic::INX, AddressingMode::IMP) => Some(0xE8u8),
        (Mnemonic::INY, AddressingMode::IMP) => Some(0xC8u8),
        (Mnemonic::JMP, AddressingMode::ABS) => Some(0x4Cu8),
        (Mnemonic::JMP, AddressingMode::IND) => Some(0x6Cu8),
        (Mnemonic::JSR, AddressingMode::ABS) => Some(0x20u8),
        (Mnemonic::LDA, AddressingMode::IMM) => Some(0xA9u8),
        (Mnemonic::LDA, AddressingMode::ZP0) => Some(0xA5u8),
        (Mnemonic::LDA, AddressingMode::ZPX) => Some(0xB5u8),
        (Mnemonic::LDA, AddressingMode::ABS) => Some(0xADu8),
        (Mnemonic::LDA, AddressingMode::ABX) => Some(0xBDu8),
        (Mnemonic::LDA, AddressingMode::ABY) => Some(0xB9u8),
        (Mnemonic::LDA, AddressingMode::IDX) => Some(0xA1u8),
        (Mnemonic::LDA, AddressingMode::IDY) => Some(0xB1u8),
        (Mnemonic::LDX, AddressingMode::IMM) => Some(0xA2u8),
        (Mnemonic::LDX, AddressingMode::ZP0) => Some(0xA6u8),
        (Mnemonic::LDX, AddressingMode::ZPY) => Some(0xB6u8),
        (Mnemonic::LDX, AddressingMode::ABS) => Some(0xAEu8),
        (Mnemonic::LDX, AddressingMode::ABY) => Some(0xBEu8),
        (Mnemonic::LDY, AddressingMode::IMM) => Some(0xA0u8),
        (Mnemonic::LDY, AddressingMode::ZP0) => Some(0xA4u8),
        (Mnemonic::LDY, AddressingMode::ZPX) => Some(0xB4u8),
        (Mnemonic::LDY, AddressingMode::ABS) => Some(0xACu8),
        (Mnemonic::LDY, AddressingMode::ABX) => Some(0xBCu8),
        (Mnemonic::LSR, AddressingMode::ACC) => Some(0x4Au8),
        (Mnemonic::LSR, AddressingMode::ZP0) => Some(0x46u8),
        (Mnemonic::LSR, AddressingMode::ZPX) => Some(0x56u8),
        (Mnemonic::LSR, AddressingMode::ABS) => Some(0x4Eu8),
        (Mnemonic::LSR, AddressingMode::ABX) => Some(0x5Eu8),
        (Mnemonic::NOP, AddressingMode::IMP) => Some(0xEAu8),
        (Mnemonic::ORA, AddressingMode::IMM) => Some(0x09u8),
        (Mnemonic::ORA, AddressingMode::ZP0) => Some(0x05u8),
        (Mnemonic::ORA, AddressingMode::ZPX) => Some(0x15u8),
        (Mnemonic::ORA, AddressingMode::ABS) => Some(0x0Du8),
        (Mnemonic::ORA, AddressingMode::ABX) => Some(0x1Du8),
        (Mnemonic::ORA, AddressingMode::ABY) => Some(0x19u8),
        (Mnemonic::ORA, AddressingMode::IDX) => Some(0x01u8),
        (Mnemonic::ORA, AddressingMode::IDY) => Some(0x11u8),
        (Mnemonic::PHA, AddressingMode::IMP) => Some(0x48u8),
        (Mnemonic::PHP, AddressingMode::IMP) => Some(0x08u8),
        (Mnemonic::PLA, AddressingMode::IMP) => Some(0x68u8),
        (Mnemonic::PLP, AddressingMode::IMP) => Some(0x28u8),
        (Mnemonic::ROL, AddressingMode::ACC) => Some(0x2Au8),
        (Mnemonic::ROL, AddressingMode::ZP0) => Some(0x26u8),
        (Mnemonic::ROL, AddressingMode::ZPX) => Some(0x36u8),
        (Mnemonic::ROL, AddressingMode::ABS) => Some(0x2Eu8),
        (Mnemonic::ROL, AddressingMode::ABX) => Some(0x3Eu8),
        (Mnemonic::ROR, AddressingMode::ACC) => Some(0x6Au8),
        (Mnemonic::ROR, AddressingMode::ZP0) => Some(0x66u8),
        (Mnemonic::ROR, AddressingMode::ZPX) => Some(0x76u8),
        (Mnemonic::ROR, AddressingMode::ABS) => Some(0x6Eu8),
        (Mnemonic::ROR, AddressingMode::ABX) => Some(0x7Eu8),
        (Mnemonic::RTI, AddressingMode::IMP) => Some(0x40u8),
        (Mnemonic::RTS, AddressingMode::IMP) => Some(0x60u8),
        (Mnemonic::SBC, AddressingMode::IMM) => Some(0xE9u8),
        (Mnemonic::SBC, AddressingMode::ZP0) => Some(0xE5u8),
        (Mnemonic::SBC, AddressingMode::ZPX) => Some(0xF5u8),
        (Mnemonic::SBC, AddressingMode::ABS) => Some(0xEDu8),
        (Mnemonic::SBC, AddressingMode::ABX) => Some(0xFDu8),
        (Mnemonic::SBC, AddressingMode::ABY) => Some(0xF9u8),
        (Mnemonic::SBC, AddressingMode::IDX) => Some(0xE1u8),
        (Mnemonic::SBC, AddressingMode::IDY) => Some(0xF1u8),
        (Mnemonic::SEC, AddressingMode::IMP) => Some(0x38u8),
        (Mnemonic::SED, AddressingMode::IMP) => Some(0xF8u8),
        (Mnemonic::SEI, AddressingMode::IMP) => Some(0x78u8),
        (Mnemonic::STA, AddressingMode::ZP0) => Some(0x85u8),
        (Mnemonic::STA, AddressingMode::ZPX) => Some(0x95u8),
        (Mnemonic::STA, AddressingMode::ABS) => Some(0x8Du8),
        (Mnemonic::STA, AddressingMode::ABX) => Some(0x9Du8),
        (Mnemonic::STA, AddressingMode::ABY) => Some(0x99u8),
        (Mnemonic::STA, AddressingMode::IDX) => Some(0x81u8),
        (Mnemonic::STA, AddressingMode::IDY) => Some(0x91u8),
        (Mnemonic::STX, AddressingMode::ZP0) => Some(0x86u8),
        (Mnemonic::STX, AddressingMode::ZPY) => Some(0x96u8),
        (Mnemonic::STX, AddressingMode::ABS) => Some(0x8Eu8),
        (Mnemonic::STY, AddressingMode::ZP0) => Some(0x84u8),
        (Mnemonic::STY, AddressingMode::ZPX) => Some(0x94u8),
        (Mnemonic::STY, AddressingMode::ABS) => Some(0x8Cu8),
        (Mnemonic::TAX, AddressingMode::IMP) => Some(0xAAu8),
        (Mnemonic::TAY, AddressingMode::IMP) => Some(0xA8u8),
        (Mnemonic::TSX, AddressingMode::IMP) => Some(0xBAu8),
        (Mnemonic::TXA, AddressingMode::IMP) => Some(0x8Au8),
        (Mnemonic::TXS, AddressingMode::IMP) => Some(0x9Au8),
        (Mnemonic::TYA, AddressingMode::IMP) => Some(0x98u8),
        _ => None,
    }
}

/// The two readings of the opcode matrix agree: `op` decodes to an
/// instruction and a mode exactly when that instruction in that mode is
/// encoded by `op`. So no two forms share an opcode.
pub proof fn lemma_matrix_readings_agree(op: u8, mnemonic: Mnemonic, mode: AddressingMode)
    ensures
        decoded(op) == Some((mnemonic, mode)) <==> opcode_of(mnemonic, mode) == Some(op),
{
}

} // verus!
