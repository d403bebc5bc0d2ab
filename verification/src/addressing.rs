//! The addressing modes of the 6502.

use vstd::prelude::*;

verus! {

/// How an instruction finds its operand.
#[derive(Clone, Copy, Debug, PartialEq, Eq, Structural)]
pub enum AddressingMode {
    /// Immediate: the operand is the byte after the opcode.
    IMM,
    /// Implied: the instruction has no operand.
    IMP,
    /// Zero page: the byte after the opcode is an address in page 0.
    ZP0,
    /// Zero page indexed by X, wrapping inside page 0.
    ZPX,
    /// Zero page indexed by Y, wrapping inside page 0.
    ZPY,
    /// Absolute: the word after the opcode is the address.
    ABS,
    /// Absolute indexed by X.
    ABX,
    /// Absolute indexed by Y.
    ABY,
    /// Indirect: the word after the opcode points at the address.
    IND,
    /// Indexed indirect, `(zp,X)`.
    IDX,
    /// Indirect indexed, `(zp),Y`.
    IDY,
    /// Relative: the byte after the opcode is a signed offset.
    REL,
    /// Accumulator: the operand is the register A.
    ACC,
}

impl AddressingMode {
    /// Whether the mode yields an effective address. The implied and the
    /// accumulator mode do not.
    pub open spec fn has_address(self) -> bool {
        self != AddressingMode::IMP && self != AddressingMode::ACC
    }

    /// The number of operand bytes that follow the opcode.
    pub open spec fn operand_len(self) -> nat {
        match self {
            AddressingMode::IMP | AddressingMode::ACC => 0,
            AddressingMode::ABS | AddressingMode::ABX | AddressingMode::ABY
            | AddressingMode::IND => 2,
            _ => 1,
        }
    }

    /// Tells whether the mode yields an effective address.
    pub fn addresses_memory(self) -> (b: bool)
        ensures
            b == self.has_address(),
    {
        match self {
            AddressingMode::IMP | AddressingMode::ACC => false,
            _ => true,
        }
    }
}

} // verus!
