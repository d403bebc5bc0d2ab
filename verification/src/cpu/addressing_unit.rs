//! The addressing unit: from an addressing mode to an effective address.

use vstd::prelude::*;
use crate::cpu::{AddressingMode, CPU};
use crate::word::{add16, add8, displace, make_word};

verus! {

/// The addressing unit.
impl CPU {
    /// The effective address of the operand in `mode`. The operand bytes
    /// behind the opcode are consumed: the program counter moves past them.
    /// Nothing else changes.
    ///
    /// | mode | bytes | address |
    /// |---|---|---|
    /// | IMM | 1 | the address of the operand byte |
    /// | ZP0 | 1 | the operand byte |
    /// | ZPX, ZPY | 1 | operand byte + X or Y, modulo 256 |
    /// | ABS | 2 | the operand word |
    /// | ABX, ABY | 2 | operand word + X or Y, modulo 65536 |
    /// | IND | 2 | the word that the operand word points at |
    /// | IDX | 1 | the zero-page word at operand byte + X, modulo 256 |
    /// | IDY | 1 | the zero-page word at the operand byte, + Y, modulo 65536 |
    /// | REL | 1 | the address behind the operand byte + the operand byte as a signed number, modulo 65536 |
    ///
    /// The implied and the accumulator mode have no address and are not
    /// accepted.
    pub fn get_address(&mut self, mode: AddressingMode) -> (addr: u16)
        requires
            mode.has_address(),
        ensures
            addr == old(self)@.effective_address(mode),
            final(self)@ == old(self)@.after_operand(mode),
    {
        let at: u16 = self.pc;
        match mode {
            AddressingMode::IMM => {
                self.pc = add16(at, 1);
                at
            },
            AddressingMode::ZP0 => {
                let base = self.read(at);
                self.pc = add16(at, 1);
                base as u16
            },
            AddressingMode::ZPX => {
                let base = self.read(at);
                self.pc = add16(at, 1);
                add8(base, self.x) as u16
            },
            AddressingMode::ZPY => {
                let base = self.read(at);
                self.pc = add16(at, 1);
                add8(base, self.y) as u16
            },
            AddressingMode::ABS => {
                let addr = self.read_u16(at);
                self.pc = add16(at, 2);
                addr
            },
            AddressingMode::ABX => {
                let addr = self.read_u16(at);
                self.pc = add16(at, 2);
                add16(addr, self.x as u16)
            },
            AddressingMode::ABY => {
                let addr = self.read_u16(at);
                self.pc = add16(at, 2);
                add16(addr, self.y as u16)
            },
            AddressingMode::IND => {
                let ptr = self.read_u16(at);
                self.pc = add16(at, 2);
                self.read_u16(ptr)
            },
            AddressingMode::IDX => {
                let base = self.read(at);
                self.pc = add16(at, 1);
                let ptr = add8(base, self.x);
                let lo = self.read(ptr as u16);
                let hi = self.read(add8(ptr, 1) as u16);
                make_word(lo, hi)
            },
            AddressingMode::IDY => {
                let ptr = self.read(at);
                self.pc = add16(at, 1);
                let lo = self.read(ptr as u16);
                let hi = self.read(add8(ptr, 1) as u16);
                add16(make_word(lo, hi), self.y as u16)
            },
            AddressingMode::REL => {
                let offset = self.read(at);
                self.pc = add16(at, 1);
                displace(self.pc, offset)
            },
            AddressingMode::IMP | AddressingMode::ACC => vstd::pervasive::unreached(),
        }
    }

    /// The effective address in `mode` and the byte stored there; the
    /// operand bytes are consumed.
    pub(crate) fn fetch_operand(&mut self, mode: AddressingMode) -> (found: (u16, u8))
        requires
            mode.has_address(),
        ensures
            found.0 == old(self)@.effective_address(mode),
            found.1 == old(self)@.operand(mode),
            final(self)@ == old(self)@.after_operand(mode),
    {
        let addr = self.get_address(mode);
        let value = self.read(addr);
        (addr, value)
    }
}

} // verus!
