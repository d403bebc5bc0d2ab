//! The instructions, one function for each mnemonic.

use vstd::prelude::*;
use crate::cpu::{zn_reflect, AddressingMode, Flags, CPU};
use crate::machine::{Machine, IRQ_VECTOR};
use crate::word::{
    add16, add8, lemma_complement, lemma_shift_by_one, lemma_sign_test, lemma_signed_overflow,
    lemma_subtract_as_add, signed8, sub16, sub8, wrap16, wrap8,
};

verus! {

/// The result of a shift or rotate that led from `before` to `after`: the
/// new A in accumulator mode, the new operand byte otherwise.
pub open spec fn shift_result(before: Machine, after: Machine, mode: AddressingMode) -> u8 {
    if mode == AddressingMode::ACC {
        after.a
    } else {
        after.byte(before.effective_address(mode))
    }
}

/// Whether the sum `sum` does not fit a signed byte.
pub open spec fn overflows_signed(sum: int) -> bool {
    sum < -128 || sum > 127
}

/// The instructions. Each is entered with the program counter behind the
/// opcode and consumes its operand bytes.
#[allow(non_snake_case)]
impl CPU {
    /// LDA: A := operand; Z and N from A.
    pub fn LDA(&mut self, mode: AddressingMode)
        requires
            mode.has_address(),
        ensures
            final(self)@ == old(self)@.lda(mode),
            final(self)@.a == old(self)@.operand(mode),
            zn_reflect(final(self)@, final(self)@.a),
    {
        let (_, value) = self.fetch_operand(mode);
        self.a = value;
        self.set_zero_negative_flags(value);
    }

    /// LDX: X := operand; Z and N from X.
    pub fn LDX(&mut self, mode: AddressingMode)
        requires
            mode.has_address(),
        ensures
            final(self)@ == old(self)@.ldx(mode),
            final(self)@.x == old(self)@.operand(mode),
            zn_reflect(final(self)@, final(self)@.x),
    {
        let (_, value) = self.fetch_operand(mode);
        self.x = value;
        self.set_zero_negative_flags(value);
    }

    /// LDY: Y := operand; Z and N from Y.
    pub fn LDY(&mut self, mode: AddressingMode)
        requires
            mode.has_address(),
        ensures
            final(self)@ == old(self)@.ldy(mode),
            final(self)@.y == old(self)@.operand(mode),
            zn_reflect(final(self)@, final(self)@.y),
    {
        let (_, value) = self.fetch_operand(mode);
        self.y = value;
        self.set_zero_negative_flags(value);
    }

    /// STA: the byte at the effective address := A. No other byte of
    /// memory and no flag changes.
    pub fn STA(&mut self, mode: AddressingMode)
        requires
            mode.has_address(),
        ensures
            final(self)@ == old(self)@.sta(mode),
            final(self)@.byte(old(self)@.effective_address(mode)) == old(self)@.a,
            forall|addr: u16|
                addr != old(self)@.effective_address(mode) ==> final(self)@.byte(addr) == old(
                    self,
                )@.byte(addr),
            final(self)@.sr == old(self)@.sr,
    {
        proof {
            self.lemma_memory_len();
        }
        let addr = self.get_address(mode);
        self.write(addr, self.a);
    }

    /// STX: the byte at the effective address := X. No other byte of
    /// memory and no flag changes.
    pub fn STX(&mut self, mode: AddressingMode)
        requires
            mode.has_address(),
        ensures
            final(self)@ == old(self)@.stx(mode),
            final(self)@.byte(old(self)@.effective_address(mode)) == old(self)@.x,
            forall|addr: u16|
                addr != old(self)@.effective_address(mode) ==> final(self)@.byte(addr) == old(
                    self,
                )@.byte(addr),
            final(self)@.sr == old(self)@.sr,
    {
        proof {
            self.lemma_memory_len();
        }
        let addr = self.get_address(mode);
        self.write(addr, self.x);
    }

    /// STY: the byte at the effective address := Y. No other byte of
    /// memory and no flag changes.
    pub fn STY(&mut self, mode: AddressingMode)
        requires
            mode.has_address(),
        ensures
            final(self)@ == old(self)@.sty(mode),
            final(self)@.byte(old(self)@.effective_address(mode)) == old(self)@.y,
            forall|addr: u16|
                addr != old(self)@.effective_address(mode) ==> final(self)@.byte(addr) == old(
                    self,
                )@.byte(addr),
            final(self)@.sr == old(self)@.sr,
    {
        proof {
            self.lemma_memory_len();
        }
        let addr = self.get_address(mode);
        self.write(addr, self.y);
    }

    /// TAX: X := A; Z and N from X.
    pub fn TAX(&mut self)
        ensures
            final(self)@ == old(self)@.tax(),
            final(self)@.x == old(self)@.a,
            zn_reflect(final(self)@, final(self)@.x),
    {
        self.x = self.a;
        self.set_zero_negative_flags(self.x);
    }

    /// TAY: Y := A; Z and N from Y.
    pub fn TAY(&mut self)
        ensures
            final(self)@ == old(self)@.tay(),
            final(self)@.y == old(self)@.a,
            zn_reflect(final(self)@, final(self)@.y),
    {
        self.y = self.a;
        self.set_zero_negative_flags(self.y);
    }

    /// TSX: X := SP; Z and N from X.
    pub fn TSX(&mut self)
        ensures
            final(self)@ == old(self)@.tsx(),
            final(self)@.x == old(self)@.sp,
            zn_reflect(final(self)@, final(self)@.x),
    {
        self.x = self.sp;
        self.set_zero_negative_flags(self.x);
    }

    /// TXA: A := X; Z and N from A.
    pub fn TXA(&mut self)
        ensures
            final(self)@ == old(self)@.txa(),
            final(self)@.a == old(self)@.x,
            zn_reflect(final(self)@, final(self)@.a),
    {
        self.a = self.x;
        self.set_zero_negative_flags(self.a);
    }

    /// TYA: A := Y; Z and N from A.
    pub fn TYA(&mut self)
        ensures
            final(self)@ == old(self)@.tya(),
            final(self)@.a == old(self)@.y,
            zn_reflect(final(self)@, final(self)@.a),
    {
        self.a = self.y;
        self.set_zero_negative_flags(self.a);
    }

    /// TXS: SP := X. No flag changes.
    pub fn TXS(&mut self)
        ensures
            final(self)@ == old(self)@.txs(),
            final(self)@.sp == old(self)@.x,
            final(self)@.sr == old(self)@.sr,
    {
        self.sp = self.x;
    }

    /// PHA: pushes A.
    pub fn PHA(&mut self)
        ensures
            final(self)@ == old(self)@.pha(),
    {
        self.push(self.a);
    }

    /// PHP: pushes the status register as it is; no bit is forced.
    pub fn PHP(&mut self)
        ensures
            final(self)@ == old(self)@.php(),
    {
        self.push(self.sr);
    }

    /// PLA: A := pull; Z and N from A.
    pub fn PLA(&mut self)
        ensures
            final(self)@ == old(self)@.pla(),
            final(self)@.a == old(self)@.pulled(),
            zn_reflect(final(self)@, final(self)@.a),
    {
        self.a = self.pop();
        self.set_zero_negative_flags(self.a);
    }

    /// PLP: the status register := pull.
    pub fn PLP(&mut self)
        ensures
            final(self)@ == old(self)@.plp(),
            final(self)@.sr == old(self)@.pulled(),
    {
        self.sr = self.pop();
    }

    /// A := A + `value` + C, in binary whatever the decimal flag says.
    ///
    /// The new A is the sum modulo 256. C tells whether the sum passed 255.
    /// V tells whether the sum of the inputs read as signed bytes, plus C,
    /// left the range -128..=127. No other flag changes.
    pub fn add_to_a(&mut self, value: u8)
        ensures
            final(self)@ == old(self)@.add_to_a(value),
            final(self)@.a == wrap8(old(self)@.a + value + old(self)@.carry()),
            final(self)@.flag(Flags::C) == (old(self)@.a + value + old(self)@.carry() > 255),
            final(self)@.flag(Flags::V) == overflows_signed(
                signed8(old(self)@.a) + signed8(value) + old(self)@.carry(),
            ),
            forall|g: Flags|
                g != Flags::C && g != Flags::V ==> final(self)@.flag(g) == old(self)@.flag(g),
    {
        let carry: u16 = if self.get_flag(Flags::C) {
            1
        } else {
            0
        };
        let sum: u16 = self.a as u16 + value as u16 + carry;
        let result: u8 = (sum % 0x100) as u8;
        proof {
            lemma_sign_test(self.a, value, result);
            lemma_signed_overflow(self.a, value, carry as int);
        }
        let overflow = (self.a ^ result) & (value ^ result) & 0x80 != 0;
        self.set_flag(Flags::C, sum > 0xFF);
        self.set_flag(Flags::V, overflow);
        self.a = result;
    }

    /// ADC: A := A + operand + C.
    ///
    /// The new A is the sum modulo 256; C tells whether the sum passed 255,
    /// V whether it overflowed as a signed sum; Z and N come from the new A.
    pub fn ADC(&mut self, mode: AddressingMode)
        requires
            mode.has_address(),
        ensures
            final(self)@ == old(self)@.adc(mode),
            final(self)@.a == wrap8(old(self)@.a + old(self)@.operand(mode) + old(self)@.carry()),
            final(self)@.flag(Flags::C) == (old(self)@.a + old(self)@.operand(mode) + old(
                self,
            )@.carry() > 255),
            final(self)@.flag(Flags::V) == overflows_signed(
                signed8(old(self)@.a) + signed8(old(self)@.operand(mode)) + old(self)@.carry(),
            ),
            zn_reflect(final(self)@, final(self)@.a),
    {
        let (_, value) = self.fetch_operand(mode);
        self.add_to_a(value);
        self.set_zero_negative_flags(self.a);
    }

    /// SBC: A := A - operand - (1 - C), computed as an addition of the
    /// operand's one's complement.
    ///
    /// The new A is the difference modulo 256; C is set exactly when no
    /// borrow was needed, V when the difference overflowed as a signed one;
    /// Z and N come from the new A.
    pub fn SBC(&mut self, mode: AddressingMode)
        requires
            mode.has_address(),
        ensures
            final(self)@ == old(self)@.sbc(mode),
            final(self)@.a == wrap8(
                old(self)@.a - old(self)@.operand(mode) - (1 - old(self)@.carry()),
            ),
            final(self)@.flag(Flags::C) == (old(self)@.a - old(self)@.operand(mode) - (1 - old(
                self,
            )@.carry()) >= 0),
            final(self)@.flag(Flags::V) == overflows_signed(
                signed8(old(self)@.a) - signed8(old(self)@.operand(mode)) - (1 - old(
                    self,
                )@.carry()),
            ),
            zn_reflect(final(self)@, final(self)@.a),
    {
        let (_, value) = self.fetch_operand(mode);
        proof {
            lemma_complement(value);
            lemma_subtract_as_add(self.a, value, self@.carry());
        }
        self.add_to_a(!value);
        self.set_zero_negative_flags(self.a);
    }

    /// Compares `reg` with the operand.
    pub(crate) fn compare(&mut self, mode: AddressingMode, reg: u8)
        requires
            mode.has_address(),
        ensures
            final(self)@ == old(self)@.compare(mode, reg),
            final(self)@.flag(Flags::C) == (reg >= old(self)@.operand(mode)),
            final(self)@.flag(Flags::Z) == (reg == old(self)@.operand(mode)),
    {
        let (_, value) = self.fetch_operand(mode);
        let difference = sub8(reg, value);
        self.set_zero_negative_flags(difference);
        self.set_flag(Flags::C, reg >= value);
    }

    /// CMP: compares A with the operand. A, X, Y, SP and the memory stay
    /// as they are. C is set exactly when A is at least the operand; Z and
    /// N come from the 8-bit difference, so Z tells whether the two are
    /// equal.
    pub fn CMP(&mut self, mode: AddressingMode)
        requires
            mode.has_address(),
        ensures
            final(self)@ == old(self)@.compare_a(mode),
            final(self)@.a == old(self)@.a,
            final(self)@.x == old(self)@.x,
            final(self)@.y == old(self)@.y,
            final(self)@.sp == old(self)@.sp,
            final(self)@.mem == old(self)@.mem,
            final(self)@.flag(Flags::C) == (old(self)@.a >= old(self)@.operand(mode)),
            final(self)@.flag(Flags::Z) == (old(self)@.a == old(self)@.operand(mode)),
    {
        self.compare(mode, self.a);
    }

    /// CPX: compares X with the operand. A, X, Y, SP and the memory stay
    /// as they are. C is set exactly when X is at least the operand; Z and
    /// N come from the 8-bit difference, so Z tells whether the two are
    /// equal.
    pub fn CPX(&mut self, mode: AddressingMode)
        requires
            mode.has_address(),
        ensures
            final(self)@ == old(self)@.cpx(mode),
            final(self)@.a == old(self)@.a,
            final(self)@.x == old(self)@.x,
            final(self)@.y == old(self)@.y,
            final(self)@.sp == old(self)@.sp,
            final(self)@.mem == old(self)@.mem,
            final(self)@.flag(Flags::C) == (old(self)@.x >= old(self)@.operand(mode)),
            final(self)@.flag(Flags::Z) == (old(self)@.x == old(self)@.operand(mode)),
    {
        self.compare(mode, self.x);
    }

    /// CPY: compares Y with the operand. A, X, Y, SP and the memory stay
    /// as they are. C is set exactly when Y is at least the operand; Z and
    /// N come from the 8-bit difference, so Z tells whether the two are
    /// equal.
    pub fn CPY(&mut self, mode: AddressingMode)
        requires
            mode.has_address(),
        ensures
            final(self)@ == old(self)@.cpy(mode),
            final(self)@.a == old(self)@.a,
            final(self)@.x == old(self)@.x,
            final(self)@.y == old(self)@.y,
            final(self)@.sp == old(self)@.sp,
            final(self)@.mem == old(self)@.mem,
            final(self)@.flag(Flags::C) == (old(self)@.y >= old(self)@.operand(mode)),
            final(self)@.flag(Flags::Z) == (old(self)@.y == old(self)@.operand(mode)),
    {
        self.compare(mode, self.y);
    }

    /// INC: the operand byte goes up by one, modulo 256; Z and N from the
    /// new byte.
    pub fn INC(&mut self, mode: AddressingMode)
        requires
            mode.has_address(),
        ensures
            final(self)@ == old(self)@.inc(mode),
            final(self)@.byte(old(self)@.effective_address(mode)) == wrap8(
                old(self)@.operand(mode) + 1,
            ),
            zn_reflect(final(self)@, final(self)@.byte(old(self)@.effective_address(mode))),
    {
        proof {
            self.lemma_memory_len();
        }
        let (addr, value) = self.fetch_operand(mode);
        let result = add8(value, 1);
        self.write(addr, result);
        self.set_zero_negative_flags(result);
    }

    /// DEC: the operand byte goes down by one, modulo 256; Z and N from the
    /// new byte.
    pub fn DEC(&mut self, mode: AddressingMode)
        requires
            mode.has_address(),
        ensures
            final(self)@ == old(self)@.dec(mode),
            final(self)@.byte(old(self)@.effective_address(mode)) == wrap8(
                old(self)@.operand(mode) - 1,
            ),
            zn_reflect(final(self)@, final(self)@.byte(old(self)@.effective_address(mode))),
    {
        proof {
            self.lemma_memory_len();
        }
        let (addr, value) = self.fetch_operand(mode);
        let result = sub8(value, 1);
        self.write(addr, result);
        self.set_zero_negative_flags(result);
    }

    /// INX: X goes up by one, modulo 256; Z and N from X.
    pub fn INX(&mut self)
        ensures
            final(self)@ == old(self)@.inx(),
            final(self)@.x == wrap8(old(self)@.x + 1),
            zn_reflect(final(self)@, final(self)@.x),
    {
        self.x = add8(self.x, 1);
        self.set_zero_negative_flags(self.x);
    }

    /// INY: Y goes up by one, modulo 256; Z and N from Y.
    pub fn INY(&mut self)
        ensures
            final(self)@ == old(self)@.iny(),
            final(self)@.y == wrap8(old(self)@.y + 1),
            zn_reflect(final(self)@, final(self)@.y),
    {
        self.y = add8(self.y, 1);
        self.set_zero_negative_flags(self.y);
    }

    /// DEX: X goes down by one, modulo 256; Z and N from X.
    pub fn DEX(&mut self)
        ensures
            final(self)@ == old(self)@.dex(),
            final(self)@.x == wrap8(old(self)@.x - 1),
            zn_reflect(final(self)@, final(self)@.x),
    {
        self.x = sub8(self.x, 1);
        self.set_zero_negative_flags(self.x);
    }

    /// DEY: Y goes down by one, modulo 256; Z and N from Y.
    pub fn DEY(&mut self)
        ensures
            final(self)@ == old(self)@.dey(),
            final(self)@.y == wrap8(old(self)@.y - 1),
            zn_reflect(final(self)@, final(self)@.y),
    {
        self.y = sub8(self.y, 1);
        self.set_zero_negative_flags(self.y);
    }

    /// AND: A := A & operand; Z and N from A.
    pub fn AND(&mut self, mode: AddressingMode)
        requires
            mode.has_address(),
        ensures
            final(self)@ == old(self)@.and(mode),
            final(self)@.a == old(self)@.a & old(self)@.operand(mode),
            zn_reflect(final(self)@, final(self)@.a),
    {
        let (_, value) = self.fetch_operand(mode);
        self.a = self.a & value;
        self.set_zero_negative_flags(self.a);
    }

    /// ORA: A := A | operand; Z and N from A.
    pub fn ORA(&mut self, mode: AddressingMode)
        requires
            mode.has_address(),
        ensures
            final(self)@ == old(self)@.ora(mode),
            final(self)@.a == old(self)@.a | old(self)@.operand(mode),
            zn_reflect(final(self)@, final(self)@.a),
    {
        let (_, value) = self.fetch_operand(mode);
        self.a = self.a | value;
        self.set_zero_negative_flags(self.a);
    }

    /// EOR: A := A ^ operand; Z and N from A.
    pub fn EOR(&mut self, mode: AddressingMode)
        requires
            mode.has_address(),
        ensures
            final(self)@ == old(self)@.eor(mode),
            final(self)@.a == old(self)@.a ^ old(self)@.operand(mode),
            zn_reflect(final(self)@, final(self)@.a),
    {
        let (_, value) = self.fetch_operand(mode);
        self.a = self.a ^ value;
        self.set_zero_negative_flags(self.a);
    }

    /// BIT: tests the operand against A without storing anything. Z tells
    /// whether A & operand is zero; V and N become bits 6 and 7 of the
    /// operand.
    pub fn BIT(&mut self, mode: AddressingMode)
        requires
            mode.has_address(),
        ensures
            final(self)@ == old(self)@.bit(mode),
            final(self)@.a == old(self)@.a,
            final(self)@.mem == old(self)@.mem,
            final(self)@.flag(Flags::Z) == (old(self)@.a & old(self)@.operand(mode) == 0),
            final(self)@.flag(Flags::V) == (old(self)@.operand(mode) & 0x40 != 0),
            final(self)@.flag(Flags::N) == (old(self)@.operand(mode) & 0x80 != 0),
    {
        let (_, value) = self.fetch_operand(mode);
        let result = self.a & value;
        self.set_flag(Flags::Z, result == 0x00);
        self.set_flag(Flags::V, value & 0x40 != 0);
        self.set_flag(Flags::N, value & 0x80 != 0);
    }

    /// The value that a shift works on, and its address where it is in
    /// memory.
    pub(crate) fn shift_input(&mut self, mode: AddressingMode) -> (found: (u16, u8))
        requires
            mode == AddressingMode::ACC || mode.has_address(),
        ensures
            found.1 == old(self)@.shift_input(mode),
            mode == AddressingMode::ACC ==> final(self)@ == old(self)@,
            mode != AddressingMode::ACC ==> found.0 == old(self)@.effective_address(mode)
                && final(self)@ == old(self)@.after_operand(mode),
    {
        match mode {
            AddressingMode::ACC => (0, self.a),
            _ => self.fetch_operand(mode),
        }
    }

    /// Writes the result of a shift back, to A or to `addr`, and sets C, Z
    /// and N.
    pub(crate) fn shift_output(&mut self, mode: AddressingMode, addr: u16, result: u8, carry: bool)
        ensures
            final(self)@ == (if mode == AddressingMode::ACC {
                Machine { a: result, ..old(self)@ }
            } else {
                old(self)@.store(addr, result)
            }).with_flag(Flags::C, carry).with_zn(result),
            final(self)@.flag(Flags::C) == carry,
            zn_reflect(final(self)@, result),
            if mode == AddressingMode::ACC {
                final(self)@.a == result
            } else {
                final(self)@.byte(addr) == result
            },
    {
        proof {
            self.lemma_memory_len();
        }
        match mode {
            AddressingMode::ACC => {
                self.a = result;
            },
            _ => {
                self.write(addr, result);
            },
        }
        self.set_flag(Flags::C, carry);
        self.set_zero_negative_flags(result);
    }

    /// ASL: every bit moves one place up; bit 7 goes to C and bit 0 becomes 0. Works on A in accumulator mode and on the operand byte
    /// otherwise; Z and N come from the result.
    pub fn ASL(&mut self, mode: AddressingMode)
        requires
            mode == AddressingMode::ACC || mode.has_address(),
        ensures
            final(self)@ == old(self)@.asl(mode),
            shift_result(old(self)@, final(self)@, mode) == wrap8(2 * old(self)@.shift_input(mode)),
            final(self)@.flag(Flags::C) == (old(self)@.shift_input(mode) >= 128),
            zn_reflect(final(self)@, shift_result(old(self)@, final(self)@, mode)),
    {
        let ghost carry: u8 = 0;
        let (addr, value) = self.shift_input(mode);
        proof {
            lemma_shift_by_one(value, carry);
        }
        self.shift_output(mode, addr, value << 1, value >= 0x80);
    }

    /// LSR: every bit moves one place down; bit 0 goes to C and bit 7 becomes 0. Works on A in accumulator mode and on the operand byte
    /// otherwise; Z and N come from the result.
    pub fn LSR(&mut self, mode: AddressingMode)
        requires
            mode == AddressingMode::ACC || mode.has_address(),
        ensures
            final(self)@ == old(self)@.lsr(mode),
            shift_result(old(self)@, final(self)@, mode) == old(self)@.shift_input(mode) / 2,
            final(self)@.flag(Flags::C) == (old(self)@.shift_input(mode) % 2 == 1),
            zn_reflect(final(self)@, shift_result(old(self)@, final(self)@, mode)),
    {
        let ghost carry: u8 = 0;
        let (addr, value) = self.shift_input(mode);
        proof {
            lemma_shift_by_one(value, carry);
        }
        self.shift_output(mode, addr, value >> 1, value % 2 == 1);
    }

    /// ROL: every bit moves one place up; bit 7 goes to C and the old C becomes bit 0. Works on A in accumulator mode and on the operand byte
    /// otherwise; Z and N come from the result.
    pub fn ROL(&mut self, mode: AddressingMode)
        requires
            mode == AddressingMode::ACC || mode.has_address(),
        ensures
            final(self)@ == old(self)@.rol(mode),
            shift_result(old(self)@, final(self)@, mode) == wrap8(2 * old(self)@.shift_input(mode) + old(self)@.carry()),
            final(self)@.flag(Flags::C) == (old(self)@.shift_input(mode) >= 128),
            zn_reflect(final(self)@, shift_result(old(self)@, final(self)@, mode)),
    {
        let carry: u8 = self.carry_bit();
        let (addr, value) = self.shift_input(mode);
        proof {
            lemma_shift_by_one(value, carry);
        }
        self.shift_output(mode, addr, (value << 1) | carry, value >= 0x80);
    }

    /// ROR: every bit moves one place down; bit 0 goes to C and the old C becomes bit 7. Works on A in accumulator mode and on the operand byte
    /// otherwise; Z and N come from the result.
    pub fn ROR(&mut self, mode: AddressingMode)
        requires
            mode == AddressingMode::ACC || mode.has_address(),
        ensures
            final(self)@ == old(self)@.ror(mode),
            shift_result(old(self)@, final(self)@, mode) == old(self)@.shift_input(mode) / 2 + 128 * old(self)@.carry(),
            final(self)@.flag(Flags::C) == (old(self)@.shift_input(mode) % 2 == 1),
            zn_reflect(final(self)@, shift_result(old(self)@, final(self)@, mode)),
    {
        let carry: u8 = self.carry_bit();
        let (addr, value) = self.shift_input(mode);
        proof {
            lemma_shift_by_one(value, carry);
        }
        self.shift_output(mode, addr, (value >> 1) | (carry << 7), value % 2 == 1);
    }

    /// The carry flag as 0 or 1.
    pub(crate) fn carry_bit(&mut self) -> (c: u8)
        ensures
            c == old(self)@.carry(),
            final(self)@ == old(self)@,
    {
        if self.get_flag(Flags::C) {
            1
        } else {
            0
        }
    }

    /// Consumes the operand and, if `taken`, continues at the effective
    /// address.
    pub(crate) fn branch(&mut self, mode: AddressingMode, taken: bool)
        requires
            mode.has_address(),
        ensures
            final(self)@ == old(self)@.branch(mode, taken),
    {
        let target = self.get_address(mode);
        if taken {
            self.pc = target;
        }
    }

    /// BCC: branches when C is clear.
    ///
    /// The operand is consumed either way. When the branch is taken, the
    /// program continues at the effective address, which in relative mode is
    /// the address behind the instruction moved by the signed offset, modulo
    /// 65536. Only the program counter changes.
    pub fn BCC(&mut self, mode: AddressingMode)
        requires
            mode.has_address(),
        ensures
            final(self)@ == old(self)@.branch(mode, !old(self)@.flag(Flags::C)),
            final(self)@.pc == (if !old(self)@.flag(Flags::C) {
                old(self)@.effective_address(mode)
            } else {
                old(self)@.after_operand(mode).pc
            }),
            final(self)@ == (Machine { pc: final(self)@.pc, ..old(self)@ }),
    {
        let set = self.get_flag(Flags::C);
        self.branch(mode, !set);
    }

    /// BCS: branches when C is set.
    ///
    /// The operand is consumed either way. When the branch is taken, the
    /// program continues at the effective address, which in relative mode is
    /// the address behind the instruction moved by the signed offset, modulo
    /// 65536. Only the program counter changes.
    pub fn BCS(&mut self, mode: AddressingMode)
        requires
            mode.has_address(),
        ensures
            final(self)@ == old(self)@.branch(mode, old(self)@.flag(Flags::C)),
            final(self)@.pc == (if old(self)@.flag(Flags::C) {
                old(self)@.effective_address(mode)
            } else {
                old(self)@.after_operand(mode).pc
            }),
            final(self)@ == (Machine { pc: final(self)@.pc, ..old(self)@ }),
    {
        let set = self.get_flag(Flags::C);
        self.branch(mode, set);
    }

    /// BEQ: branches when Z is set.
    ///
    /// The operand is consumed either way. When the branch is taken, the
    /// program continues at the effective address, which in relative mode is
    /// the address behind the instruction moved by the signed offset, modulo
    /// 65536. Only the program counter changes.
    pub fn BEQ(&mut self, mode: AddressingMode)
        requires
            mode.has_address(),
        ensures
            final(self)@ == old(self)@.branch(mode, old(self)@.flag(Flags::Z)),
            final(self)@.pc == (if old(self)@.flag(Flags::Z) {
                old(self)@.effective_address(mode)
            } else {
                old(self)@.after_operand(mode).pc
            }),
            final(self)@ == (Machine { pc: final(self)@.pc, ..old(self)@ }),
    {
        let set = self.get_flag(Flags::Z);
        self.branch(mode, set);
    }

    /// BNE: branches when Z is clear.
    ///
    /// The operand is consumed either way. When the branch is taken, the
    /// program continues at the effective address, which in relative mode is
    /// the address behind the instruction moved by the signed offset, modulo
    /// 65536. Only the program counter changes.
    pub fn BNE(&mut self, mode: AddressingMode)
        requires
            mode.has_address(),
        ensures
            final(self)@ == old(self)@.branch(mode, !old(self)@.flag(Flags::Z)),
            final(self)@.pc == (if !old(self)@.flag(Flags::Z) {
                old(self)@.effective_address(mode)
            } else {
                old(self)@.after_operand(mode).pc
            }),
            final(self)@ == (Machine { pc: final(self)@.pc, ..old(self)@ }),
    {
        let set = self.get_flag(Flags::Z);
        self.branch(mode, !set);
    }

    /// BMI: branches when N is set.
    ///
    /// The operand is consumed either way. When the branch is taken, the
    /// program continues at the effective address, which in relative mode is
    /// the address behind the instruction moved by the signed offset, modulo
    /// 65536. Only the program counter changes.
    pub fn BMI(&mut self, mode: AddressingMode)
        requires
            mode.has_address(),
        ensures
            final(self)@ == old(self)@.branch(mode, old(self)@.flag(Flags::N)),
            final(self)@.pc == (if old(self)@.flag(Flags::N) {
                old(self)@.effective_address(mode)
            } else {
                old(self)@.after_operand(mode).pc
            }),
            final(self)@ == (Machine { pc: final(self)@.pc, ..old(self)@ }),
    {
        let set = self.get_flag(Flags::N);
        self.branch(mode, set);
    }

    /// BPL: branches when N is clear.
    ///
    /// The operand is consumed either way. When the branch is taken, the
    /// program continues at the effective address, which in relative mode is
    /// the address behind the instruction moved by the signed offset, modulo
    /// 65536. Only the program counter changes.
    pub fn BPL(&mut self, mode: AddressingMode)
        requires
            mode.has_address(),
        ensures
            final(self)@ == old(self)@.branch(mode, !old(self)@.flag(Flags::N)),
            final(self)@.pc == (if !old(self)@.flag(Flags::N) {
                old(self)@.effective_address(mode)
            } else {
                old(self)@.after_operand(mode).pc
            }),
            final(self)@ == (Machine { pc: final(self)@.pc, ..old(self)@ }),
    {
        let set = self.get_flag(Flags::N);
        self.branch(mode, !set);
    }

    /// BVC: branches when V is clear.
    ///
    /// The operand is consumed either way. When the branch is taken, the
    /// program continues at the effective address, which in relative mode is
    /// the address behind the instruction moved by the signed offset, modulo
    /// 65536. Only the program counter changes.
    pub fn BVC(&mut self, mode: AddressingMode)
        requires
            mode.has_address(),
        ensures
            final(self)@ == old(self)@.branch(mode, !old(self)@.flag(Flags::V)),
            final(self)@.pc == (if !old(self)@.flag(Flags::V) {
                old(self)@.effective_address(mode)
            } else {
                old(self)@.after_operand(mode).pc
            }),
            final(self)@ == (Machine { pc: final(self)@.pc, ..old(self)@ }),
    {
        let set = self.get_flag(Flags::V);
        self.branch(mode, !set);
    }

    /// BVS: branches when V is set.
    ///
    /// The operand is consumed either way. When the branch is taken, the
    /// program continues at the effective address, which in relative mode is
    /// the address behind the instruction moved by the signed offset, modulo
    /// 65536. Only the program counter changes.
    pub fn BVS(&mut self, mode: AddressingMode)
        requires
            mode.has_address(),
        ensures
            final(self)@ == old(self)@.branch(mode, old(self)@.flag(Flags::V)),
            final(self)@.pc == (if old(self)@.flag(Flags::V) {
                old(self)@.effective_address(mode)
            } else {
                old(self)@.after_operand(mode).pc
            }),
            final(self)@ == (Machine { pc: final(self)@.pc, ..old(self)@ }),
    {
        let set = self.get_flag(Flags::V);
        self.branch(mode, set);
    }

    /// JMP: the program counter := effective address.
    pub fn JMP(&mut self, mode: AddressingMode)
        requires
            mode.has_address(),
        ensures
            final(self)@ == old(self)@.jmp(mode),
            final(self)@.pc == old(self)@.effective_address(mode),
    {
        let addr = self.get_address(mode);
        self.pc = addr;
    }

    /// JSR: pushes the address of the last byte of the instruction, then
    /// continues at the effective address.
    pub fn JSR(&mut self, mode: AddressingMode)
        requires
            mode.has_address(),
        ensures
            final(self)@ == old(self)@.jsr(mode),
            final(self)@.pc == old(self)@.effective_address(mode),
    {
        let addr = self.get_address(mode);
        self.push_u16(sub16(self.pc, 1));
        self.pc = addr;
    }

    /// RTS: pulls a word and continues at the address after it.
    pub fn RTS(&mut self)
        ensures
            final(self)@ == old(self)@.rts(),
            final(self)@.pc == wrap16(old(self)@.pulled_word() + 1),
    {
        let addr = self.pop_u16();
        self.pc = add16(addr, 1);
    }

    /// BRK: pushes the address two past the opcode, sets B, pushes the
    /// status register, sets I and continues at the address stored at
    /// `0xFFFE`.
    pub fn BRK(&mut self)
        ensures
            final(self)@ == old(self)@.brk(),
            final(self)@.flag(Flags::B),
            final(self)@.flag(Flags::I),
    {
        self.push_u16(add16(self.pc, 1));
        self.set_flag(Flags::B, true);
        self.push(self.sr);
        self.set_flag(Flags::I, true);
        assert(self@.flag(Flags::B));
        self.pc = self.read_u16(IRQ_VECTOR);
    }

    /// RTI: pulls the status register, then the program counter.
    pub fn RTI(&mut self)
        ensures
            final(self)@ == old(self)@.rti(),
    {
        self.sr = self.pop();
        self.pc = self.pop_u16();
    }

    /// NOP: changes nothing.
    pub fn NOP(&mut self)
        ensures
            final(self)@ == old(self)@,
    {
    }

    /// CLC: clears C. Nothing else changes.
    pub fn CLC(&mut self)
        ensures
            final(self)@ == old(self)@.with_flag(Flags::C, false),
            final(self)@.flag(Flags::C) == false,
            forall|g: Flags| g != Flags::C ==> final(self)@.flag(g) == old(self)@.flag(g),
    {
        self.set_flag(Flags::C, false);
    }

    /// CLD: clears D. Nothing else changes.
    pub fn CLD(&mut self)
        ensures
            final(self)@ == old(self)@.with_flag(Flags::D, false),
            final(self)@.flag(Flags::D) == false,
            forall|g: Flags| g != Flags::D ==> final(self)@.flag(g) == old(self)@.flag(g),
    {
        self.set_flag(Flags::D, false);
    }

    /// CLI: clears I. Nothing else changes.
    pub fn CLI(&mut self)
        ensures
            final(self)@ == old(self)@.with_flag(Flags::I, false),
            final(self)@.flag(Flags::I) == false,
            forall|g: Flags| g != Flags::I ==> final(self)@.flag(g) == old(self)@.flag(g),
    {
        self.set_flag(Flags::I, false);
    }

    /// CLV: clears V. Nothing else changes.
    pub fn CLV(&mut self)
        ensures
            final(self)@ == old(self)@.with_flag(Flags::V, false),
            final(self)@.flag(Flags::V) == false,
            forall|g: Flags| g != Flags::V ==> final(self)@.flag(g) == old(self)@.flag(g),
    {
        self.set_flag(Flags::V, false);
    }

    /// SEC: sets C. Nothing else changes.
    pub fn SEC(&mut self)
        ensures
            final(self)@ == old(self)@.with_flag(Flags::C, true),
            final(self)@.flag(Flags::C) == true,
            forall|g: Flags| g != Flags::C ==> final(self)@.flag(g) == old(self)@.flag(g),
    {
        self.set_flag(Flags::C, true);
    }

    /// SED: sets D. Nothing else changes.
    pub fn SED(&mut self)
        ensures
            final(self)@ == old(self)@.with_flag(Flags::D, true),
            final(self)@.flag(Flags::D) == true,
            forall|g: Flags| g != Flags::D ==> final(self)@.flag(g) == old(self)@.flag(g),
    {
        self.set_flag(Flags::D, true);
    }

    /// SEI: sets I. Nothing else changes.
    pub fn SEI(&mut self)
        ensures
            final(self)@ == old(self)@.with_flag(Flags::I, true),
            final(self)@.flag(Flags::I) == true,
            forall|g: Flags| g != Flags::I ==> final(self)@.flag(g) == old(self)@.flag(g),
    {
        self.set_flag(Flags::I, true);
    }
}

} // verus!
