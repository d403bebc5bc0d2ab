//! Laws of the model that relate several operations to each other.

use vstd::prelude::*;
use crate::addressing::AddressingMode;
use crate::cpu::{overflows_signed, shift_result, zn_reflect};
use crate::flags::{
    flag_in, lemma_flag_digit, lemma_status_ext, lemma_status_with, lemma_status_with_zn,
    status_with, status_with_zn, Flags,
};
use crate::machine::{Machine, Status};
use crate::opcode::{decoded, lemma_matrix_readings_agree, Mnemonic};
use crate::word::{
    lemma_signed_overflow, lemma_subtract_as_add, signed8, word_of, wrap16, wrap8,
};

verus! {

/// A byte that was written is read back, and a write changes no other byte.
pub proof fn law_write_then_read(m: Machine, addr: u16, data: u8, other: u16)
    requires
        m.wf(),
    ensures
        m.store(addr, data).byte(addr) == data,
        other != addr ==> m.store(addr, data).byte(other) == m.byte(other),
        m.store(addr, data).wf(),
{
}

/// A word that was written is read back, also at `0xFFFF`, where its high
/// byte lies at `0x0000`.
pub proof fn law_write_then_read_word(m: Machine, addr: u16, data: u16)
    requires
        m.wf(),
    ensures
        m.store_word(addr, data).word(addr) == data,
        m.store_word(addr, data).wf(),
{
}

/// The status register packs the flags as binary digits, C lowest and N
/// highest, so the flags together determine the register.
pub proof fn law_status_layout(m: Machine, n: Machine)
    ensures
        m.flag(Flags::C) == (m.sr % 2 == 1),
        m.flag(Flags::Z) == ((m.sr / 2) % 2 == 1),
        m.flag(Flags::I) == ((m.sr / 4) % 2 == 1),
        m.flag(Flags::D) == ((m.sr / 8) % 2 == 1),
        m.flag(Flags::B) == ((m.sr / 16) % 2 == 1),
        m.flag(Flags::U) == ((m.sr / 32) % 2 == 1),
        m.flag(Flags::V) == ((m.sr / 64) % 2 == 1),
        m.flag(Flags::N) == (m.sr >= 128),
        (forall|f: Flags| m.flag(f) == n.flag(f)) ==> m.sr == n.sr,
{
    lemma_flag_digit(m.sr);
    if forall|f: Flags| m.flag(f) == n.flag(f) {
        assert forall|f: Flags| flag_in(m.sr, f) == flag_in(n.sr, f) by {
            assert(m.flag(f) == n.flag(f));
        }
        lemma_status_ext(m.sr, n.sr);
    }
}

/// A flag that was set to `v` reads as `v`, and setting it leaves every
/// other flag as it was.
pub proof fn law_set_then_get_flag(m: Machine, f: Flags, v: bool, other: Flags)
    ensures
        m.with_flag(f, v).flag(f) == v,
        other != f ==> m.with_flag(f, v).flag(other) == m.flag(other),
{
    lemma_status_with(m.sr, f, v, f);
    lemma_status_with(m.sr, f, v, other);
}

/// A pull after a push returns the byte pushed and brings the stack pointer
/// back to where it was before the push, whatever its value: the stack
/// wraps inside its page.
pub proof fn law_push_then_pull(m: Machine, data: u8)
    requires
        m.wf(),
    ensures
        m.push(data).pulled() == data,
        m.push(data).sp == wrap8(m.sp - 1),
        m.push(data).after_pull().sp == m.sp,
        m.push(data).after_pull() == m.store(Machine::stack_addr(m.sp), data),
{
}

/// The stack lives in page 1: a push writes to an address between `0x0100`
/// and `0x01FF` and changes no byte outside that page.
pub proof fn law_stack_stays_in_page_one(m: Machine, data: u8, addr: u16)
    requires
        m.wf(),
    ensures
        0x0100 <= Machine::stack_addr(m.sp) <= 0x01FF,
        m.push(data).byte(Machine::stack_addr(m.sp)) == data,
        !(0x0100 <= addr <= 0x01FF) ==> m.push(data).byte(addr) == m.byte(addr),
{
}

/// A pull of a word after a push of a word returns the word pushed. The
/// push moves the stack pointer down by exactly two, the pull up by two,
/// back to where it was.
pub proof fn law_push_then_pull_word(m: Machine, data: u16)
    requires
        m.wf(),
    ensures
        m.push_word(data).pulled_word() == data,
        m.push_word(data).sp == wrap8(m.sp - 2),
        m.push_word(data).after_pull_word().sp == wrap8(m.push_word(data).sp + 2),
        m.push_word(data).after_pull_word().sp == m.sp,
{
}

/// Resetting twice is the same as resetting once.
pub proof fn law_reset_idempotent(m: Machine)
    ensures
        m.reset().reset() == m.reset(),
{
}

/// A subroutine returns behind its call: after a JSR with an absolute
/// address, an RTS continues at the byte after the three bytes of the JSR,
/// with the stack pointer where it was.
pub proof fn law_call_then_return(m: Machine)
    requires
        m.wf(),
    ensures
        m.jsr(AddressingMode::ABS).rts().pc == m.after_operand(AddressingMode::ABS).pc,
        m.jsr(AddressingMode::ABS).rts().sp == m.sp,
{
    let return_addr = wrap16(m.after_operand(AddressingMode::ABS).pc - 1);
    law_push_then_pull_word(m, return_addr);
}

/// An interrupt handler returns to where it was entered: after the entry
/// sequence, an RTI restores the program counter, the stack pointer and the
/// status register as they were before the entry.
pub proof fn law_interrupt_then_return(m: Machine, vector: u16)
    requires
        m.wf(),
    ensures
        m.interrupt(vector).rti().pc == m.pc,
        m.interrupt(vector).rti().sp == m.sp,
        m.interrupt(vector).rti().sr == m.sr,
{
    law_push_then_pull_word(m, m.pc);
    law_push_then_pull(m.push_word(m.pc), m.sr);
}

/// The first step after a reset loads the program counter from the reset
/// vector, low byte first, and does nothing else; the same holds at the
/// entry of a run.
pub proof fn law_first_step_after_reset(m: Machine)
    ensures
        m.reset().advance().pc == word_of(m.byte(0xFFFC), m.byte(0xFFFD)),
        m.reset().advance() == (Machine { pc: m.reset().advance().pc, ..m.reset() }),
        m.reset().advance_status() == Status::Running,
        m.reset().clock_entry() == m.reset().advance(),
{
}

/// The byte that the instruction `mnemonic` places in a register or in
/// memory as its result, where it has one: `after` is the state behind the
/// instruction, `before` the one in front of its operand.
pub open spec fn placed_result(
    before: Machine,
    after: Machine,
    mnemonic: Mnemonic,
    mode: AddressingMode,
) -> Option<u8> {
    match mnemonic {
        Mnemonic::LDA | Mnemonic::TXA | Mnemonic::TYA | Mnemonic::PLA | Mnemonic::AND
        | Mnemonic::ORA | Mnemonic::EOR | Mnemonic::ADC | Mnemonic::SBC => Some(after.a),
        Mnemonic::LDX | Mnemonic::TAX | Mnemonic::TSX | Mnemonic::INX | Mnemonic::DEX => Some(
            after.x,
        ),
        Mnemonic::LDY | Mnemonic::TAY | Mnemonic::INY | Mnemonic::DEY => Some(after.y),
        Mnemonic::INC | Mnemonic::DEC => Some(after.byte(before.effective_address(mode))),
        Mnemonic::ASL | Mnemonic::LSR | Mnemonic::ROL | Mnemonic::ROR => Some(
            shift_result(before, after, mode),
        ),
        _ => None,
    }
}

/// Behind every instruction that places a result in A, X, Y or memory, Z is
/// set exactly when the result is zero and N exactly when bit 7 of the
/// result is set.
pub proof fn law_result_sets_zn(m: Machine, mnemonic: Mnemonic, mode: AddressingMode)
    requires
        m.wf(),
        mnemonic.accepts(mode),
        placed_result(m, m.execute(mnemonic, mode), mnemonic, mode) is Some,
    ensures
        zn_reflect(
            m.execute(mnemonic, mode),
            placed_result(m, m.execute(mnemonic, mode), mnemonic, mode)->0,
        ),
{
    let after = m.execute(mnemonic, mode);
    let r = placed_result(m, after, mnemonic, mode)->0;
    let v = m.shift_input(mode);
    lemma_status_with_zn(m.sr, r, Flags::C);
    lemma_status_with_zn(status_with(m.sr, Flags::C, v >= 128), r, Flags::C);
    lemma_status_with_zn(status_with(m.sr, Flags::C, v % 2 == 1), r, Flags::C);
    if mnemonic == Mnemonic::ADC {
        lemma_status_with_zn(m.after_operand(mode).add_to_a(m.operand(mode)).sr, r, Flags::C);
    }
    if mnemonic == Mnemonic::SBC {
        lemma_status_with_zn(
            m.after_operand(mode).add_to_a((255 - m.operand(mode)) as u8).sr,
            r,
            Flags::C,
        );
    }
}

/// ADC adds in binary: the new A is the sum of A, the operand and the carry
/// modulo 256; C tells whether that sum passed 255, V whether the same sum
/// of the inputs read as signed bytes left the range of a signed byte.
pub proof fn law_add_with_carry(m: Machine, mode: AddressingMode)
    ensures
        m.adc(mode).a == wrap8(m.a + m.operand(mode) + m.carry()),
        m.adc(mode).flag(Flags::C) == (m.a + m.operand(mode) + m.carry() > 255),
        m.adc(mode).flag(Flags::V) == overflows_signed(
            signed8(m.a) + signed8(m.operand(mode)) + m.carry(),
        ),
{
    lemma_sum_flags(m.after_operand(mode), m.operand(mode));
}

/// SBC subtracts in binary: the new A is A minus the operand minus the
/// borrow, which is 1 exactly when C is clear, modulo 256; C is set exactly
/// when that difference is not negative, V when the same difference of the
/// inputs read as signed bytes left the range of a signed byte.
pub proof fn law_subtract_with_borrow(m: Machine, mode: AddressingMode)
    ensures
        m.sbc(mode).a == wrap8(m.a - m.operand(mode) - (1 - m.carry())),
        m.sbc(mode).flag(Flags::C) == (m.a - m.operand(mode) - (1 - m.carry()) >= 0),
        m.sbc(mode).flag(Flags::V) == overflows_signed(
            signed8(m.a) - signed8(m.operand(mode)) - (1 - m.carry()),
        ),
{
    lemma_sum_flags(m.after_operand(mode), (255 - m.operand(mode)) as u8);
    lemma_subtract_as_add(m.a, m.operand(mode), m.carry());
}

/// A comparison leaves A, X, Y, SP and the memory as they are; it sets C
/// exactly when the register is at least the operand and Z exactly when the
/// two are equal.
pub proof fn law_compare(m: Machine, mode: AddressingMode, reg: u8)
    ensures
        m.compare(mode, reg).a == m.a,
        m.compare(mode, reg).x == m.x,
        m.compare(mode, reg).y == m.y,
        m.compare(mode, reg).sp == m.sp,
        m.compare(mode, reg).mem == m.mem,
        m.compare(mode, reg).flag(Flags::C) == (reg >= m.operand(mode)),
        m.compare(mode, reg).flag(Flags::Z) == (reg == m.operand(mode)),
        m.compare(mode, reg).flag(Flags::N) == (wrap8(reg - m.operand(mode)) >= 128),
{
    let difference = wrap8(reg - m.operand(mode));
    let judged = status_with_zn(m.sr, difference);
    lemma_status_with_zn(m.sr, difference, Flags::C);
    lemma_status_with(judged, Flags::C, reg >= m.operand(mode), Flags::C);
    lemma_status_with(judged, Flags::C, reg >= m.operand(mode), Flags::Z);
    lemma_status_with(judged, Flags::C, reg >= m.operand(mode), Flags::N);
}

/// The sum that `add_to_a` leaves in A, and what C and V tell of it, also
/// after Z and N are taken from the sum.
proof fn lemma_sum_flags(m: Machine, value: u8)
    ensures
        m.add_to_a(value).a == wrap8(m.a + value + m.carry()),
        m.add_to_a(value).with_zn(m.add_to_a(value).a).flag(Flags::C) == (m.a + value + m.carry()
            > 255),
        m.add_to_a(value).with_zn(m.add_to_a(value).a).flag(Flags::V) == overflows_signed(
            signed8(m.a) + signed8(value) + m.carry(),
        ),
{
    let sum = m.a + value + m.carry();
    let r = wrap8(sum);
    let carried = status_with(m.sr, Flags::C, sum > 0xFF);
    let judged = status_with(carried, Flags::V, Machine::sign_lost(m.a, value, r));
    lemma_status_with(m.sr, Flags::C, sum > 0xFF, Flags::C);
    lemma_status_with(carried, Flags::V, Machine::sign_lost(m.a, value, r), Flags::C);
    lemma_status_with(carried, Flags::V, Machine::sign_lost(m.a, value, r), Flags::V);
    lemma_status_with_zn(judged, r, Flags::C);
    lemma_status_with_zn(judged, r, Flags::V);
    lemma_signed_overflow(m.a, value, m.carry());
}

/// A store changes the byte at the effective address to the register's
/// value, and nothing else in memory and no flag.
pub proof fn law_store_changes_one_byte(m: Machine, mnemonic: Mnemonic, mode: AddressingMode)
    requires
        m.wf(),
        mode.has_address(),
        mnemonic == Mnemonic::STA || mnemonic == Mnemonic::STX || mnemonic == Mnemonic::STY,
    ensures
        m.execute(mnemonic, mode).mem == m.mem.update(
            m.effective_address(mode) as int,
            if mnemonic == Mnemonic::STA {
                m.a
            } else if mnemonic == Mnemonic::STX {
                m.x
            } else {
                m.y
            },
        ),
        m.execute(mnemonic, mode).sr == m.sr,
{
}

/// A run never ends as `Running`. Where it ends as `Halted`, the last
/// opcode fetched was that of BRK; where it ends as `IllegalOpcode`, the
/// opcode reported is the last one fetched and is not in the matrix.
pub proof fn law_run_ends(m: Machine, steps: nat)
    ensures
        m.run_status(steps) != Status::Running,
        m.run_status(steps) == Status::Halted ==> m.run(steps).opcode == 0x00,
        m.run_status(steps) matches Status::IllegalOpcode { opcode, pc } ==> m.run(steps).opcode
            == opcode && decoded(opcode) is None && m.run(steps).pc == wrap16(pc + 1),
    decreases steps,
{
    if steps > 0 {
        if m.step_status() == Status::Running {
            law_run_ends(m.step(), (steps - 1) as nat);
        } else {
            match decoded(m.byte(m.pc)) {
                Some((mnemonic, mode)) => {
                    m.fetched().lemma_execute_keeps_latch(mnemonic, mode);
                    lemma_matrix_readings_agree(0x00, mnemonic, mode);
                },
                None => {},
            }
        }
    }
}

} // verus!
