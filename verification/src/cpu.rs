//! The executable processor.
//!
//! Every operation is proved to change the state as the model in
//! [`crate::machine`] says; the contracts name the model function and repeat
//! the facts that callers most often need.

use vstd::prelude::*;
use crate::bus::Bus;
use crate::flags::{flag_in, lemma_status_with, lemma_status_with_zn};
use crate::machine::{
    Machine, Status, IRQ_VECTOR, NMI_VECTOR, PROGRAM_LIMIT, PROGRAM_START, RESET_VECTOR,
    STEP_BUDGET,
};
use crate::word::{add8, make_word, split_word, sub8, wrap8};

pub use crate::addressing::AddressingMode;
pub use crate::flags::Flags;
pub use self::instructions::{overflows_signed, shift_result};

mod addressing_unit;
mod dispatch;
mod instructions;

verus! {

/// A 6502 processor together with the memory it owns.
///
/// Its view is the [`Machine`] that holds the registers and the memory.
#[allow(clippy::upper_case_acronyms)]
pub struct CPU {
    a: u8,
    x: u8,
    y: u8,
    sp: u8,
    pc: u16,
    sr: u8,
    opcode: u8,
    bus: Bus,
}

impl View for CPU {
    type V = Machine;

    closed spec fn view(&self) -> Machine {
        Machine {
            a: self.a,
            x: self.x,
            y: self.y,
            sp: self.sp,
            pc: self.pc,
            sr: self.sr,
            opcode: self.opcode,
            mem: self.bus@,
        }
    }
}

/// Whether Z and N of `m` tell that the result `r` is zero and that its bit
/// 7 is set.
pub open spec fn zn_reflect(m: Machine, r: u8) -> bool {
    &&& m.flag(Flags::Z) == (r == 0)
    &&& m.flag(Flags::N) == (r & 0x80 != 0)
}

impl CPU {
    /// The memory of every processor has exactly 65536 bytes.
    pub proof fn lemma_memory_len(&self)
        ensures
            self@.wf(),
            self@.mem.len() == 65536,
    {
        self.bus.lemma_len();
    }

    /// A processor that owns `bus`, with cleared registers, an empty stack
    /// and the program counter at 0.
    pub fn new(bus: Bus) -> (cpu: CPU)
        ensures
            cpu@ == (Machine { a: 0, x: 0, y: 0, sp: 0xFF, pc: 0, sr: 0, opcode: 0, mem: bus@ }),
            cpu@.wf(),
    {
        proof {
            bus.lemma_len();
        }
        CPU { a: 0x00, x: 0x00, y: 0x00, sp: 0xFF, pc: 0x0000, sr: 0x00, opcode: 0x00, bus }
    }

    /// A processor with the given registers that owns `bus`.
    pub fn custom(a: u8, x: u8, y: u8, sp: u8, pc: u16, sr: u8, opcode: u8, bus: Bus) -> (cpu: CPU)
        ensures
            cpu@ == (Machine { a, x, y, sp, pc, sr, opcode, mem: bus@ }),
            cpu@.wf(),
    {
        proof {
            bus.lemma_len();
        }
        CPU { a, x, y, sp, pc, sr, opcode, bus }
    }

    // ----- memory ---------------------------------------------------------

    /// Stores `data` at `addr`; nothing else changes. A read of `addr` then
    /// returns `data`.
    pub fn write(&mut self, addr: u16, data: u8)
        ensures
            final(self)@ == old(self)@.store(addr, data),
            final(self)@.byte(addr) == data,
    {
        proof {
            self.lemma_memory_len();
        }
        self.bus.write(addr, data);
    }

    /// The byte at `addr`; the state is unchanged.
    pub fn read(&mut self, addr: u16) -> (data: u8)
        ensures
            data == old(self)@.byte(addr),
            final(self)@ == old(self)@,
    {
        self.bus.read(addr)
    }

    /// Stores the word `data` at `addr`, low byte first; nothing else
    /// changes. A read of the word at `addr` then returns `data`.
    pub fn write_u16(&mut self, addr: u16, data: u16)
        ensures
            final(self)@ == old(self)@.store_word(addr, data),
            final(self)@.word(addr) == data,
    {
        proof {
            self.lemma_memory_len();
        }
        self.bus.write_u16(addr, data);
    }

    /// The little-endian word at `addr`; the state is unchanged.
    pub fn read_u16(&mut self, addr: u16) -> (data: u16)
        ensures
            data == old(self)@.word(addr),
            final(self)@ == old(self)@,
    {
        self.bus.read_u16(addr)
    }

    // ----- stack ----------------------------------------------------------

    /// Pushes `data`: it goes to `0x0100 | SP`, then SP moves down by one,
    /// from `0x00` to `0xFF`. A pull then returns `data` and brings SP back.
    pub fn push(&mut self, data: u8)
        ensures
            final(self)@ == old(self)@.push(data),
            final(self)@.pulled() == data,
            final(self)@.after_pull().sp == old(self)@.sp,
    {
        proof {
            self.lemma_memory_len();
        }
        let slot: u16 = 0x0100 + (self.sp as u16);
        self.write(slot, data);
        self.sp = sub8(self.sp, 1);
    }

    /// Pushes the word `data`, high byte first; SP moves down by two. A
    /// pull of a word then returns `data` and brings SP back.
    pub fn push_u16(&mut self, data: u16)
        ensures
            final(self)@ == old(self)@.push_word(data),
            final(self)@.sp == wrap8(old(self)@.sp - 2),
            final(self)@.pulled_word() == data,
            final(self)@.after_pull_word().sp == old(self)@.sp,
    {
        proof {
            self.lemma_memory_len();
        }
        let (lo, hi) = split_word(data);
        self.push(hi);
        self.push(lo);
    }

    /// Pulls a byte: SP moves up by one, from `0xFF` to `0x00`, then the
    /// byte at `0x0100 | SP` is returned. Memory is unchanged.
    pub fn pop(&mut self) -> (data: u8)
        ensures
            data == old(self)@.pulled(),
            final(self)@ == old(self)@.after_pull(),
    {
        self.sp = add8(self.sp, 1);
        let slot: u16 = 0x0100 + (self.sp as u16);
        self.read(slot)
    }

    /// Pulls a word, low byte first; SP moves up by two.
    pub fn pop_u16(&mut self) -> (data: u16)
        ensures
            data == old(self)@.pulled_word(),
            final(self)@ == old(self)@.after_pull_word(),
            final(self)@.sp == wrap8(old(self)@.sp + 2),
    {
        let lo = self.pop();
        let hi = self.pop();
        make_word(lo, hi)
    }

    // ----- flags ----------------------------------------------------------

    /// Whether flag `f` is set; the state is unchanged.
    pub fn get_flag(&mut self, f: Flags) -> (v: bool)
        ensures
            v == old(self)@.flag(f),
            final(self)@ == old(self)@,
    {
        self.sr & f.bits() != 0
    }

    /// Sets flag `f` to `v`. Afterwards `f` reads as `v`, and every other
    /// flag, every register and the memory are as before.
    pub fn set_flag(&mut self, f: Flags, v: bool)
        ensures
            final(self)@ == old(self)@.with_flag(f, v),
            final(self)@.flag(f) == v,
            forall|g: Flags| g != f ==> final(self)@.flag(g) == old(self)@.flag(g),
    {
        if v {
            self.sr = self.sr | f.bits();
        } else {
            self.sr = self.sr & !f.bits();
        }
        proof {
            assert forall|g: Flags| true implies #[trigger] flag_in(self.sr, g) == (if g == f {
                v
            } else {
                flag_in(old(self).sr, g)
            }) by {
                lemma_status_with(old(self).sr, f, v, g);
            }
        }
    }

    /// Takes Z and N from the result `value`: Z is set exactly when `value`
    /// is zero, N exactly when bit 7 of `value` is set. Nothing else
    /// changes.
    pub fn set_zero_negative_flags(&mut self, value: u8)
        ensures
            final(self)@ == old(self)@.with_zn(value),
            zn_reflect(final(self)@, value),
            forall|g: Flags|
                g != Flags::Z && g != Flags::N ==> final(self)@.flag(g) == old(self)@.flag(g),
    {
        self.set_flag(Flags::Z, value == 0x00);
        self.set_flag(Flags::N, value >= 0x80);
        proof {
            assert forall|g: Flags| true implies (g != Flags::Z && g != Flags::N ==> #[trigger] flag_in(
                self.sr,
                g,
            ) == flag_in(old(self).sr, g)) && zn_reflect(self@, value) by {
                lemma_status_with_zn(old(self).sr, value, g);
            }
            lemma_status_with_zn(old(self).sr, value, Flags::C);
        }
    }

    /// Same as [`CPU::set_zero_negative_flags`].
    pub fn set_zero_overflow_flags(&mut self, value: u8)
        ensures
            final(self)@ == old(self)@.with_zn(value),
            zn_reflect(final(self)@, value),
    {
        self.set_zero_negative_flags(value);
    }

    // ----- reset and interrupts -------------------------------------------

    /// Resets the processor: A, X and Y become 0, SP `0xFF`, the status
    /// register 0, the opcode latch 0, and the program counter the address
    /// of the reset vector. Memory is kept.
    pub fn reset(&mut self)
        ensures
            final(self)@ == old(self)@.reset(),
            final(self)@ == (Machine {
                a: 0,
                x: 0,
                y: 0,
                sp: 0xFF,
                pc: 0xFFFC,
                sr: 0,
                opcode: 0,
                mem: old(self)@.mem,
            }),
    {
        self.pc = RESET_VECTOR;
        self.a = 0;
        self.x = 0;
        self.y = 0;
        self.sp = 0xFF;
        self.sr = 0;
        self.opcode = 0;
    }

    /// Enters the handler at `vector`.
    fn interrupt(&mut self, vector: u16)
        ensures
            final(self)@ == old(self)@.interrupt(vector),
    {
        self.push_u16(self.pc);
        self.push(self.sr);
        self.set_flag(Flags::I, true);
        self.pc = self.read_u16(vector);
    }

    /// An interrupt request. While I is set nothing happens. Otherwise the
    /// program counter and the status register are pushed, I is set and the
    /// program counter is loaded from `0xFFFE`.
    pub fn irq(&mut self)
        ensures
            final(self)@ == old(self)@.irq(),
            old(self)@.flag(Flags::I) ==> final(self)@ == old(self)@,
    {
        if !self.get_flag(Flags::I) {
            self.interrupt(IRQ_VECTOR);
        }
    }

    /// A non-maskable interrupt: the program counter and the status register
    /// are pushed, I is set and the program counter is loaded from `0xFFFA`.
    pub fn nmi(&mut self)
        ensures
            final(self)@ == old(self)@.nmi(),
    {
        self.interrupt(NMI_VECTOR);
    }
}

/// Loading programs and looking at the state.
impl CPU {
    /// Copies the `len` bytes of `source` that start at index `from` into
    /// memory from `dest` on. Nothing else changes.
    ///
    /// The block must lie inside `source` and fit between `dest` and the end
    /// of memory.
    pub fn write_block(&mut self, dest: u16, source: &Vec<u8>, from: usize, len: usize)
        requires
            from + len <= source.len(),
            dest + len <= 65536,
        ensures
            final(self)@ == old(self)@.overlay(dest, source@.subrange(from as int, from + len)),
    {
        proof {
            self.lemma_memory_len();
        }
        let ghost start = self@;
        let ghost block = source@.subrange(from as int, from + len);
        let mut i: usize = 0;
        while i < len
            invariant
                i <= len,
                from + len <= source.len(),
                dest + len <= 65536,
                block == source@.subrange(from as int, from + len),
                start.wf(),
                self@ == (Machine { mem: self@.mem, ..start }),
                self@.mem =~= start.overlay(dest, block.take(i as int)).mem,
            decreases len - i,
        {
            self.write(dest + (i as u16), source[from + i]);
            i = i + 1;
        }
        assert(block.take(len as int) =~= block);
    }

    /// Writes `0x0600` into the reset vector, then places `program` in
    /// memory from `0x0600` on. The registers are not touched.
    ///
    /// The program must fit between `0x0600` and the end of memory.
    pub fn load_program(&mut self, program: Vec<u8>)
        requires
            program.len() <= PROGRAM_LIMIT,
        ensures
            final(self)@ == old(self)@.load(program@),
    {
        self.write_u16(RESET_VECTOR, PROGRAM_START);
        self.write_block(PROGRAM_START, &program, 0, program.len());
        assert(program@.subrange(0, program.len() as int) =~= program@);
    }

    /// Loads `program`, resets the processor and runs the program:
    /// [`CPU::load_program`], [`CPU::reset`] and [`CPU::clock`] in turn.
    pub fn quick_start(&mut self, program: Vec<u8>) -> (status: Status)
        requires
            program.len() <= PROGRAM_LIMIT,
        ensures
            final(self)@ == old(self)@.load(program@).reset().started().run(STEP_BUDGET as nat),
            status == old(self)@.load(program@).reset().started().run_status(STEP_BUDGET as nat),
            status != Status::Running,
    {
        self.load_program(program);
        self.reset();
        self.clock()
    }

    /// The program counter.
    pub fn get_pc(&self) -> (pc: u16)
        ensures
            pc == self@.pc,
    {
        self.pc
    }

    /// The stack pointer.
    pub fn get_sp(&self) -> (sp: u8)
        ensures
            sp == self@.sp,
    {
        self.sp
    }

    /// The status register.
    pub fn get_sr(&self) -> (sr: u8)
        ensures
            sr == self@.sr,
    {
        self.sr
    }

    /// The accumulator.
    pub fn get_a(&self) -> (a: u8)
        ensures
            a == self@.a,
    {
        self.a
    }

    /// The index register X.
    pub fn get_x(&self) -> (x: u8)
        ensures
            x == self@.x,
    {
        self.x
    }

    /// The index register Y.
    pub fn get_y(&self) -> (y: u8)
        ensures
            y == self@.y,
    {
        self.y
    }

    /// The opcode fetched last.
    pub fn get_opcode(&self) -> (opcode: u8)
        ensures
            opcode == self@.opcode,
    {
        self.opcode
    }

    /// The status register.
    pub fn get_status(&self) -> (sr: u8)
        ensures
            sr == self@.sr,
    {
        self.sr
    }

    /// The accumulator.
    pub fn get_a_reg(&self) -> (a: u8)
        ensures
            a == self@.a,
    {
        self.a
    }

    /// Sets the accumulator to `value`; nothing else changes.
    pub fn set_a(&mut self, value: u8)
        ensures
            final(self)@ == (Machine { a: value, ..old(self)@ }),
    {
        self.a = value;
    }

    /// Sets the accumulator to `value`; nothing else changes.
    pub fn set_a_reg(&mut self, value: u8)
        ensures
            final(self)@ == (Machine { a: value, ..old(self)@ }),
    {
        self.a = value;
    }

    /// The registers in the order A, X, Y, SP, PC, status, opcode.
    pub fn get_state(&self) -> (state: Vec<u16>)
        ensures
            state@ == seq![
                self@.a as u16,
                self@.x as u16,
                self@.y as u16,
                self@.sp as u16,
                self@.pc,
                self@.sr as u16,
                self@.opcode as u16,
            ],
    {
        vec![
            self.a as u16,
            self.x as u16,
            self.y as u16,
            self.sp as u16,
            self.pc,
            self.sr as u16,
            self.opcode as u16,
        ]
    }

    /// A copy of the whole memory.
    pub fn get_memory(&self) -> (memory: [u8; 65536])
        ensures
            memory@ == self@.mem,
    {
        self.bus.get_ram()
    }
}

} // verus!
