//! The model of the processor: its state as a mathematical value and the
//! effect of every operation as a function from state to state.
//!
//! Nothing here runs. The executable processor in [`crate::cpu`] is proved
//! to change its state exactly as these functions say.

use vstd::prelude::*;
use crate::addressing::AddressingMode;
use crate::bus::{store_word, word_at};
use crate::flags::{flag_in, status_with, status_with_zn, Flags};
use crate::opcode::{decoded, Mnemonic};
use crate::word::{high_byte, low_byte, signed8, word_of, wrap16, wrap8};

verus! {

/// Where the processor finds the address of the non-maskable interrupt
/// handler.
pub const NMI_VECTOR: u16 = 0xFFFA;

/// Where the processor finds the start of the program. After a reset the
/// program counter holds this address itself, as a mark that the start
/// address has not been loaded yet.
pub const RESET_VECTOR: u16 = 0xFFFC;

/// Where the processor finds the address of the handler for interrupt
/// requests and for BRK.
pub const IRQ_VECTOR: u16 = 0xFFFE;

/// Where `load_program` places a program.
pub const PROGRAM_START: u16 = 0x0600;

/// The longest program that fits between `PROGRAM_START` and the end of
/// memory.
pub const PROGRAM_LIMIT: usize = 0xFA00;

/// The number of instructions after which `clock` gives up.
pub const STEP_BUDGET: u64 = 0xFFFF_FFFF_FFFF_FFFF;

/// How a step or a run of the processor ended.
#[derive(Clone, Copy, Debug, PartialEq, Eq, Structural)]
pub enum Status {
    /// The step was carried out and the processor can go on.
    Running,
    /// A BRK was carried out, which ends a run.
    Halted,
    /// The byte `opcode`, fetched at `pc`, is not a documented opcode.
    IllegalOpcode { opcode: u8, pc: u16 },
    /// The run used up its allowance of steps before it met a BRK.
    OutOfSteps,
}

/// The state of the processor and its memory.
pub struct Machine {
    /// Accumulator.
    pub a: u8,
    /// Index register X.
    pub x: u8,
    /// Index register Y.
    pub y: u8,
    /// Stack pointer: the low byte of the next free slot of the stack page.
    pub sp: u8,
    /// Program counter: the address of the next byte to fetch.
    pub pc: u16,
    /// Status register.
    pub sr: u8,
    /// The opcode fetched last.
    pub opcode: u8,
    /// The 65536 bytes of memory.
    pub mem: Seq<u8>,
}

impl Machine {
    /// Whether the memory has the size that every processor's memory has.
    pub open spec fn wf(self) -> bool {
        self.mem.len() == 65536
    }

    // ----- memory ---------------------------------------------------------

    /// The byte at `addr`.
    pub open spec fn byte(self, addr: u16) -> u8 {
        self.mem[addr as int]
    }

    /// The little-endian word at `addr`.
    pub open spec fn word(self, addr: u16) -> u16 {
        word_at(self.mem, addr)
    }

    /// The little-endian word at the zero-page address `ptr`, whose high
    /// byte is read from the next address inside page 0.
    pub open spec fn zero_page_word(self, ptr: u8) -> u16 {
        word_of(self.byte(ptr as u16), self.byte(wrap8(ptr + 1) as u16))
    }

    /// This state with `data` stored at `addr`.
    pub open spec fn store(self, addr: u16, data: u8) -> Machine {
        Machine { mem: self.mem.update(addr as int, data), ..self }
    }

    /// This state with the word `data` stored little-endian at `addr`.
    pub open spec fn store_word(self, addr: u16, data: u16) -> Machine {
        Machine { mem: store_word(self.mem, addr, data), ..self }
    }

    // ----- flags ----------------------------------------------------------

    /// Whether flag `f` is set.
    pub open spec fn flag(self, f: Flags) -> bool {
        flag_in(self.sr, f)
    }

    /// The carry flag as a number.
    pub open spec fn carry(self) -> int {
        if self.flag(Flags::C) {
            1
        } else {
            0
        }
    }

    /// This state with flag `f` set to `v`.
    pub open spec fn with_flag(self, f: Flags, v: bool) -> Machine {
        Machine { sr: status_with(self.sr, f, v), ..self }
    }

    /// This state with Z and N taken from the result `value`.
    pub open spec fn with_zn(self, value: u8) -> Machine {
        Machine { sr: status_with_zn(self.sr, value), ..self }
    }

    // ----- stack ----------------------------------------------------------

    /// The address of the stack slot with low byte `sp`.
    pub open spec fn stack_addr(sp: u8) -> u16 {
        (0x0100 + sp) as u16
    }

    /// After a push of `data`: it is stored in the free slot, and the stack
    /// pointer moves down by one, from `0x00` to `0xFF`.
    pub open spec fn push(self, data: u8) -> Machine {
        Machine {
            sp: wrap8(self.sp - 1),
            mem: self.mem.update(Self::stack_addr(self.sp) as int, data),
            ..self
        }
    }

    /// The byte that a pull returns: the one above the free slot.
    pub open spec fn pulled(self) -> u8 {
        self.byte(Self::stack_addr(wrap8(self.sp + 1)))
    }

    /// After a pull: the stack pointer moves up by one, from `0xFF` to
    /// `0x00`.
    pub open spec fn after_pull(self) -> Machine {
        Machine { sp: wrap8(self.sp + 1), ..self }
    }

    /// After a push of the word `data`: the high byte is pushed first.
    pub open spec fn push_word(self, data: u16) -> Machine {
        self.push(high_byte(data)).push(low_byte(data))
    }

    /// The word that a pull of a word returns: the low byte is pulled first.
    pub open spec fn pulled_word(self) -> u16 {
        word_of(self.pulled(), self.after_pull().pulled())
    }

    /// After a pull of a word.
    pub open spec fn after_pull_word(self) -> Machine {
        self.after_pull().after_pull()
    }

    // ----- reset and interrupts -------------------------------------------

    /// After a reset: the registers are cleared, the stack is empty and the
    /// program counter marks that the start address is yet to be loaded.
    /// Memory is kept.
    pub open spec fn reset(self) -> Machine {
        Machine { a: 0, x: 0, y: 0, sp: 0xFF, pc: RESET_VECTOR, sr: 0, opcode: 0, mem: self.mem }
    }

    /// Whether the program counter marks that the start address is yet to be
    /// loaded.
    pub open spec fn awaits_start(self) -> bool {
        self.pc == RESET_VECTOR
    }

    /// This state with the program counter loaded from the reset vector.
    pub open spec fn started(self) -> Machine {
        Machine { pc: self.word(RESET_VECTOR), ..self }
    }

    /// Entry into an interrupt handler: the program counter and then the
    /// status register are pushed, further interrupts are disabled, and the
    /// program counter is loaded from `vector`.
    pub open spec fn interrupt(self, vector: u16) -> Machine {
        let entered = self.push_word(self.pc).push(self.sr).with_flag(Flags::I, true);
        Machine { pc: entered.word(vector), ..entered }
    }

    /// An interrupt request: ignored while interrupts are disabled.
    pub open spec fn irq(self) -> Machine {
        if self.flag(Flags::I) {
            self
        } else {
            self.interrupt(IRQ_VECTOR)
        }
    }

    /// A non-maskable interrupt.
    pub open spec fn nmi(self) -> Machine {
        self.interrupt(NMI_VECTOR)
    }

    // ----- loading --------------------------------------------------------

    /// This state with the bytes `data` placed in memory from `dest` on;
    /// every byte outside that block is kept.
    pub open spec fn overlay(self, dest: u16, data: Seq<u8>) -> Machine {
        Machine {
            mem: Seq::new(
                65536,
                |i: int|
                    if dest <= i < dest + data.len() {
                        data[i - dest]
                    } else {
                        self.mem[i]
                    },
            ),
            ..self
        }
    }

    /// This state with the reset vector pointing at `0x0600` and then
    /// `program` placed from `0x0600` on. A program long enough to reach
    /// the reset vector replaces it.
    pub open spec fn load(self, program: Seq<u8>) -> Machine {
        self.store_word(RESET_VECTOR, PROGRAM_START).overlay(PROGRAM_START, program)
    }

    // ----- addressing -----------------------------------------------------

    /// The effective address of the operand in `mode`, with the program
    /// counter at the first operand byte.
    ///
    /// Zero-page modes wrap inside page 0; the others use 16-bit arithmetic
    /// that wraps at `0xFFFF`. In indirect mode the pointer's high byte is
    /// read from the address after its low byte, also across a page
    /// boundary. In relative mode the signed offset counts from the address
    /// behind the offset byte, where the next instruction starts. The
    /// implied and the accumulator mode have no address; for them the result
    /// has no meaning.
    pub open spec fn effective_address(self, mode: AddressingMode) -> u16 {
        match mode {
            AddressingMode::IMM => self.pc,
            AddressingMode::ZP0 => self.byte(self.pc) as u16,
            AddressingMode::ZPX => wrap8(self.byte(self.pc) + self.x) as u16,
            AddressingMode::ZPY => wrap8(self.byte(self.pc) + self.y) as u16,
            AddressingMode::ABS => self.word(self.pc),
            AddressingMode::ABX => wrap16(self.word(self.pc) + self.x),
            AddressingMode::ABY => wrap16(self.word(self.pc) + self.y),
            AddressingMode::IND => self.word(self.word(self.pc)),
            AddressingMode::IDX => self.zero_page_word(wrap8(self.byte(self.pc) + self.x)),
            AddressingMode::IDY => wrap16(self.zero_page_word(self.byte(self.pc)) + self.y),
            AddressingMode::REL => wrap16(wrap16(self.pc + 1) + signed8(self.byte(self.pc))),
            AddressingMode::IMP | AddressingMode::ACC => 0,
        }
    }

    /// This state with the program counter moved past the operand bytes of
    /// `mode`.
    pub open spec fn after_operand(self, mode: AddressingMode) -> Machine {
        Machine { pc: wrap16(self.pc + mode.operand_len()), ..self }
    }

    /// The byte at the effective address.
    pub open spec fn operand(self, mode: AddressingMode) -> u8 {
        self.byte(self.effective_address(mode))
    }

    // ----- loads, stores, transfers ---------------------------------------

    /// LDA: A := operand; Z and N from A.
    pub open spec fn lda(self, mode: AddressingMode) -> Machine {
        let v = self.operand(mode);
        Machine { a: v, ..self.after_operand(mode) }.with_zn(v)
    }

    /// LDX: X := operand; Z and N from X.
    pub open spec fn ldx(self, mode: AddressingMode) -> Machine {
        let v = self.operand(mode);
        Machine { x: v, ..self.after_operand(mode) }.with_zn(v)
    }

    /// LDY: Y := operand; Z and N from Y.
    pub open spec fn ldy(self, mode: AddressingMode) -> Machine {
        let v = self.operand(mode);
        Machine { y: v, ..self.after_operand(mode) }.with_zn(v)
    }

    /// STA: the byte at the effective address := A.
    pub open spec fn sta(self, mode: AddressingMode) -> Machine {
        self.after_operand(mode).store(self.effective_address(mode), self.a)
    }

    /// STX: the byte at the effective address := X.
    pub open spec fn stx(self, mode: AddressingMode) -> Machine {
        self.after_operand(mode).store(self.effective_address(mode), self.x)
    }

    /// STY: the byte at the effective address := Y.
    pub open spec fn sty(self, mode: AddressingMode) -> Machine {
        self.after_operand(mode).store(self.effective_address(mode), self.y)
    }

    /// TAX: X := A; Z and N from X.
    pub open spec fn tax(self) -> Machine {
        Machine { x: self.a, ..self }.with_zn(self.a)
    }

    /// TAY: Y := A; Z and N from Y.
    pub open spec fn tay(self) -> Machine {
        Machine { y: self.a, ..self }.with_zn(self.a)
    }

    /// TSX: X := SP; Z and N from X.
    pub open spec fn tsx(self) -> Machine {
        Machine { x: self.sp, ..self }.with_zn(self.sp)
    }

    /// TXA: A := X; Z and N from A.
    pub open spec fn txa(self) -> Machine {
        Machine { a: self.x, ..self }.with_zn(self.x)
    }

    /// TXS: SP := X; no flag changes.
    pub open spec fn txs(self) -> Machine {
        Machine { sp: self.x, ..self }
    }

    /// TYA: A := Y; Z and N from A.
    pub open spec fn tya(self) -> Machine {
        Machine { a: self.y, ..self }.with_zn(self.y)
    }

    // ----- stack instructions ---------------------------------------------

    /// PHA: push A.
    pub open spec fn pha(self) -> Machine {
        self.push(self.a)
    }

    /// PHP: push the status register as it is.
    pub open spec fn php(self) -> Machine {
        self.push(self.sr)
    }

    /// PLA: A := pull; Z and N from A.
    pub open spec fn pla(self) -> Machine {
        let v = self.pulled();
        Machine { a: v, ..self.after_pull() }.with_zn(v)
    }

    /// PLP: the status register := pull.
    pub open spec fn plp(self) -> Machine {
        Machine { sr: self.pulled(), ..self.after_pull() }
    }

    // ----- arithmetic -----------------------------------------------------

    /// Whether adding the operand `m` to the accumulator `a` with result `r`
    /// overflowed as a signed addition: the two inputs have the same sign
    /// and the result has the other.
    pub open spec fn sign_lost(a: u8, m: u8, r: u8) -> bool {
        (a >= 128) == (m >= 128) && (a >= 128) != (r >= 128)
    }

    /// A := A + `m` + C in binary, whatever the decimal flag says. C tells
    /// whether the sum passed 255, V whether it overflowed as a signed sum.
    /// Z and N are left alone.
    pub open spec fn add_to_a(self, m: u8) -> Machine {
        let sum = self.a + m + self.carry();
        let r = wrap8(sum);
        Machine { a: r, ..self }.with_flag(Flags::C, sum > 0xFF).with_flag(
            Flags::V,
            Self::sign_lost(self.a, m, r),
        )
    }

    /// ADC: A := A + operand + C; C, V, Z and N from the sum.
    pub open spec fn adc(self, mode: AddressingMode) -> Machine {
        let sum = self.after_operand(mode).add_to_a(self.operand(mode));
        sum.with_zn(sum.a)
    }

    /// SBC: as ADC with the one's complement of the operand, which makes
    /// A := A - operand - (1 - C).
    pub open spec fn sbc(self, mode: AddressingMode) -> Machine {
        let sum = self.after_operand(mode).add_to_a((255 - self.operand(mode)) as u8);
        sum.with_zn(sum.a)
    }

    /// The comparison of register value `reg` with the operand: Z and N from
    /// their 8-bit difference, C set exactly when `reg` is at least the
    /// operand. No register changes.
    pub open spec fn compare(self, mode: AddressingMode, reg: u8) -> Machine {
        let m = self.operand(mode);
        self.after_operand(mode).with_zn(wrap8(reg - m)).with_flag(Flags::C, reg >= m)
    }

    /// CMP: compare A with the operand.
    pub open spec fn compare_a(self, mode: AddressingMode) -> Machine {
        self.compare(mode, self.a)
    }

    /// CPX: compare X with the operand.
    pub open spec fn cpx(self, mode: AddressingMode) -> Machine {
        self.compare(mode, self.x)
    }

    /// CPY: compare Y with the operand.
    pub open spec fn cpy(self, mode: AddressingMode) -> Machine {
        self.compare(mode, self.y)
    }

    /// This state after the memory byte at the effective address is replaced
    /// by `r`, with Z and N taken from `r`.
    pub open spec fn modify(self, mode: AddressingMode, r: u8) -> Machine {
        self.after_operand(mode).store(self.effective_address(mode), r).with_zn(r)
    }

    /// INC: the operand byte goes up by one, from `0xFF` to `0x00`.
    pub open spec fn inc(self, mode: AddressingMode) -> Machine {
        self.modify(mode, wrap8(self.operand(mode) + 1))
    }

    /// DEC: the operand byte goes down by one, from `0x00` to `0xFF`.
    pub open spec fn dec(self, mode: AddressingMode) -> Machine {
        self.modify(mode, wrap8(self.operand(mode) - 1))
    }

    /// INX: X goes up by one; Z and N from X.
    pub open spec fn inx(self) -> Machine {
        Machine { x: wrap8(self.x + 1), ..self }.with_zn(wrap8(self.x + 1))
    }

    /// INY: Y goes up by one; Z and N from Y.
    pub open spec fn iny(self) -> Machine {
        Machine { y: wrap8(self.y + 1), ..self }.with_zn(wrap8(self.y + 1))
    }

    /// DEX: X goes down by one; Z and N from X.
    pub open spec fn dex(self) -> Machine {
        Machine { x: wrap8(self.x - 1), ..self }.with_zn(wrap8(self.x - 1))
    }

    /// DEY: Y goes down by one; Z and N from Y.
    pub open spec fn dey(self) -> Machine {
        Machine { y: wrap8(self.y - 1), ..self }.with_zn(wrap8(self.y - 1))
    }

    // ----- logic ----------------------------------------------------------

    /// AND: A := A & operand; Z and N from A.
    pub open spec fn and(self, mode: AddressingMode) -> Machine {
        let r = self.a & self.operand(mode);
        Machine { a: r, ..self.after_operand(mode) }.with_zn(r)
    }

    /// ORA: A := A | operand; Z and N from A.
    pub open spec fn ora(self, mode: AddressingMode) -> Machine {
        let r = self.a | self.operand(mode);
        Machine { a: r, ..self.after_operand(mode) }.with_zn(r)
    }

    /// EOR: A := A ^ operand; Z and N from A.
    pub open spec fn eor(self, mode: AddressingMode) -> Machine {
        let r = self.a ^ self.operand(mode);
        Machine { a: r, ..self.after_operand(mode) }.with_zn(r)
    }

    /// BIT: Z tells whether A & operand is zero; V and N are bits 6 and 7 of
    /// the operand. Nothing is stored.
    pub open spec fn bit(self, mode: AddressingMode) -> Machine {
        let m = self.operand(mode);
        self.after_operand(mode).with_flag(Flags::Z, self.a & m == 0).with_flag(
            Flags::V,
            m & 0x40 != 0,
        ).with_flag(Flags::N, m & 0x80 != 0)
    }

    // ----- shifts and rotates ---------------------------------------------

    /// The value that a shift or rotate works on: A in accumulator mode, the
    /// operand byte otherwise.
    pub open spec fn shift_input(self, mode: AddressingMode) -> u8 {
        if mode == AddressingMode::ACC {
            self.a
        } else {
            self.operand(mode)
        }
    }

    /// This state after a shift or rotate has produced `r` and moved the bit
    /// `carry` out: `r` replaces A in accumulator mode and the operand byte
    /// otherwise, C is the bit moved out, Z and N come from `r`.
    pub open spec fn shift_output(self, mode: AddressingMode, r: u8, carry: bool) -> Machine {
        let written = if mode == AddressingMode::ACC {
            Machine { a: r, ..self }
        } else {
            self.after_operand(mode).store(self.effective_address(mode), r)
        };
        written.with_flag(Flags::C, carry).with_zn(r)
    }

    /// ASL: every bit moves one place up; bit 7 goes to C, bit 0 becomes 0.
    pub open spec fn asl(self, mode: AddressingMode) -> Machine {
        let v = self.shift_input(mode);
        self.shift_output(mode, wrap8(2 * v), v >= 128)
    }

    /// LSR: every bit moves one place down; bit 0 goes to C, bit 7 becomes 0.
    pub open spec fn lsr(self, mode: AddressingMode) -> Machine {
        let v = self.shift_input(mode);
        self.shift_output(mode, (v / 2) as u8, v % 2 == 1)
    }

    /// ROL: every bit moves one place up; bit 7 goes to C, the old C becomes
    /// bit 0.
    pub open spec fn rol(self, mode: AddressingMode) -> Machine {
        let v = self.shift_input(mode);
        self.shift_output(mode, wrap8(2 * v + self.carry()), v >= 128)
    }

    /// ROR: every bit moves one place down; bit 0 goes to C, the old C
    /// becomes bit 7.
    pub open spec fn ror(self, mode: AddressingMode) -> Machine {
        let v = self.shift_input(mode);
        self.shift_output(mode, (v / 2 + 128 * self.carry()) as u8, v % 2 == 1)
    }

    // ----- control flow ---------------------------------------------------

    /// A branch: the operand is consumed; if `taken`, the program counter
    /// becomes the effective address, else it stays behind the operand.
    pub open spec fn branch(self, mode: AddressingMode, taken: bool) -> Machine {
        if taken {
            Machine { pc: self.effective_address(mode), ..self }
        } else {
            self.after_operand(mode)
        }
    }

    /// JMP: the program counter := effective address.
    pub open spec fn jmp(self, mode: AddressingMode) -> Machine {
        Machine { pc: self.effective_address(mode), ..self }
    }

    /// JSR: the address of the last operand byte is pushed, then the
    /// program counter := effective address.
    pub open spec fn jsr(self, mode: AddressingMode) -> Machine {
        let return_addr = wrap16(self.after_operand(mode).pc - 1);
        Machine { pc: self.effective_address(mode), ..self.push_word(return_addr) }
    }

    /// RTS: the program counter := pulled word + 1.
    pub open spec fn rts(self) -> Machine {
        Machine { pc: wrap16(self.pulled_word() + 1), ..self.after_pull_word() }
    }

    /// BRK, with the program counter behind the opcode: the address two past
    /// the opcode is pushed, B is set, the status register is pushed, I is
    /// set, and the program counter is loaded from the IRQ vector.
    pub open spec fn brk(self) -> Machine {
        let marked = self.push_word(wrap16(self.pc + 1)).with_flag(Flags::B, true);
        let entered = marked.push(marked.sr).with_flag(Flags::I, true);
        Machine { pc: entered.word(IRQ_VECTOR), ..entered }
    }

    /// RTI: the status register := pull, then the program counter := pulled
    /// word.
    pub open spec fn rti(self) -> Machine {
        let restored = self.plp();
        Machine { pc: restored.pulled_word(), ..restored.after_pull_word() }
    }

    // ----- dispatch -------------------------------------------------------

    /// The effect of the instruction `mnemonic` in `mode`, with the program
    /// counter behind the opcode.
    pub open spec fn execute(self, mnemonic: Mnemonic, mode: AddressingMode) -> Machine {
        match mnemonic {
            Mnemonic::ADC => self.adc(mode),
            Mnemonic::AND => self.and(mode),
            Mnemonic::ASL => self.asl(mode),
            Mnemonic::BCC => self.branch(mode, !self.flag(Flags::C)),
            Mnemonic::BCS => self.branch(mode, self.flag(Flags::C)),
            Mnemonic::BEQ => self.branch(mode, self.flag(Flags::Z)),
            Mnemonic::BIT => self.bit(mode),
            Mnemonic::BMI => self.branch(mode, self.flag(Flags::N)),
            Mnemonic::BNE => self.branch(mode, !self.flag(Flags::Z)),
            Mnemonic::BPL => self.branch(mode, !self.flag(Flags::N)),
            Mnemonic::BRK => self.brk(),
            Mnemonic::BVC => self.branch(mode, !self.flag(Flags::V)),
            Mnemonic::BVS => self.branch(mode, self.flag(Flags::V)),
            Mnemonic::CLC => self.with_flag(Flags::C, false),
            Mnemonic::CLD => self.with_flag(Flags::D, false),
            Mnemonic::CLI => self.with_flag(Flags::I, false),
            Mnemonic::CLV => self.with_flag(Flags::V, false),
            Mnemonic::CMP => self.compare_a(mode),
            Mnemonic::CPX => self.cpx(mode),
            Mnemonic::CPY => self.cpy(mode),
            Mnemonic::DEC => self.dec(mode),
            Mnemonic::DEX => self.dex(),
            Mnemonic::DEY => self.dey(),
            Mnemonic::EOR => self.eor(mode),
            Mnemonic::INC => self.inc(mode),
            Mnemonic::INX => self.inx(),
            Mnemonic::INY => self.iny(),
            Mnemonic::JMP => self.jmp(mode),
            Mnemonic::JSR => self.jsr(mode),
            Mnemonic::LDA => self.lda(mode),
            Mnemonic::LDX => self.ldx(mode),
            Mnemonic::LDY => self.ldy(mode),
            Mnemonic::LSR => self.lsr(mode),
            Mnemonic::NOP => self,
            Mnemonic::ORA => self.ora(mode),
            Mnemonic::PHA => self.pha(),
            Mnemonic::PHP => self.php(),
            Mnemonic::PLA => self.pla(),
            Mnemonic::PLP => self.plp(),
            Mnemonic::ROL => self.rol(mode),
            Mnemonic::ROR => self.ror(mode),
            Mnemonic::RTI => self.rti(),
            Mnemonic::RTS => self.rts(),
            Mnemonic::SBC => self.sbc(mode),
            Mnemonic::SEC => self.with_flag(Flags::C, true),
            Mnemonic::SED => self.with_flag(Flags::D, true),
            Mnemonic::SEI => self.with_flag(Flags::I, true),
            Mnemonic::STA => self.sta(mode),
            Mnemonic::STX => self.stx(mode),
            Mnemonic::STY => self.sty(mode),
            Mnemonic::TAX => self.tax(),
            Mnemonic::TAY => self.tay(),
            Mnemonic::TSX => self.tsx(),
            Mnemonic::TXA => self.txa(),
            Mnemonic::TXS => self.txs(),
            Mnemonic::TYA => self.tya(),
        }
    }

    /// This state after the opcode at the program counter is fetched: it is
    /// latched and the program counter moves past it.
    pub open spec fn fetched(self) -> Machine {
        Machine { opcode: self.byte(self.pc), pc: wrap16(self.pc + 1), ..self }
    }

    /// The state after one instruction.
    ///
    /// The opcode is fetched and looked up. An opcode outside the matrix
    /// changes nothing more. Any other is carried out.
    pub open spec fn step(self) -> Machine {
        match decoded(self.byte(self.pc)) {
            Some((mnemonic, mode)) => self.fetched().execute(mnemonic, mode),
            None => self.fetched(),
        }
    }

    /// How one instruction ends: a BRK halts, an opcode outside the matrix
    /// is reported with the address it was fetched from.
    pub open spec fn step_status(self) -> Status {
        match decoded(self.byte(self.pc)) {
            Some((mnemonic, _)) => if mnemonic == Mnemonic::BRK {
                Status::Halted
            } else {
                Status::Running
            },
            None => Status::IllegalOpcode { opcode: self.byte(self.pc), pc: self.pc },
        }
    }

    /// The state in which a run of at most `steps` instructions ends: the
    /// run stops behind the first instruction that does not end as
    /// `Running`.
    pub open spec fn run(self, steps: nat) -> Machine
        decreases steps,
    {
        if steps == 0 {
            self
        } else if self.step_status() == Status::Running {
            self.step().run((steps - 1) as nat)
        } else {
            self.step()
        }
    }

    /// How a run of at most `steps` instructions ends.
    pub open spec fn run_status(self, steps: nat) -> Status
        decreases steps,
    {
        if steps == 0 {
            Status::OutOfSteps
        } else if self.step_status() == Status::Running {
            self.step().run_status((steps - 1) as nat)
        } else {
            self.step_status()
        }
    }

    /// The state after one call of `advance`: the first one after a reset
    /// only loads the start address, any other carries out one instruction.
    pub open spec fn advance(self) -> Machine {
        if self.awaits_start() {
            self.started()
        } else {
            self.step()
        }
    }

    /// How one call of `advance` ends.
    pub open spec fn advance_status(self) -> Status {
        if self.awaits_start() {
            Status::Running
        } else {
            self.step_status()
        }
    }

    /// The state from which `clock` runs: after a reset the start address is
    /// loaded first.
    pub open spec fn clock_entry(self) -> Machine {
        if self.awaits_start() {
            self.started()
        } else {
            self
        }
    }

    /// No instruction changes the opcode latch.
    pub proof fn lemma_execute_keeps_latch(self, mnemonic: Mnemonic, mode: AddressingMode)
        ensures
            self.execute(mnemonic, mode).opcode == self.opcode,
    {
    }
}

} // verus!
