//! Decode and dispatch: from the byte at the program counter to the
//! instruction it encodes, one step or a whole run at a time.

use vstd::prelude::*;
use crate::cpu::{AddressingMode, CPU};
use crate::machine::{Machine, Status, RESET_VECTOR, STEP_BUDGET};
use crate::opcode::{decode, Kind, Mnemonic};
use crate::word::add16;

verus! {

/// Decode and dispatch.
impl CPU {
    /// Carries out an instruction of the family `Kind::Move`.
    fn execute_move(&mut self, mnemonic: Mnemonic, mode: AddressingMode)
        requires
            mnemonic.kind() == Kind::Move,
            mnemonic.accepts(mode),
        ensures
            final(self)@ == old(self)@.execute(mnemonic, mode),
    {
        match mnemonic {
            Mnemonic::LDA => self.LDA(mode),
            Mnemonic::LDX => self.LDX(mode),
            Mnemonic::LDY => self.LDY(mode),
            Mnemonic::STA => self.STA(mode),
            Mnemonic::STX => self.STX(mode),
            Mnemonic::STY => self.STY(mode),
            Mnemonic::TAX => self.TAX(),
            Mnemonic::TAY => self.TAY(),
            Mnemonic::TSX => self.TSX(),
            Mnemonic::TXA => self.TXA(),
            Mnemonic::TXS => self.TXS(),
            Mnemonic::TYA => self.TYA(),
            _ => {},
        }
    }

    /// Carries out an instruction of the family `Kind::Stack`.
    fn execute_stack(&mut self, mnemonic: Mnemonic, mode: AddressingMode)
        requires
            mnemonic.kind() == Kind::Stack,
            mnemonic.accepts(mode),
        ensures
            final(self)@ == old(self)@.execute(mnemonic, mode),
    {
        match mnemonic {
            Mnemonic::PHA => self.PHA(),
            Mnemonic::PHP => self.PHP(),
            Mnemonic::PLA => self.PLA(),
            Mnemonic::PLP => self.PLP(),
            _ => {},
        }
    }

    /// Carries out an instruction of the family `Kind::Arithmetic`.
    fn execute_arithmetic(&mut self, mnemonic: Mnemonic, mode: AddressingMode)
        requires
            mnemonic.kind() == Kind::Arithmetic,
            mnemonic.accepts(mode),
        ensures
            final(self)@ == old(self)@.execute(mnemonic, mode),
    {
        match mnemonic {
            Mnemonic::ADC => self.ADC(mode),
            Mnemonic::SBC => self.SBC(mode),
            Mnemonic::CMP => self.CMP(mode),
            Mnemonic::CPX => self.CPX(mode),
            Mnemonic::CPY => self.CPY(mode),
            Mnemonic::INC => self.INC(mode),
            Mnemonic::DEC => self.DEC(mode),
            Mnemonic::INX => self.INX(),
            Mnemonic::INY => self.INY(),
            Mnemonic::DEX => self.DEX(),
            Mnemonic::DEY => self.DEY(),
            _ => {},
        }
    }

    /// Carries out an instruction of the family `Kind::Logic`.
    fn execute_logic(&mut self, mnemonic: Mnemonic, mode: AddressingMode)
        requires
            mnemonic.kind() == Kind::Logic,
            mnemonic.accepts(mode),
        ensures
            final(self)@ == old(self)@.execute(mnemonic, mode),
    {
        match mnemonic {
            Mnemonic::AND => self.AND(mode),
            Mnemonic::ORA => self.ORA(mode),
            Mnemonic::EOR => self.EOR(mode),
            Mnemonic::BIT => self.BIT(mode),
            Mnemonic::ASL => self.ASL(mode),
            Mnemonic::LSR => self.LSR(mode),
            Mnemonic::ROL => self.ROL(mode),
            Mnemonic::ROR => self.ROR(mode),
            _ => {},
        }
    }

    /// Carries out an instruction of the family `Kind::Branch`.
    fn execute_branch(&mut self, mnemonic: Mnemonic, mode: AddressingMode)
        requires
            mnemonic.kind() == Kind::Branch,
            mnemonic.accepts(mode),
        ensures
            final(self)@ == old(self)@.execute(mnemonic, mode),
    {
        match mnemonic {
            Mnemonic::BCC => self.BCC(mode),
            Mnemonic::BCS => self.BCS(mode),
            Mnemonic::BEQ => self.BEQ(mode),
            Mnemonic::BNE => self.BNE(mode),
            Mnemonic::BMI => self.BMI(mode),
            Mnemonic::BPL => self.BPL(mode),
            Mnemonic::BVC => self.BVC(mode),
            Mnemonic::BVS => self.BVS(mode),
            _ => {},
        }
    }

    /// Carries out an instruction of the family `Kind::Control`.
    fn execute_control(&mut self, mnemonic: Mnemonic, mode: AddressingMode)
        requires
            mnemonic.kind() == Kind::Control,
            mnemonic.accepts(mode),
        ensures
            final(self)@ == old(self)@.execute(mnemonic, mode),
    {
        match mnemonic {
            Mnemonic::JMP => self.JMP(mode),
            Mnemonic::JSR => self.JSR(mode),
            Mnemonic::RTS => self.RTS(),
            Mnemonic::RTI => self.RTI(),
            Mnemonic::BRK => self.BRK(),
            Mnemonic::NOP => self.NOP(),
            _ => {},
        }
    }

    /// Carries out an instruction of the family `Kind::Flag`.
    fn execute_flag(&mut self, mnemonic: Mnemonic, mode: AddressingMode)
        requires
            mnemonic.kind() == Kind::Flag,
            mnemonic.accepts(mode),
        ensures
            final(self)@ == old(self)@.execute(mnemonic, mode),
    {
        match mnemonic {
            Mnemonic::CLC => self.CLC(),
            Mnemonic::CLD => self.CLD(),
            Mnemonic::CLI => self.CLI(),
            Mnemonic::CLV => self.CLV(),
            Mnemonic::SEC => self.SEC(),
            Mnemonic::SED => self.SED(),
            Mnemonic::SEI => self.SEI(),
            _ => {},
        }
    }

    /// Carries out the instruction `mnemonic` in `mode`, with the program
    /// counter behind the opcode.
    pub fn execute(&mut self, mnemonic: Mnemonic, mode: AddressingMode)
        requires
            mnemonic.accepts(mode),
        ensures
            final(self)@ == old(self)@.execute(mnemonic, mode),
    {
        match mnemonic {
            Mnemonic::LDA
            | Mnemonic::LDX
            | Mnemonic::LDY
            | Mnemonic::STA
            | Mnemonic::STX
            | Mnemonic::STY
            | Mnemonic::TAX
            | Mnemonic::TAY
            | Mnemonic::TSX
            | Mnemonic::TXA
            | Mnemonic::TXS
            | Mnemonic::TYA => self.execute_move(mnemonic, mode),
            Mnemonic::PHA
            | Mnemonic::PHP
            | Mnemonic::PLA
            | Mnemonic::PLP => self.execute_stack(mnemonic, mode),
            Mnemonic::ADC
            | Mnemonic::SBC
            | Mnemonic::CMP
            | Mnemonic::CPX
            | Mnemonic::CPY
            | Mnemonic::INC
            | Mnemonic::DEC
            | Mnemonic::INX
            | Mnemonic::INY
            | Mnemonic::DEX
            | Mnemonic::DEY => self.execute_arithmetic(mnemonic, mode),
            Mnemonic::AND
            | Mnemonic::ORA
            | Mnemonic::EOR
            | Mnemonic::BIT
            | Mnemonic::ASL
            | Mnemonic::LSR
            | Mnemonic::ROL
            | Mnemonic::ROR => self.execute_logic(mnemonic, mode),
            Mnemonic::BCC
            | Mnemonic::BCS
            | Mnemonic::BEQ
            | Mnemonic::BNE
            | Mnemonic::BMI
            | Mnemonic::BPL
            | Mnemonic::BVC
            | Mnemonic::BVS => self.execute_branch(mnemonic, mode),
            Mnemonic::JMP
            | Mnemonic::JSR
            | Mnemonic::RTS
            | Mnemonic::RTI
            | Mnemonic::BRK
            | Mnemonic::NOP => self.execute_control(mnemonic, mode),
            Mnemonic::CLC
            | Mnemonic::CLD
            | Mnemonic::CLI
            | Mnemonic::CLV
            | Mnemonic::SEC
            | Mnemonic::SED
            | Mnemonic::SEI => self.execute_flag(mnemonic, mode),
        }
    }

    /// Carries out the instruction at the program counter.
    ///
    /// The opcode is fetched and latched and the program counter moves past
    /// it. A documented opcode is then carried out; the result is `Halted`
    /// for BRK and `Running` for any other. An opcode outside the matrix
    /// changes nothing more and is reported as `IllegalOpcode`, with the
    /// address it was fetched from.
    pub fn step(&mut self) -> (status: Status)
        ensures
            final(self)@ == old(self)@.step(),
            status == old(self)@.step_status(),
            final(self)@.opcode == old(self)@.byte(old(self)@.pc),
            status != Status::OutOfSteps,
    {
        let at: u16 = self.pc;
        let op: u8 = self.read(at);
        self.opcode = op;
        self.pc = add16(at, 1);
        match decode(op) {
            Some((mnemonic, mode)) => {
                proof {
                    self@.lemma_execute_keeps_latch(mnemonic, mode);
                }
                self.execute(mnemonic, mode);
                match mnemonic {
                    Mnemonic::BRK => Status::Halted,
                    _ => Status::Running,
                }
            },
            None => Status::IllegalOpcode { opcode: op, pc: at },
        }
    }

    /// One step for a host that single-steps.
    ///
    /// If the program counter is at the reset vector, as it is after a
    /// reset, this call only loads the program counter from the word stored
    /// there and executes nothing. Otherwise it carries out exactly one
    /// instruction, as [`CPU::step`] does.
    pub fn advance(&mut self) -> (status: Status)
        ensures
            final(self)@ == old(self)@.advance(),
            status == old(self)@.advance_status(),
            old(self)@.pc == RESET_VECTOR ==> status == Status::Running && final(self)@ == (Machine {
                pc: old(self)@.word(RESET_VECTOR),
                ..old(self)@
            }),
            old(self)@.pc != RESET_VECTOR ==> status == old(self)@.step_status() && final(self)@
                == old(self)@.step(),
    {
        if self.pc == RESET_VECTOR {
            self.pc = self.read_u16(RESET_VECTOR);
            Status::Running
        } else {
            self.step()
        }
    }

    /// Carries out instructions until one does not end as `Running`, but at
    /// most `max_steps` of them.
    ///
    /// The result is `Halted` after a BRK, `IllegalOpcode` after an opcode
    /// outside the matrix, and `OutOfSteps` if `max_steps` instructions went
    /// by without either. The state is the one behind the last instruction
    /// carried out.
    pub fn run(&mut self, max_steps: u64) -> (status: Status)
        ensures
            final(self)@ == old(self)@.run(max_steps as nat),
            status == old(self)@.run_status(max_steps as nat),
            status != Status::Running,
    {
        let ghost start = self@;
        let mut left: u64 = max_steps;
        let mut status = Status::OutOfSteps;
        while left > 0
            invariant_except_break
                start.run(max_steps as nat) == self@.run(left as nat),
                start.run_status(max_steps as nat) == self@.run_status(left as nat),
                status == Status::OutOfSteps,
            ensures
                self@ == start.run(max_steps as nat),
                status == start.run_status(max_steps as nat),
                status != Status::Running,
            decreases left,
        {
            let outcome = self.step();
            match outcome {
                Status::Running => {
                    left = left - 1;
                },
                _ => {
                    status = outcome;
                    break;
                },
            }
        }
        status
    }

    /// Runs the program until a BRK halts it.
    ///
    /// If the program counter is at the reset vector, as it is after a
    /// reset, it is first loaded from the word stored there. Then
    /// instructions are carried out as by [`CPU::run`], with an allowance of
    /// `STEP_BUDGET` instructions.
    pub fn clock(&mut self) -> (status: Status)
        ensures
            final(self)@ == old(self)@.clock_entry().run(STEP_BUDGET as nat),
            status == old(self)@.clock_entry().run_status(STEP_BUDGET as nat),
            status != Status::Running,
    {
        if self.pc == RESET_VECTOR {
            self.pc = self.read_u16(RESET_VECTOR);
        }
        self.run(STEP_BUDGET)
    }
}

} // verus!
