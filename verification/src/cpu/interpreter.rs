//! The fetch-decode-execute loop.

use crate::cpu::machine::operand_len;
use crate::cpu::{DecodeError, Mem, ProcessorStatus, Step, Stop, CPU};
use crate::opcodes::{lemma_rows_are_consistent, lookup, OpCode, Operation};
use vstd::prelude::*;

verus! {

/// Number of operand bytes of an instruction that is `len` bytes long.
fn operand_bytes(len: u8) -> (count: u16)
    requires
        len >= 1,
    ensures
        count == operand_len(len),
{
    (len - 1) as u16
}

/// Whether `mnemonic` is a load or a store.
pub open spec fn is_load_store(mnemonic: Operation) -> bool {
    mnemonic is LDA
    || mnemonic is LDX
    || mnemonic is LDY
    || mnemonic is STA
    || mnemonic is STX
    || mnemonic is STY
    || mnemonic is LAX
    || mnemonic is SAX
}

/// Whether `mnemonic` is a transfer between registers.
pub open spec fn is_transfer(mnemonic: Operation) -> bool {
    mnemonic is TAX
    || mnemonic is TAY
    || mnemonic is TXA
    || mnemonic is TYA
    || mnemonic is TSX
    || mnemonic is TXS
}

/// Whether `mnemonic` is a push or a pull.
pub open spec fn is_stack(mnemonic: Operation) -> bool {
    mnemonic is PHA
    || mnemonic is PLA
    || mnemonic is PHP
    || mnemonic is PLP
}

/// Whether `mnemonic` is an arithmetic or logic instruction, or a compare.
pub open spec fn is_arithmetic(mnemonic: Operation) -> bool {
    mnemonic is ADC
    || mnemonic is SBC
    || mnemonic is AND
    || mnemonic is EOR
    || mnemonic is ORA
    || mnemonic is CMP
    || mnemonic is CPX
    || mnemonic is CPY
    || mnemonic is BIT
}

/// Whether `mnemonic` is a shift or a rotate, alone or combined.
pub open spec fn is_shift(mnemonic: Operation) -> bool {
    mnemonic is ASL
    || mnemonic is LSR
    || mnemonic is ROL
    || mnemonic is ROR
    || mnemonic is SLO
    || mnemonic is RLA
    || mnemonic is SRE
    || mnemonic is RRA
}

/// Whether `mnemonic` is an increment or a decrement, alone or combined.
pub open spec fn is_increment(mnemonic: Operation) -> bool {
    mnemonic is INC
    || mnemonic is INX
    || mnemonic is INY
    || mnemonic is DEC
    || mnemonic is DEX
    || mnemonic is DEY
    || mnemonic is DCP
    || mnemonic is ISB
}

/// Whether `mnemonic` is a branch.
pub open spec fn is_branch(mnemonic: Operation) -> bool {
    mnemonic is BCC
    || mnemonic is BCS
    || mnemonic is BVC
    || mnemonic is BVS
    || mnemonic is BPL
    || mnemonic is BMI
    || mnemonic is BNE
    || mnemonic is BEQ
}

/// Whether `mnemonic` is an instruction that sets or clears one flag.
pub open spec fn is_flag(mnemonic: Operation) -> bool {
    mnemonic is CLC
    || mnemonic is SEC
    || mnemonic is CLI
    || mnemonic is SEI
    || mnemonic is CLD
    || mnemonic is SED
    || mnemonic is CLV
}

/// Whether `mnemonic` is a jump, a call or a return.
pub open spec fn is_jump(mnemonic: Operation) -> bool {
    mnemonic is JMP
    || mnemonic is JSR
    || mnemonic is RTS
    || mnemonic is RTI
}

impl CPU {
    /// Executes a load or a store.
    fn execute_load_store(&mut self, opcode: &OpCode)
        requires
            old(self).wf(),
            opcode.mode !is NoneAddressing,
            is_load_store(opcode.mnemonic),
        ensures
            final(self).wf(),
            final(self)@ == old(self)@.execute(*opcode),
    {
        match opcode.mnemonic {
            Operation::LDA => self.lda(&opcode.mode),
            Operation::LDX => self.ldx(&opcode.mode),
            Operation::LDY => self.ldy(&opcode.mode),
            Operation::STA => self.sta(&opcode.mode),
            Operation::STX => self.stx(&opcode.mode),
            Operation::STY => self.sty(&opcode.mode),
            Operation::LAX => self.rax(&opcode.mode),
            Operation::SAX => self.sax(&opcode.mode),
            _ => {},
        }
    }

    /// Executes a transfer between registers.
    fn execute_transfer(&mut self, opcode: &OpCode)
        requires
            old(self).wf(),
            opcode.mode !is NoneAddressing,
            is_transfer(opcode.mnemonic),
        ensures
            final(self).wf(),
            final(self)@ == old(self)@.execute(*opcode),
    {
        match opcode.mnemonic {
            Operation::TAX => self.tax(),
            Operation::TAY => self.tay(),
            Operation::TXA => self.txa(),
            Operation::TYA => self.tya(),
            Operation::TSX => self.tsx(),
            Operation::TXS => self.txs(),
            _ => {},
        }
    }

    /// Executes a push or a pull.
    fn execute_stack(&mut self, opcode: &OpCode)
        requires
            old(self).wf(),
            opcode.mode !is NoneAddressing,
            is_stack(opcode.mnemonic),
        ensures
            final(self).wf(),
            final(self)@ == old(self)@.execute(*opcode),
    {
        match opcode.mnemonic {
            Operation::PHA => self.pha(),
            Operation::PLA => self.pla(),
            Operation::PHP => self.php(),
            Operation::PLP => self.plp(),
            _ => {},
        }
    }

    /// Executes an arithmetic or logic instruction, or a compare.
    fn execute_arithmetic(&mut self, opcode: &OpCode)
        requires
            old(self).wf(),
            opcode.mode !is NoneAddressing,
            is_arithmetic(opcode.mnemonic),
        ensures
            final(self).wf(),
            final(self)@ == old(self)@.execute(*opcode),
    {
        match opcode.mnemonic {
            Operation::ADC => self.adc(&opcode.mode),
            Operation::SBC => self.sbc(&opcode.mode),
            Operation::AND => self.and(&opcode.mode),
            Operation::EOR => self.eor(&opcode.mode),
            Operation::ORA => self.ora(&opcode.mode),
            Operation::CMP => self.cmp(&opcode.mode),
            Operation::CPX => self.cpx(&opcode.mode),
            Operation::CPY => self.cpy(&opcode.mode),
            Operation::BIT => self.bit(&opcode.mode),
            _ => {},
        }
    }

    /// Executes a shift or a rotate, alone or combined.
    fn execute_shift(&mut self, opcode: &OpCode)
        requires
            old(self).wf(),
            opcode.mode !is NoneAddressing,
            is_shift(opcode.mnemonic),
        ensures
            final(self).wf(),
            final(self)@ == old(self)@.execute(*opcode),
    {
        match opcode.mnemonic {
            Operation::ASL => self.asl(&opcode.mode),
            Operation::LSR => self.lsr(&opcode.mode),
            Operation::ROL => self.rol(&opcode.mode),
            Operation::ROR => self.ror(&opcode.mode),
            Operation::SLO => self.slo(&opcode.mode),
            Operation::RLA => self.rla(&opcode.mode),
            Operation::SRE => self.sre(&opcode.mode),
            Operation::RRA => self.rra(&opcode.mode),
            _ => {},
        }
    }

    /// Executes an increment or a decrement, alone or combined.
    fn execute_increment(&mut self, opcode: &OpCode)
        requires
            old(self).wf(),
            opcode.mode !is NoneAddressing,
            is_increment(opcode.mnemonic),
        ensures
            final(self).wf(),
            final(self)@ == old(self)@.execute(*opcode),
    {
        match opcode.mnemonic {
            Operation::INC => self.inc(&opcode.mode),
            Operation::INX => self.inx(),
            Operation::INY => self.iny(),
            Operation::DEC => self.dec(&opcode.mode),
            Operation::DEX => self.dex(),
            Operation::DEY => self.dey(),
            Operation::DCP => self.dcp(&opcode.mode),
            Operation::ISB => self.isb(&opcode.mode),
            _ => {},
        }
    }

    /// Executes a branch.
    fn execute_branch(&mut self, opcode: &OpCode)
        requires
            old(self).wf(),
            opcode.mode !is NoneAddressing,
            is_branch(opcode.mnemonic),
        ensures
            final(self).wf(),
            final(self)@ == old(self)@.execute(*opcode),
    {
        match opcode.mnemonic {
            Operation::BCC => self.branch(ProcessorStatus::CARRY, false),
            Operation::BCS => self.branch(ProcessorStatus::CARRY, true),
            Operation::BVC => self.branch(ProcessorStatus::OVERFLOW, false),
            Operation::BVS => self.branch(ProcessorStatus::OVERFLOW, true),
            Operation::BPL => self.branch(ProcessorStatus::NEGATIVE, false),
            Operation::BMI => self.branch(ProcessorStatus::NEGATIVE, true),
            Operation::BNE => self.branch(ProcessorStatus::ZERO, false),
            Operation::BEQ => self.branch(ProcessorStatus::ZERO, true),
            _ => {},
        }
    }

    /// Executes an instruction that sets or clears one flag.
    fn execute_flag(&mut self, opcode: &OpCode)
        requires
            old(self).wf(),
            opcode.mode !is NoneAddressing,
            is_flag(opcode.mnemonic),
        ensures
            final(self).wf(),
            final(self)@ == old(self)@.execute(*opcode),
    {
        match opcode.mnemonic {
            Operation::CLC => self.status.remove(ProcessorStatus::CARRY),
            Operation::SEC => self.status.insert(ProcessorStatus::CARRY),
            Operation::CLI => self.status.remove(ProcessorStatus::INTERRUPT_DISABLE),
            Operation::SEI => self.status.insert(ProcessorStatus::INTERRUPT_DISABLE),
            Operation::CLD => self.status.remove(ProcessorStatus::DECIMAL),
            Operation::SED => self.status.insert(ProcessorStatus::DECIMAL),
            Operation::CLV => self.status.remove(ProcessorStatus::OVERFLOW),
            _ => {},
        }
    }

    /// Executes a jump, a call or a return.
    fn execute_jump(&mut self, opcode: &OpCode)
        requires
            old(self).wf(),
            opcode.mode !is NoneAddressing,
            is_jump(opcode.mnemonic),
        ensures
            final(self).wf(),
            final(self)@ == old(self)@.execute(*opcode),
    {
        match opcode.mnemonic {
            Operation::JMP => self.jmp(&opcode.mode),
            Operation::JSR => self.jsr(&opcode.mode, &opcode.len),
            Operation::RTS => self.rts(),
            Operation::RTI => self.rti(),
            _ => {},
        }
    }

    /// Executes the instruction of `opcode`, with the program counter at
    /// its operand. BRK does nothing here: `step` stops at it.
    fn execute(&mut self, opcode: &OpCode)
        requires
            old(self).wf(),
            opcode.mode !is NoneAddressing,
        ensures
            final(self).wf(),
            final(self)@ == old(self)@.execute(*opcode),
    {
        match opcode.mnemonic {
            Operation::LDA
            | Operation::LDX
            | Operation::LDY
            | Operation::STA
            | Operation::STX
            | Operation::STY
            | Operation::LAX
            | Operation::SAX => self.execute_load_store(opcode),
            Operation::TAX
            | Operation::TAY
            | Operation::TXA
            | Operation::TYA
            | Operation::TSX
            | Operation::TXS => self.execute_transfer(opcode),
            Operation::PHA
            | Operation::PLA
            | Operation::PHP
            | Operation::PLP => self.execute_stack(opcode),
            Operation::ADC
            | Operation::SBC
            | Operation::AND
            | Operation::EOR
            | Operation::ORA
            | Operation::CMP
            | Operation::CPX
            | Operation::CPY
            | Operation::BIT => self.execute_arithmetic(opcode),
            Operation::ASL
            | Operation::LSR
            | Operation::ROL
            | Operation::ROR
            | Operation::SLO
            | Operation::RLA
            | Operation::SRE
            | Operation::RRA => self.execute_shift(opcode),
            Operation::INC
            | Operation::INX
            | Operation::INY
            | Operation::DEC
            | Operation::DEX
            | Operation::DEY
            | Operation::DCP
            | Operation::ISB => self.execute_increment(opcode),
            Operation::BCC
            | Operation::BCS
            | Operation::BVC
            | Operation::BVS
            | Operation::BPL
            | Operation::BMI
            | Operation::BNE
            | Operation::BEQ => self.execute_branch(opcode),
            Operation::CLC
            | Operation::SEC
            | Operation::CLI
            | Operation::SEI
            | Operation::CLD
            | Operation::SED
            | Operation::CLV => self.execute_flag(opcode),
            Operation::JMP
            | Operation::JSR
            | Operation::RTS
            | Operation::RTI => self.execute_jump(opcode),
            Operation::NOP | Operation::BRK => {},
        }
    }

    /// Executes the instruction at the program counter.
    ///
    /// The opcode byte is fetched and looked up in the instruction table.
    /// A byte that is not in the table is an error, and the CPU stays as it
    /// was. BRK stops: the program counter is left behind the opcode byte.
    /// Every other instruction is executed; if it has not moved the program
    /// counter itself, the program counter then moves past the operand.
    pub fn step(&mut self) -> (result: Result<Step, DecodeError>)
        requires
            old(self).wf(),
        ensures
            final(self).wf(),
            final(self)@ == old(self)@.step(),
            result == old(self)@.step_result(),
    {
        let code = self.mem_read(self.program_counter);
        let opcode = match lookup(code) {
            Some(opcode) => opcode,
            None => {
                return Err(DecodeError { opcode: code, program_counter: self.program_counter });
            },
        };
        proof {
            lemma_rows_are_consistent(code);
        }

        self.program_counter = self.program_counter.wrapping_add(1);
        let program_counter_state = self.program_counter;

        if let Operation::BRK = opcode.mnemonic {
            return Ok(Step::Break);
        }
        self.execute(&opcode);

        if program_counter_state == self.program_counter {
            self.program_counter = self.program_counter.wrapping_add(operand_bytes(opcode.len));
        }
        Ok(Step::Next)
    }

    /// Runs the program at the program counter until it reaches a BRK or an
    /// unknown opcode, but for `limit` instructions at most.
    pub fn run(&mut self, limit: u64) -> (result: Result<Stop, DecodeError>)
        requires
            old(self).wf(),
        ensures
            final(self).wf(),
            final(self)@ == old(self)@.run(limit as nat),
            result == old(self)@.run_end(limit as nat),
    {
        self.run_with_callback(|_cpu: &CPU| {}, limit)
    }

    /// Runs as `run` does, and calls `callback` on the CPU before every
    /// fetch of an opcode.
    pub fn run_with_callback<F>(&mut self, callback: F, limit: u64) -> (result: Result<
        Stop,
        DecodeError,
    >) where F: Fn(&CPU)
        requires
            old(self).wf(),
            forall|cpu: &CPU| call_requires(callback, (cpu,)),
        ensures
            final(self).wf(),
            final(self)@ == old(self)@.run(limit as nat),
            result == old(self)@.run_end(limit as nat),
    {
        let mut executed: u64 = 0;
        while executed < limit
            invariant
                executed <= limit,
                self.wf(),
                forall|cpu: &CPU| call_requires(callback, (cpu,)),
                self@.run((limit - executed) as nat) == old(self)@.run(limit as nat),
                self@.run_end((limit - executed) as nat) == old(self)@.run_end(limit as nat),
            decreases limit - executed,
        {
            callback(&*self);
            match self.step() {
                Ok(Step::Next) => {},
                Ok(Step::Break) => {
                    return Ok(Stop::Break);
                },
                Err(error) => {
                    return Err(error);
                },
            }
            executed = executed + 1;
        }
        Ok(Stop::StepLimit)
    }

    /// Loads `program`, resets the CPU and runs the program, for `limit`
    /// instructions at most.
    pub fn load_and_run(&mut self, program: Vec<u8>, limit: u64) -> (result: Result<
        Stop,
        DecodeError,
    >)
        requires
            old(self).wf(),
            program.len() <= 0x8000,
            program.len() <= old(self).bus.rom.prg_rom.len(),
        ensures
            final(self).wf(),
            final(self)@ == old(self)@.load(program@).reset().run(limit as nat),
            result == old(self)@.load(program@).reset().run_end(limit as nat),
    {
        self.load(program);
        self.reset();
        self.run(limit)
    }
}

} // verus!
