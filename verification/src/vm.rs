//! The executable machine.
//!
//! Every operation states, over the view of the machine, which state of the
//! model it leaves behind.

use vstd::prelude::*;
use crate::instruction::Opcode;
use crate::machine::{division_identity, quotient_fits, Fault, MachineState, Status};

verus! {

/// A machine: thirty-two registers, the program and the program counter, the
/// remainder of the last division and the result of the last comparison.
///
/// Every value of the fields is a valid machine, so the fields are public:
/// load a program by assigning `program`, and read results from the fields.
pub struct VM {
    pub registers: [i32; 32],
    pub pc: usize,
    pub program: Vec<u8>,
    pub remainder: i32,
    pub equal_flag: bool,
}

impl View for VM {
    type V = MachineState;

    open spec fn view(&self) -> MachineState {
        MachineState {
            registers: self.registers@,
            pc: self.pc as nat,
            program: self.program@,
            remainder: self.remainder,
            equal_flag: self.equal_flag,
        }
    }
}

/// The state in which the instruction was fetched whose opcode `s` is just
/// past.
spec fn fetched(s: MachineState) -> MachineState {
    s.at((s.pc - 1) as nat)
}

/// What the handler of an instruction owes. It is entered in state `before`,
/// just past the opcode. Where the instruction has no fault, it leaves the
/// machine in the state that the instruction leads to. Where it has one, it
/// reports that fault and has moved nothing but the program counter.
spec fn handled(before: MachineState, after: MachineState, result: Result<(), Fault>) -> bool {
    match result {
        Ok(()) => fetched(before).fault() is None && after == fetched(before).executed(),
        Err(fault) => fetched(before).fault() == Some(fault) && after.at(before.pc) == before,
    }
}

/// The index of the register that an operand byte names.
fn register_index(byte: u8) -> (index: Result<usize, Fault>)
    ensures
        byte < 32 ==> index == Ok::<usize, Fault>(byte as usize),
        byte >= 32 ==> index == Err::<usize, Fault>(Fault::RegisterOutOfRange),
{
    if byte < 32 {
        Ok(byte as usize)
    } else {
        Err(Fault::RegisterOutOfRange)
    }
}

impl VM {
    /// A machine with every register zero, the program counter at zero, no
    /// remainder, the flag unset and an empty program.
    pub fn new() -> (vm: VM)
        ensures
            vm@ == MachineState::initial(Seq::empty()),
    {
        let vm = VM {
            registers: [0;32],
            program: Vec::new(),
            pc: 0,
            remainder: 0,
            equal_flag: false,
        };
        assert(vm.registers@ =~= Seq::new(32, |i: int| 0i32));
        vm
    }

    /// Runs until a step stops. A machine that would run for ever is given
    /// up after `u64::MAX` steps, with `Status::Continue`.
    pub fn run(&mut self) -> (status: Status)
        ensures
            (final(self)@, status) == old(self)@.run(u64::MAX as nat),
    {
        self.run_for(u64::MAX)
    }

    /// Runs until a step stops, but makes no more than `max_steps` steps.
    /// Returns what the last step signalled; `Status::Continue` says that
    /// `max_steps` steps were made and the machine can go on.
    pub fn run_for(&mut self, max_steps: u64) -> (status: Status)
        ensures
            (final(self)@, status) == old(self)@.run(max_steps as nat),
    {
        let ghost initial = self@;
        let mut remaining = max_steps;
        loop
            invariant
                initial == old(self)@,
                initial.run(max_steps as nat) == self@.run(remaining as nat),
            decreases remaining,
        {
            if remaining == 0 {
                return Status::Continue;
            }
            match self.execute_instruction() {
                Status::Continue => {},
                status => {
                    return status;
                },
            }
            remaining = remaining - 1;
        }
    }

    /// Executes exactly one instruction cycle.
    pub fn run_once(&mut self) -> (status: Status)
        ensures
            (final(self)@, status) == old(self)@.step(),
    {
        self.execute_instruction()
    }

    /// The fetch-decode-execute cycle. Stops at the end of the program, at
    /// `HLT` and at an illegal opcode, each with its own status. A faulty
    /// instruction leaves the machine as it was.
    pub fn execute_instruction(&mut self) -> (status: Status)
        ensures
            (final(self)@, status) == old(self)@.step(),
    {
        let start = self.pc;
        let opcode = match self.decode_opcode() {
            Some(opcode) => opcode,
            None => {
                return Status::EndOfProgram;
            },
        };
        let result = match opcode {
            Opcode::HLT => {
                return Status::Halted;
            },
            Opcode::IGL => {
                return Status::IllegalOpcode;
            },
            Opcode::LOAD => self.load(),
            Opcode::ADD | Opcode::SUB | Opcode::MUL | Opcode::DIV => self.arithmetic(opcode),
            Opcode::JMP | Opcode::JMPF | Opcode::JMPB | Opcode::JMPE => self.jump(opcode),
            Opcode::EQ | Opcode::NEQ | Opcode::GTE | Opcode::LTE | Opcode::GT | Opcode::LT => {
                self.compare(opcode)
            },
        };
        match result {
            Ok(()) => Status::Continue,
            Err(fault) => {
                self.pc = start;
                Status::Fault(fault)
            },
        }
    }

    /// `LOAD`: the sixteen-bit immediate goes to the named register.
    fn load(&mut self) -> (result: Result<(), Fault>)
        requires
            1 <= old(self).pc <= old(self).program.len(),
            fetched(old(self)@).opcode() == Opcode::LOAD,
        ensures
            handled(old(self)@, final(self)@, result),
    {
        let register = self.next_byte()?;
        let number = self.next_two_bytes()?;
        let index = register_index(register)?;
        self.registers[index] = number as i32;
        Ok(())
    }

    /// `ADD`, `SUB`, `MUL`, `DIV`: two source registers, one destination.
    fn arithmetic(&mut self, opcode: Opcode) -> (result: Result<(), Fault>)
        requires
            1 <= old(self).pc <= old(self).program.len(),
            fetched(old(self)@).opcode() == opcode,
            opcode == Opcode::ADD || opcode == Opcode::SUB || opcode == Opcode::MUL || opcode
                == Opcode::DIV,
        ensures
            handled(old(self)@, final(self)@, result),
    {
        let first = self.next_byte()?;
        let second = self.next_byte()?;
        let third = self.next_byte()?;
        let register_a = self.registers[register_index(first)?];
        let register_b = self.registers[register_index(second)?];
        let result_register = register_index(third)?;
        let value = match opcode {
            Opcode::ADD => register_a.checked_add(register_b),
            Opcode::SUB => register_a.checked_sub(register_b),
            Opcode::MUL => register_a.checked_mul(register_b),
            _ => {
                if register_b == 0 {
                    return Err(Fault::DivisionByZero);
                }
                proof {
                    division_identity(register_a as int, register_b as int);
                    quotient_fits(register_a as int, register_b as int);
                }
                match (register_a.checked_div(register_b), register_a.checked_rem(register_b)) {
                    (Some(quotient), Some(remainder)) => {
                        self.remainder = remainder;
                        Some(quotient)
                    },
                    _ => None,
                }
            },
        };
        match value {
            Some(value) => {
                self.registers[result_register] = value;
                Ok(())
            },
            None => Err(Fault::ArithmeticOverflow),
        }
    }

    /// `JMP`, `JMPF`, `JMPB`, `JMPE`: one register holds the target or the
    /// distance.
    fn jump(&mut self, opcode: Opcode) -> (result: Result<(), Fault>)
        requires
            1 <= old(self).pc <= old(self).program.len(),
            fetched(old(self)@).opcode() == opcode,
            opcode == Opcode::JMP || opcode == Opcode::JMPF || opcode == Opcode::JMPB || opcode
                == Opcode::JMPE,
        ensures
            handled(old(self)@, final(self)@, result),
    {
        let operand = self.next_byte()?;
        let value = self.registers[register_index(operand)?];
        let target: i128 = match opcode {
            Opcode::JMP => value as i128,
            Opcode::JMPF => self.pc as i128 + value as i128,
            Opcode::JMPB => self.pc as i128 - value as i128,
            _ => if self.equal_flag {
                value as i128
            } else {
                self.pc as i128 + 2
            },
        };
        self.go_to(target)
    }

    /// `EQ`, `NEQ`, `GTE`, `LTE`, `GT`, `LT`: two registers are compared, the
    /// flag takes the result, and one byte of padding is skipped.
    fn compare(&mut self, opcode: Opcode) -> (result: Result<(), Fault>)
        requires
            1 <= old(self).pc <= old(self).program.len(),
            fetched(old(self)@).opcode() == opcode,
            opcode == Opcode::EQ || opcode == Opcode::NEQ || opcode == Opcode::GTE || opcode
                == Opcode::LTE || opcode == Opcode::GT || opcode == Opcode::LT,
        ensures
            handled(old(self)@, final(self)@, result),
    {
        let first = self.next_byte()?;
        let second = self.next_byte()?;
        let register_a = self.registers[register_index(first)?];
        let register_b = self.registers[register_index(second)?];
        let outcome = match opcode {
            Opcode::EQ => register_a == register_b,
            Opcode::NEQ => register_a != register_b,
            Opcode::GTE => register_a >= register_b,
            Opcode::LTE => register_a <= register_b,
            Opcode::GT => register_a > register_b,
            _ => register_a < register_b,
        };
        self.go_to(self.pc as i128 + 1)?;
        self.equal_flag = outcome;
        Ok(())
    }

    /// Moves the program counter to `target` where it can hold that value.
    fn go_to(&mut self, target: i128) -> (result: Result<(), Fault>)
        ensures
            0 <= target <= usize::MAX ==> result.is_ok() && final(self)@ == old(self)@.at(
                target as nat,
            ),
            !(0 <= target <= usize::MAX) ==> result == Err::<(), Fault>(Fault::PcOutOfRange)
                && final(self)@ == old(self)@,
    {
        if 0 <= target && target <= usize::MAX as i128 {
            self.pc = target as usize;
            Ok(())
        } else {
            Err(Fault::PcOutOfRange)
        }
    }

    /// Reads the opcode at the program counter and moves past it. `None` at
    /// the end of the program, where nothing is read.
    pub fn decode_opcode(&mut self) -> (opcode: Option<Opcode>)
        ensures
            old(self).pc < old(self).program.len() ==> opcode == Some(old(self)@.opcode())
                && final(self)@ == old(self)@.advanced(1),
            old(self).pc >= old(self).program.len() ==> opcode.is_none() && final(self)@ == old(
                self,
            )@,
    {
        if self.pc < self.program.len() {
            let result = Opcode::from(self.program[self.pc]);
            self.pc += 1;
            Some(result)
        } else {
            None
        }
    }

    /// Reads one operand byte and moves past it. Fails at the end of the
    /// program, where nothing is read.
    pub fn next_byte(&mut self) -> (byte: Result<u8, Fault>)
        ensures
            old(self).pc < old(self).program.len() ==> byte == Ok::<u8, Fault>(old(self)@.byte(0))
                && final(self)@ == old(self)@.advanced(1),
            old(self).pc >= old(self).program.len() ==> byte == Err::<u8, Fault>(
                Fault::TruncatedInstruction,
            ) && final(self)@ == old(self)@,
    {
        if self.pc < self.program.len() {
            let result = self.program[self.pc];
            self.pc += 1;
            Ok(result)
        } else {
            Err(Fault::TruncatedInstruction)
        }
    }

    /// Reads two operand bytes as one number, the first byte being the high
    /// one, and moves past them. Fails where fewer than two bytes are left,
    /// and then reads nothing.
    pub fn next_two_bytes(&mut self) -> (number: Result<u16, Fault>)
        ensures
            old(self).pc + 1 < old(self).program.len() ==> number == Ok::<u16, Fault>(
                (old(self)@.byte(0) * 256 + old(self)@.byte(1)) as u16,
            ) && final(self)@ == old(self)@.advanced(2),
            old(self).pc + 1 >= old(self).program.len() ==> number == Err::<u16, Fault>(
                Fault::TruncatedInstruction,
            ) && final(self)@ == old(self)@,
    {
        if self.pc < self.program.len() && self.pc + 1 < self.program.len() {
            let high = self.program[self.pc];
            let low = self.program[self.pc + 1];
            let result = ((high as u16) << 8) | (low as u16);
            assert(result == high * 256 + low) by (bit_vector)
                requires
                    result == ((high as u16) << 8) | (low as u16),
            ;
            self.pc += 2;
            Ok(result)
        } else {
            Err(Fault::TruncatedInstruction)
        }
    }
}

} // verus!
