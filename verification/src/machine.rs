//! The machine as a mathematical object.
//!
//! An instruction occupies up to four bytes: its opcode, then its operand
//! bytes, then padding. Executing one is a function from state to state and a
//! status. The function is total: where an instruction cannot be carried out,
//! the state is left as it was and the status names the fault.
//!
//! Design decisions made here:
//!
//! * An operand byte that should name a register but is 32 or more is a
//!   fault; it is never used as an index.
//! * Division by zero is a fault.
//! * Register arithmetic is exact. A result that does not fit a signed
//!   32-bit register is a fault, not a wrapped value.
//! * Jump targets are computed over the integers. A target that is negative
//!   or does not fit the program counter is a fault.
//! * An instruction whose operand bytes run past the end of the program is a
//!   fault. Padding bytes are skipped without being read and need not exist.
//! * Every comparison skips its one byte of padding, as `EQ` does.

use vstd::prelude::*;
use crate::instruction::{decode, Opcode};

verus! {

/// Why an instruction could not be carried out.
#[derive(Debug, PartialEq, Eq, Clone, Copy, Structural)]
pub enum Fault {
    /// An operand byte that names a register is not below 32.
    RegisterOutOfRange,
    /// `DIV` with a divisor register that holds zero.
    DivisionByZero,
    /// The exact result does not fit a signed 32-bit register.
    ArithmeticOverflow,
    /// The program ends before the last operand byte of the instruction.
    TruncatedInstruction,
    /// The next program counter would be negative or exceed `usize::MAX`.
    PcOutOfRange,
}

/// What one execution step signals to the loop that drives it.
#[derive(Debug, PartialEq, Eq, Clone, Copy, Structural)]
pub enum Status {
    /// The instruction was carried out; the machine keeps running.
    Continue,
    /// `HLT` was executed: the expected end of a run.
    Halted,
    /// The byte at the program counter names no operation.
    IllegalOpcode,
    /// The program counter is at or past the end of the program.
    EndOfProgram,
    /// The instruction at the program counter cannot be carried out.
    Fault(Fault),
}

/// The magnitude of `v`.
pub open spec fn magnitude(v: int) -> int {
    if v >= 0 {
        v
    } else {
        -v
    }
}

/// Integer division rounding toward zero: the quotient of the magnitudes,
/// negative where the signs of `a` and `b` differ.
pub open spec fn quotient(a: int, b: int) -> int
    recommends
        b != 0,
{
    if (a >= 0) == (b > 0) {
        magnitude(a) / magnitude(b)
    } else {
        -(magnitude(a) / magnitude(b))
    }
}

/// What is left of `a` after `quotient(a, b)` times `b`: the remainder of
/// the magnitudes, with the sign of `a`.
pub open spec fn remainder(a: int, b: int) -> int
    recommends
        b != 0,
{
    if a >= 0 {
        magnitude(a) % magnitude(b)
    } else {
        -(magnitude(a) % magnitude(b))
    }
}

/// Quotient and remainder rebuild the dividend. The remainder is smaller in
/// magnitude than the divisor and is never of the sign opposite to the
/// dividend's; the quotient is no larger in magnitude than the dividend.
pub proof fn division_identity(a: int, b: int)
    requires
        b != 0,
    ensures
        a == b * quotient(a, b) + remainder(a, b),
        magnitude(remainder(a, b)) < magnitude(b),
        a >= 0 ==> remainder(a, b) >= 0,
        a <= 0 ==> remainder(a, b) <= 0,
        magnitude(quotient(a, b)) <= magnitude(a),
{
    let p = magnitude(a);
    let d = magnitude(b);
    assert(p == d * (p / d) + p % d && 0 <= p % d < d && 0 <= p / d <= p) by (nonlinear_arith)
        requires
            p >= 0,
            d > 0,
    ;
    let q = p / d;
    assert(b * quotient(a, b) == if a >= 0 {
        d * q
    } else {
        -(d * q)
    }) by (nonlinear_arith)
        requires
            d == magnitude(b),
            b != 0,
            quotient(a, b) == if (a >= 0) == (b > 0) {
                q
            } else {
                -q
            },
    ;
}

/// Whether `v` can be held by a register.
pub open spec fn fits_register(v: int) -> bool {
    i32::MIN <= v <= i32::MAX
}

/// Of the quotients of two register values, with a divisor that is not zero,
/// exactly one does not fit a register: that of the least value and -1.
pub proof fn quotient_fits(a: int, b: int)
    requires
        fits_register(a),
        fits_register(b),
        b != 0,
    ensures
        fits_register(quotient(a, b)) <==> !(a == i32::MIN && b == -1),
{
    division_identity(a, b);
    // The quotient is no larger in magnitude than `a`, so it can only fail
    // to fit by being 2^31, and only where `a` is -2^31.
    if a == i32::MIN {
        let q = quotient(a, b);
        let r = remainder(a, b);
        let d = magnitude(b);
        assert(q == 0x8000_0000 <==> b == -1) by (nonlinear_arith)
            requires
                a == -0x8000_0000,
                a == b * q + r,
                d == if b >= 0 {
                    b
                } else {
                    -b
                },
                -d < r <= 0,
                b != 0,
        ;
    }
}

/// The number of operand bytes that follow the opcode and are read.
pub open spec fn operand_bytes(op: Opcode) -> int {
    match op {
        Opcode::LOAD | Opcode::ADD | Opcode::SUB | Opcode::MUL | Opcode::DIV => 3,
        Opcode::EQ | Opcode::NEQ | Opcode::GTE | Opcode::LTE | Opcode::GT | Opcode::LT => 2,
        Opcode::JMP | Opcode::JMPF | Opcode::JMPB | Opcode::JMPE => 1,
        Opcode::HLT | Opcode::IGL => 0,
    }
}

/// How many of the operand bytes, counted from the first, name a register.
pub open spec fn register_operands(op: Opcode) -> int {
    match op {
        Opcode::LOAD => 1,
        _ => operand_bytes(op),
    }
}

/// Whether `op` stores a value in a destination register.
pub open spec fn writes_register(op: Opcode) -> bool {
    op == Opcode::LOAD || op == Opcode::ADD || op == Opcode::SUB || op == Opcode::MUL || op
        == Opcode::DIV
}

/// Whether `op` is one of the six comparisons.
pub open spec fn is_comparison(op: Opcode) -> bool {
    op == Opcode::EQ || op == Opcode::NEQ || op == Opcode::GTE || op == Opcode::LTE || op
        == Opcode::GT || op == Opcode::LT
}

/// What the loop is told after `op` was carried out.
pub open spec fn signal(op: Opcode) -> Status {
    match op {
        Opcode::HLT => Status::Halted,
        Opcode::IGL => Status::IllegalOpcode,
        _ => Status::Continue,
    }
}

/// The whole state of a machine.
pub struct MachineState {
    pub registers: Seq<i32>,
    pub pc: nat,
    pub program: Seq<u8>,
    pub remainder: i32,
    pub equal_flag: bool,
}

impl MachineState {
    /// The states that an executable machine can be in.
    pub open spec fn wf(self) -> bool {
        &&& self.registers.len() == 32
        &&& self.pc <= usize::MAX
        &&& self.program.len() <= usize::MAX
    }

    /// The state of a new machine with `program` loaded.
    pub open spec fn initial(program: Seq<u8>) -> MachineState {
        MachineState {
            registers: Seq::new(32, |i: int| 0i32),
            pc: 0,
            program,
            remainder: 0,
            equal_flag: false,
        }
    }

    /// The same state with the program counter at `pc`.
    pub open spec fn at(self, pc: nat) -> MachineState {
        MachineState { pc, ..self }
    }

    /// The same state with the program counter `n` bytes further.
    pub open spec fn advanced(self, n: nat) -> MachineState {
        self.at(self.pc + n)
    }

    /// Byte `k` of the instruction at the program counter; byte 0 is the opcode.
    pub open spec fn byte(self, k: int) -> u8
        recommends
            0 <= k,
            self.pc + k < self.program.len(),
    {
        self.program[self.pc + k]
    }

    /// The operation at the program counter.
    pub open spec fn opcode(self) -> Opcode
        recommends
            self.pc < self.program.len(),
    {
        decode(self.byte(0))
    }

    /// The value of the register that operand byte `k` names.
    pub open spec fn operand(self, k: int) -> int
        recommends
            1 <= k,
            self.pc + k < self.program.len(),
            self.byte(k) < 32,
    {
        self.registers[self.byte(k) as int] as int
    }

    /// Every operand byte that names a register names one that exists.
    pub open spec fn registers_exist(self) -> bool {
        let n = register_operands(self.opcode());
        &&& n >= 1 ==> self.byte(1) < 32
        &&& n >= 2 ==> self.byte(2) < 32
        &&& n >= 3 ==> self.byte(3) < 32
    }

    /// The exact value that the instruction stores in its destination register.
    pub open spec fn value(self) -> int {
        match self.opcode() {
            Opcode::LOAD => self.byte(2) * 256 + self.byte(3),
            Opcode::ADD => self.operand(1) + self.operand(2),
            Opcode::SUB => self.operand(1) - self.operand(2),
            Opcode::MUL => self.operand(1) * self.operand(2),
            Opcode::DIV => quotient(self.operand(1), self.operand(2)),
            _ => 0,
        }
    }

    /// The index of the destination register.
    pub open spec fn destination(self) -> int {
        match self.opcode() {
            Opcode::LOAD => self.byte(1) as int,
            _ => self.byte(3) as int,
        }
    }

    /// What the comparison at the program counter finds, and the flag as it
    /// is where the instruction is no comparison.
    pub open spec fn comparison(self) -> bool {
        match self.opcode() {
            Opcode::EQ => self.operand(1) == self.operand(2),
            Opcode::NEQ => self.operand(1) != self.operand(2),
            Opcode::GTE => self.operand(1) >= self.operand(2),
            Opcode::LTE => self.operand(1) <= self.operand(2),
            Opcode::GT => self.operand(1) > self.operand(2),
            Opcode::LT => self.operand(1) < self.operand(2),
            _ => self.equal_flag,
        }
    }

    /// Where the program counter goes, over the integers. `JMP` is absolute.
    /// `JMPF` and `JMPB` are relative to the byte after their operand byte.
    /// `JMPE` goes to its target where the flag is set; otherwise, like every
    /// instruction that does not jump, to the start of the next instruction.
    /// `HLT` and an illegal byte leave it just past the opcode.
    pub open spec fn target(self) -> int {
        match self.opcode() {
            Opcode::JMP => self.operand(1),
            Opcode::JMPF => self.pc + 2 + self.operand(1),
            Opcode::JMPB => self.pc + 2 - self.operand(1),
            Opcode::JMPE => if self.equal_flag {
                self.operand(1)
            } else {
                self.pc as int + 4
            },
            Opcode::HLT | Opcode::IGL => self.pc as int + 1,
            _ => self.pc as int + 4,
        }
    }

    /// The fault of the instruction at the program counter, if it has one.
    /// Where several apply, the first of this order is reported: operand
    /// bytes missing, a register that does not exist, a zero divisor, a value
    /// out of range, a program counter out of range.
    pub open spec fn fault(self) -> Option<Fault>
        recommends
            self.pc < self.program.len(),
    {
        if self.pc + operand_bytes(self.opcode()) >= self.program.len() {
            Some(Fault::TruncatedInstruction)
        } else if !self.registers_exist() {
            Some(Fault::RegisterOutOfRange)
        } else if self.opcode() == Opcode::DIV && self.operand(2) == 0 {
            Some(Fault::DivisionByZero)
        } else if !fits_register(self.value()) {
            Some(Fault::ArithmeticOverflow)
        } else if !(0 <= self.target() <= usize::MAX) {
            Some(Fault::PcOutOfRange)
        } else {
            None
        }
    }

    /// The state after the instruction at the program counter, which has no
    /// fault, was carried out.
    pub open spec fn executed(self) -> MachineState
        recommends
            self.pc < self.program.len(),
            self.fault() is None,
    {
        let op = self.opcode();
        MachineState {
            registers: if writes_register(op) {
                self.registers.update(self.destination(), self.value() as i32)
            } else {
                self.registers
            },
            pc: self.target() as nat,
            program: self.program,
            remainder: if op == Opcode::DIV {
                remainder(self.operand(1), self.operand(2)) as i32
            } else {
                self.remainder
            },
            equal_flag: self.comparison(),
        }
    }

    /// One execution step: the state after it and what it signals.
    pub open spec fn step(self) -> (MachineState, Status) {
        if self.pc >= self.program.len() {
            (self, Status::EndOfProgram)
        } else {
            match self.fault() {
                Some(fault) => (self, Status::Fault(fault)),
                None => (self.executed(), signal(self.opcode())),
            }
        }
    }

    /// Steps until one does not signal `Continue`, but at most `limit` of
    /// them: the state reached and the last signal. `Continue` as a result
    /// means that `limit` steps were made and none stopped.
    pub open spec fn run(self, limit: nat) -> (MachineState, Status)
        decreases limit,
    {
        if limit == 0 {
            (self, Status::Continue)
        } else {
            let (next, status) = self.step();
            if status == Status::Continue {
                next.run((limit - 1) as nat)
            } else {
                (next, status)
            }
        }
    }
}

} // verus!
