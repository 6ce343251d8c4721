//! What holds of the machine for every program and every state.
//!
//! Each theorem is stated over the model of [`crate::machine`], the same
//! functions in which the executable machine states what it does.

use vstd::prelude::*;
use vstd::std_specs::convert::FromSpec;
use crate::instruction::{decode, Opcode};
use crate::machine::{
    fits_register,
    is_comparison,
    quotient,
    remainder,
    writes_register,
    Fault,
    MachineState,
    Status,
};
use crate::vm::VM;

verus! {

/// Decoding is total, and the bytes 0 to 15 are exactly those that name an
/// operation: every other byte decodes to `IGL`, and none of these does.
pub proof fn decoding_is_total(byte: u8)
    ensures
        Opcode::from_spec(byte) == decode(byte),
        byte > 15 <==> decode(byte) == Opcode::IGL,
        byte == 0 <==> decode(byte) == Opcode::LOAD,
        byte == 1 <==> decode(byte) == Opcode::ADD,
        byte == 2 <==> decode(byte) == Opcode::SUB,
        byte == 3 <==> decode(byte) == Opcode::MUL,
        byte == 4 <==> decode(byte) == Opcode::DIV,
        byte == 5 <==> decode(byte) == Opcode::HLT,
        byte == 6 <==> decode(byte) == Opcode::JMP,
        byte == 7 <==> decode(byte) == Opcode::JMPF,
        byte == 8 <==> decode(byte) == Opcode::JMPB,
        byte == 9 <==> decode(byte) == Opcode::JMPE,
        byte == 10 <==> decode(byte) == Opcode::EQ,
        byte == 11 <==> decode(byte) == Opcode::NEQ,
        byte == 12 <==> decode(byte) == Opcode::GTE,
        byte == 13 <==> decode(byte) == Opcode::LTE,
        byte == 14 <==> decode(byte) == Opcode::GT,
        byte == 15 <==> decode(byte) == Opcode::LT,
{
}

/// Every executable machine is in a state of the model.
pub proof fn machine_is_well_formed(vm: VM)
    ensures
        vm@.wf(),
{
    assert(vm.registers@.len() == 32);
    assert(vm.program@.len() == vm.program.len());
}

/// A step leads from states of the model to states of the model, and never
/// touches the program.
pub proof fn step_preserves_well_formedness(s: MachineState)
    requires
        s.wf(),
    ensures
        s.step().0.wf(),
        s.step().0.program == s.program,
{
}

/// A run leads from states of the model to states of the model, and never
/// touches the program.
pub proof fn run_preserves_well_formedness(s: MachineState, limit: nat)
    requires
        s.wf(),
    ensures
        s.run(limit).0.wf(),
        s.run(limit).0.program == s.program,
    decreases limit,
{
    if limit > 0 {
        step_preserves_well_formedness(s);
        if s.step().1 == Status::Continue {
            run_preserves_well_formedness(s.step().0, (limit - 1) as nat);
        }
    }
}

/// With the program counter at or past the end of the program, and so with
/// an empty program, the first step stops and changes nothing; so does a
/// run of any length.
pub proof fn end_of_program_stops(s: MachineState, limit: nat)
    requires
        s.pc >= s.program.len(),
    ensures
        s.step() == (s, Status::EndOfProgram),
        limit > 0 ==> s.run(limit) == (s, Status::EndOfProgram),
{
}

/// A step that reports a fault changes nothing, and a faulty instruction
/// never executes in part.
pub proof fn fault_changes_nothing(s: MachineState)
    ensures
        s.step().1 is Fault ==> s.step().0 == s,
{
}

/// A run that ends at the end of the program or at a fault has reached a
/// state that every further step leaves as it is, with the same status.
pub proof fn stopped_states_are_stable(s: MachineState, limit: nat)
    ensures
        s.run(limit).1 == Status::EndOfProgram || s.run(limit).1 is Fault ==> s.run(
            limit,
        ).0.step() == s.run(limit),
    decreases limit,
{
    if limit > 0 {
        if s.step().1 == Status::Continue {
            stopped_states_are_stable(s.step().0, (limit - 1) as nat);
        }
    }
}

/// A run of `m + n` steps is a run of `m` steps followed, where that one
/// used up its limit, by a run of `n` steps.
pub proof fn run_composes(s: MachineState, m: nat, n: nat)
    ensures
        s.run(m + n) == if s.run(m).1 == Status::Continue {
            s.run(m).0.run(n)
        } else {
            s.run(m)
        },
    decreases m,
{
    if m > 0 {
        if s.step().1 == Status::Continue {
            run_composes(s.step().0, (m - 1) as nat, n);
            assert((m - 1) as nat + n == (m + n - 1) as nat);
        }
    }
}

/// A run that stopped does not depend on its limit: every larger limit
/// gives the same state and the same status.
pub proof fn larger_limit_changes_nothing(s: MachineState, limit: nat, larger: nat)
    requires
        limit <= larger,
        s.run(limit).1 != Status::Continue,
    ensures
        s.run(larger) == s.run(limit),
{
    run_composes(s, limit, (larger - limit) as nat);
    assert(limit + (larger - limit) as nat == larger);
}

/// A run returns `Continue` only where no step within its limit stops: then
/// every run with a smaller limit returns `Continue` too. A run of no steps
/// changes nothing.
pub proof fn continue_means_limit_reached(s: MachineState, limit: nat, smaller: nat)
    requires
        smaller <= limit,
        s.run(limit).1 == Status::Continue,
    ensures
        s.run(smaller).1 == Status::Continue,
        s.run(0) == (s, Status::Continue),
{
    if s.run(smaller).1 != Status::Continue {
        larger_limit_changes_nothing(s, smaller, limit);
    }
}

/// `LOAD` stores its immediate, the second operand byte being the high byte
/// and the third the low byte, in the register that the first names; no
/// other register changes, and the next instruction is four bytes on.
pub proof fn load_stores_immediate(s: MachineState)
    requires
        s.wf(),
        s.pc + 3 < s.program.len(),
        s.opcode() == Opcode::LOAD,
        s.byte(1) < 32,
    ensures
        s.step().1 == Status::Continue,
        s.step().0.registers[s.byte(1) as int] == s.byte(2) * 256 + s.byte(3),
        forall|i: int| 0 <= i < 32 && i != s.byte(1) ==> s.step().0.registers[i] == s.registers[i],
        s.step().0.pc == s.pc + 4,
        s.step().0.remainder == s.remainder,
        s.step().0.equal_flag == s.equal_flag,
{
}

/// `ADD`, `SUB`, `MUL` and `DIV` store the exact sum, difference, product
/// or quotient of the first two registers in the third, where it fits; `DIV`
/// also keeps the remainder. Where the result does not fit, or the divisor
/// is zero, the step reports it.
pub proof fn arithmetic_is_exact(s: MachineState)
    requires
        s.wf(),
        s.pc + 3 < s.program.len(),
        s.opcode() == Opcode::ADD || s.opcode() == Opcode::SUB || s.opcode() == Opcode::MUL
            || s.opcode() == Opcode::DIV,
        s.byte(1) < 32,
        s.byte(2) < 32,
        s.byte(3) < 32,
    ensures
        s.opcode() == Opcode::ADD ==> s.value() == s.operand(1) + s.operand(2),
        s.opcode() == Opcode::SUB ==> s.value() == s.operand(1) - s.operand(2),
        s.opcode() == Opcode::MUL ==> s.value() == s.operand(1) * s.operand(2),
        s.opcode() == Opcode::DIV ==> s.value() == quotient(s.operand(1), s.operand(2)),
        s.opcode() == Opcode::DIV && s.operand(2) == 0 ==> s.step() == (
            s,
            Status::Fault(Fault::DivisionByZero),
        ),
        !(s.opcode() == Opcode::DIV && s.operand(2) == 0) && !fits_register(s.value())
            ==> s.step() == (s, Status::Fault(Fault::ArithmeticOverflow)),
        !(s.opcode() == Opcode::DIV && s.operand(2) == 0) && fits_register(s.value()) ==> {
            &&& s.step().1 == Status::Continue
            &&& s.step().0.registers[s.byte(3) as int] == s.value()
            &&& forall|i: int|
                0 <= i < 32 && i != s.byte(3) ==> s.step().0.registers[i] == s.registers[i]
            &&& s.step().0.pc == s.pc + 4
            &&& s.step().0.equal_flag == s.equal_flag
            &&& s.opcode() == Opcode::DIV ==> s.step().0.remainder == remainder(
                s.operand(1),
                s.operand(2),
            )
            &&& s.opcode() != Opcode::DIV ==> s.step().0.remainder == s.remainder
        },
{
    if s.opcode() == Opcode::DIV && s.operand(2) != 0 {
        crate::machine::division_identity(s.operand(1), s.operand(2));
    }
}

/// `JMP` sets the program counter to the value of its register, whatever
/// the program counter was. A negative value is reported as a fault.
pub proof fn jmp_is_absolute(s: MachineState)
    requires
        s.wf(),
        s.pc + 1 < s.program.len(),
        s.opcode() == Opcode::JMP,
        s.byte(1) < 32,
    ensures
        s.operand(1) >= 0 ==> s.step().1 == Status::Continue && s.step().0 == s.at(
            s.operand(1) as nat,
        ),
        s.operand(1) < 0 ==> s.step() == (s, Status::Fault(Fault::PcOutOfRange)),
{
}

/// `JMPF` moves the program counter forward by the value of its register,
/// counted from the byte after its operand byte.
pub proof fn jmpf_is_relative(s: MachineState)
    requires
        s.wf(),
        s.pc + 1 < s.program.len(),
        s.opcode() == Opcode::JMPF,
        s.byte(1) < 32,
    ensures
        0 <= s.pc + 2 + s.operand(1) <= usize::MAX ==> s.step().1 == Status::Continue
            && s.step().0 == s.at((s.pc + 2 + s.operand(1)) as nat),
        !(0 <= s.pc + 2 + s.operand(1) <= usize::MAX) ==> s.step() == (
            s,
            Status::Fault(Fault::PcOutOfRange),
        ),
{
}

/// `JMPB` moves the program counter back by the value of its register,
/// counted from the byte after its operand byte.
pub proof fn jmpb_is_relative(s: MachineState)
    requires
        s.wf(),
        s.pc + 1 < s.program.len(),
        s.opcode() == Opcode::JMPB,
        s.byte(1) < 32,
    ensures
        0 <= s.pc + 2 - s.operand(1) <= usize::MAX ==> s.step().1 == Status::Continue
            && s.step().0 == s.at((s.pc + 2 - s.operand(1)) as nat),
        !(0 <= s.pc + 2 - s.operand(1) <= usize::MAX) ==> s.step() == (
            s,
            Status::Fault(Fault::PcOutOfRange),
        ),
{
}

/// `JMPE` goes to the value of its register only where the flag is set.
/// Where it is not, the program counter moves past the instruction's four
/// bytes and nothing else happens.
pub proof fn jmpe_follows_flag(s: MachineState)
    requires
        s.wf(),
        s.pc + 1 < s.program.len(),
        s.opcode() == Opcode::JMPE,
        s.byte(1) < 32,
    ensures
        s.equal_flag && s.operand(1) >= 0 ==> s.step().1 == Status::Continue && s.step().0
            == s.at(s.operand(1) as nat),
        s.equal_flag && s.operand(1) < 0 ==> s.step() == (s, Status::Fault(Fault::PcOutOfRange)),
        !s.equal_flag && s.pc + 4 <= usize::MAX ==> s.step().1 == Status::Continue && s.step().0
            == s.advanced(4),
        !s.equal_flag && s.pc + 4 > usize::MAX ==> s.step() == (
            s,
            Status::Fault(Fault::PcOutOfRange),
        ),
{
}

/// A comparison sets the flag to what it finds of its two registers (`EQ`:
/// set exactly where they hold equal values), skips its padding byte and
/// changes nothing else.
pub proof fn comparison_sets_flag(s: MachineState)
    requires
        s.wf(),
        s.pc + 2 < s.program.len(),
        is_comparison(s.opcode()),
        s.byte(1) < 32,
        s.byte(2) < 32,
    ensures
        s.pc + 4 > usize::MAX ==> s.step() == (s, Status::Fault(Fault::PcOutOfRange)),
        s.pc + 4 <= usize::MAX ==> {
            &&& s.step().1 == Status::Continue
            &&& s.step().0 == (MachineState {
                equal_flag: s.step().0.equal_flag,
                ..s.advanced(4)
            })
            &&& s.opcode() == Opcode::EQ ==> (s.step().0.equal_flag <==> s.operand(1)
                == s.operand(2))
            &&& s.opcode() == Opcode::NEQ ==> (s.step().0.equal_flag <==> s.operand(1)
                != s.operand(2))
            &&& s.opcode() == Opcode::GTE ==> (s.step().0.equal_flag <==> s.operand(1)
                >= s.operand(2))
            &&& s.opcode() == Opcode::LTE ==> (s.step().0.equal_flag <==> s.operand(1)
                <= s.operand(2))
            &&& s.opcode() == Opcode::GT ==> (s.step().0.equal_flag <==> s.operand(1)
                > s.operand(2))
            &&& s.opcode() == Opcode::LT ==> (s.step().0.equal_flag <==> s.operand(1)
                < s.operand(2))
        },
{
}

/// The flag persists: a step changes it only by carrying out a comparison.
pub proof fn flag_persists(s: MachineState)
    ensures
        s.step().0.equal_flag != s.equal_flag ==> s.pc < s.program.len() && is_comparison(
            s.opcode(),
        ) && s.step().1 == Status::Continue,
{
}

/// The remainder persists: a step changes it only by carrying out a `DIV`.
pub proof fn remainder_persists(s: MachineState)
    ensures
        s.step().0.remainder != s.remainder ==> s.pc < s.program.len() && s.opcode()
            == Opcode::DIV && s.step().1 == Status::Continue,
{
}

/// Registers change only by an instruction that stores a value, and then
/// only the destination register.
pub proof fn registers_persist(s: MachineState, i: int)
    requires
        s.wf(),
        0 <= i < 32,
    ensures
        s.step().0.registers[i] != s.registers[i] ==> s.pc < s.program.len() && writes_register(
            s.opcode(),
        ) && s.step().1 == Status::Continue && i == s.destination(),
{
}

/// Every instruction that is carried out and is no jump, `HLT` or illegal
/// byte leaves the program counter four bytes on: instructions have a fixed
/// width. `HLT` and an illegal byte leave it one byte on.
pub proof fn instructions_have_fixed_width(s: MachineState)
    requires
        s.wf(),
        s.pc < s.program.len(),
    ensures
        s.step().1 == Status::Continue && (writes_register(s.opcode()) || is_comparison(
            s.opcode(),
        )) ==> s.step().0.pc == s.pc + 4,
        s.step().1 == Status::Halted || s.step().1 == Status::IllegalOpcode ==> s.step().0
            == s.advanced(1),
        s.step().1 == Status::Halted <==> s.opcode() == Opcode::HLT,
        s.step().1 == Status::IllegalOpcode <==> s.opcode() == Opcode::IGL,
{
}

/// Nothing is hidden: machines that agree on program, program counter,
/// registers, remainder and flag are in the same state of the model, so a
/// step, and a run of any length, takes both to the same state with the
/// same status.
pub proof fn execution_is_deterministic(a: VM, b: VM, limit: nat)
    requires
        a.program@ == b.program@,
        a.pc == b.pc,
        a.registers@ == b.registers@,
        a.remainder == b.remainder,
        a.equal_flag == b.equal_flag,
    ensures
        a@ == b@,
        a@.step() == b@.step(),
        a@.run(limit) == b@.run(limit),
{
}

} // verus!
