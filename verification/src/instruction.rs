//! The opcode table: which operation each byte of the instruction stream names.

use vstd::prelude::*;
use vstd::std_specs::convert::FromSpecImpl;

verus! {

/// The operations of the machine. Every byte decodes to exactly one of them;
/// a byte that names no operation decodes to `IGL`.
#[derive(Debug, PartialEq, Eq, Clone, Copy, Structural)]
pub enum Opcode {
    LOAD,
    ADD,
    SUB,
    MUL,
    DIV,
    HLT,
    JMP,
    JMPF,
    JMPB,
    JMPE,
    EQ,
    NEQ,
    GTE,
    LTE,
    GT,
    LT,
    IGL,
}

/// One decoded instruction: the operation it performs.
#[derive(Debug, PartialEq, Eq, Clone, Copy, Structural)]
pub struct Instruction {
    pub opcode: Opcode,
}

impl Instruction {
    pub fn new(opcode: Opcode) -> (instruction: Instruction)
        ensures
            instruction.opcode == opcode,
    {
        Instruction { opcode: opcode }
    }
}

/// The opcode table as a function on bytes.
pub open spec fn decode(byte: u8) -> Opcode {
    match byte {
        0 => Opcode::LOAD,
        1 => Opcode::ADD,
        2 => Opcode::SUB,
        3 => Opcode::MUL,
        4 => Opcode::DIV,
        5 => Opcode::HLT,
        6 => Opcode::JMP,
        7 => Opcode::JMPF,
        8 => Opcode::JMPB,
        9 => Opcode::JMPE,
        10 => Opcode::EQ,
        11 => Opcode::NEQ,
        12 => Opcode::GTE,
        13 => Opcode::LTE,
        14 => Opcode::GT,
        15 => Opcode::LT,
        _ => Opcode::IGL,
    }
}

impl FromSpecImpl<u8> for Opcode {
    open spec fn obeys_from_spec() -> bool {
        true
    }

    open spec fn from_spec(v: u8) -> Opcode {
        decode(v)
    }
}

impl From<u8> for Opcode {
    fn from(v: u8) -> (opcode: Opcode) {
        match v {
            0 => Opcode::LOAD,
            1 => Opcode::ADD,
            2 => Opcode::SUB,
            3 => Opcode::MUL,
            4 => Opcode::DIV,
            5 => Opcode::HLT,
            6 => Opcode::JMP,
            7 => Opcode::JMPF,
            8 => Opcode::JMPB,
            9 => Opcode::JMPE,
            10 => Opcode::EQ,
            11 => Opcode::NEQ,
            12 => Opcode::GTE,
            13 => Opcode::LTE,
            14 => Opcode::GT,
            15 => Opcode::LT,
            _ => Opcode::IGL,
        }
    }
}

} // verus!
