//! A minimal register-based virtual machine: a fixed-width bytecode
//! interpreter over thirty-two signed 32-bit registers.
//!
//! * [`instruction`] holds the opcode table.
//! * [`machine`] is the mathematical model: the state of the machine and
//!   what one instruction does to it.
//! * [`vm`] is the executable machine, each operation of which is proved to
//!   follow the model.
//! * [`theorems`] states what holds of the model for every program.

pub mod instruction;
pub mod machine;
pub mod vm;
pub mod theorems;
