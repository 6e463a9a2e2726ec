//! Models of the fixed-point add, subtract, divide, modulo, multiply and
//! multiply-add instructions of the POWER architecture, and a harness that
//! runs them on representative inputs and sets the results beside those of
//! a reference implementation.
//!
//! - [`status`]: the overflow and carry flags of the XER register and the
//!   fields of the condition register, with their bit layout.
//! - [`io`]: the inputs and outputs of an instruction.
//! - [`arith`]: how register contents are read as numbers.
//! - [`semantics`]: what each operation computes and what each form of an
//!   instruction records of it.
//! - [`instr_models`]: one function for each instruction.
//! - [`instr`]: the registry of the instructions.
//! - [`harness`]: the enumeration of inputs and the report of a run.
//! - [`hex`]: the text form of register values in reports.

pub mod arith;
pub mod harness;
pub mod hex;
pub mod instr;
pub mod instr_models;
pub mod io;
pub mod semantics;
pub mod status;

pub use harness::{TestCase, TestError, WholeTest};
pub use instr::Instr;
pub use io::{
    InstructionInput, InstructionInputRegister, InstructionOutput, InstructionResult,
    MissingInstructionInput,
};
pub use status::{CarryFlags, ConditionRegister, OverflowFlags};
