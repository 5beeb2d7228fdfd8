use anchor_lang::prelude::ProgramError;
use vstd::prelude::*;

verus! {

/// Why a counter instruction refuses to run.
#[derive(Debug, Clone, Copy, PartialEq, Eq, Structural)]
pub enum CrossCounterError {
    /// This program is currently inactive.
    InactiveProgram,
    /// Attempting to update active program.
    UpdatingActiveProgram,
    /// Attempting to update inactive program to old state.
    OldState,
}

/// Why an instruction, run against the runtime, did not complete.
#[derive(Debug, PartialEq, Eq)]
pub enum InstructionError {
    /// The counter program refused the instruction.
    Program(CrossCounterError),
    /// The runtime could not supply the clock.
    Runtime(ProgramError),
    /// The clock reads a time that a posted message cannot carry (outside `0..=u32::MAX`);
    /// the instruction stops there, with nothing changed.
    TimestampOutOfRange(i64),
}

} // verus!
