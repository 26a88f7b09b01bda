use vstd::prelude::*;
use crate::word::M256;

verus! {

/// A failure of the program counter.
#[derive(Clone, Copy, Debug, PartialEq, Eq, Structural)]
pub enum PCError {
    /// The position is past the last byte of the code.
    EndOfCode,
    /// The byte at the position is no instruction of this machine.
    InvalidOpcode(u8),
    /// A jump target is not a `JUMPDEST` at an instruction boundary.
    BadJumpDest,
}

/// A fatal failure of the running frame: the machine stops with it.
#[derive(Clone, Copy, Debug, PartialEq, Eq, Structural)]
pub enum MachineError {
    PC(PCError),
    StackUnderflow,
    StackOverflow,
    /// The memory offset lies beyond what a frame may address.
    InvalidRange,
    /// The remaining gas does not cover the instruction.
    EmptyGas,
}

/// A fact that the step needs and that has not been committed yet.
#[derive(Clone, Copy, Debug, PartialEq, Eq, Structural)]
pub enum RequireError {
    /// The account at this address.
    Account(M256),
    /// The hash of the block with this number.
    Blockhash(M256),
}

/// A commit that contradicts a fact committed earlier for the same key.
#[derive(Clone, Copy, Debug, PartialEq, Eq, Structural)]
pub enum CommitError {
    AlreadyCommitted,
}

/// What the validity pass can report.
#[derive(Clone, Copy, Debug, PartialEq, Eq, Structural)]
pub enum EvalError {
    Machine(MachineError),
    Require(RequireError),
}

} // verus!
