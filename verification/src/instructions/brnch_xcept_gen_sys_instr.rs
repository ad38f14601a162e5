//! Branches, exception generating and system instructions.

use vstd::prelude::*;

verus! {

/// Rows of the table of branches, exception generating and system instructions.
#[derive(Clone, Copy, Debug, PartialEq, Eq)]
pub enum BranchesExceptionGenNSysInstr {
    ConditionalBranchImmediate,
    ExceptionGeneration,
    SystemInstructionsWithRegisterArgument,
    Hints,
    Barriers,
    PSTATE,
    SystemWithResult,
    SystemInstructions,
    SystemRegisterMove,
    UnconditionalBranchRegister,
    UnconditionalBranchImmediate,
    CompareAndBranchImmediate,
    TestAndBranchImmediate,
}

/// Rows of the table of conditional branches to an immediate offset.
#[derive(Clone, Copy, Debug, PartialEq, Eq)]
pub enum ConditionalBranchImmediate {
    BCond,
    BcCond,
    Unallocated,
}

/// Operands of a conditional branch to an immediate offset.
#[derive(Clone, Copy, Debug, PartialEq, Eq)]
pub struct ConditionalBranchImmediateData {
    pub o1: u32,
    pub o0: u32,
    pub imm19: u32,
    pub cond: u32,
}

} // verus!
