//! Data processing with register operands.

use vstd::prelude::*;

verus! {

/// Rows of the table of data processing instructions with register operands.
#[derive(Clone, Copy, Debug, PartialEq, Eq)]
pub enum DataProcessingRegister {
    DataProcessing2Source,
    DataProcessing1Source,
    LogicalShiftedRegister,
    AddSubtractShiftedRegister,
    AddSubtractExtendedRegister,
    AddSubtractWithCarry,
    RotateRightIntoFlags,
    EvaluateInfoFlags,
    ConditionalCompareRegister,
    ConditionalCompareImmediate,
    ConditionalSelect,
    DataProcessing3Source,
}

/// Rows of the table of additions and subtractions of a shifted register.
#[derive(Clone, Copy, Debug, PartialEq, Eq)]
pub enum AddSubtractShiftedRegister {
    Unallocated0,
    Unallocated1,
    ADDShiftedRegister32,
    ADDSShiftedReigster32,
    SUBShiftedRegister32,
    SUBSShiftedRegister32,
    ADDShiftedRegister64,
    ADDSShiftedRegister64,
    SUBShiftedRegister64,
    SUBSShiftedRegister64,
}

/// Operands of an addition or subtraction of a shifted register.
#[derive(Clone, Copy, Debug, PartialEq, Eq)]
pub struct AddSubtractShiftedRegisterData {
    pub sf: u32,
    pub op: u32,
    pub s: u32,
    pub shift: u32,
    pub imm6: u32,
    pub rm: u32,
    pub rn: u32,
    pub rd: u32,
}

} // verus!
