//! Data processing with an immediate operand.

use vstd::prelude::*;

verus! {

/// Rows of the table of data processing instructions with an immediate operand.
#[derive(Clone, Copy, Debug, PartialEq, Eq)]
pub enum DataProcessingImmediate {
    PCrelAddressing,
    AddSubtractImmediate,
    AddSubtractImmediateWithTags,
    LogicalImmediate,
    MoveWideImmediate,
    Bitfield,
    Extract,
}

/// Rows of the table of additions and subtractions of an immediate.
#[derive(Clone, Copy, Debug, PartialEq, Eq)]
pub enum AddSubtractImmediate {
    ADDImmediate32,
    ADDSImmediate32,
    SUBImmediate32,
    SUBSImmediate32,
    ADDImmediate64,
    ADDSImmediate64,
    SUBImmediate64,
    SUBSImmediate64,
}

/// Operands of an addition or subtraction of an immediate.
#[derive(Clone, Copy, Debug, PartialEq, Eq)]
pub struct AddSubtractImmediateData {
    pub sf: u32,
    pub op: u32,
    pub s: u32,
    pub sh: u32,
    pub imm12: u32,
    pub rn: u32,
    pub rd: u32,
}

} // verus!
