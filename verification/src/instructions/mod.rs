//! Tags of the encoding tables, and the operand records of the instructions.

use vstd::prelude::*;

pub mod brnch_xcept_gen_sys_instr;
pub mod data_processing_immediate;
pub mod data_processing_register;
pub mod loads_and_stores;

verus! {

/// Rows of the top-level encoding table.
#[derive(Clone, Copy, Debug, PartialEq, Eq)]
pub enum MainEncodingTable {
    Reserved,
    SmeEncodings,
    Unallocated0,
    SveEncodings,
    Unallocated1,
    DataProcessingImmediate,
    BranchesExceptionGenNSysInstr,
    LoadsAndStores,
    DataProcessingRegister,
    DataProcessingScalarFloatingPointAndAdvancedSIMD,
}

} // verus!
