//! Faults reported while building a table, and the ways in which decoding a word fails.

use crate::instructions::brnch_xcept_gen_sys_instr::{
    BranchesExceptionGenNSysInstr, ConditionalBranchImmediate,
};
use crate::instructions::data_processing_immediate::{
    AddSubtractImmediate, DataProcessingImmediate,
};
use crate::instructions::data_processing_register::{
    AddSubtractShiftedRegister, DataProcessingRegister,
};
use crate::instructions::loads_and_stores::{LoadStoreRegisterUnsignedImmediate, LoadsAndStores};
use crate::instructions::MainEncodingTable;
use vstd::prelude::*;

verus! {

/// What can be wrong with the description of a table, or with a bit range.
#[derive(Clone, Copy, Debug, PartialEq, Eq)]
pub enum ErrorKind {
    /// A bit string does not have exactly one bit character per bit of its field.
    PatternArityMismatch,
    /// A rule was given more or fewer bit strings than the table has fields.
    FieldArityMismatch,
    /// A bit range is empty or reaches beyond the word.
    InvalidRange,
}

/// A row of one of the encoding tables: the table, and the tag of the row.
#[derive(Clone, Copy, Debug, PartialEq, Eq)]
pub enum EncodingGroup {
    MainEncodingTable(MainEncodingTable),
    DataProcessingImmediate(DataProcessingImmediate),
    AddSubtractImmediate(AddSubtractImmediate),
    BranchesExceptionGenNSysInstr(BranchesExceptionGenNSysInstr),
    ConditionalBranchImmediate(ConditionalBranchImmediate),
    LoadsAndStores(LoadsAndStores),
    LoadStoreRegisterUnsignedImmediate(LoadStoreRegisterUnsignedImmediate),
    DataProcessingRegister(DataProcessingRegister),
    AddSubtractShiftedRegister(AddSubtractShiftedRegister),
}

/// Why a word was not decoded.
#[derive(Clone, Copy, Debug, PartialEq, Eq)]
pub enum DecodeError {
    /// No rule of some table on the way matched the word.
    NoMatch(u32),
    /// The word belongs to the given row, which is not decoded any further.
    Unsupported(EncodingGroup, u32),
}

} // verus!
