//! Decoder for 32-bit AArch64 instruction words.
//!
//! A word is classified by walking a tree of priority-ordered pattern tables,
//! each compiled from bit strings such as `"x1x0"`, and the operand fields of the
//! instruction reached are extracted into a typed record.

use crate::instructions::brnch_xcept_gen_sys_instr::ConditionalBranchImmediateData;
use crate::instructions::data_processing_immediate::AddSubtractImmediateData;
use crate::instructions::data_processing_register::AddSubtractShiftedRegisterData;
use crate::instructions::loads_and_stores::LoadStoreRegisterUnsignedImmediateData;
use vstd::prelude::*;

pub mod aarc64_parser;
pub mod decode_tree;
pub mod encoding_tables;
pub mod error;
pub mod instructions;
pub mod pattern_matcher;
pub mod raw_inst;
pub mod utils;

verus! {

/// A decoded instruction: its kind, with the operands read from the word.
#[derive(Clone, Copy, Debug, PartialEq, Eq)]
pub enum AArch64Inst {
    /// `SUB (immediate)`, 64-bit.
    SubImmediate64(AddSubtractImmediateData),
    /// `B.cond`.
    BCond(ConditionalBranchImmediateData),
    /// `STR (immediate)`, unsigned offset, 64-bit.
    STRImmediate64(LoadStoreRegisterUnsignedImmediateData),
    /// `SUBS (shifted register)`, 64-bit.
    SUBSShiftedRegister64(AddSubtractShiftedRegisterData),
}

} // verus!
