//! Instruction words seen as members of an encoding group, with the fields
//! that the group's encoding diagram names, and decoding by tests on those
//! fields.

use crate::decode_tree::decode;
use crate::encoding_tables::main_encoding_table;
use crate::error::{DecodeError, EncodingGroup};
use crate::instructions::MainEncodingTable;
use crate::pattern_matcher::{classify_from, lemma_classify_is_scan};
use crate::raw_inst::brnch_xcept_gen_and_sys_inst::BranchExceptionGenAndSysInst;
use crate::raw_inst::data_processing_immediate::DataProcessingImmediate;
use crate::raw_inst::data_processing_register::DataProcessingRegister;
use crate::raw_inst::loads_and_stores::LoadsAndStores;
use crate::utils::{
    extract, lemma_extract_bitwise, lemma_low_mask_value, masked_equal, GetBits, TestBits,
};
use crate::AArch64Inst;
use vstd::arithmetic::power2::lemma2_to64;
use vstd::prelude::*;

pub mod brnch_xcept_gen_and_sys_inst;
pub mod data_processing_immediate;
pub mod data_processing_register;
pub mod loads_and_stores;

verus! {

/// An instruction word, not yet classified.
#[derive(Clone, Copy, Debug, PartialEq, Eq)]
pub struct RawInst(pub u32);

/// The field `op0` of a word.
spec fn op0(word: u32) -> u32 {
    (word >> 31u8) & 0x1
}

/// The field `op1` of a word.
spec fn op1(word: u32) -> u32 {
    (word >> 25u8) & 0xf
}

/// The fields, as shifts and masks of the word.
proof fn lemma_fields(word: u32)
    ensures
        extract(word, 31..32) == op0(word),
        extract(word, 25..29) == op1(word),
{
    lemma2_to64();
    lemma_low_mask_value(1);
    lemma_low_mask_value(4);
    lemma_extract_bitwise(word, 31..32);
    lemma_extract_bitwise(word, 25..29);
}

/// Each rule of the table, as a test on the fields of the word.
proof fn lemma_main_encoding_by_fields(word: u32)
    by (bit_vector)
    ensures
        masked_equal(word, 0x0000_0000, 0x9e00_0000) <==> op0(word) == 0b0 && op1(word) == 0b0000,
        masked_equal(word, 0x8000_0000, 0x9e00_0000) <==> op0(word) == 0b1 && op1(word) == 0b0000,
        masked_equal(word, 0x0200_0000, 0x1e00_0000) <==> op1(word) == 0b0001,
        masked_equal(word, 0x0400_0000, 0x1e00_0000) <==> op1(word) == 0b0010,
        masked_equal(word, 0x0600_0000, 0x1e00_0000) <==> op1(word) == 0b0011,
        masked_equal(word, 0x1000_0000, 0x1c00_0000) <==> masked_equal(op1(word), 0b1000, 0b1110),
        masked_equal(word, 0x1400_0000, 0x1c00_0000) <==> masked_equal(op1(word), 0b1010, 0b1110),
        masked_equal(word, 0x0800_0000, 0x0a00_0000) <==> masked_equal(op1(word), 0b0100, 0b0101),
        masked_equal(word, 0x0a00_0000, 0x0e00_0000) <==> masked_equal(op1(word), 0b0101, 0b0111),
        masked_equal(word, 0x0e00_0000, 0x0e00_0000) <==> masked_equal(op1(word), 0b0111, 0b0111),
{
}

impl RawInst {
    /// Bit 31, the first field of the top-level encoding.
    pub fn get_op0(&self) -> (field: u32)
        ensures
            field == extract(self.0, 31..32),
            field == main_encoding_table().field(self.0, 0),
    {
        self.0.get_bits(&(31..32))
    }

    /// Bits 25 to 28, the field that selects the encoding group.
    pub fn get_op1(&self) -> (field: u32)
        ensures
            field == extract(self.0, 25..29),
            field == main_encoding_table().field(self.0, 1),
    {
        self.0.get_bits(&(25..29))
    }

    /// Decodes the word by the values of its fields, group by group. The result is
    /// that of the tables of the decode tree.
    pub fn try_into(self) -> (decoded: Result<AArch64Inst, DecodeError>)
        ensures
            decoded == decode(self.0),
    {
        let op0 = self.get_op0();
        let op1 = self.get_op1();
        proof {
            lemma_fields(self.0);
            lemma_main_encoding_by_fields(self.0);
            lemma_classify_is_scan(main_encoding_table(), self.0);
            reveal_with_fuel(classify_from, 11);
        }
        let row = if op0 == 0b0 && op1 == 0b0000 {
            MainEncodingTable::Reserved
        } else if op0 == 0b1 && op1 == 0b0000 {
            MainEncodingTable::SmeEncodings
        } else if op1 == 0b0001 {
            MainEncodingTable::Unallocated0
        } else if op1 == 0b0010 {
            MainEncodingTable::SveEncodings
        } else if op1 == 0b0011 {
            MainEncodingTable::Unallocated1
        } else if op1.test_bits(0b1000, 0b1110) {
            MainEncodingTable::DataProcessingImmediate
        } else if op1.test_bits(0b1010, 0b1110) {
            MainEncodingTable::BranchesExceptionGenNSysInstr
        } else if op1.test_bits(0b0100, 0b0101) {
            MainEncodingTable::LoadsAndStores
        } else if op1.test_bits(0b0101, 0b0111) {
            MainEncodingTable::DataProcessingRegister
        } else if op1.test_bits(0b0111, 0b0111) {
            MainEncodingTable::DataProcessingScalarFloatingPointAndAdvancedSIMD
        } else {
            return Err(DecodeError::NoMatch(self.0));
        };
        match row {
            MainEncodingTable::DataProcessingImmediate => {
                DataProcessingImmediate(self.0).try_into()
            },
            MainEncodingTable::BranchesExceptionGenNSysInstr => {
                BranchExceptionGenAndSysInst(self.0).try_into()
            },
            MainEncodingTable::LoadsAndStores => LoadsAndStores(self.0).try_into(),
            MainEncodingTable::DataProcessingRegister => DataProcessingRegister(self.0).try_into(),
            _ => Err(DecodeError::Unsupported(EncodingGroup::MainEncodingTable(row), self.0)),
        }
    }
}

} // verus!
