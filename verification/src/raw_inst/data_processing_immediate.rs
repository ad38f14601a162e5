//! Words of the group of data processing with an immediate operand.

use crate::decode_tree::decode_tree;
use crate::encoding_tables::{add_subtract_immediate_table, data_processing_immediate_table};
use crate::error::{DecodeError, EncodingGroup};
use crate::instructions::data_processing_immediate as rows;
use crate::pattern_matcher::{classify_from, lemma_classify_is_scan};
use crate::utils::{
    extract, lemma_extract_bitwise, lemma_low_mask_value, masked_equal, GetBits, TestBits,
};
use crate::AArch64Inst;
use vstd::arithmetic::power2::lemma2_to64;
use vstd::prelude::*;

verus! {

/// A word of the group of data processing with an immediate operand.
#[derive(Clone, Copy, Debug, PartialEq, Eq)]
pub struct DataProcessingImmediate(pub u32);

/// A word that encodes an addition or subtraction of an immediate.
#[derive(Clone, Copy, Debug, PartialEq, Eq)]
pub struct AddSubtractImmediate(pub u32);

/// The field `op0` of a word.
spec fn op0(word: u32) -> u32 {
    (word >> 23u8) & 0x7
}

/// The field `sf` of a word.
spec fn sf(word: u32) -> u32 {
    (word >> 31u8) & 0x1
}

/// The field `op` of a word.
spec fn op(word: u32) -> u32 {
    (word >> 30u8) & 0x1
}

/// The field `S` of a word.
spec fn s(word: u32) -> u32 {
    (word >> 29u8) & 0x1
}

/// The fields, as shifts and masks of the word.
proof fn lemma_fields(word: u32)
    ensures
        extract(word, 23..26) == op0(word),
        extract(word, 31..32) == sf(word),
        extract(word, 30..31) == op(word),
        extract(word, 29..30) == s(word),
{
    lemma2_to64();
    lemma_low_mask_value(1);
    lemma_low_mask_value(3);
    lemma_extract_bitwise(word, 23..26);
    lemma_extract_bitwise(word, 31..32);
    lemma_extract_bitwise(word, 30..31);
    lemma_extract_bitwise(word, 29..30);
}

/// Each rule of the table, as a test on the fields of the word.
proof fn lemma_data_processing_immediate_by_fields(word: u32)
    by (bit_vector)
    ensures
        masked_equal(word, 0x0000_0000, 0x0300_0000) <==> masked_equal(op0(word), 0b000, 0b110),
        masked_equal(word, 0x0100_0000, 0x0380_0000) <==> op0(word) == 0b010,
        masked_equal(word, 0x0180_0000, 0x0380_0000) <==> op0(word) == 0b011,
        masked_equal(word, 0x0200_0000, 0x0380_0000) <==> op0(word) == 0b100,
        masked_equal(word, 0x0280_0000, 0x0380_0000) <==> op0(word) == 0b101,
        masked_equal(word, 0x0300_0000, 0x0380_0000) <==> op0(word) == 0b110,
        masked_equal(word, 0x0380_0000, 0x0380_0000) <==> op0(word) == 0b111,
{
}

/// Each rule of the table, as a test on the fields of the word.
proof fn lemma_add_subtract_immediate_by_fields(word: u32)
    by (bit_vector)
    ensures
        masked_equal(word, 0x0000_0000, 0xe000_0000) <==> (
            sf(word) == 0b0 && op(word) == 0b0 && s(word) == 0b0
        ),
        masked_equal(word, 0x2000_0000, 0xe000_0000) <==> (
            sf(word) == 0b0 && op(word) == 0b0 && s(word) == 0b1
        ),
        masked_equal(word, 0x4000_0000, 0xe000_0000) <==> (
            sf(word) == 0b0 && op(word) == 0b1 && s(word) == 0b0
        ),
        masked_equal(word, 0x6000_0000, 0xe000_0000) <==> (
            sf(word) == 0b0 && op(word) == 0b1 && s(word) == 0b1
        ),
        masked_equal(word, 0x8000_0000, 0xe000_0000) <==> (
            sf(word) == 0b1 && op(word) == 0b0 && s(word) == 0b0
        ),
        masked_equal(word, 0xa000_0000, 0xe000_0000) <==> (
            sf(word) == 0b1 && op(word) == 0b0 && s(word) == 0b1
        ),
        masked_equal(word, 0xc000_0000, 0xe000_0000) <==> (
            sf(word) == 0b1 && op(word) == 0b1 && s(word) == 0b0
        ),
        masked_equal(word, 0xe000_0000, 0xe000_0000) <==> (
            sf(word) == 0b1 && op(word) == 0b1 && s(word) == 0b1
        ),
{
}

impl DataProcessingImmediate {
    /// Bits 23 to 25, which select the kind of operation.
    pub fn get_op0(&self) -> (field: u32)
        ensures
            field == extract(self.0, 23..26),
            field == data_processing_immediate_table().field(self.0, 0),
    {
        self.0.get_bits(&(23..26))
    }

    /// Decodes the word by the value of its field.
    pub fn try_into(self) -> (decoded: Result<AArch64Inst, DecodeError>)
        ensures
            decoded == decode_tree().decode_data_processing_immediate(self.0),
    {
        let op0 = self.get_op0();
        proof {
            lemma_fields(self.0);
            lemma_data_processing_immediate_by_fields(self.0);
            lemma_classify_is_scan(data_processing_immediate_table(), self.0);
            reveal_with_fuel(classify_from, 8);
        }
        let row = if op0.test_bits(0b000, 0b110) {
            rows::DataProcessingImmediate::PCrelAddressing
        } else if op0 == 0b010 {
            rows::DataProcessingImmediate::AddSubtractImmediate
        } else if op0 == 0b011 {
            rows::DataProcessingImmediate::AddSubtractImmediateWithTags
        } else if op0 == 0b100 {
            rows::DataProcessingImmediate::LogicalImmediate
        } else if op0 == 0b101 {
            rows::DataProcessingImmediate::MoveWideImmediate
        } else if op0 == 0b110 {
            rows::DataProcessingImmediate::Bitfield
        } else if op0 == 0b111 {
            rows::DataProcessingImmediate::Extract
        } else {
            return Err(DecodeError::NoMatch(self.0));
        };
        match row {
            rows::DataProcessingImmediate::AddSubtractImmediate => {
                AddSubtractImmediate(self.0).try_into()
            },
            _ => Err(DecodeError::Unsupported(EncodingGroup::DataProcessingImmediate(row), self.0)),
        }
    }
}

impl AddSubtractImmediate {
    /// Bit 31: the operand size, 64-bit if set.
    pub fn get_sf(&self) -> (field: u32)
        ensures
            field == extract(self.0, 31..32),
            field == add_subtract_immediate_table().field(self.0, 0),
    {
        self.0.get_bits(&(31..32))
    }

    /// Bit 30: subtraction if set, addition if clear.
    pub fn get_op(&self) -> (field: u32)
        ensures
            field == extract(self.0, 30..31),
            field == add_subtract_immediate_table().field(self.0, 1),
    {
        self.0.get_bits(&(30..31))
    }

    /// Bit 29: whether the flags are set.
    #[allow(non_snake_case)]
    pub fn get_S(&self) -> (field: u32)
        ensures
            field == extract(self.0, 29..30),
            field == add_subtract_immediate_table().field(self.0, 2),
    {
        self.0.get_bits(&(29..30))
    }

    /// Bit 22: whether the immediate is shifted left by 12.
    pub fn get_sh(&self) -> (field: u32)
        ensures
            field == extract(self.0, 22..23),
            field == add_subtract_immediate_table().field(self.0, 3),
    {
        self.0.get_bits(&(22..23))
    }

    /// Bits 10 to 21: the immediate.
    pub fn get_imm12(&self) -> (field: u32)
        ensures
            field == extract(self.0, 10..22),
            field == add_subtract_immediate_table().field(self.0, 4),
    {
        self.0.get_bits(&(10..22))
    }

    /// Bits 5 to 9: the source register.
    pub fn get_rn(&self) -> (field: u32)
        ensures
            field == extract(self.0, 5..10),
            field == add_subtract_immediate_table().field(self.0, 5),
    {
        self.0.get_bits(&(5..10))
    }

    /// Bits 0 to 4: the destination register.
    pub fn get_rd(&self) -> (field: u32)
        ensures
            field == extract(self.0, 0..5),
            field == add_subtract_immediate_table().field(self.0, 6),
    {
        self.0.get_bits(&(0..5))
    }

    /// Decodes the word by the values of its fields.
    pub fn try_into(self) -> (decoded: Result<AArch64Inst, DecodeError>)
        ensures
            decoded == decode_tree().decode_add_subtract_immediate(self.0),
    {
        let sf = self.get_sf();
        let op = self.get_op();
        let s = self.get_S();
        proof {
            lemma_fields(self.0);
            lemma_add_subtract_immediate_by_fields(self.0);
            lemma_classify_is_scan(add_subtract_immediate_table(), self.0);
            reveal_with_fuel(classify_from, 9);
        }
        let row = if sf == 0b0 && op == 0b0 && s == 0b0 {
            rows::AddSubtractImmediate::ADDImmediate32
        } else if sf == 0b0 && op == 0b0 && s == 0b1 {
            rows::AddSubtractImmediate::ADDSImmediate32
        } else if sf == 0b0 && op == 0b1 && s == 0b0 {
            rows::AddSubtractImmediate::SUBImmediate32
        } else if sf == 0b0 && op == 0b1 && s == 0b1 {
            rows::AddSubtractImmediate::SUBSImmediate32
        } else if sf == 0b1 && op == 0b0 && s == 0b0 {
            rows::AddSubtractImmediate::ADDImmediate64
        } else if sf == 0b1 && op == 0b0 && s == 0b1 {
            rows::AddSubtractImmediate::ADDSImmediate64
        } else if sf == 0b1 && op == 0b1 && s == 0b0 {
            rows::AddSubtractImmediate::SUBImmediate64
        } else if sf == 0b1 && op == 0b1 && s == 0b1 {
            rows::AddSubtractImmediate::SUBSImmediate64
        } else {
            return Err(DecodeError::NoMatch(self.0));
        };
        match row {
            rows::AddSubtractImmediate::SUBImmediate64 => Ok(
                AArch64Inst::SubImmediate64(
                    rows::AddSubtractImmediateData {
                        sf,
                        op,
                        s,
                        sh: self.get_sh(),
                        imm12: self.get_imm12(),
                        rn: self.get_rn(),
                        rd: self.get_rd(),
                    },
                ),
            ),
            _ => Err(DecodeError::Unsupported(EncodingGroup::AddSubtractImmediate(row), self.0)),
        }
    }
}

} // verus!
