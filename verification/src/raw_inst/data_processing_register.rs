//! Words of the group of data processing with register operands.

use crate::decode_tree::decode_tree;
use crate::encoding_tables::{add_subtract_shifted_register_table, data_processing_register_table};
use crate::error::{DecodeError, EncodingGroup};
use crate::instructions::data_processing_register as rows;
use crate::pattern_matcher::{classify_from, lemma_classify_is_scan};
use crate::utils::{
    extract, lemma_extract_bitwise, lemma_low_mask_value, masked_equal, GetBits, TestBits,
};
use crate::AArch64Inst;
use vstd::arithmetic::power2::lemma2_to64;
use vstd::prelude::*;

verus! {

/// A word of the group of data processing with register operands.
#[derive(Clone, Copy, Debug, PartialEq, Eq)]
pub struct DataProcessingRegister(pub u32);

/// The field `op0` of a word.
spec fn op0(word: u32) -> u32 {
    (word >> 30u8) & 0x1
}

/// The field `op1` of a word.
spec fn op1(word: u32) -> u32 {
    (word >> 28u8) & 0x1
}

/// The field `op2` of a word.
spec fn op2(word: u32) -> u32 {
    (word >> 21u8) & 0xf
}

/// The field `op3` of a word.
spec fn op3(word: u32) -> u32 {
    (word >> 10u8) & 0x3f
}

/// The field `sf` of a word.
spec fn sf(word: u32) -> u32 {
    (word >> 31u8) & 0x1
}

/// The field `op` of a word.
spec fn op(word: u32) -> u32 {
    (word >> 30u8) & 0x1
}

/// The field `S` of a word.
spec fn s(word: u32) -> u32 {
    (word >> 29u8) & 0x1
}

/// The field `shift` of a word.
spec fn shift(word: u32) -> u32 {
    (word >> 22u8) & 0x3
}

/// The field `imm6` of a word.
spec fn imm6(word: u32) -> u32 {
    (word >> 10u8) & 0x3f
}

/// The fields, as shifts and masks of the word.
proof fn lemma_fields(word: u32)
    ensures
        extract(word, 30..31) == op0(word),
        extract(word, 28..29) == op1(word),
        extract(word, 21..25) == op2(word),
        extract(word, 10..16) == op3(word),
        extract(word, 31..32) == sf(word),
        extract(word, 30..31) == op(word),
        extract(word, 29..30) == s(word),
        extract(word, 22..24) == shift(word),
        extract(word, 10..16) == imm6(word),
{
    lemma2_to64();
    lemma_low_mask_value(1);
    lemma_low_mask_value(2);
    lemma_low_mask_value(4);
    lemma_low_mask_value(6);
    lemma_extract_bitwise(word, 30..31);
    lemma_extract_bitwise(word, 28..29);
    lemma_extract_bitwise(word, 21..25);
    lemma_extract_bitwise(word, 10..16);
    lemma_extract_bitwise(word, 31..32);
    lemma_extract_bitwise(word, 30..31);
    lemma_extract_bitwise(word, 29..30);
    lemma_extract_bitwise(word, 22..24);
    lemma_extract_bitwise(word, 10..16);
}

/// Each rule of the table, as a test on the fields of the word.
proof fn lemma_data_processing_register_by_fields(word: u32)
    by (bit_vector)
    ensures
        masked_equal(word, 0x10c0_0000, 0x51e0_0000) <==> (
            op0(word) == 0b0 && op1(word) == 0b1 && op2(word) == 0b0110
        ),
        masked_equal(word, 0x50c0_0000, 0x51e0_0000) <==> (
            op0(word) == 0b1 && op1(word) == 0b1 && op2(word) == 0b0110
        ),
        masked_equal(word, 0x0000_0000, 0x1100_0000) <==> (
            op1(word) == 0b0 && masked_equal(op2(word), 0b0000, 0b1000)
        ),
        masked_equal(word, 0x0100_0000, 0x1120_0000) <==> (
            op1(word) == 0b0 && masked_equal(op2(word), 0b1000, 0b1001)
        ),
        masked_equal(word, 0x0120_0000, 0x1120_0000) <==> (
            op1(word) == 0b0 && masked_equal(op2(word), 0b1001, 0b1001)
        ),
        masked_equal(word, 0x1000_0000, 0x11e0_fc00) <==> (
            op1(word) == 0b1 && op2(word) == 0b0000 && op3(word) == 0b00_0000
        ),
        masked_equal(word, 0x1000_0400, 0x11e0_7c00) <==> (
            op1(word) == 0b1 && op2(word) == 0b0000 && masked_equal(op3(word), 0b00_0001, 0b01_1111)
        ),
        masked_equal(word, 0x1000_0800, 0x11e0_3c00) <==> (
            op1(word) == 0b1 && op2(word) == 0b0000 && masked_equal(op3(word), 0b00_0010, 0b00_1111)
        ),
        masked_equal(word, 0x1040_0000, 0x11e0_0800) <==> (
            op1(word) == 0b1 && op2(word) == 0b0010 && masked_equal(op3(word), 0b00_0000, 0b00_0010)
        ),
        masked_equal(word, 0x1040_0800, 0x11e0_0800) <==> (
            op1(word) == 0b1 && op2(word) == 0b0010 && masked_equal(op3(word), 0b00_0010, 0b00_0010)
        ),
        masked_equal(word, 0x1080_0000, 0x11e0_0000) <==> op1(word) == 0b1 && op2(word) == 0b0100,
        masked_equal(word, 0x1100_0000, 0x1100_0000) <==> (
            op1(word) == 0b1 && masked_equal(op2(word), 0b1000, 0b1000)
        ),
{
}

/// Each rule of the table, as a test on the fields of the word.
proof fn lemma_add_subtract_shifted_register_by_fields(word: u32)
    by (bit_vector)
    ensures
        masked_equal(word, 0x00c0_0000, 0x00c0_0000) <==> shift(word) == 0b11,
        masked_equal(word, 0x0000_8000, 0x8000_8000) <==> (
            sf(word) == 0b0 && masked_equal(imm6(word), 0b10_0000, 0b10_0000)
        ),
        masked_equal(word, 0x0000_0000, 0xe000_0000) <==> (
            sf(word) == 0b0 && op(word) == 0b0 && s(word) == 0b0
        ),
        masked_equal(word, 0x2000_0000, 0xe000_0000) <==> (
            sf(word) == 0b0 && op(word) == 0b0 && s(word) == 0b1
        ),
        masked_equal(word, 0x4000_0000, 0xe000_0000) <==> (
            sf(word) == 0b0 && op(word) == 0b1 && s(word) == 0b0
        ),
        masked_equal(word, 0x6000_0000, 0xe000_0000) <==> (
            sf(word) == 0b0 && op(word) == 0b1 && s(word) == 0b1
        ),
        masked_equal(word, 0x8000_0000, 0xe000_0000) <==> (
            sf(word) == 0b1 && op(word) == 0b0 && s(word) == 0b0
        ),
        masked_equal(word, 0xa000_0000, 0xe000_0000) <==> (
            sf(word) == 0b1 && op(word) == 0b0 && s(word) == 0b1
        ),
        masked_equal(word, 0xc000_0000, 0xe000_0000) <==> (
            sf(word) == 0b1 && op(word) == 0b1 && s(word) == 0b0
        ),
        masked_equal(word, 0xe000_0000, 0xe000_0000) <==> (
            sf(word) == 0b1 && op(word) == 0b1 && s(word) == 0b1
        ),
{
}

/// Decodes an addition or subtraction of a shifted register by the values of its
/// fields.
fn add_subtract_shifted_register(word: u32) -> (decoded: Result<AArch64Inst, DecodeError>)
    ensures
        decoded == decode_tree().decode_add_subtract_shifted_register(word),
{
    let sf = word.get_bits(&(31..32));
    let op = word.get_bits(&(30..31));
    let s = word.get_bits(&(29..30));
    let shift = word.get_bits(&(22..24));
    let imm6 = word.get_bits(&(10..16));
    proof {
        lemma_fields(word);
        lemma_add_subtract_shifted_register_by_fields(word);
        lemma_classify_is_scan(add_subtract_shifted_register_table(), word);
        reveal_with_fuel(classify_from, 11);
    }
    let row = if shift == 0b11 {
        rows::AddSubtractShiftedRegister::Unallocated0
    } else if sf == 0b0 && imm6.test_bits(0b10_0000, 0b10_0000) {
        rows::AddSubtractShiftedRegister::Unallocated1
    } else if sf == 0b0 && op == 0b0 && s == 0b0 {
        rows::AddSubtractShiftedRegister::ADDShiftedRegister32
    } else if sf == 0b0 && op == 0b0 && s == 0b1 {
        rows::AddSubtractShiftedRegister::ADDSShiftedReigster32
    } else if sf == 0b0 && op == 0b1 && s == 0b0 {
        rows::AddSubtractShiftedRegister::SUBShiftedRegister32
    } else if sf == 0b0 && op == 0b1 && s == 0b1 {
        rows::AddSubtractShiftedRegister::SUBSShiftedRegister32
    } else if sf == 0b1 && op == 0b0 && s == 0b0 {
        rows::AddSubtractShiftedRegister::ADDShiftedRegister64
    } else if sf == 0b1 && op == 0b0 && s == 0b1 {
        rows::AddSubtractShiftedRegister::ADDSShiftedRegister64
    } else if sf == 0b1 && op == 0b1 && s == 0b0 {
        rows::AddSubtractShiftedRegister::SUBShiftedRegister64
    } else if sf == 0b1 && op == 0b1 && s == 0b1 {
        rows::AddSubtractShiftedRegister::SUBSShiftedRegister64
    } else {
        return Err(DecodeError::NoMatch(word));
    };
    match row {
        rows::AddSubtractShiftedRegister::SUBSShiftedRegister64 => Ok(
            AArch64Inst::SUBSShiftedRegister64(
                rows::AddSubtractShiftedRegisterData {
                    sf,
                    op,
                    s,
                    shift,
                    imm6,
                    rm: word.get_bits(&(16..21)),
                    rn: word.get_bits(&(5..10)),
                    rd: word.get_bits(&(0..5)),
                },
            ),
        ),
        _ => Err(DecodeError::Unsupported(EncodingGroup::AddSubtractShiftedRegister(row), word)),
    }
}

impl DataProcessingRegister {
    /// Bit 30.
    pub fn get_op0(&self) -> (field: u32)
        ensures
            field == extract(self.0, 30..31),
            field == data_processing_register_table().field(self.0, 0),
    {
        self.0.get_bits(&(30..31))
    }

    /// Bit 28.
    pub fn get_op1(&self) -> (field: u32)
        ensures
            field == extract(self.0, 28..29),
            field == data_processing_register_table().field(self.0, 1),
    {
        self.0.get_bits(&(28..29))
    }

    /// Bits 21 to 24.
    pub fn get_op2(&self) -> (field: u32)
        ensures
            field == extract(self.0, 21..25),
            field == data_processing_register_table().field(self.0, 2),
    {
        self.0.get_bits(&(21..25))
    }

    /// Bits 10 to 15.
    pub fn get_op3(&self) -> (field: u32)
        ensures
            field == extract(self.0, 10..16),
            field == data_processing_register_table().field(self.0, 3),
    {
        self.0.get_bits(&(10..16))
    }

    /// Decodes the word by the values of its fields.
    pub fn try_into(self) -> (decoded: Result<AArch64Inst, DecodeError>)
        ensures
            decoded == decode_tree().decode_data_processing_register(self.0),
    {
        let op0 = self.get_op0();
        let op1 = self.get_op1();
        let op2 = self.get_op2();
        let op3 = self.get_op3();
        proof {
            lemma_fields(self.0);
            lemma_data_processing_register_by_fields(self.0);
            lemma_classify_is_scan(data_processing_register_table(), self.0);
            reveal_with_fuel(classify_from, 13);
        }
        let row = if op0 == 0b0 && op1 == 0b1 && op2 == 0b0110 {
            rows::DataProcessingRegister::DataProcessing2Source
        } else if op0 == 0b1 && op1 == 0b1 && op2 == 0b0110 {
            rows::DataProcessingRegister::DataProcessing1Source
        } else if op1 == 0b0 && op2.test_bits(0b0000, 0b1000) {
            rows::DataProcessingRegister::LogicalShiftedRegister
        } else if op1 == 0b0 && op2.test_bits(0b1000, 0b1001) {
            rows::DataProcessingRegister::AddSubtractShiftedRegister
        } else if op1 == 0b0 && op2.test_bits(0b1001, 0b1001) {
            rows::DataProcessingRegister::AddSubtractExtendedRegister
        } else if op1 == 0b1 && op2 == 0b0000 && op3 == 0b00_0000 {
            rows::DataProcessingRegister::AddSubtractWithCarry
        } else if op1 == 0b1 && op2 == 0b0000 && op3.test_bits(0b00_0001, 0b01_1111) {
            rows::DataProcessingRegister::RotateRightIntoFlags
        } else if op1 == 0b1 && op2 == 0b0000 && op3.test_bits(0b00_0010, 0b00_1111) {
            rows::DataProcessingRegister::EvaluateInfoFlags
        } else if op1 == 0b1 && op2 == 0b0010 && op3.test_bits(0b00_0000, 0b00_0010) {
            rows::DataProcessingRegister::ConditionalCompareRegister
        } else if op1 == 0b1 && op2 == 0b0010 && op3.test_bits(0b00_0010, 0b00_0010) {
            rows::DataProcessingRegister::ConditionalCompareImmediate
        } else if op1 == 0b1 && op2 == 0b0100 {
            rows::DataProcessingRegister::ConditionalSelect
        } else if op1 == 0b1 && op2.test_bits(0b1000, 0b1000) {
            rows::DataProcessingRegister::DataProcessing3Source
        } else {
            return Err(DecodeError::NoMatch(self.0));
        };
        match row {
            rows::DataProcessingRegister::AddSubtractShiftedRegister => {
                add_subtract_shifted_register(self.0)
            },
            _ => Err(DecodeError::Unsupported(EncodingGroup::DataProcessingRegister(row), self.0)),
        }
    }
}

} // verus!
