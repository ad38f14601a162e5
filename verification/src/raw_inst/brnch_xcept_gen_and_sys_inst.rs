//! Words of the group of branches, exception generating and system instructions.

use crate::decode_tree::decode_tree;
use crate::encoding_tables::{brnch_xcept_gen_sys_instr_table, conditional_branch_immediate_table};
use crate::error::{DecodeError, EncodingGroup};
use crate::instructions::brnch_xcept_gen_sys_instr::{
    BranchesExceptionGenNSysInstr, ConditionalBranchImmediate, ConditionalBranchImmediateData,
};
use crate::pattern_matcher::{classify_from, lemma_classify_is_scan};
use crate::utils::{
    extract, lemma_extract_bitwise, lemma_low_mask_value, masked_equal, GetBits, TestBits,
};
use crate::AArch64Inst;
use vstd::arithmetic::power2::lemma2_to64;
use vstd::prelude::*;

verus! {

/// A word of the group of branches, exception generating and system instructions.
#[derive(Clone, Copy, Debug, PartialEq, Eq)]
pub struct BranchExceptionGenAndSysInst(pub u32);

/// The field `op0` of a word.
spec fn op0(word: u32) -> u32 {
    (word >> 29u8) & 0x7
}

/// The field `op1` of a word.
spec fn op1(word: u32) -> u32 {
    (word >> 12u8) & 0x3fff
}

/// The field `op2` of a word.
spec fn op2(word: u32) -> u32 {
    (word >> 0u8) & 0x1f
}

/// The field `o1` of a word.
spec fn o1(word: u32) -> u32 {
    (word >> 24u8) & 0x1
}

/// The field `o0` of a word.
spec fn o0(word: u32) -> u32 {
    (word >> 4u8) & 0x1
}

/// The fields, as shifts and masks of the word.
proof fn lemma_fields(word: u32)
    ensures
        extract(word, 29..32) == op0(word),
        extract(word, 12..26) == op1(word),
        extract(word, 0..5) == op2(word),
        extract(word, 24..25) == o1(word),
        extract(word, 4..5) == o0(word),
{
    lemma2_to64();
    lemma_low_mask_value(1);
    lemma_low_mask_value(3);
    lemma_low_mask_value(5);
    lemma_low_mask_value(14);
    lemma_extract_bitwise(word, 29..32);
    lemma_extract_bitwise(word, 12..26);
    lemma_extract_bitwise(word, 0..5);
    lemma_extract_bitwise(word, 24..25);
    lemma_extract_bitwise(word, 4..5);
}

/// Each rule of the table, as a test on the fields of the word.
proof fn lemma_brnch_xcept_gen_sys_instr_by_fields(word: u32)
    by (bit_vector)
    ensures
        masked_equal(word, 0x4000_0000, 0xe200_0000) <==> (
            op0(word) == 0b010 && masked_equal(op1(word), 0b00_0000_0000_0000, 0b10_0000_0000_0000)
        ),
        masked_equal(word, 0xc000_0000, 0xe300_0000) <==> (
            op0(word) == 0b110 && masked_equal(op1(word), 0b00_0000_0000_0000, 0b11_0000_0000_0000)
        ),
        masked_equal(word, 0xc103_1000, 0xe3ff_f000) <==> (
            op0(word) == 0b110 && op1(word) == 0b01_0000_0011_0001
        ),
        masked_equal(word, 0xc103_201f, 0xe3ff_f01f) <==> (
            op0(word) == 0b110 && op1(word) == 0b01_0000_0011_0010 && op2(word) == 0b1_1111
        ),
        masked_equal(word, 0xc103_3000, 0xe3ff_f000) <==> (
            op0(word) == 0b110 && op1(word) == 0b01_0000_0011_0011
        ),
        masked_equal(word, 0xc100_4000, 0xe3f8_f000) <==> (
            op0(word) == 0b110 && masked_equal(op1(word), 0b01_0000_0000_0100, 0b11_1111_1000_1111)
        ),
        masked_equal(word, 0xc120_0000, 0xe3f8_0000) <==> (
            op0(word) == 0b110 && masked_equal(op1(word), 0b01_0010_0000_0000, 0b11_1111_1000_0000)
        ),
        masked_equal(word, 0xc108_0000, 0xe3d8_0000) <==> (
            op0(word) == 0b110 && masked_equal(op1(word), 0b01_0000_1000_0000, 0b11_1101_1000_0000)
        ),
        masked_equal(word, 0xc110_0000, 0xe3d0_0000) <==> (
            op0(word) == 0b110 && masked_equal(op1(word), 0b01_0001_0000_0000, 0b11_1101_0000_0000)
        ),
        masked_equal(word, 0xc200_0000, 0xe200_0000) <==> (
            op0(word) == 0b110 && masked_equal(op1(word), 0b10_0000_0000_0000, 0b10_0000_0000_0000)
        ),
        masked_equal(word, 0x0000_0000, 0x6000_0000) <==> masked_equal(op0(word), 0b000, 0b011),
        masked_equal(word, 0x2000_0000, 0x6200_0000) <==> (
            masked_equal(op0(word), 0b001, 0b011)
                && masked_equal(op1(word), 0b00_0000_0000_0000, 0b10_0000_0000_0000)
        ),
        masked_equal(word, 0x2200_0000, 0x6200_0000) <==> (
            masked_equal(op0(word), 0b001, 0b011)
                && masked_equal(op1(word), 0b10_0000_0000_0000, 0b10_0000_0000_0000)
        ),
{
}

/// Each rule of the table, as a test on the fields of the word.
proof fn lemma_conditional_branch_immediate_by_fields(word: u32)
    by (bit_vector)
    ensures
        masked_equal(word, 0x0000_0000, 0x0100_0010) <==> o1(word) == 0b0 && o0(word) == 0b0,
        masked_equal(word, 0x0000_0010, 0x0100_0010) <==> o1(word) == 0b0 && o0(word) == 0b1,
        masked_equal(word, 0x0100_0000, 0x0100_0000) <==> o1(word) == 0b1,
{
}

/// Decodes a conditional branch to an immediate offset by the values of its fields.
fn conditional_branch_immediate(word: u32) -> (decoded: Result<AArch64Inst, DecodeError>)
    ensures
        decoded == decode_tree().decode_conditional_branch_immediate(word),
{
    let o1 = word.get_bits(&(24..25));
    let o0 = word.get_bits(&(4..5));
    proof {
        lemma_fields(word);
        lemma_conditional_branch_immediate_by_fields(word);
        lemma_classify_is_scan(conditional_branch_immediate_table(), word);
        reveal_with_fuel(classify_from, 4);
    }
    let row = if o1 == 0b0 && o0 == 0b0 {
        ConditionalBranchImmediate::BCond
    } else if o1 == 0b0 && o0 == 0b1 {
        ConditionalBranchImmediate::BcCond
    } else if o1 == 0b1 {
        ConditionalBranchImmediate::Unallocated
    } else {
        return Err(DecodeError::NoMatch(word));
    };
    match row {
        ConditionalBranchImmediate::BCond => Ok(
            AArch64Inst::BCond(
                ConditionalBranchImmediateData {
                    o1,
                    o0,
                    imm19: word.get_bits(&(5..24)),
                    cond: word.get_bits(&(0..4)),
                },
            ),
        ),
        _ => Err(DecodeError::Unsupported(EncodingGroup::ConditionalBranchImmediate(row), word)),
    }
}

impl BranchExceptionGenAndSysInst {
    /// Bits 29 to 31.
    pub fn get_op0(&self) -> (field: u32)
        ensures
            field == extract(self.0, 29..32),
            field == brnch_xcept_gen_sys_instr_table().field(self.0, 0),
    {
        self.0.get_bits(&(29..32))
    }

    /// Bits 12 to 25.
    pub fn get_op1(&self) -> (field: u32)
        ensures
            field == extract(self.0, 12..26),
            field == brnch_xcept_gen_sys_instr_table().field(self.0, 1),
    {
        self.0.get_bits(&(12..26))
    }

    /// Bits 0 to 4.
    pub fn get_op2(&self) -> (field: u32)
        ensures
            field == extract(self.0, 0..5),
            field == brnch_xcept_gen_sys_instr_table().field(self.0, 2),
    {
        self.0.get_bits(&(0..5))
    }

    /// Decodes the word by the values of its fields.
    pub fn try_into(self) -> (decoded: Result<AArch64Inst, DecodeError>)
        ensures
            decoded == decode_tree().decode_brnch_xcept_gen_sys_instr(self.0),
    {
        let op0 = self.get_op0();
        let op1 = self.get_op1();
        let op2 = self.get_op2();
        proof {
            lemma_fields(self.0);
            lemma_brnch_xcept_gen_sys_instr_by_fields(self.0);
            lemma_classify_is_scan(brnch_xcept_gen_sys_instr_table(), self.0);
            reveal_with_fuel(classify_from, 14);
        }
        let row = if op0 == 0b010 && op1.test_bits(0b00_0000_0000_0000, 0b10_0000_0000_0000) {
            BranchesExceptionGenNSysInstr::ConditionalBranchImmediate
        } else if op0 == 0b110 && op1.test_bits(0b00_0000_0000_0000, 0b11_0000_0000_0000) {
            BranchesExceptionGenNSysInstr::ExceptionGeneration
        } else if op0 == 0b110 && op1 == 0b01_0000_0011_0001 {
            BranchesExceptionGenNSysInstr::SystemInstructionsWithRegisterArgument
        } else if op0 == 0b110 && op1 == 0b01_0000_0011_0010 && op2 == 0b1_1111 {
            BranchesExceptionGenNSysInstr::Hints
        } else if op0 == 0b110 && op1 == 0b01_0000_0011_0011 {
            BranchesExceptionGenNSysInstr::Barriers
        } else if op0 == 0b110 && op1.test_bits(0b01_0000_0000_0100, 0b11_1111_1000_1111) {
            BranchesExceptionGenNSysInstr::PSTATE
        } else if op0 == 0b110 && op1.test_bits(0b01_0010_0000_0000, 0b11_1111_1000_0000) {
            BranchesExceptionGenNSysInstr::SystemWithResult
        } else if op0 == 0b110 && op1.test_bits(0b01_0000_1000_0000, 0b11_1101_1000_0000) {
            BranchesExceptionGenNSysInstr::SystemInstructions
        } else if op0 == 0b110 && op1.test_bits(0b01_0001_0000_0000, 0b11_1101_0000_0000) {
            BranchesExceptionGenNSysInstr::SystemRegisterMove
        } else if op0 == 0b110 && op1.test_bits(0b10_0000_0000_0000, 0b10_0000_0000_0000) {
            BranchesExceptionGenNSysInstr::UnconditionalBranchRegister
        } else if op0.test_bits(0b000, 0b011) {
            BranchesExceptionGenNSysInstr::UnconditionalBranchImmediate
        } else if op0.test_bits(0b001, 0b011)
            && op1.test_bits(0b00_0000_0000_0000, 0b10_0000_0000_0000) {
            BranchesExceptionGenNSysInstr::CompareAndBranchImmediate
        } else if op0.test_bits(0b001, 0b011)
            && op1.test_bits(0b10_0000_0000_0000, 0b10_0000_0000_0000) {
            BranchesExceptionGenNSysInstr::TestAndBranchImmediate
        } else {
            return Err(DecodeError::NoMatch(self.0));
        };
        match row {
            BranchesExceptionGenNSysInstr::ConditionalBranchImmediate => {
                conditional_branch_immediate(self.0)
            },
            _ => Err(
                DecodeError::Unsupported(EncodingGroup::BranchesExceptionGenNSysInstr(row), self.0),
            ),
        }
    }
}

} // verus!
