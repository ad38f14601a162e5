//! Words of the group of loads and stores.

use crate::decode_tree::decode_tree;
use crate::encoding_tables::{load_store_register_unsigned_immediate_table, loads_and_stores_table};
use crate::error::{DecodeError, EncodingGroup};
use crate::instructions::loads_and_stores as rows;
use crate::pattern_matcher::{classify_from, lemma_classify_is_scan};
use crate::utils::{
    extract, lemma_extract_bitwise, lemma_low_mask_value, masked_equal, GetBits, TestBits,
};
use crate::AArch64Inst;
use vstd::arithmetic::power2::lemma2_to64;
use vstd::prelude::*;

verus! {

/// A word of the group of loads and stores.
#[derive(Clone, Copy, Debug, PartialEq, Eq)]
pub struct LoadsAndStores(pub u32);

/// A word that encodes a load or store of a register at an unsigned immediate
/// offset.
#[derive(Clone, Copy, Debug, PartialEq, Eq)]
pub struct LoadNStoreRegisterUnsignedImdt(pub u32);

/// The field `op0` of a word.
spec fn op0(word: u32) -> u32 {
    (word >> 28u8) & 0xf
}

/// The field `op1` of a word.
spec fn op1(word: u32) -> u32 {
    (word >> 26u8) & 0x1
}

/// The field `op2` of a word.
spec fn op2(word: u32) -> u32 {
    (word >> 23u8) & 0x3
}

/// The field `op3` of a word.
spec fn op3(word: u32) -> u32 {
    (word >> 16u8) & 0x3f
}

/// The field `op4` of a word.
spec fn op4(word: u32) -> u32 {
    (word >> 10u8) & 0x3
}

/// The field `size` of a word.
spec fn size(word: u32) -> u32 {
    (word >> 30u8) & 0x3
}

/// The field `V` of a word.
spec fn v(word: u32) -> u32 {
    (word >> 26u8) & 0x1
}

/// The field `opc` of a word.
spec fn opc(word: u32) -> u32 {
    (word >> 22u8) & 0x3
}

/// The fields, as shifts and masks of the word.
proof fn lemma_fields(word: u32)
    ensures
        extract(word, 28..32) == op0(word),
        extract(word, 26..27) == op1(word),
        extract(word, 23..25) == op2(word),
        extract(word, 16..22) == op3(word),
        extract(word, 10..12) == op4(word),
        extract(word, 30..32) == size(word),
        extract(word, 26..27) == v(word),
        extract(word, 22..24) == opc(word),
{
    lemma2_to64();
    lemma_low_mask_value(1);
    lemma_low_mask_value(2);
    lemma_low_mask_value(4);
    lemma_low_mask_value(6);
    lemma_extract_bitwise(word, 28..32);
    lemma_extract_bitwise(word, 26..27);
    lemma_extract_bitwise(word, 23..25);
    lemma_extract_bitwise(word, 16..22);
    lemma_extract_bitwise(word, 10..12);
    lemma_extract_bitwise(word, 30..32);
    lemma_extract_bitwise(word, 26..27);
    lemma_extract_bitwise(word, 22..24);
}

/// Each rule of the table, as a test on the fields of the word.
proof fn lemma_loads_and_stores_by_fields(word: u32)
    by (bit_vector)
    ensures
        masked_equal(word, 0x0020_0000, 0xb5a0_0000) <==> (
            masked_equal(op0(word), 0b0000, 0b1011) && op1(word) == 0b0 && op2(word) == 0b00
                && masked_equal(op3(word), 0b10_0000, 0b10_0000)
        ),
        masked_equal(word, 0x0400_0000, 0xb5bf_0000) <==> (
            masked_equal(op0(word), 0b0000, 0b1011) && op1(word) == 0b1 && op2(word) == 0b00
                && op3(word) == 0b00_0000
        ),
        masked_equal(word, 0x0480_0000, 0xb5a0_0000) <==> (
            masked_equal(op0(word), 0b0000, 0b1011) && op1(word) == 0b1 && op2(word) == 0b01
                && masked_equal(op3(word), 0b00_0000, 0b10_0000)
        ),
        masked_equal(word, 0x0420_0000, 0xb520_0000) <==> (
            masked_equal(op0(word), 0b0000, 0b1011) && op1(word) == 0b1
                && masked_equal(op2(word), 0b00, 0b10)
                && masked_equal(op3(word), 0b10_0000, 0b10_0000)
        ),
        masked_equal(word, 0x0500_0000, 0xb59f_0000) <==> (
            masked_equal(op0(word), 0b0000, 0b1011) && op1(word) == 0b1 && op2(word) == 0b10
                && masked_equal(op3(word), 0b00_0000, 0b01_1111)
        ),
        masked_equal(word, 0x0580_0000, 0xb580_0000) <==> (
            masked_equal(op0(word), 0b0000, 0b1011) && op1(word) == 0b1 && op2(word) == 0b11
        ),
        masked_equal(word, 0x0410_0000, 0xb490_0000) <==> (
            masked_equal(op0(word), 0b0000, 0b1011) && op1(word) == 0b1
                && masked_equal(op2(word), 0b00, 0b01)
                && masked_equal(op3(word), 0b01_0000, 0b01_0000)
        ),
        masked_equal(word, 0x0408_0000, 0xb488_0000) <==> (
            masked_equal(op0(word), 0b0000, 0b1011) && op1(word) == 0b1
                && masked_equal(op2(word), 0b00, 0b01)
                && masked_equal(op3(word), 0b00_1000, 0b00_1000)
        ),
        masked_equal(word, 0x0404_0000, 0xb484_0000) <==> (
            masked_equal(op0(word), 0b0000, 0b1011) && op1(word) == 0b1
                && masked_equal(op2(word), 0b00, 0b01)
                && masked_equal(op3(word), 0b00_0100, 0b00_0100)
        ),
        masked_equal(word, 0x0402_0000, 0xb482_0000) <==> (
            masked_equal(op0(word), 0b0000, 0b1011) && op1(word) == 0b1
                && masked_equal(op2(word), 0b00, 0b01)
                && masked_equal(op3(word), 0b00_0010, 0b00_0010)
        ),
        masked_equal(word, 0x0401_0000, 0xb481_0000) <==> (
            masked_equal(op0(word), 0b0000, 0b1011) && op1(word) == 0b1
                && masked_equal(op2(word), 0b00, 0b01)
                && masked_equal(op3(word), 0b00_0001, 0b00_0001)
        ),
        masked_equal(word, 0xd120_0000, 0xf520_0000) <==> (
            op0(word) == 0b1101 && op1(word) == 0b0 && masked_equal(op2(word), 0b10, 0b10)
                && masked_equal(op3(word), 0b10_0000, 0b10_0000)
        ),
        masked_equal(word, 0x8020_0000, 0xb5a0_0000) <==> (
            masked_equal(op0(word), 0b1000, 0b1011) && op1(word) == 0b0 && op2(word) == 0b00
                && masked_equal(op3(word), 0b10_0000, 0b10_0000)
        ),
        masked_equal(word, 0x8400_0000, 0xb400_0000) <==> (
            masked_equal(op0(word), 0b1000, 0b1011) && op1(word) == 0b1
        ),
        masked_equal(word, 0x0000_0000, 0x35a0_0000) <==> (
            masked_equal(op0(word), 0b0000, 0b0011) && op1(word) == 0b0 && op2(word) == 0b00
                && masked_equal(op3(word), 0b00_0000, 0b10_0000)
        ),
        masked_equal(word, 0x0080_0000, 0x35a0_0000) <==> (
            masked_equal(op0(word), 0b0000, 0b0011) && op1(word) == 0b0 && op2(word) == 0b01
                && masked_equal(op3(word), 0b00_0000, 0b10_0000)
        ),
        masked_equal(word, 0x00a0_0000, 0x35a0_0000) <==> (
            masked_equal(op0(word), 0b0000, 0b0011) && op1(word) == 0b0 && op2(word) == 0b01
                && masked_equal(op3(word), 0b10_0000, 0b10_0000)
        ),
        masked_equal(word, 0x1100_0000, 0x3520_0c00) <==> (
            masked_equal(op0(word), 0b0001, 0b0011) && op1(word) == 0b0
                && masked_equal(op2(word), 0b10, 0b10)
                && masked_equal(op3(word), 0b00_0000, 0b10_0000) && op4(word) == 0b00
        ),
        masked_equal(word, 0x1000_0000, 0x3100_0000) <==> (
            masked_equal(op0(word), 0b0001, 0b0011) && masked_equal(op2(word), 0b00, 0b10)
        ),
        masked_equal(word, 0x1100_0400, 0x3120_0c00) <==> (
            masked_equal(op0(word), 0b0001, 0b0011) && masked_equal(op2(word), 0b10, 0b10)
                && masked_equal(op3(word), 0b00_0000, 0b10_0000) && op4(word) == 0b01
        ),
        masked_equal(word, 0x2000_0000, 0x3180_0000) <==> (
            masked_equal(op0(word), 0b0010, 0b0011) && op2(word) == 0b00
        ),
        masked_equal(word, 0x2080_0000, 0x3180_0000) <==> (
            masked_equal(op0(word), 0b0010, 0b0011) && op2(word) == 0b01
        ),
        masked_equal(word, 0x2100_0000, 0x3180_0000) <==> (
            masked_equal(op0(word), 0b0010, 0b0011) && op2(word) == 0b10
        ),
        masked_equal(word, 0x2180_0000, 0x3180_0000) <==> (
            masked_equal(op0(word), 0b0010, 0b0011) && op2(word) == 0b11
        ),
        masked_equal(word, 0x3000_0000, 0x3120_0c00) <==> (
            masked_equal(op0(word), 0b0011, 0b0011) && masked_equal(op2(word), 0b00, 0b10)
                && masked_equal(op3(word), 0b00_0000, 0b10_0000) && op4(word) == 0b00
        ),
        masked_equal(word, 0x3000_0400, 0x3120_0c00) <==> (
            masked_equal(op0(word), 0b0011, 0b0011) && masked_equal(op2(word), 0b00, 0b10)
                && masked_equal(op3(word), 0b00_0000, 0b10_0000) && op4(word) == 0b01
        ),
        masked_equal(word, 0x3000_0800, 0x3120_0c00) <==> (
            masked_equal(op0(word), 0b0011, 0b0011) && masked_equal(op2(word), 0b00, 0b10)
                && masked_equal(op3(word), 0b00_0000, 0b10_0000) && op4(word) == 0b10
        ),
        masked_equal(word, 0x3000_0c00, 0x3120_0c00) <==> (
            masked_equal(op0(word), 0b0011, 0b0011) && masked_equal(op2(word), 0b00, 0b10)
                && masked_equal(op3(word), 0b00_0000, 0b10_0000) && op4(word) == 0b11
        ),
        masked_equal(word, 0x3020_0000, 0x3120_0c00) <==> (
            masked_equal(op0(word), 0b0011, 0b0011) && masked_equal(op2(word), 0b00, 0b10)
                && masked_equal(op3(word), 0b10_0000, 0b10_0000) && op4(word) == 0b00
        ),
        masked_equal(word, 0x3020_0800, 0x3120_0c00) <==> (
            masked_equal(op0(word), 0b0011, 0b0011) && masked_equal(op2(word), 0b00, 0b10)
                && masked_equal(op3(word), 0b10_0000, 0b10_0000) && op4(word) == 0b10
        ),
        masked_equal(word, 0x3020_0400, 0x3120_0400) <==> (
            masked_equal(op0(word), 0b0011, 0b0011) && masked_equal(op2(word), 0b00, 0b10)
                && masked_equal(op3(word), 0b10_0000, 0b10_0000)
                && masked_equal(op4(word), 0b01, 0b01)
        ),
        masked_equal(word, 0x3100_0000, 0x3100_0000) <==> (
            masked_equal(op0(word), 0b0011, 0b0011) && masked_equal(op2(word), 0b10, 0b10)
        ),
{
}

/// Each rule of the table, as a test on the fields of the word.
proof fn lemma_load_store_register_unsigned_immediate_by_fields(word: u32)
    by (bit_vector)
    ensures
        masked_equal(word, 0x4480_0000, 0x4480_0000) <==> (
            masked_equal(size(word), 0b01, 0b01) && v(word) == 0b1
                && masked_equal(opc(word), 0b10, 0b10)
        ),
        masked_equal(word, 0x0000_0000, 0xc4c0_0000) <==> (
            size(word) == 0b00 && v(word) == 0b0 && opc(word) == 0b00
        ),
        masked_equal(word, 0x0040_0000, 0xc4c0_0000) <==> (
            size(word) == 0b00 && v(word) == 0b0 && opc(word) == 0b01
        ),
        masked_equal(word, 0x0080_0000, 0xc4c0_0000) <==> (
            size(word) == 0b00 && v(word) == 0b0 && opc(word) == 0b10
        ),
        masked_equal(word, 0x00c0_0000, 0xc4c0_0000) <==> (
            size(word) == 0b00 && v(word) == 0b0 && opc(word) == 0b11
        ),
        masked_equal(word, 0x0400_0000, 0xc4c0_0000) <==> (
            size(word) == 0b00 && v(word) == 0b1 && opc(word) == 0b00
        ),
        masked_equal(word, 0x0440_0000, 0xc4c0_0000) <==> (
            size(word) == 0b00 && v(word) == 0b1 && opc(word) == 0b01
        ),
        masked_equal(word, 0x0480_0000, 0xc4c0_0000) <==> (
            size(word) == 0b00 && v(word) == 0b1 && opc(word) == 0b10
        ),
        masked_equal(word, 0x04c0_0000, 0xc4c0_0000) <==> (
            size(word) == 0b00 && v(word) == 0b1 && opc(word) == 0b11
        ),
        masked_equal(word, 0x4000_0000, 0xc4c0_0000) <==> (
            size(word) == 0b01 && v(word) == 0b0 && opc(word) == 0b00
        ),
        masked_equal(word, 0x4040_0000, 0xc4c0_0000) <==> (
            size(word) == 0b01 && v(word) == 0b0 && opc(word) == 0b01
        ),
        masked_equal(word, 0x4080_0000, 0xc4c0_0000) <==> (
            size(word) == 0b01 && v(word) == 0b0 && opc(word) == 0b10
        ),
        masked_equal(word, 0x40c0_0000, 0xc4c0_0000) <==> (
            size(word) == 0b01 && v(word) == 0b0 && opc(word) == 0b11
        ),
        masked_equal(word, 0x4400_0000, 0xc4c0_0000) <==> (
            size(word) == 0b01 && v(word) == 0b1 && opc(word) == 0b00
        ),
        masked_equal(word, 0x4440_0000, 0xc4c0_0000) <==> (
            size(word) == 0b01 && v(word) == 0b1 && opc(word) == 0b01
        ),
        masked_equal(word, 0x80c0_0000, 0x84c0_0000) <==> (
            masked_equal(size(word), 0b10, 0b10) && v(word) == 0b0 && opc(word) == 0b11
        ),
        masked_equal(word, 0x8480_0000, 0x8480_0000) <==> (
            masked_equal(size(word), 0b10, 0b10) && v(word) == 0b1
                && masked_equal(opc(word), 0b10, 0b10)
        ),
        masked_equal(word, 0x8000_0000, 0xc4c0_0000) <==> (
            size(word) == 0b10 && v(word) == 0b0 && opc(word) == 0b00
        ),
        masked_equal(word, 0x8040_0000, 0xc4c0_0000) <==> (
            size(word) == 0b10 && v(word) == 0b0 && opc(word) == 0b01
        ),
        masked_equal(word, 0x8080_0000, 0xc4c0_0000) <==> (
            size(word) == 0b10 && v(word) == 0b0 && opc(word) == 0b10
        ),
        masked_equal(word, 0x8400_0000, 0xc4c0_0000) <==> (
            size(word) == 0b10 && v(word) == 0b1 && opc(word) == 0b00
        ),
        masked_equal(word, 0x8440_0000, 0xc4c0_0000) <==> (
            size(word) == 0b10 && v(word) == 0b1 && opc(word) == 0b01
        ),
        masked_equal(word, 0xc000_0000, 0xc4c0_0000) <==> (
            size(word) == 0b11 && v(word) == 0b0 && opc(word) == 0b00
        ),
        masked_equal(word, 0xc040_0000, 0xc4c0_0000) <==> (
            size(word) == 0b11 && v(word) == 0b0 && opc(word) == 0b01
        ),
        masked_equal(word, 0xc080_0000, 0xc4c0_0000) <==> (
            size(word) == 0b11 && v(word) == 0b0 && opc(word) == 0b10
        ),
        masked_equal(word, 0xc400_0000, 0xc4c0_0000) <==> (
            size(word) == 0b11 && v(word) == 0b1 && opc(word) == 0b00
        ),
        masked_equal(word, 0xc440_0000, 0xc4c0_0000) <==> (
            size(word) == 0b11 && v(word) == 0b1 && opc(word) == 0b01
        ),
{
}

impl LoadsAndStores {
    /// Bits 28 to 31.
    pub fn get_op0(&self) -> (field: u32)
        ensures
            field == extract(self.0, 28..32),
            field == loads_and_stores_table().field(self.0, 0),
    {
        self.0.get_bits(&(28..32))
    }

    /// Bit 26.
    pub fn get_op1(&self) -> (field: u32)
        ensures
            field == extract(self.0, 26..27),
            field == loads_and_stores_table().field(self.0, 1),
    {
        self.0.get_bits(&(26..27))
    }

    /// Bits 23 and 24.
    pub fn get_op2(&self) -> (field: u32)
        ensures
            field == extract(self.0, 23..25),
            field == loads_and_stores_table().field(self.0, 2),
    {
        self.0.get_bits(&(23..25))
    }

    /// Bits 16 to 21.
    pub fn get_op3(&self) -> (field: u32)
        ensures
            field == extract(self.0, 16..22),
            field == loads_and_stores_table().field(self.0, 3),
    {
        self.0.get_bits(&(16..22))
    }

    /// Bits 10 and 11.
    pub fn get_op4(&self) -> (field: u32)
        ensures
            field == extract(self.0, 10..12),
            field == loads_and_stores_table().field(self.0, 4),
    {
        self.0.get_bits(&(10..12))
    }

    /// Decodes the word by the values of its fields.
    pub fn try_into(self) -> (decoded: Result<AArch64Inst, DecodeError>)
        ensures
            decoded == decode_tree().decode_loads_and_stores(self.0),
    {
        let op0 = self.get_op0();
        let op1 = self.get_op1();
        let op2 = self.get_op2();
        let op3 = self.get_op3();
        let op4 = self.get_op4();
        proof {
            lemma_fields(self.0);
            lemma_loads_and_stores_by_fields(self.0);
            lemma_classify_is_scan(loads_and_stores_table(), self.0);
            reveal_with_fuel(classify_from, 33);
        }
        let row = if op0.test_bits(0b0000, 0b1011) && op1 == 0b0 && op2 == 0b00
            && op3.test_bits(0b10_0000, 0b10_0000) {
            rows::LoadsAndStores::CompareAndSwapPair
        } else if op0.test_bits(0b0000, 0b1011) && op1 == 0b1 && op2 == 0b00 && op3 == 0b00_0000 {
            rows::LoadsAndStores::AdvancedSIMDLoadStoreMultipleStructures
        } else if op0.test_bits(0b0000, 0b1011) && op1 == 0b1 && op2 == 0b01
            && op3.test_bits(0b00_0000, 0b10_0000) {
            rows::LoadsAndStores::AdvancedSIMDLoadStoreMultipleStructuresPostIndexed
        } else if op0.test_bits(0b0000, 0b1011) && op1 == 0b1 && op2.test_bits(0b00, 0b10)
            && op3.test_bits(0b10_0000, 0b10_0000) {
            rows::LoadsAndStores::Unallocated0
        } else if op0.test_bits(0b0000, 0b1011) && op1 == 0b1 && op2 == 0b10
            && op3.test_bits(0b00_0000, 0b01_1111) {
            rows::LoadsAndStores::AdvancedSIMDLoadStoreSingleStructure
        } else if op0.test_bits(0b0000, 0b1011) && op1 == 0b1 && op2 == 0b11 {
            rows::LoadsAndStores::AdvancedSIMDLoadStoreSingleStructurePostIndexed
        } else if op0.test_bits(0b0000, 0b1011) && op1 == 0b1 && op2.test_bits(0b00, 0b01)
            && op3.test_bits(0b01_0000, 0b01_0000) {
            rows::LoadsAndStores::Unallocated1
        } else if op0.test_bits(0b0000, 0b1011) && op1 == 0b1 && op2.test_bits(0b00, 0b01)
            && op3.test_bits(0b00_1000, 0b00_1000) {
            rows::LoadsAndStores::Unallocated2
        } else if op0.test_bits(0b0000, 0b1011) && op1 == 0b1 && op2.test_bits(0b00, 0b01)
            && op3.test_bits(0b00_0100, 0b00_0100) {
            rows::LoadsAndStores::Unallocated3
        } else if op0.test_bits(0b0000, 0b1011) && op1 == 0b1 && op2.test_bits(0b00, 0b01)
            && op3.test_bits(0b00_0010, 0b00_0010) {
            rows::LoadsAndStores::Unallocated4
        } else if op0.test_bits(0b0000, 0b1011) && op1 == 0b1 && op2.test_bits(0b00, 0b01)
            && op3.test_bits(0b00_0001, 0b00_0001) {
            rows::LoadsAndStores::Unallocated5
        } else if op0 == 0b1101 && op1 == 0b0 && op2.test_bits(0b10, 0b10)
            && op3.test_bits(0b10_0000, 0b10_0000) {
            rows::LoadsAndStores::LoadStoreMemoryTags
        } else if op0.test_bits(0b1000, 0b1011) && op1 == 0b0 && op2 == 0b00
            && op3.test_bits(0b10_0000, 0b10_0000) {
            rows::LoadsAndStores::LoadStoreExclusivePair
        } else if op0.test_bits(0b1000, 0b1011) && op1 == 0b1 {
            rows::LoadsAndStores::Unallocated6
        } else if op0.test_bits(0b0000, 0b0011) && op1 == 0b0 && op2 == 0b00
            && op3.test_bits(0b00_0000, 0b10_0000) {
            rows::LoadsAndStores::LoadStoreExclusiveRegister
        } else if op0.test_bits(0b0000, 0b0011) && op1 == 0b0 && op2 == 0b01
            && op3.test_bits(0b00_0000, 0b10_0000) {
            rows::LoadsAndStores::LoadStoreOrdered
        } else if op0.test_bits(0b0000, 0b0011) && op1 == 0b0 && op2 == 0b01
            && op3.test_bits(0b10_0000, 0b10_0000) {
            rows::LoadsAndStores::CompareAndSwap
        } else if op0.test_bits(0b0001, 0b0011) && op1 == 0b0 && op2.test_bits(0b10, 0b10)
            && op3.test_bits(0b00_0000, 0b10_0000) && op4 == 0b00 {
            rows::LoadsAndStores::LDAPRSTLRUnscalaedImmediate
        } else if op0.test_bits(0b0001, 0b0011) && op2.test_bits(0b00, 0b10) {
            rows::LoadsAndStores::LoadRegisterLiteral
        } else if op0.test_bits(0b0001, 0b0011) && op2.test_bits(0b10, 0b10)
            && op3.test_bits(0b00_0000, 0b10_0000) && op4 == 0b01 {
            rows::LoadsAndStores::MemoryCopyAndMemorySet
        } else if op0.test_bits(0b0010, 0b0011) && op2 == 0b00 {
            rows::LoadsAndStores::LoadStoreNoAllocatePairOffset
        } else if op0.test_bits(0b0010, 0b0011) && op2 == 0b01 {
            rows::LoadsAndStores::LoadStoreRegisterPairPostIndexed
        } else if op0.test_bits(0b0010, 0b0011) && op2 == 0b10 {
            rows::LoadsAndStores::LoadStoreRegisterPairOffset
        } else if op0.test_bits(0b0010, 0b0011) && op2 == 0b11 {
            rows::LoadsAndStores::LoadStoreRegisterPairPreIndexed
        } else if op0.test_bits(0b0011, 0b0011) && op2.test_bits(0b00, 0b10)
            && op3.test_bits(0b00_0000, 0b10_0000) && op4 == 0b00 {
            rows::LoadsAndStores::LoadStoreRegisterUnscalaedImmediate
        } else if op0.test_bits(0b0011, 0b0011) && op2.test_bits(0b00, 0b10)
            && op3.test_bits(0b00_0000, 0b10_0000) && op4 == 0b01 {
            rows::LoadsAndStores::LoadStoreRegisterImmediatePostIndexed
        } else if op0.test_bits(0b0011, 0b0011) && op2.test_bits(0b00, 0b10)
            && op3.test_bits(0b00_0000, 0b10_0000) && op4 == 0b10 {
            rows::LoadsAndStores::LoadStoreRegisterUnprivileged
        } else if op0.test_bits(0b0011, 0b0011) && op2.test_bits(0b00, 0b10)
            && op3.test_bits(0b00_0000, 0b10_0000) && op4 == 0b11 {
            rows::LoadsAndStores::LoadStoreRegisterImmediatePreIndexed
        } else if op0.test_bits(0b0011, 0b0011) && op2.test_bits(0b00, 0b10)
            && op3.test_bits(0b10_0000, 0b10_0000) && op4 == 0b00 {
            rows::LoadsAndStores::AtomicMemoryOperations
        } else if op0.test_bits(0b0011, 0b0011) && op2.test_bits(0b00, 0b10)
            && op3.test_bits(0b10_0000, 0b10_0000) && op4 == 0b10 {
            rows::LoadsAndStores::LoadStoreRegisterRegisterOffset
        } else if op0.test_bits(0b0011, 0b0011) && op2.test_bits(0b00, 0b10)
            && op3.test_bits(0b10_0000, 0b10_0000) && op4.test_bits(0b01, 0b01) {
            rows::LoadsAndStores::LoadStoreRegisterPac
        } else if op0.test_bits(0b0011, 0b0011) && op2.test_bits(0b10, 0b10) {
            rows::LoadsAndStores::LoadStoreRegisterUnsignedImmediate
        } else {
            return Err(DecodeError::NoMatch(self.0));
        };
        match row {
            rows::LoadsAndStores::LoadStoreRegisterUnsignedImmediate => {
                LoadNStoreRegisterUnsignedImdt(self.0).try_into()
            },
            _ => Err(DecodeError::Unsupported(EncodingGroup::LoadsAndStores(row), self.0)),
        }
    }
}

impl LoadNStoreRegisterUnsignedImdt {
    /// Bits 30 and 31: the size of the access.
    pub fn get_size(&self) -> (field: u32)
        ensures
            field == extract(self.0, 30..32),
            field == load_store_register_unsigned_immediate_table().field(self.0, 0),
    {
        self.0.get_bits(&(30..32))
    }

    /// Bit 26: whether the register is a SIMD and floating-point register.
    #[allow(non_snake_case)]
    pub fn get_V(&self) -> (field: u32)
        ensures
            field == extract(self.0, 26..27),
            field == load_store_register_unsigned_immediate_table().field(self.0, 1),
    {
        self.0.get_bits(&(26..27))
    }

    /// Bits 22 and 23: the operation.
    pub fn get_opc(&self) -> (field: u32)
        ensures
            field == extract(self.0, 22..24),
            field == load_store_register_unsigned_immediate_table().field(self.0, 2),
    {
        self.0.get_bits(&(22..24))
    }

    /// Bits 10 to 21: the offset, in units of the access size.
    pub fn get_imm12(&self) -> (field: u32)
        ensures
            field == extract(self.0, 10..22),
            field == load_store_register_unsigned_immediate_table().field(self.0, 3),
    {
        self.0.get_bits(&(10..22))
    }

    /// Bits 5 to 9: the base register.
    pub fn get_rn(&self) -> (field: u32)
        ensures
            field == extract(self.0, 5..10),
            field == load_store_register_unsigned_immediate_table().field(self.0, 4),
    {
        self.0.get_bits(&(5..10))
    }

    /// Bits 0 to 4: the register loaded or stored.
    pub fn get_rt(&self) -> (field: u32)
        ensures
            field == extract(self.0, 0..5),
            field == load_store_register_unsigned_immediate_table().field(self.0, 5),
    {
        self.0.get_bits(&(0..5))
    }

    /// Decodes the word by the values of its fields.
    pub fn try_into(self) -> (decoded: Result<AArch64Inst, DecodeError>)
        ensures
            decoded == decode_tree().decode_load_store_register_unsigned_immediate(self.0),
    {
        let size = self.get_size();
        let v = self.get_V();
        let opc = self.get_opc();
        proof {
            lemma_fields(self.0);
            lemma_load_store_register_unsigned_immediate_by_fields(self.0);
            lemma_classify_is_scan(load_store_register_unsigned_immediate_table(), self.0);
            reveal_with_fuel(classify_from, 28);
        }
        let row = if size.test_bits(0b01, 0b01) && v == 0b1 && opc.test_bits(0b10, 0b10) {
            rows::LoadStoreRegisterUnsignedImmediate::Unallocated0
        } else if size == 0b00 && v == 0b0 && opc == 0b00 {
            rows::LoadStoreRegisterUnsignedImmediate::STRBImmediate
        } else if size == 0b00 && v == 0b0 && opc == 0b01 {
            rows::LoadStoreRegisterUnsignedImmediate::LDRBImmediate
        } else if size == 0b00 && v == 0b0 && opc == 0b10 {
            rows::LoadStoreRegisterUnsignedImmediate::LDRSBImmediate64
        } else if size == 0b00 && v == 0b0 && opc == 0b11 {
            rows::LoadStoreRegisterUnsignedImmediate::LDRSBImmediate32
        } else if size == 0b00 && v == 0b1 && opc == 0b00 {
            rows::LoadStoreRegisterUnsignedImmediate::STRImmediateSIMDFP8
        } else if size == 0b00 && v == 0b1 && opc == 0b01 {
            rows::LoadStoreRegisterUnsignedImmediate::LDRImmediateSIMDFP8
        } else if size == 0b00 && v == 0b1 && opc == 0b10 {
            rows::LoadStoreRegisterUnsignedImmediate::STRImmediateSIMDFP128
        } else if size == 0b00 && v == 0b1 && opc == 0b11 {
            rows::LoadStoreRegisterUnsignedImmediate::LDRImmediateSIMDFP128
        } else if size == 0b01 && v == 0b0 && opc == 0b00 {
            rows::LoadStoreRegisterUnsignedImmediate::STRHImmediate
        } else if size == 0b01 && v == 0b0 && opc == 0b01 {
            rows::LoadStoreRegisterUnsignedImmediate::LDRHImmediate
        } else if size == 0b01 && v == 0b0 && opc == 0b10 {
            rows::LoadStoreRegisterUnsignedImmediate::LDRSHImmediate64
        } else if size == 0b01 && v == 0b0 && opc == 0b11 {
            rows::LoadStoreRegisterUnsignedImmediate::LDRSHImmediate32
        } else if size == 0b01 && v == 0b1 && opc == 0b00 {
            rows::LoadStoreRegisterUnsignedImmediate::STRImmediateSIMDFP16
        } else if size == 0b01 && v == 0b1 && opc == 0b01 {
            rows::LoadStoreRegisterUnsignedImmediate::LDRImmediateSIMDFP16
        } else if size.test_bits(0b10, 0b10) && v == 0b0 && opc == 0b11 {
            rows::LoadStoreRegisterUnsignedImmediate::Unallocated1
        } else if size.test_bits(0b10, 0b10) && v == 0b1 && opc.test_bits(0b10, 0b10) {
            rows::LoadStoreRegisterUnsignedImmediate::Unallocated2
        } else if size == 0b10 && v == 0b0 && opc == 0b00 {
            rows::LoadStoreRegisterUnsignedImmediate::STRImmediate32
        } else if size == 0b10 && v == 0b0 && opc == 0b01 {
            rows::LoadStoreRegisterUnsignedImmediate::LDRImmediate32
        } else if size == 0b10 && v == 0b0 && opc == 0b10 {
            rows::LoadStoreRegisterUnsignedImmediate::LDRSWImmediate
        } else if size == 0b10 && v == 0b1 && opc == 0b00 {
            rows::LoadStoreRegisterUnsignedImmediate::STRImmediateSIMDFP32
        } else if size == 0b10 && v == 0b1 && opc == 0b01 {
            rows::LoadStoreRegisterUnsignedImmediate::LDRImmediateSIMDFP32
        } else if size == 0b11 && v == 0b0 && opc == 0b00 {
            rows::LoadStoreRegisterUnsignedImmediate::STRImmediate64
        } else if size == 0b11 && v == 0b0 && opc == 0b01 {
            rows::LoadStoreRegisterUnsignedImmediate::LDRImmediate64
        } else if size == 0b11 && v == 0b0 && opc == 0b10 {
            rows::LoadStoreRegisterUnsignedImmediate::PRFMImmediate
        } else if size == 0b11 && v == 0b1 && opc == 0b00 {
            rows::LoadStoreRegisterUnsignedImmediate::STRImmediateSIMDFP64
        } else if size == 0b11 && v == 0b1 && opc == 0b01 {
            rows::LoadStoreRegisterUnsignedImmediate::LDRImmediateSIMDFP64
        } else {
            return Err(DecodeError::NoMatch(self.0));
        };
        match row {
            rows::LoadStoreRegisterUnsignedImmediate::STRImmediate64 => Ok(
                AArch64Inst::STRImmediate64(
                    rows::LoadStoreRegisterUnsignedImmediateData {
                        size,
                        v,
                        opc,
                        imm12: self.get_imm12(),
                        rn: self.get_rn(),
                        rt: self.get_rt(),
                    },
                ),
            ),
            _ => Err(
                DecodeError::Unsupported(
                    EncodingGroup::LoadStoreRegisterUnsignedImmediate(row),
                    self.0,
                ),
            ),
        }
    }
}

} // verus!
