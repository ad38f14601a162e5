//! The decode tree: which table a word goes to after each classification, and
//! what comes out at the leaves.

use crate::encoding_tables::{
    add_subtract_immediate_table, add_subtract_shifted_register_table,
    brnch_xcept_gen_sys_instr_table, conditional_branch_immediate_table,
    data_processing_immediate_table, data_processing_register_table,
    lemma_add_subtract_immediate_total, lemma_add_subtract_shifted_register_total,
    lemma_conditional_branch_immediate_total, lemma_data_processing_immediate_total,
    lemma_load_store_register_unsigned_immediate_total, lemma_main_encoding_total,
    load_store_register_unsigned_immediate_table, loads_and_stores_table, main_encoding_table,
};
use crate::error::{DecodeError, EncodingGroup};
use crate::instructions::brnch_xcept_gen_sys_instr::{
    BranchesExceptionGenNSysInstr, ConditionalBranchImmediate, ConditionalBranchImmediateData,
};
use crate::instructions::data_processing_immediate::{
    AddSubtractImmediate, AddSubtractImmediateData, DataProcessingImmediate,
};
use crate::instructions::data_processing_register::{
    AddSubtractShiftedRegister, AddSubtractShiftedRegisterData, DataProcessingRegister,
};
use crate::instructions::loads_and_stores::{
    LoadStoreRegisterUnsignedImmediate, LoadStoreRegisterUnsignedImmediateData, LoadsAndStores,
};
use crate::instructions::MainEncodingTable;
use crate::pattern_matcher::{classify_from, lemma_classify_is_scan, Table};
use crate::utils::{extract, masked_equal};
use crate::AArch64Inst;
use vstd::prelude::*;

verus! {

/// The tables of the tree. A word enters at `main_encoding`; the row it is
/// given there decides which table it goes to next, and so on down to a leaf.
pub struct DecodeTree {
    pub main_encoding: Table<MainEncodingTable>,
    pub data_processing_immediate: Table<DataProcessingImmediate>,
    pub add_subtract_immediate: Table<AddSubtractImmediate>,
    pub brnch_xcept_gen_sys_instr: Table<BranchesExceptionGenNSysInstr>,
    pub conditional_branch_immediate: Table<ConditionalBranchImmediate>,
    pub loads_and_stores: Table<LoadsAndStores>,
    pub load_store_register_unsigned_immediate: Table<LoadStoreRegisterUnsignedImmediate>,
    pub data_processing_register: Table<DataProcessingRegister>,
    pub add_subtract_shifted_register: Table<AddSubtractShiftedRegister>,
}

/// The word matched the row `group`, below which nothing is decoded.
pub open spec fn unsupported(group: EncodingGroup, word: u32) -> Result<AArch64Inst, DecodeError> {
    Err(DecodeError::Unsupported(group, word))
}

/// No rule of the table that the word came to matched it.
pub open spec fn no_match(word: u32) -> Result<AArch64Inst, DecodeError> {
    Err(DecodeError::NoMatch(word))
}

impl DecodeTree {
    /// What `word` decodes to.
    pub open spec fn decode(self, word: u32) -> Result<AArch64Inst, DecodeError> {
        match self.main_encoding.classify(word) {
            Some(MainEncodingTable::DataProcessingImmediate) => {
                self.decode_data_processing_immediate(word)
            },
            Some(MainEncodingTable::BranchesExceptionGenNSysInstr) => {
                self.decode_brnch_xcept_gen_sys_instr(word)
            },
            Some(MainEncodingTable::LoadsAndStores) => self.decode_loads_and_stores(word),
            Some(MainEncodingTable::DataProcessingRegister) => {
                self.decode_data_processing_register(word)
            },
            Some(row) => unsupported(EncodingGroup::MainEncodingTable(row), word),
            None => no_match(word),
        }
    }

    /// What a word decodes to that is a data processing instruction with an immediate.
    pub open spec fn decode_data_processing_immediate(self, word: u32) -> Result<
        AArch64Inst,
        DecodeError,
    > {
        match self.data_processing_immediate.classify(word) {
            Some(DataProcessingImmediate::AddSubtractImmediate) => {
                self.decode_add_subtract_immediate(word)
            },
            Some(row) => unsupported(EncodingGroup::DataProcessingImmediate(row), word),
            None => no_match(word),
        }
    }

    /// The operands of an addition or subtraction of an immediate: the fields
    /// of its table, in the order of their declaration.
    pub open spec fn add_subtract_immediate_data(self, word: u32) -> AddSubtractImmediateData {
        let table = self.add_subtract_immediate;
        AddSubtractImmediateData {
            sf: table.field(word, 0),
            op: table.field(word, 1),
            s: table.field(word, 2),
            sh: table.field(word, 3),
            imm12: table.field(word, 4),
            rn: table.field(word, 5),
            rd: table.field(word, 6),
        }
    }

    /// What a word decodes to that is an addition or subtraction of an immediate.
    pub open spec fn decode_add_subtract_immediate(self, word: u32) -> Result<
        AArch64Inst,
        DecodeError,
    > {
        match self.add_subtract_immediate.classify(word) {
            Some(AddSubtractImmediate::SUBImmediate64) => Ok(
                AArch64Inst::SubImmediate64(self.add_subtract_immediate_data(word)),
            ),
            Some(row) => unsupported(EncodingGroup::AddSubtractImmediate(row), word),
            None => no_match(word),
        }
    }

    /// What a word decodes to that is a branch, an exception generating or a
    /// system instruction.
    pub open spec fn decode_brnch_xcept_gen_sys_instr(self, word: u32) -> Result<
        AArch64Inst,
        DecodeError,
    > {
        match self.brnch_xcept_gen_sys_instr.classify(word) {
            Some(BranchesExceptionGenNSysInstr::ConditionalBranchImmediate) => {
                self.decode_conditional_branch_immediate(word)
            },
            Some(row) => unsupported(EncodingGroup::BranchesExceptionGenNSysInstr(row), word),
            None => no_match(word),
        }
    }

    /// The operands of a conditional branch: the fields of its table, in the
    /// order of their declaration.
    pub open spec fn conditional_branch_immediate_data(
        self,
        word: u32,
    ) -> ConditionalBranchImmediateData {
        let table = self.conditional_branch_immediate;
        ConditionalBranchImmediateData {
            o1: table.field(word, 0),
            o0: table.field(word, 1),
            imm19: table.field(word, 2),
            cond: table.field(word, 3),
        }
    }

    /// What a word decodes to that is a conditional branch to an immediate offset.
    pub open spec fn decode_conditional_branch_immediate(self, word: u32) -> Result<
        AArch64Inst,
        DecodeError,
    > {
        match self.conditional_branch_immediate.classify(word) {
            Some(ConditionalBranchImmediate::BCond) => Ok(
                AArch64Inst::BCond(self.conditional_branch_immediate_data(word)),
            ),
            Some(row) => unsupported(EncodingGroup::ConditionalBranchImmediate(row), word),
            None => no_match(word),
        }
    }

    /// What a word decodes to that is a load or a store.
    pub open spec fn decode_loads_and_stores(self, word: u32) -> Result<AArch64Inst, DecodeError> {
        match self.loads_and_stores.classify(word) {
            Some(LoadsAndStores::LoadStoreRegisterUnsignedImmediate) => {
                self.decode_load_store_register_unsigned_immediate(word)
            },
            Some(row) => unsupported(EncodingGroup::LoadsAndStores(row), word),
            None => no_match(word),
        }
    }

    /// The operands of a load or store at an unsigned immediate offset: the
    /// fields of its table, in the order of their declaration.
    pub open spec fn load_store_register_unsigned_immediate_data(
        self,
        word: u32,
    ) -> LoadStoreRegisterUnsignedImmediateData {
        let table = self.load_store_register_unsigned_immediate;
        LoadStoreRegisterUnsignedImmediateData {
            size: table.field(word, 0),
            v: table.field(word, 1),
            opc: table.field(word, 2),
            imm12: table.field(word, 3),
            rn: table.field(word, 4),
            rt: table.field(word, 5),
        }
    }

    /// What a word decodes to that is a load or store of a register at an
    /// unsigned immediate offset.
    pub open spec fn decode_load_store_register_unsigned_immediate(self, word: u32) -> Result<
        AArch64Inst,
        DecodeError,
    > {
        match self.load_store_register_unsigned_immediate.classify(word) {
            Some(LoadStoreRegisterUnsignedImmediate::STRImmediate64) => Ok(
                AArch64Inst::STRImmediate64(
                    self.load_store_register_unsigned_immediate_data(word),
                ),
            ),
            Some(row) => unsupported(
                EncodingGroup::LoadStoreRegisterUnsignedImmediate(row),
                word,
            ),
            None => no_match(word),
        }
    }

    /// What a word decodes to that is a data processing instruction on registers.
    pub open spec fn decode_data_processing_register(self, word: u32) -> Result<
        AArch64Inst,
        DecodeError,
    > {
        match self.data_processing_register.classify(word) {
            Some(DataProcessingRegister::AddSubtractShiftedRegister) => {
                self.decode_add_subtract_shifted_register(word)
            },
            Some(row) => unsupported(EncodingGroup::DataProcessingRegister(row), word),
            None => no_match(word),
        }
    }

    /// The operands of an addition or subtraction of a shifted register: the
    /// fields of its table, in the order of their declaration.
    pub open spec fn add_subtract_shifted_register_data(
        self,
        word: u32,
    ) -> AddSubtractShiftedRegisterData {
        let table = self.add_subtract_shifted_register;
        AddSubtractShiftedRegisterData {
            sf: table.field(word, 0),
            op: table.field(word, 1),
            s: table.field(word, 2),
            shift: table.field(word, 3),
            imm6: table.field(word, 4),
            rm: table.field(word, 5),
            rn: table.field(word, 6),
            rd: table.field(word, 7),
        }
    }

    /// What a word decodes to that is an addition or subtraction of a shifted register.
    pub open spec fn decode_add_subtract_shifted_register(self, word: u32) -> Result<
        AArch64Inst,
        DecodeError,
    > {
        match self.add_subtract_shifted_register.classify(word) {
            Some(AddSubtractShiftedRegister::SUBSShiftedRegister64) => Ok(
                AArch64Inst::SUBSShiftedRegister64(self.add_subtract_shifted_register_data(word)),
            ),
            Some(row) => unsupported(EncodingGroup::AddSubtractShiftedRegister(row), word),
            None => no_match(word),
        }
    }
}

/// The tree of the A64 instruction set, as far as this library decodes it.
pub open spec fn decode_tree() -> DecodeTree {
    DecodeTree {
        main_encoding: main_encoding_table(),
        data_processing_immediate: data_processing_immediate_table(),
        add_subtract_immediate: add_subtract_immediate_table(),
        brnch_xcept_gen_sys_instr: brnch_xcept_gen_sys_instr_table(),
        conditional_branch_immediate: conditional_branch_immediate_table(),
        loads_and_stores: loads_and_stores_table(),
        load_store_register_unsigned_immediate: load_store_register_unsigned_immediate_table(),
        data_processing_register: data_processing_register_table(),
        add_subtract_shifted_register: add_subtract_shifted_register_table(),
    }
}

/// What a word decodes to in the A64 instruction set. It depends on the word alone.
pub open spec fn decode(word: u32) -> Result<AArch64Inst, DecodeError> {
    decode_tree().decode(word)
}

/// The rules on the way to the instruction, against its fixed bits.
proof fn lemma_sub_immediate_64_bits(word: u32)
    by (bit_vector)
    ensures
        (word & 0xff80_0000 == 0xd100_0000) ==> {
            &&& !masked_equal(word, 0x0000_0000, 0x9e00_0000)
            &&& !masked_equal(word, 0x8000_0000, 0x9e00_0000)
            &&& !masked_equal(word, 0x0200_0000, 0x1e00_0000)
            &&& !masked_equal(word, 0x0400_0000, 0x1e00_0000)
            &&& !masked_equal(word, 0x0600_0000, 0x1e00_0000)
            &&& masked_equal(word, 0x1000_0000, 0x1c00_0000)
            &&& !masked_equal(word, 0x0000_0000, 0x0300_0000)
            &&& masked_equal(word, 0x0100_0000, 0x0380_0000)
            &&& !masked_equal(word, 0x0000_0000, 0xe000_0000)
            &&& !masked_equal(word, 0x2000_0000, 0xe000_0000)
            &&& !masked_equal(word, 0x4000_0000, 0xe000_0000)
            &&& !masked_equal(word, 0x6000_0000, 0xe000_0000)
            &&& !masked_equal(word, 0x8000_0000, 0xe000_0000)
            &&& !masked_equal(word, 0xa000_0000, 0xe000_0000)
            &&& masked_equal(word, 0xc000_0000, 0xe000_0000)
        },
        (masked_equal(word, 0x1000_0000, 0x1c00_0000)
            && masked_equal(word, 0x0100_0000, 0x0380_0000)
            && masked_equal(word, 0xc000_0000, 0xe000_0000)) ==> (word & 0xff80_0000
            == 0xd100_0000),
{
}

/// A word decodes to `SUB (immediate)`, 64-bit, exactly if its bits 23 to 31 are
/// `1 1 0 100010`. Its operands are then the fields of the encoding diagram.
pub proof fn lemma_decode_sub_immediate_64(word: u32)
    ensures
        (decode(word) matches Ok(AArch64Inst::SubImmediate64(_))) <==> (word & 0xff80_0000
            == 0xd100_0000),
        decode(word) matches Ok(AArch64Inst::SubImmediate64(data)) ==> data == (
        AddSubtractImmediateData {
            sf: extract(word, 31..32),
            op: extract(word, 30..31),
            s: extract(word, 29..30),
            sh: extract(word, 22..23),
            imm12: extract(word, 10..22),
            rn: extract(word, 5..10),
            rd: extract(word, 0..5),
        }),
{
    lemma_sub_immediate_64_bits(word);
    lemma_classify_is_scan(main_encoding_table(), word);
    lemma_classify_is_scan(data_processing_immediate_table(), word);
    lemma_classify_is_scan(add_subtract_immediate_table(), word);
    reveal_with_fuel(classify_from, 11);
}

/// The rules on the way to the instruction, against its fixed bits.
proof fn lemma_b_cond_bits(word: u32)
    by (bit_vector)
    ensures
        (word & 0xff00_0010 == 0x5400_0000) ==> {
            &&& !masked_equal(word, 0x0000_0000, 0x9e00_0000)
            &&& !masked_equal(word, 0x8000_0000, 0x9e00_0000)
            &&& !masked_equal(word, 0x0200_0000, 0x1e00_0000)
            &&& !masked_equal(word, 0x0400_0000, 0x1e00_0000)
            &&& !masked_equal(word, 0x0600_0000, 0x1e00_0000)
            &&& !masked_equal(word, 0x1000_0000, 0x1c00_0000)
            &&& masked_equal(word, 0x1400_0000, 0x1c00_0000)
            &&& masked_equal(word, 0x4000_0000, 0xe200_0000)
            &&& masked_equal(word, 0x0000_0000, 0x0100_0010)
        },
        (masked_equal(word, 0x1400_0000, 0x1c00_0000)
            && masked_equal(word, 0x4000_0000, 0xe200_0000)
            && masked_equal(word, 0x0000_0000, 0x0100_0010)) ==> (word & 0xff00_0010
            == 0x5400_0000),
{
}

/// A word decodes to `B.cond` exactly if its bits 24 to 31 are `0101 0100` and its
/// bit 4 is clear. Its operands are then the fields of the encoding diagram; the
/// offset `imm19` is given as it stands in the word, without sign extension.
pub proof fn lemma_decode_b_cond(word: u32)
    ensures
        (decode(word) matches Ok(AArch64Inst::BCond(_))) <==> (word & 0xff00_0010 == 0x5400_0000),
        decode(word) matches Ok(AArch64Inst::BCond(data)) ==> data == (
        ConditionalBranchImmediateData {
            o1: extract(word, 24..25),
            o0: extract(word, 4..5),
            imm19: extract(word, 5..24),
            cond: extract(word, 0..4),
        }),
{
    lemma_b_cond_bits(word);
    lemma_classify_is_scan(main_encoding_table(), word);
    lemma_classify_is_scan(brnch_xcept_gen_sys_instr_table(), word);
    lemma_classify_is_scan(conditional_branch_immediate_table(), word);
    reveal_with_fuel(classify_from, 14);
}

/// The rules on the way to the instruction, against its fixed bits.
proof fn lemma_str_immediate_64_bits(word: u32)
    by (bit_vector)
    ensures
        (word & 0xffc0_0000 == 0xf900_0000) ==> {
            &&& !masked_equal(word, 0x0000_0000, 0x9e00_0000)
            &&& !masked_equal(word, 0x8000_0000, 0x9e00_0000)
            &&& !masked_equal(word, 0x0200_0000, 0x1e00_0000)
            &&& !masked_equal(word, 0x0400_0000, 0x1e00_0000)
            &&& !masked_equal(word, 0x0600_0000, 0x1e00_0000)
            &&& !masked_equal(word, 0x1000_0000, 0x1c00_0000)
            &&& !masked_equal(word, 0x1400_0000, 0x1c00_0000)
            &&& masked_equal(word, 0x0800_0000, 0x0a00_0000)
            &&& !masked_equal(word, 0x0020_0000, 0xb5a0_0000)
            &&& !masked_equal(word, 0x0400_0000, 0xb5bf_0000)
            &&& !masked_equal(word, 0x0480_0000, 0xb5a0_0000)
            &&& !masked_equal(word, 0x0420_0000, 0xb520_0000)
            &&& !masked_equal(word, 0x0500_0000, 0xb59f_0000)
            &&& !masked_equal(word, 0x0580_0000, 0xb580_0000)
            &&& !masked_equal(word, 0x0410_0000, 0xb490_0000)
            &&& !masked_equal(word, 0x0408_0000, 0xb488_0000)
            &&& !masked_equal(word, 0x0404_0000, 0xb484_0000)
            &&& !masked_equal(word, 0x0402_0000, 0xb482_0000)
            &&& !masked_equal(word, 0x0401_0000, 0xb481_0000)
            &&& !masked_equal(word, 0xd120_0000, 0xf520_0000)
            &&& !masked_equal(word, 0x8020_0000, 0xb5a0_0000)
            &&& !masked_equal(word, 0x8400_0000, 0xb400_0000)
            &&& !masked_equal(word, 0x0000_0000, 0x35a0_0000)
            &&& !masked_equal(word, 0x0080_0000, 0x35a0_0000)
            &&& !masked_equal(word, 0x00a0_0000, 0x35a0_0000)
            &&& !masked_equal(word, 0x1100_0000, 0x3520_0c00)
            &&& !masked_equal(word, 0x1000_0000, 0x3100_0000)
            &&& !masked_equal(word, 0x1100_0400, 0x3120_0c00)
            &&& !masked_equal(word, 0x2000_0000, 0x3180_0000)
            &&& !masked_equal(word, 0x2080_0000, 0x3180_0000)
            &&& !masked_equal(word, 0x2100_0000, 0x3180_0000)
            &&& !masked_equal(word, 0x2180_0000, 0x3180_0000)
            &&& !masked_equal(word, 0x3000_0000, 0x3120_0c00)
            &&& !masked_equal(word, 0x3000_0400, 0x3120_0c00)
            &&& !masked_equal(word, 0x3000_0800, 0x3120_0c00)
            &&& !masked_equal(word, 0x3000_0c00, 0x3120_0c00)
            &&& !masked_equal(word, 0x3020_0000, 0x3120_0c00)
            &&& !masked_equal(word, 0x3020_0800, 0x3120_0c00)
            &&& !masked_equal(word, 0x3020_0400, 0x3120_0400)
            &&& masked_equal(word, 0x3100_0000, 0x3100_0000)
            &&& !masked_equal(word, 0x4480_0000, 0x4480_0000)
            &&& !masked_equal(word, 0x0000_0000, 0xc4c0_0000)
            &&& !masked_equal(word, 0x0040_0000, 0xc4c0_0000)
            &&& !masked_equal(word, 0x0080_0000, 0xc4c0_0000)
            &&& !masked_equal(word, 0x00c0_0000, 0xc4c0_0000)
            &&& !masked_equal(word, 0x0400_0000, 0xc4c0_0000)
            &&& !masked_equal(word, 0x0440_0000, 0xc4c0_0000)
            &&& !masked_equal(word, 0x0480_0000, 0xc4c0_0000)
            &&& !masked_equal(word, 0x04c0_0000, 0xc4c0_0000)
            &&& !masked_equal(word, 0x4000_0000, 0xc4c0_0000)
            &&& !masked_equal(word, 0x4040_0000, 0xc4c0_0000)
            &&& !masked_equal(word, 0x4080_0000, 0xc4c0_0000)
            &&& !masked_equal(word, 0x40c0_0000, 0xc4c0_0000)
            &&& !masked_equal(word, 0x4400_0000, 0xc4c0_0000)
            &&& !masked_equal(word, 0x4440_0000, 0xc4c0_0000)
            &&& !masked_equal(word, 0x80c0_0000, 0x84c0_0000)
            &&& !masked_equal(word, 0x8480_0000, 0x8480_0000)
            &&& !masked_equal(word, 0x8000_0000, 0xc4c0_0000)
            &&& !masked_equal(word, 0x8040_0000, 0xc4c0_0000)
            &&& !masked_equal(word, 0x8080_0000, 0xc4c0_0000)
            &&& !masked_equal(word, 0x8400_0000, 0xc4c0_0000)
            &&& !masked_equal(word, 0x8440_0000, 0xc4c0_0000)
            &&& masked_equal(word, 0xc000_0000, 0xc4c0_0000)
        },
        (masked_equal(word, 0x0800_0000, 0x0a00_0000)
            && masked_equal(word, 0x3100_0000, 0x3100_0000)
            && masked_equal(word, 0xc000_0000, 0xc4c0_0000)) ==> (word & 0xffc0_0000
            == 0xf900_0000),
{
}

/// A word decodes to `STR (immediate)`, unsigned offset, 64-bit, exactly if its
/// bits 22 to 31 are `11 111 0 01 00`. Its operands are then the fields of the
/// encoding diagram.
pub proof fn lemma_decode_str_immediate_64(word: u32)
    ensures
        (decode(word) matches Ok(AArch64Inst::STRImmediate64(_))) <==> (word & 0xffc0_0000
            == 0xf900_0000),
        decode(word) matches Ok(AArch64Inst::STRImmediate64(data)) ==> data == (
        LoadStoreRegisterUnsignedImmediateData {
            size: extract(word, 30..32),
            v: extract(word, 26..27),
            opc: extract(word, 22..24),
            imm12: extract(word, 10..22),
            rn: extract(word, 5..10),
            rt: extract(word, 0..5),
        }),
{
    lemma_str_immediate_64_bits(word);
    lemma_classify_is_scan(main_encoding_table(), word);
    lemma_classify_is_scan(loads_and_stores_table(), word);
    lemma_classify_is_scan(load_store_register_unsigned_immediate_table(), word);
    reveal_with_fuel(classify_from, 33);
}

/// The rules on the way to the instruction, against its fixed bits.
proof fn lemma_subs_shifted_register_64_bits(word: u32)
    by (bit_vector)
    ensures
        (word & 0xff20_0000 == 0xeb00_0000 && word & 0x00c0_0000 != 0x00c0_0000) ==> {
            &&& !masked_equal(word, 0x0000_0000, 0x9e00_0000)
            &&& !masked_equal(word, 0x8000_0000, 0x9e00_0000)
            &&& !masked_equal(word, 0x0200_0000, 0x1e00_0000)
            &&& !masked_equal(word, 0x0400_0000, 0x1e00_0000)
            &&& !masked_equal(word, 0x0600_0000, 0x1e00_0000)
            &&& !masked_equal(word, 0x1000_0000, 0x1c00_0000)
            &&& !masked_equal(word, 0x1400_0000, 0x1c00_0000)
            &&& !masked_equal(word, 0x0800_0000, 0x0a00_0000)
            &&& masked_equal(word, 0x0a00_0000, 0x0e00_0000)
            &&& !masked_equal(word, 0x10c0_0000, 0x51e0_0000)
            &&& !masked_equal(word, 0x50c0_0000, 0x51e0_0000)
            &&& !masked_equal(word, 0x0000_0000, 0x1100_0000)
            &&& masked_equal(word, 0x0100_0000, 0x1120_0000)
            &&& !masked_equal(word, 0x00c0_0000, 0x00c0_0000)
            &&& !masked_equal(word, 0x0000_8000, 0x8000_8000)
            &&& !masked_equal(word, 0x0000_0000, 0xe000_0000)
            &&& !masked_equal(word, 0x2000_0000, 0xe000_0000)
            &&& !masked_equal(word, 0x4000_0000, 0xe000_0000)
            &&& !masked_equal(word, 0x6000_0000, 0xe000_0000)
            &&& !masked_equal(word, 0x8000_0000, 0xe000_0000)
            &&& !masked_equal(word, 0xa000_0000, 0xe000_0000)
            &&& !masked_equal(word, 0xc000_0000, 0xe000_0000)
            &&& masked_equal(word, 0xe000_0000, 0xe000_0000)
        },
        (masked_equal(word, 0x0a00_0000, 0x0e00_0000)
            && masked_equal(word, 0x0100_0000, 0x1120_0000)
            && masked_equal(word, 0xe000_0000, 0xe000_0000)
            && !masked_equal(word, 0x00c0_0000, 0x00c0_0000)) ==> (word & 0xff20_0000
            == 0xeb00_0000 && word & 0x00c0_0000 != 0x00c0_0000),
{
}

/// A word decodes to `SUBS (shifted register)`, 64-bit, exactly if its bits 24 to
/// 31 are `1 1 1 01011`, its bit 21 is clear, and its shift field, bits 22 and 23, is
/// not the reserved `11`. Its operands are then the fields of the encoding diagram.
pub proof fn lemma_decode_subs_shifted_register_64(word: u32)
    ensures
        (decode(word) matches Ok(AArch64Inst::SUBSShiftedRegister64(_))) <==> (word & 0xff20_0000
            == 0xeb00_0000 && word & 0x00c0_0000 != 0x00c0_0000),
        decode(word) matches Ok(AArch64Inst::SUBSShiftedRegister64(data)) ==> data == (
        AddSubtractShiftedRegisterData {
            sf: extract(word, 31..32),
            op: extract(word, 30..31),
            s: extract(word, 29..30),
            shift: extract(word, 22..24),
            imm6: extract(word, 10..16),
            rm: extract(word, 16..21),
            rn: extract(word, 5..10),
            rd: extract(word, 0..5),
        }),
{
    lemma_subs_shifted_register_64_bits(word);
    lemma_classify_is_scan(main_encoding_table(), word);
    lemma_classify_is_scan(data_processing_register_table(), word);
    lemma_classify_is_scan(add_subtract_shifted_register_table(), word);
    reveal_with_fuel(classify_from, 13);
}

/// Only three tables leave words without a row: no rule may match a word among
/// the branches, exception generating and system instructions, among the loads
/// and stores, and among the data processing instructions on registers. Every
/// other word is decoded or reported as unsupported.
pub proof fn lemma_decode_no_match(word: u32)
    ensures
        decode(word) == no_match(word) <==> {
            ||| main_encoding_table().classify(word) == Some(
                MainEncodingTable::BranchesExceptionGenNSysInstr,
            ) && brnch_xcept_gen_sys_instr_table().classify(word) is None
            ||| main_encoding_table().classify(word) == Some(MainEncodingTable::LoadsAndStores)
                && loads_and_stores_table().classify(word) is None
            ||| main_encoding_table().classify(word) == Some(
                MainEncodingTable::DataProcessingRegister,
            ) && data_processing_register_table().classify(word) is None
        },
{
    lemma_main_encoding_total(word);
    lemma_data_processing_immediate_total(word);
    lemma_add_subtract_immediate_total(word);
    lemma_conditional_branch_immediate_total(word);
    lemma_load_store_register_unsigned_immediate_total(word);
    lemma_add_subtract_shifted_register_total(word);
}

} // verus!
