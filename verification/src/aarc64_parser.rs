//! The parser: the tables of the decode tree, built from their bit strings,
//! and the walk through them.

use crate::decode_tree::{decode, decode_tree, DecodeTree};
use crate::encoding_tables::{
    add_subtract_immediate_table, add_subtract_shifted_register_table,
    brnch_xcept_gen_sys_instr_table, conditional_branch_immediate_table,
    data_processing_immediate_table, data_processing_register_table,
    load_store_register_unsigned_immediate_table, loads_and_stores_table, main_encoding_table,
};
use crate::error::{DecodeError, EncodingGroup};
use crate::instructions::brnch_xcept_gen_sys_instr::{
    BranchesExceptionGenNSysInstr, ConditionalBranchImmediate, ConditionalBranchImmediateData,
};
use crate::instructions::data_processing_immediate::{
    AddSubtractImmediate, AddSubtractImmediateData, DataProcessingImmediate,
};
use crate::instructions::data_processing_register::{
    AddSubtractShiftedRegister, AddSubtractShiftedRegisterData, DataProcessingRegister,
};
use crate::instructions::loads_and_stores::{
    LoadStoreRegisterUnsignedImmediate, LoadStoreRegisterUnsignedImmediateData, LoadsAndStores,
};
use crate::instructions::MainEncodingTable;
use crate::pattern_matcher::{
    bit_count_upto, bit_mask_upto, bit_value_upto, describes, well_formed_upto, PatternMatcher,
};
use crate::AArch64Inst;
use vstd::prelude::*;

verus! {

/// Decodes instruction words. The tables are built once, by `new`, and never
/// change afterwards.
pub struct AArch64Parser {
    main_encoding_pm: PatternMatcher<MainEncodingTable>,
    data_processing_immediate_pm: PatternMatcher<DataProcessingImmediate>,
    add_subtract_immediate_pm: PatternMatcher<AddSubtractImmediate>,
    brnch_xcept_gen_sys_instr_pm: PatternMatcher<BranchesExceptionGenNSysInstr>,
    conditional_branch_immediate_pm: PatternMatcher<ConditionalBranchImmediate>,
    loads_and_stores_pm: PatternMatcher<LoadsAndStores>,
    load_store_register_unsigned_immediate_pm: PatternMatcher<LoadStoreRegisterUnsignedImmediate>,
    data_processing_register_pm: PatternMatcher<DataProcessingRegister>,
    add_subtract_shifted_register_pm: PatternMatcher<AddSubtractShiftedRegister>,
}

impl View for AArch64Parser {
    type V = DecodeTree;

    closed spec fn view(&self) -> DecodeTree {
        DecodeTree {
            main_encoding: self.main_encoding_pm@,
            data_processing_immediate: self.data_processing_immediate_pm@,
            add_subtract_immediate: self.add_subtract_immediate_pm@,
            brnch_xcept_gen_sys_instr: self.brnch_xcept_gen_sys_instr_pm@,
            conditional_branch_immediate: self.conditional_branch_immediate_pm@,
            loads_and_stores: self.loads_and_stores_pm@,
            load_store_register_unsigned_immediate: self.load_store_register_unsigned_immediate_pm@,
            data_processing_register: self.data_processing_register_pm@,
            add_subtract_shifted_register: self.add_subtract_shifted_register_pm@,
        }
    }
}

/// What the bit strings of the table describe.
proof fn lemma_main_encoding_strings()
    ensures
        describes("0"@, 0x0, 0x1, 1),
        describes("0000"@, 0x0, 0xf, 4),
        describes("1"@, 0x1, 0x1, 1),
        describes("x"@, 0x0, 0x0, 1),
        describes("0001"@, 0x1, 0xf, 4),
        describes("0010"@, 0x2, 0xf, 4),
        describes("0011"@, 0x3, 0xf, 4),
        describes("100x"@, 0x8, 0xe, 4),
        describes("101x"@, 0xa, 0xe, 4),
        describes("x1x0"@, 0x4, 0x5, 4),
        describes("x101"@, 0x5, 0x7, 4),
        describes("x111"@, 0x7, 0x7, 4),
{
    reveal_strlit("0");
    reveal_strlit("0000");
    reveal_strlit("1");
    reveal_strlit("x");
    reveal_strlit("0001");
    reveal_strlit("0010");
    reveal_strlit("0011");
    reveal_strlit("100x");
    reveal_strlit("101x");
    reveal_strlit("x1x0");
    reveal_strlit("x101");
    reveal_strlit("x111");
    reveal_with_fuel(well_formed_upto, 5);
    reveal_with_fuel(bit_count_upto, 5);
    reveal_with_fuel(bit_value_upto, 5);
    reveal_with_fuel(bit_mask_upto, 5);
}

/// Where the fields of a rule come to stand in the word.
/// Where the fields of a rule come to stand in the word.
proof fn lemma_main_encoding_rows()
    by (bit_vector)
    ensures
        forall|op0: u32, op1: u32|
            op0 < 0x2 && op1 < 0x10
                ==> #[trigger] (0u32 | (op0 << 31u8) | (op1 << 25u8))
                == op0 * 0x8000_0000 + op1 * 0x200_0000,
{
}

/// What the bit strings of the table describe.
proof fn lemma_data_processing_immediate_strings()
    ensures
        describes("00x"@, 0x0, 0x6, 3),
        describes("010"@, 0x2, 0x7, 3),
        describes("011"@, 0x3, 0x7, 3),
        describes("100"@, 0x4, 0x7, 3),
        describes("101"@, 0x5, 0x7, 3),
        describes("110"@, 0x6, 0x7, 3),
        describes("111"@, 0x7, 0x7, 3),
{
    reveal_strlit("00x");
    reveal_strlit("010");
    reveal_strlit("011");
    reveal_strlit("100");
    reveal_strlit("101");
    reveal_strlit("110");
    reveal_strlit("111");
    reveal_with_fuel(well_formed_upto, 4);
    reveal_with_fuel(bit_count_upto, 4);
    reveal_with_fuel(bit_value_upto, 4);
    reveal_with_fuel(bit_mask_upto, 4);
}

/// Where the fields of a rule come to stand in the word.
/// Where the fields of a rule come to stand in the word.
proof fn lemma_data_processing_immediate_rows()
    by (bit_vector)
    ensures
        forall|op0: u32|
            op0 < 0x8
                ==> #[trigger] (0u32 | (op0 << 23u8))
                == op0 * 0x80_0000,
{
}

/// What the bit strings of the table describe.
proof fn lemma_add_subtract_immediate_strings()
    ensures
        describes("0"@, 0x0, 0x1, 1),
        describes("x"@, 0x0, 0x0, 1),
        describes("xxxx_xxxx_xxxx"@, 0x0, 0x0, 12),
        describes("xxxxx"@, 0x0, 0x0, 5),
        describes("1"@, 0x1, 0x1, 1),
{
    reveal_strlit("0");
    reveal_strlit("x");
    reveal_strlit("xxxx_xxxx_xxxx");
    reveal_strlit("xxxxx");
    reveal_strlit("1");
    reveal_with_fuel(well_formed_upto, 15);
    reveal_with_fuel(bit_count_upto, 15);
    reveal_with_fuel(bit_value_upto, 15);
    reveal_with_fuel(bit_mask_upto, 15);
}

/// Where the fields of a rule come to stand in the word.
/// Where the fields of a rule come to stand in the word.
proof fn lemma_add_subtract_immediate_rows()
    by (bit_vector)
    ensures
        forall|sf: u32, op: u32, s: u32, sh: u32, imm12: u32, rn: u32, rd: u32|
            sf < 0x2 && op < 0x2 && s < 0x2 && sh < 0x2 && imm12 < 0x1000 && rn < 0x20 && rd < 0x20
                ==> #[trigger] (0u32 | (sf << 31u8) | (op << 30u8) | (s << 29u8) | (sh << 22u8)
                    | (imm12 << 10u8) | (rn << 5u8) | (rd << 0u8))
                == sf * 0x8000_0000 + op * 0x4000_0000 + s * 0x2000_0000 + sh * 0x40_0000
                    + imm12 * 0x400 + rn * 0x20 + rd,
{
}

/// What the bit strings of the table describe.
proof fn lemma_brnch_xcept_gen_sys_instr_strings()
    ensures
        describes("010"@, 0x2, 0x7, 3),
        describes("0x_xxxx_xxxx_xxxx"@, 0x0, 0x2000, 14),
        describes("xxxxx"@, 0x0, 0x0, 5),
        describes("110"@, 0x6, 0x7, 3),
        describes("00_xxxx_xxxx_xxxx"@, 0x0, 0x3000, 14),
        describes("01_0000_0011_0001"@, 0x1031, 0x3fff, 14),
        describes("01_0000_0011_0010"@, 0x1032, 0x3fff, 14),
        describes("11111"@, 0x1f, 0x1f, 5),
        describes("01_0000_0011_0011"@, 0x1033, 0x3fff, 14),
        describes("01_0000_0xxx_0100"@, 0x1004, 0x3f8f, 14),
        describes("01_0010_0xxx_xxxx"@, 0x1200, 0x3f80, 14),
        describes("01_00x0_1xxx_xxxx"@, 0x1080, 0x3d80, 14),
        describes("01_00x1_xxxx_xxxx"@, 0x1100, 0x3d00, 14),
        describes("1x_xxxx_xxxx_xxxx"@, 0x2000, 0x2000, 14),
        describes("x00"@, 0x0, 0x3, 3),
        describes("xx_xxxx_xxxx_xxxx"@, 0x0, 0x0, 14),
        describes("x01"@, 0x1, 0x3, 3),
{
    reveal_strlit("010");
    reveal_strlit("0x_xxxx_xxxx_xxxx");
    reveal_strlit("xxxxx");
    reveal_strlit("110");
    reveal_strlit("00_xxxx_xxxx_xxxx");
    reveal_strlit("01_0000_0011_0001");
    reveal_strlit("01_0000_0011_0010");
    reveal_strlit("11111");
    reveal_strlit("01_0000_0011_0011");
    reveal_strlit("01_0000_0xxx_0100");
    reveal_strlit("01_0010_0xxx_xxxx");
    reveal_strlit("01_00x0_1xxx_xxxx");
    reveal_strlit("01_00x1_xxxx_xxxx");
    reveal_strlit("1x_xxxx_xxxx_xxxx");
    reveal_strlit("x00");
    reveal_strlit("xx_xxxx_xxxx_xxxx");
    reveal_strlit("x01");
    reveal_with_fuel(well_formed_upto, 18);
    reveal_with_fuel(bit_count_upto, 18);
    reveal_with_fuel(bit_value_upto, 18);
    reveal_with_fuel(bit_mask_upto, 18);
}

/// Where the fields of a rule come to stand in the word.
/// Where the fields of a rule come to stand in the word.
proof fn lemma_brnch_xcept_gen_sys_instr_rows()
    by (bit_vector)
    ensures
        forall|op0: u32, op1: u32, op2: u32|
            op0 < 0x8 && op1 < 0x4000 && op2 < 0x20
                ==> #[trigger] (0u32 | (op0 << 29u8) | (op1 << 12u8) | (op2 << 0u8))
                == op0 * 0x2000_0000 + op1 * 0x1000 + op2,
{
}

/// What the bit strings of the table describe.
proof fn lemma_conditional_branch_immediate_strings()
    ensures
        describes("0"@, 0x0, 0x1, 1),
        describes("xxx_xxxx_xxxx_xxxx_xxxx"@, 0x0, 0x0, 19),
        describes("xxxx"@, 0x0, 0x0, 4),
        describes("1"@, 0x1, 0x1, 1),
        describes("x"@, 0x0, 0x0, 1),
{
    reveal_strlit("0");
    reveal_strlit("xxx_xxxx_xxxx_xxxx_xxxx");
    reveal_strlit("xxxx");
    reveal_strlit("1");
    reveal_strlit("x");
    reveal_with_fuel(well_formed_upto, 24);
    reveal_with_fuel(bit_count_upto, 24);
    reveal_with_fuel(bit_value_upto, 24);
    reveal_with_fuel(bit_mask_upto, 24);
}

/// Where the fields of a rule come to stand in the word.
/// Where the fields of a rule come to stand in the word.
proof fn lemma_conditional_branch_immediate_rows()
    by (bit_vector)
    ensures
        forall|o1: u32, o0: u32, imm19: u32, cond: u32|
            o1 < 0x2 && o0 < 0x2 && imm19 < 0x8_0000 && cond < 0x10
                ==> #[trigger] (0u32 | (o1 << 24u8) | (o0 << 4u8) | (imm19 << 5u8) | (cond << 0u8))
                == o1 * 0x100_0000 + o0 * 0x10 + imm19 * 0x20 + cond,
{
}

/// What the bit strings of the table describe.
proof fn lemma_loads_and_stores_strings()
    ensures
        describes("0x00"@, 0x0, 0xb, 4),
        describes("0"@, 0x0, 0x1, 1),
        describes("00"@, 0x0, 0x3, 2),
        describes("1xx_xxx"@, 0x20, 0x20, 6),
        describes("xx"@, 0x0, 0x0, 2),
        describes("1"@, 0x1, 0x1, 1),
        describes("000_000"@, 0x0, 0x3f, 6),
        describes("01"@, 0x1, 0x3, 2),
        describes("0xx_xxx"@, 0x0, 0x20, 6),
        describes("0x"@, 0x0, 0x2, 2),
        describes("10"@, 0x2, 0x3, 2),
        describes("x00_000"@, 0x0, 0x1f, 6),
        describes("11"@, 0x3, 0x3, 2),
        describes("xxx_xxx"@, 0x0, 0x0, 6),
        describes("x0"@, 0x0, 0x1, 2),
        describes("x1x_xxx"@, 0x10, 0x10, 6),
        describes("xx1_xxx"@, 0x8, 0x8, 6),
        describes("xxx_1xx"@, 0x4, 0x4, 6),
        describes("xxx_x1x"@, 0x2, 0x2, 6),
        describes("xxx_xx1"@, 0x1, 0x1, 6),
        describes("1101"@, 0xd, 0xf, 4),
        describes("1x"@, 0x2, 0x2, 2),
        describes("1x00"@, 0x8, 0xb, 4),
        describes("xx00"@, 0x0, 0x3, 4),
        describes("xx01"@, 0x1, 0x3, 4),
        describes("x"@, 0x0, 0x0, 1),
        describes("xx10"@, 0x2, 0x3, 4),
        describes("xx11"@, 0x3, 0x3, 4),
        describes("x1"@, 0x1, 0x1, 2),
{
    reveal_strlit("0x00");
    reveal_strlit("0");
    reveal_strlit("00");
    reveal_strlit("1xx_xxx");
    reveal_strlit("xx");
    reveal_strlit("1");
    reveal_strlit("000_000");
    reveal_strlit("01");
    reveal_strlit("0xx_xxx");
    reveal_strlit("0x");
    reveal_strlit("10");
    reveal_strlit("x00_000");
    reveal_strlit("11");
    reveal_strlit("xxx_xxx");
    reveal_strlit("x0");
    reveal_strlit("x1x_xxx");
    reveal_strlit("xx1_xxx");
    reveal_strlit("xxx_1xx");
    reveal_strlit("xxx_x1x");
    reveal_strlit("xxx_xx1");
    reveal_strlit("1101");
    reveal_strlit("1x");
    reveal_strlit("1x00");
    reveal_strlit("xx00");
    reveal_strlit("xx01");
    reveal_strlit("x");
    reveal_strlit("xx10");
    reveal_strlit("xx11");
    reveal_strlit("x1");
    reveal_with_fuel(well_formed_upto, 8);
    reveal_with_fuel(bit_count_upto, 8);
    reveal_with_fuel(bit_value_upto, 8);
    reveal_with_fuel(bit_mask_upto, 8);
}

/// Where the fields of a rule come to stand in the word.
/// Where the fields of a rule come to stand in the word.
proof fn lemma_loads_and_stores_rows()
    by (bit_vector)
    ensures
        forall|op0: u32, op1: u32, op2: u32, op3: u32, op4: u32|
            op0 < 0x10 && op1 < 0x2 && op2 < 0x4 && op3 < 0x40 && op4 < 0x4
                ==> #[trigger] (0u32 | (op0 << 28u8) | (op1 << 26u8) | (op2 << 23u8)
                    | (op3 << 16u8) | (op4 << 10u8))
                == op0 * 0x1000_0000 + op1 * 0x400_0000 + op2 * 0x80_0000 + op3 * 0x1_0000
                    + op4 * 0x400,
{
}

/// What the bit strings of the table describe.
proof fn lemma_load_store_register_unsigned_immediate_strings()
    ensures
        describes("x1"@, 0x1, 0x1, 2),
        describes("1"@, 0x1, 0x1, 1),
        describes("1x"@, 0x2, 0x2, 2),
        describes("xxxx_xxxx_xxxx"@, 0x0, 0x0, 12),
        describes("xxxxx"@, 0x0, 0x0, 5),
        describes("00"@, 0x0, 0x3, 2),
        describes("0"@, 0x0, 0x1, 1),
        describes("01"@, 0x1, 0x3, 2),
        describes("10"@, 0x2, 0x3, 2),
        describes("11"@, 0x3, 0x3, 2),
{
    reveal_strlit("x1");
    reveal_strlit("1");
    reveal_strlit("1x");
    reveal_strlit("xxxx_xxxx_xxxx");
    reveal_strlit("xxxxx");
    reveal_strlit("00");
    reveal_strlit("0");
    reveal_strlit("01");
    reveal_strlit("10");
    reveal_strlit("11");
    reveal_with_fuel(well_formed_upto, 15);
    reveal_with_fuel(bit_count_upto, 15);
    reveal_with_fuel(bit_value_upto, 15);
    reveal_with_fuel(bit_mask_upto, 15);
}

/// Where the fields of a rule come to stand in the word.
/// Where the fields of a rule come to stand in the word.
proof fn lemma_load_store_register_unsigned_immediate_rows()
    by (bit_vector)
    ensures
        forall|size: u32, v: u32, opc: u32, imm12: u32, rn: u32, rt: u32|
            size < 0x4 && v < 0x2 && opc < 0x4 && imm12 < 0x1000 && rn < 0x20 && rt < 0x20
                ==> #[trigger] (0u32 | (size << 30u8) | (v << 26u8) | (opc << 22u8)
                    | (imm12 << 10u8) | (rn << 5u8) | (rt << 0u8))
                == size * 0x4000_0000 + v * 0x400_0000 + opc * 0x40_0000 + imm12 * 0x400 + rn * 0x20
                    + rt,
{
}

/// What the bit strings of the table describe.
proof fn lemma_data_processing_register_strings()
    ensures
        describes("0"@, 0x0, 0x1, 1),
        describes("1"@, 0x1, 0x1, 1),
        describes("0110"@, 0x6, 0xf, 4),
        describes("xxx_xxx"@, 0x0, 0x0, 6),
        describes("x"@, 0x0, 0x0, 1),
        describes("0xxx"@, 0x0, 0x8, 4),
        describes("1xx0"@, 0x8, 0x9, 4),
        describes("1xx1"@, 0x9, 0x9, 4),
        describes("0000"@, 0x0, 0xf, 4),
        describes("000_000"@, 0x0, 0x3f, 6),
        describes("x00_001"@, 0x1, 0x1f, 6),
        describes("xx0_010"@, 0x2, 0xf, 6),
        describes("0010"@, 0x2, 0xf, 4),
        describes("xxx_x0x"@, 0x0, 0x2, 6),
        describes("xxx_x1x"@, 0x2, 0x2, 6),
        describes("0100"@, 0x4, 0xf, 4),
        describes("1xxx"@, 0x8, 0x8, 4),
{
    reveal_strlit("0");
    reveal_strlit("1");
    reveal_strlit("0110");
    reveal_strlit("xxx_xxx");
    reveal_strlit("x");
    reveal_strlit("0xxx");
    reveal_strlit("1xx0");
    reveal_strlit("1xx1");
    reveal_strlit("0000");
    reveal_strlit("000_000");
    reveal_strlit("x00_001");
    reveal_strlit("xx0_010");
    reveal_strlit("0010");
    reveal_strlit("xxx_x0x");
    reveal_strlit("xxx_x1x");
    reveal_strlit("0100");
    reveal_strlit("1xxx");
    reveal_with_fuel(well_formed_upto, 8);
    reveal_with_fuel(bit_count_upto, 8);
    reveal_with_fuel(bit_value_upto, 8);
    reveal_with_fuel(bit_mask_upto, 8);
}

/// Where the fields of a rule come to stand in the word.
/// Where the fields of a rule come to stand in the word.
proof fn lemma_data_processing_register_rows()
    by (bit_vector)
    ensures
        forall|op0: u32, op1: u32, op2: u32, op3: u32|
            op0 < 0x2 && op1 < 0x2 && op2 < 0x10 && op3 < 0x40
                ==> #[trigger] (0u32 | (op0 << 30u8) | (op1 << 28u8) | (op2 << 21u8)
                    | (op3 << 10u8))
                == op0 * 0x4000_0000 + op1 * 0x1000_0000 + op2 * 0x20_0000 + op3 * 0x400,
{
}

/// What the bit strings of the table describe.
proof fn lemma_add_subtract_shifted_register_strings()
    ensures
        describes("x"@, 0x0, 0x0, 1),
        describes("11"@, 0x3, 0x3, 2),
        describes("xxx_xxx"@, 0x0, 0x0, 6),
        describes("xxxxx"@, 0x0, 0x0, 5),
        describes("0"@, 0x0, 0x1, 1),
        describes("xx"@, 0x0, 0x0, 2),
        describes("1xx_xxx"@, 0x20, 0x20, 6),
        describes("1"@, 0x1, 0x1, 1),
{
    reveal_strlit("x");
    reveal_strlit("11");
    reveal_strlit("xxx_xxx");
    reveal_strlit("xxxxx");
    reveal_strlit("0");
    reveal_strlit("xx");
    reveal_strlit("1xx_xxx");
    reveal_strlit("1");
    reveal_with_fuel(well_formed_upto, 8);
    reveal_with_fuel(bit_count_upto, 8);
    reveal_with_fuel(bit_value_upto, 8);
    reveal_with_fuel(bit_mask_upto, 8);
}

/// Where the fields of a rule come to stand in the word.
/// Where the fields of a rule come to stand in the word.
proof fn lemma_add_subtract_shifted_register_rows()
    by (bit_vector)
    ensures
        forall|sf: u32, op: u32, s: u32, shift: u32, imm6: u32, rm: u32, rn: u32, rd: u32|
            sf < 0x2 && op < 0x2 && s < 0x2 && shift < 0x4 && imm6 < 0x40 && rm < 0x20 && rn < 0x20
                && rd < 0x20
                ==> #[trigger] (0u32 | (sf << 31u8) | (op << 30u8) | (s << 29u8) | (shift << 22u8)
                    | (imm6 << 10u8) | (rm << 16u8) | (rn << 5u8) | (rd << 0u8))
                == sf * 0x8000_0000 + op * 0x4000_0000 + s * 0x2000_0000 + shift * 0x40_0000
                    + imm6 * 0x400 + rm * 0x1_0000 + rn * 0x20 + rd,
{
}

impl AArch64Parser {
    #[verifier::type_invariant]
    spec fn inv(&self) -> bool {
        self@ == decode_tree()
    }

    /// Builds the tables of the A64 decode tree.
    pub fn new() -> (parser: Self)
        ensures
            parser@ == decode_tree(),
    {
        AArch64Parser {
            main_encoding_pm: Self::main_encoding_pm(),
            data_processing_immediate_pm: Self::data_processing_immediate_pm(),
            add_subtract_immediate_pm: Self::add_subtract_immediate_pm(),
            brnch_xcept_gen_sys_instr_pm: Self::brnch_xcept_gen_sys_instr_pm(),
            conditional_branch_immediate_pm: Self::conditional_branch_immediate_pm(),
            loads_and_stores_pm: Self::loads_and_stores_pm(),
            load_store_register_unsigned_immediate_pm:
                Self::load_store_register_unsigned_immediate_pm(),
            data_processing_register_pm: Self::data_processing_register_pm(),
            add_subtract_shifted_register_pm: Self::add_subtract_shifted_register_pm(),
        }
    }

    /// The top-level encoding table.
    fn main_encoding_pm() -> (pm: PatternMatcher<MainEncodingTable>)
        ensures
            pm@ == main_encoding_table(),
    {
        proof {
            lemma_main_encoding_strings();
            lemma_main_encoding_rows();
        }
        let b = PatternMatcher::<MainEncodingTable>::builder()
            .args("op0", 31..32)
            .args("op1", 25..29)
            .inst(MainEncodingTable::Reserved)
            .with("0")
            .with("0000");
        assert(b.draft().holds(0x0000_0000, 0x9e00_0000));
        let b = b.inst(MainEncodingTable::SmeEncodings)
            .with("1")
            .with("0000");
        assert(b.draft().holds(0x8000_0000, 0x9e00_0000));
        let b = b.inst(MainEncodingTable::Unallocated0)
            .with("x")
            .with("0001");
        assert(b.draft().holds(0x0200_0000, 0x1e00_0000));
        let b = b.inst(MainEncodingTable::SveEncodings)
            .with("x")
            .with("0010");
        assert(b.draft().holds(0x0400_0000, 0x1e00_0000));
        let b = b.inst(MainEncodingTable::Unallocated1)
            .with("x")
            .with("0011");
        assert(b.draft().holds(0x0600_0000, 0x1e00_0000));
        let b = b.inst(MainEncodingTable::DataProcessingImmediate)
            .with("x")
            .with("100x");
        assert(b.draft().holds(0x1000_0000, 0x1c00_0000));
        let b = b.inst(MainEncodingTable::BranchesExceptionGenNSysInstr)
            .with("x")
            .with("101x");
        assert(b.draft().holds(0x1400_0000, 0x1c00_0000));
        let b = b.inst(MainEncodingTable::LoadsAndStores)
            .with("x")
            .with("x1x0");
        assert(b.draft().holds(0x0800_0000, 0x0a00_0000));
        let b = b.inst(MainEncodingTable::DataProcessingRegister)
            .with("x")
            .with("x101");
        assert(b.draft().holds(0x0a00_0000, 0x0e00_0000));
        let b = b.inst(MainEncodingTable::DataProcessingScalarFloatingPointAndAdvancedSIMD)
            .with("x")
            .with("x111");
        assert(b.draft().holds(0x0e00_0000, 0x0e00_0000));
        match b.build() {
            Ok(pm) => {
                proof {
                    assert(pm@.fields =~= main_encoding_table().fields);
                    assert(pm@.rules =~= main_encoding_table().rules);
                }
                pm
            },
            Err(_) => unreached(),
        }
    }

    /// The table of data processing with an immediate operand.
    fn data_processing_immediate_pm() -> (pm: PatternMatcher<DataProcessingImmediate>)
        ensures
            pm@ == data_processing_immediate_table(),
    {
        proof {
            lemma_data_processing_immediate_strings();
            lemma_data_processing_immediate_rows();
        }
        let b = PatternMatcher::<DataProcessingImmediate>::builder()
            .args("op0", 23..26)
            .inst(DataProcessingImmediate::PCrelAddressing)
            .with("00x");
        assert(b.draft().holds(0x0000_0000, 0x0300_0000));
        let b = b.inst(DataProcessingImmediate::AddSubtractImmediate)
            .with("010");
        assert(b.draft().holds(0x0100_0000, 0x0380_0000));
        let b = b.inst(DataProcessingImmediate::AddSubtractImmediateWithTags)
            .with("011");
        assert(b.draft().holds(0x0180_0000, 0x0380_0000));
        let b = b.inst(DataProcessingImmediate::LogicalImmediate)
            .with("100");
        assert(b.draft().holds(0x0200_0000, 0x0380_0000));
        let b = b.inst(DataProcessingImmediate::MoveWideImmediate)
            .with("101");
        assert(b.draft().holds(0x0280_0000, 0x0380_0000));
        let b = b.inst(DataProcessingImmediate::Bitfield)
            .with("110");
        assert(b.draft().holds(0x0300_0000, 0x0380_0000));
        let b = b.inst(DataProcessingImmediate::Extract)
            .with("111");
        assert(b.draft().holds(0x0380_0000, 0x0380_0000));
        match b.build() {
            Ok(pm) => {
                proof {
                    assert(pm@.fields =~= data_processing_immediate_table().fields);
                    assert(pm@.rules =~= data_processing_immediate_table().rules);
                }
                pm
            },
            Err(_) => unreached(),
        }
    }

    /// The table of additions and subtractions of an immediate. The operand fields
    /// are declared after the fields that tell the rows apart, and are free in every row.
    fn add_subtract_immediate_pm() -> (pm: PatternMatcher<AddSubtractImmediate>)
        ensures
            pm@ == add_subtract_immediate_table(),
    {
        proof {
            lemma_add_subtract_immediate_strings();
            lemma_add_subtract_immediate_rows();
        }
        let b = PatternMatcher::<AddSubtractImmediate>::builder()
            .args("sf", 31..32)
            .args("op", 30..31)
            .args("S", 29..30)
            .args("sh", 22..23)
            .args("imm12", 10..22)
            .args("Rn", 5..10)
            .args("Rd", 0..5)
            .inst(AddSubtractImmediate::ADDImmediate32)
            .with("0")
            .with("0")
            .with("0")
            .with("x")
            .with("xxxx_xxxx_xxxx")
            .with("xxxxx")
            .with("xxxxx");
        assert(b.draft().holds(0x0000_0000, 0xe000_0000));
        let b = b.inst(AddSubtractImmediate::ADDSImmediate32)
            .with("0")
            .with("0")
            .with("1")
            .with("x")
            .with("xxxx_xxxx_xxxx")
            .with("xxxxx")
            .with("xxxxx");
        assert(b.draft().holds(0x2000_0000, 0xe000_0000));
        let b = b.inst(AddSubtractImmediate::SUBImmediate32)
            .with("0")
            .with("1")
            .with("0")
            .with("x")
            .with("xxxx_xxxx_xxxx")
            .with("xxxxx")
            .with("xxxxx");
        assert(b.draft().holds(0x4000_0000, 0xe000_0000));
        let b = b.inst(AddSubtractImmediate::SUBSImmediate32)
            .with("0")
            .with("1")
            .with("1")
            .with("x")
            .with("xxxx_xxxx_xxxx")
            .with("xxxxx")
            .with("xxxxx");
        assert(b.draft().holds(0x6000_0000, 0xe000_0000));
        let b = b.inst(AddSubtractImmediate::ADDImmediate64)
            .with("1")
            .with("0")
            .with("0")
            .with("x")
            .with("xxxx_xxxx_xxxx")
            .with("xxxxx")
            .with("xxxxx");
        assert(b.draft().holds(0x8000_0000, 0xe000_0000));
        let b = b.inst(AddSubtractImmediate::ADDSImmediate64)
            .with("1")
            .with("0")
            .with("1")
            .with("x")
            .with("xxxx_xxxx_xxxx")
            .with("xxxxx")
            .with("xxxxx");
        assert(b.draft().holds(0xa000_0000, 0xe000_0000));
        let b = b.inst(AddSubtractImmediate::SUBImmediate64)
            .with("1")
            .with("1")
            .with("0")
            .with("x")
            .with("xxxx_xxxx_xxxx")
            .with("xxxxx")
            .with("xxxxx");
        assert(b.draft().holds(0xc000_0000, 0xe000_0000));
        let b = b.inst(AddSubtractImmediate::SUBSImmediate64)
            .with("1")
            .with("1")
            .with("1")
            .with("x")
            .with("xxxx_xxxx_xxxx")
            .with("xxxxx")
            .with("xxxxx");
        assert(b.draft().holds(0xe000_0000, 0xe000_0000));
        match b.build() {
            Ok(pm) => {
                proof {
                    assert(pm@.fields =~= add_subtract_immediate_table().fields);
                    assert(pm@.rules =~= add_subtract_immediate_table().rules);
                }
                pm
            },
            Err(_) => unreached(),
        }
    }

    /// The table of branches, exception generating and system instructions.
    fn brnch_xcept_gen_sys_instr_pm() -> (pm: PatternMatcher<BranchesExceptionGenNSysInstr>)
        ensures
            pm@ == brnch_xcept_gen_sys_instr_table(),
    {
        proof {
            lemma_brnch_xcept_gen_sys_instr_strings();
            lemma_brnch_xcept_gen_sys_instr_rows();
        }
        let b = PatternMatcher::<BranchesExceptionGenNSysInstr>::builder()
            .args("op0", 29..32)
            .args("op1", 12..26)
            .args("op2", 0..5)
            .inst(BranchesExceptionGenNSysInstr::ConditionalBranchImmediate)
            .with("010")
            .with("0x_xxxx_xxxx_xxxx")
            .with("xxxxx");
        assert(b.draft().holds(0x4000_0000, 0xe200_0000));
        let b = b.inst(BranchesExceptionGenNSysInstr::ExceptionGeneration)
            .with("110")
            .with("00_xxxx_xxxx_xxxx")
            .with("xxxxx");
        assert(b.draft().holds(0xc000_0000, 0xe300_0000));
        let b = b.inst(BranchesExceptionGenNSysInstr::SystemInstructionsWithRegisterArgument)
            .with("110")
            .with("01_0000_0011_0001")
            .with("xxxxx");
        assert(b.draft().holds(0xc103_1000, 0xe3ff_f000));
        let b = b.inst(BranchesExceptionGenNSysInstr::Hints)
            .with("110")
            .with("01_0000_0011_0010")
            .with("11111");
        assert(b.draft().holds(0xc103_201f, 0xe3ff_f01f));
        let b = b.inst(BranchesExceptionGenNSysInstr::Barriers)
            .with("110")
            .with("01_0000_0011_0011")
            .with("xxxxx");
        assert(b.draft().holds(0xc103_3000, 0xe3ff_f000));
        let b = b.inst(BranchesExceptionGenNSysInstr::PSTATE)
            .with("110")
            .with("01_0000_0xxx_0100")
            .with("xxxxx");
        assert(b.draft().holds(0xc100_4000, 0xe3f8_f000));
        let b = b.inst(BranchesExceptionGenNSysInstr::SystemWithResult)
            .with("110")
            .with("01_0010_0xxx_xxxx")
            .with("xxxxx");
        assert(b.draft().holds(0xc120_0000, 0xe3f8_0000));
        let b = b.inst(BranchesExceptionGenNSysInstr::SystemInstructions)
            .with("110")
            .with("01_00x0_1xxx_xxxx")
            .with("xxxxx");
        assert(b.draft().holds(0xc108_0000, 0xe3d8_0000));
        let b = b.inst(BranchesExceptionGenNSysInstr::SystemRegisterMove)
            .with("110")
            .with("01_00x1_xxxx_xxxx")
            .with("xxxxx");
        assert(b.draft().holds(0xc110_0000, 0xe3d0_0000));
        let b = b.inst(BranchesExceptionGenNSysInstr::UnconditionalBranchRegister)
            .with("110")
            .with("1x_xxxx_xxxx_xxxx")
            .with("xxxxx");
        assert(b.draft().holds(0xc200_0000, 0xe200_0000));
        let b = b.inst(BranchesExceptionGenNSysInstr::UnconditionalBranchImmediate)
            .with("x00")
            .with("xx_xxxx_xxxx_xxxx")
            .with("xxxxx");
        assert(b.draft().holds(0x0000_0000, 0x6000_0000));
        let b = b.inst(BranchesExceptionGenNSysInstr::CompareAndBranchImmediate)
            .with("x01")
            .with("0x_xxxx_xxxx_xxxx")
            .with("xxxxx");
        assert(b.draft().holds(0x2000_0000, 0x6200_0000));
        let b = b.inst(BranchesExceptionGenNSysInstr::TestAndBranchImmediate)
            .with("x01")
            .with("1x_xxxx_xxxx_xxxx")
            .with("xxxxx");
        assert(b.draft().holds(0x2200_0000, 0x6200_0000));
        match b.build() {
            Ok(pm) => {
                proof {
                    assert(pm@.fields =~= brnch_xcept_gen_sys_instr_table().fields);
                    assert(pm@.rules =~= brnch_xcept_gen_sys_instr_table().rules);
                }
                pm
            },
            Err(_) => unreached(),
        }
    }

    /// The table of conditional branches to an immediate offset.
    fn conditional_branch_immediate_pm() -> (pm: PatternMatcher<ConditionalBranchImmediate>)
        ensures
            pm@ == conditional_branch_immediate_table(),
    {
        proof {
            lemma_conditional_branch_immediate_strings();
            lemma_conditional_branch_immediate_rows();
        }
        let b = PatternMatcher::<ConditionalBranchImmediate>::builder()
            .args("o1", 24..25)
            .args("o0", 4..5)
            .args("imm19", 5..24)
            .args("cond", 0..4)
            .inst(ConditionalBranchImmediate::BCond)
            .with("0")
            .with("0")
            .with("xxx_xxxx_xxxx_xxxx_xxxx")
            .with("xxxx");
        assert(b.draft().holds(0x0000_0000, 0x0100_0010));
        let b = b.inst(ConditionalBranchImmediate::BcCond)
            .with("0")
            .with("1")
            .with("xxx_xxxx_xxxx_xxxx_xxxx")
            .with("xxxx");
        assert(b.draft().holds(0x0000_0010, 0x0100_0010));
        let b = b.inst(ConditionalBranchImmediate::Unallocated)
            .with("1")
            .with("x")
            .with("xxx_xxxx_xxxx_xxxx_xxxx")
            .with("xxxx");
        assert(b.draft().holds(0x0100_0000, 0x0100_0000));
        match b.build() {
            Ok(pm) => {
                proof {
                    assert(pm@.fields =~= conditional_branch_immediate_table().fields);
                    assert(pm@.rules =~= conditional_branch_immediate_table().rules);
                }
                pm
            },
            Err(_) => unreached(),
        }
    }

    /// The table of loads and stores.
    fn loads_and_stores_pm() -> (pm: PatternMatcher<LoadsAndStores>)
        ensures
            pm@ == loads_and_stores_table(),
    {
        proof {
            lemma_loads_and_stores_strings();
            lemma_loads_and_stores_rows();
        }
        let b = PatternMatcher::<LoadsAndStores>::builder()
            .args("op0", 28..32)
            .args("op1", 26..27)
            .args("op2", 23..25)
            .args("op3", 16..22)
            .args("op4", 10..12)
            .inst(LoadsAndStores::CompareAndSwapPair)
            .with("0x00")
            .with("0")
            .with("00")
            .with("1xx_xxx")
            .with("xx");
        assert(b.draft().holds(0x0020_0000, 0xb5a0_0000));
        let b = b.inst(LoadsAndStores::AdvancedSIMDLoadStoreMultipleStructures)
            .with("0x00")
            .with("1")
            .with("00")
            .with("000_000")
            .with("xx");
        assert(b.draft().holds(0x0400_0000, 0xb5bf_0000));
        let b = b.inst(LoadsAndStores::AdvancedSIMDLoadStoreMultipleStructuresPostIndexed)
            .with("0x00")
            .with("1")
            .with("01")
            .with("0xx_xxx")
            .with("xx");
        assert(b.draft().holds(0x0480_0000, 0xb5a0_0000));
        let b = b.inst(LoadsAndStores::Unallocated0)
            .with("0x00")
            .with("1")
            .with("0x")
            .with("1xx_xxx")
            .with("xx");
        assert(b.draft().holds(0x0420_0000, 0xb520_0000));
        let b = b.inst(LoadsAndStores::AdvancedSIMDLoadStoreSingleStructure)
            .with("0x00")
            .with("1")
            .with("10")
            .with("x00_000")
            .with("xx");
        assert(b.draft().holds(0x0500_0000, 0xb59f_0000));
        let b = b.inst(LoadsAndStores::AdvancedSIMDLoadStoreSingleStructurePostIndexed)
            .with("0x00")
            .with("1")
            .with("11")
            .with("xxx_xxx")
            .with("xx");
        assert(b.draft().holds(0x0580_0000, 0xb580_0000));
        let b = b.inst(LoadsAndStores::Unallocated1)
            .with("0x00")
            .with("1")
            .with("x0")
            .with("x1x_xxx")
            .with("xx");
        assert(b.draft().holds(0x0410_0000, 0xb490_0000));
        let b = b.inst(LoadsAndStores::Unallocated2)
            .with("0x00")
            .with("1")
            .with("x0")
            .with("xx1_xxx")
            .with("xx");
        assert(b.draft().holds(0x0408_0000, 0xb488_0000));
        let b = b.inst(LoadsAndStores::Unallocated3)
            .with("0x00")
            .with("1")
            .with("x0")
            .with("xxx_1xx")
            .with("xx");
        assert(b.draft().holds(0x0404_0000, 0xb484_0000));
        let b = b.inst(LoadsAndStores::Unallocated4)
            .with("0x00")
            .with("1")
            .with("x0")
            .with("xxx_x1x")
            .with("xx");
        assert(b.draft().holds(0x0402_0000, 0xb482_0000));
        let b = b.inst(LoadsAndStores::Unallocated5)
            .with("0x00")
            .with("1")
            .with("x0")
            .with("xxx_xx1")
            .with("xx");
        assert(b.draft().holds(0x0401_0000, 0xb481_0000));
        let b = b.inst(LoadsAndStores::LoadStoreMemoryTags)
            .with("1101")
            .with("0")
            .with("1x")
            .with("1xx_xxx")
            .with("xx");
        assert(b.draft().holds(0xd120_0000, 0xf520_0000));
        let b = b.inst(LoadsAndStores::LoadStoreExclusivePair)
            .with("1x00")
            .with("0")
            .with("00")
            .with("1xx_xxx")
            .with("xx");
        assert(b.draft().holds(0x8020_0000, 0xb5a0_0000));
        let b = b.inst(LoadsAndStores::Unallocated6)
            .with("1x00")
            .with("1")
            .with("xx")
            .with("xxx_xxx")
            .with("xx");
        assert(b.draft().holds(0x8400_0000, 0xb400_0000));
        let b = b.inst(LoadsAndStores::LoadStoreExclusiveRegister)
            .with("xx00")
            .with("0")
            .with("00")
            .with("0xx_xxx")
            .with("xx");
        assert(b.draft().holds(0x0000_0000, 0x35a0_0000));
        let b = b.inst(LoadsAndStores::LoadStoreOrdered)
            .with("xx00")
            .with("0")
            .with("01")
            .with("0xx_xxx")
            .with("xx");
        assert(b.draft().holds(0x0080_0000, 0x35a0_0000));
        let b = b.inst(LoadsAndStores::CompareAndSwap)
            .with("xx00")
            .with("0")
            .with("01")
            .with("1xx_xxx")
            .with("xx");
        assert(b.draft().holds(0x00a0_0000, 0x35a0_0000));
        let b = b.inst(LoadsAndStores::LDAPRSTLRUnscalaedImmediate)
            .with("xx01")
            .with("0")
            .with("1x")
            .with("0xx_xxx")
            .with("00");
        assert(b.draft().holds(0x1100_0000, 0x3520_0c00));
        let b = b.inst(LoadsAndStores::LoadRegisterLiteral)
            .with("xx01")
            .with("x")
            .with("0x")
            .with("xxx_xxx")
            .with("xx");
        assert(b.draft().holds(0x1000_0000, 0x3100_0000));
        let b = b.inst(LoadsAndStores::MemoryCopyAndMemorySet)
            .with("xx01")
            .with("x")
            .with("1x")
            .with("0xx_xxx")
            .with("01");
        assert(b.draft().holds(0x1100_0400, 0x3120_0c00));
        let b = b.inst(LoadsAndStores::LoadStoreNoAllocatePairOffset)
            .with("xx10")
            .with("x")
            .with("00")
            .with("xxx_xxx")
            .with("xx");
        assert(b.draft().holds(0x2000_0000, 0x3180_0000));
        let b = b.inst(LoadsAndStores::LoadStoreRegisterPairPostIndexed)
            .with("xx10")
            .with("x")
            .with("01")
            .with("xxx_xxx")
            .with("xx");
        assert(b.draft().holds(0x2080_0000, 0x3180_0000));
        let b = b.inst(LoadsAndStores::LoadStoreRegisterPairOffset)
            .with("xx10")
            .with("x")
            .with("10")
            .with("xxx_xxx")
            .with("xx");
        assert(b.draft().holds(0x2100_0000, 0x3180_0000));
        let b = b.inst(LoadsAndStores::LoadStoreRegisterPairPreIndexed)
            .with("xx10")
            .with("x")
            .with("11")
            .with("xxx_xxx")
            .with("xx");
        assert(b.draft().holds(0x2180_0000, 0x3180_0000));
        let b = b.inst(LoadsAndStores::LoadStoreRegisterUnscalaedImmediate)
            .with("xx11")
            .with("x")
            .with("0x")
            .with("0xx_xxx")
            .with("00");
        assert(b.draft().holds(0x3000_0000, 0x3120_0c00));
        let b = b.inst(LoadsAndStores::LoadStoreRegisterImmediatePostIndexed)
            .with("xx11")
            .with("x")
            .with("0x")
            .with("0xx_xxx")
            .with("01");
        assert(b.draft().holds(0x3000_0400, 0x3120_0c00));
        let b = b.inst(LoadsAndStores::LoadStoreRegisterUnprivileged)
            .with("xx11")
            .with("x")
            .with("0x")
            .with("0xx_xxx")
            .with("10");
        assert(b.draft().holds(0x3000_0800, 0x3120_0c00));
        let b = b.inst(LoadsAndStores::LoadStoreRegisterImmediatePreIndexed)
            .with("xx11")
            .with("x")
            .with("0x")
            .with("0xx_xxx")
            .with("11");
        assert(b.draft().holds(0x3000_0c00, 0x3120_0c00));
        let b = b.inst(LoadsAndStores::AtomicMemoryOperations)
            .with("xx11")
            .with("x")
            .with("0x")
            .with("1xx_xxx")
            .with("00");
        assert(b.draft().holds(0x3020_0000, 0x3120_0c00));
        let b = b.inst(LoadsAndStores::LoadStoreRegisterRegisterOffset)
            .with("xx11")
            .with("x")
            .with("0x")
            .with("1xx_xxx")
            .with("10");
        assert(b.draft().holds(0x3020_0800, 0x3120_0c00));
        let b = b.inst(LoadsAndStores::LoadStoreRegisterPac)
            .with("xx11")
            .with("x")
            .with("0x")
            .with("1xx_xxx")
            .with("x1");
        assert(b.draft().holds(0x3020_0400, 0x3120_0400));
        let b = b.inst(LoadsAndStores::LoadStoreRegisterUnsignedImmediate)
            .with("xx11")
            .with("x")
            .with("1x")
            .with("xxx_xxx")
            .with("xx");
        assert(b.draft().holds(0x3100_0000, 0x3100_0000));
        match b.build() {
            Ok(pm) => {
                proof {
                    assert(pm@.fields =~= loads_and_stores_table().fields);
                    assert(pm@.rules =~= loads_and_stores_table().rules);
                }
                pm
            },
            Err(_) => unreached(),
        }
    }

    /// The table of loads and stores of a register at an unsigned immediate offset.
    fn load_store_register_unsigned_immediate_pm() -> (pm: PatternMatcher<
        LoadStoreRegisterUnsignedImmediate,
    >)
        ensures
            pm@ == load_store_register_unsigned_immediate_table(),
    {
        proof {
            lemma_load_store_register_unsigned_immediate_strings();
            lemma_load_store_register_unsigned_immediate_rows();
        }
        let b = PatternMatcher::<LoadStoreRegisterUnsignedImmediate>::builder()
            .args("size", 30..32)
            .args("V", 26..27)
            .args("opc", 22..24)
            .args("imm12", 10..22)
            .args("Rn", 5..10)
            .args("Rt", 0..5)
            .inst(LoadStoreRegisterUnsignedImmediate::Unallocated0)
            .with("x1")
            .with("1")
            .with("1x")
            .with("xxxx_xxxx_xxxx")
            .with("xxxxx")
            .with("xxxxx");
        assert(b.draft().holds(0x4480_0000, 0x4480_0000));
        let b = b.inst(LoadStoreRegisterUnsignedImmediate::STRBImmediate)
            .with("00")
            .with("0")
            .with("00")
            .with("xxxx_xxxx_xxxx")
            .with("xxxxx")
            .with("xxxxx");
        assert(b.draft().holds(0x0000_0000, 0xc4c0_0000));
        let b = b.inst(LoadStoreRegisterUnsignedImmediate::LDRBImmediate)
            .with("00")
            .with("0")
            .with("01")
            .with("xxxx_xxxx_xxxx")
            .with("xxxxx")
            .with("xxxxx");
        assert(b.draft().holds(0x0040_0000, 0xc4c0_0000));
        let b = b.inst(LoadStoreRegisterUnsignedImmediate::LDRSBImmediate64)
            .with("00")
            .with("0")
            .with("10")
            .with("xxxx_xxxx_xxxx")
            .with("xxxxx")
            .with("xxxxx");
        assert(b.draft().holds(0x0080_0000, 0xc4c0_0000));
        let b = b.inst(LoadStoreRegisterUnsignedImmediate::LDRSBImmediate32)
            .with("00")
            .with("0")
            .with("11")
            .with("xxxx_xxxx_xxxx")
            .with("xxxxx")
            .with("xxxxx");
        assert(b.draft().holds(0x00c0_0000, 0xc4c0_0000));
        let b = b.inst(LoadStoreRegisterUnsignedImmediate::STRImmediateSIMDFP8)
            .with("00")
            .with("1")
            .with("00")
            .with("xxxx_xxxx_xxxx")
            .with("xxxxx")
            .with("xxxxx");
        assert(b.draft().holds(0x0400_0000, 0xc4c0_0000));
        let b = b.inst(LoadStoreRegisterUnsignedImmediate::LDRImmediateSIMDFP8)
            .with("00")
            .with("1")
            .with("01")
            .with("xxxx_xxxx_xxxx")
            .with("xxxxx")
            .with("xxxxx");
        assert(b.draft().holds(0x0440_0000, 0xc4c0_0000));
        let b = b.inst(LoadStoreRegisterUnsignedImmediate::STRImmediateSIMDFP128)
            .with("00")
            .with("1")
            .with("10")
            .with("xxxx_xxxx_xxxx")
            .with("xxxxx")
            .with("xxxxx");
        assert(b.draft().holds(0x0480_0000, 0xc4c0_0000));
        let b = b.inst(LoadStoreRegisterUnsignedImmediate::LDRImmediateSIMDFP128)
            .with("00")
            .with("1")
            .with("11")
            .with("xxxx_xxxx_xxxx")
            .with("xxxxx")
            .with("xxxxx");
        assert(b.draft().holds(0x04c0_0000, 0xc4c0_0000));
        let b = b.inst(LoadStoreRegisterUnsignedImmediate::STRHImmediate)
            .with("01")
            .with("0")
            .with("00")
            .with("xxxx_xxxx_xxxx")
            .with("xxxxx")
            .with("xxxxx");
        assert(b.draft().holds(0x4000_0000, 0xc4c0_0000));
        let b = b.inst(LoadStoreRegisterUnsignedImmediate::LDRHImmediate)
            .with("01")
            .with("0")
            .with("01")
            .with("xxxx_xxxx_xxxx")
            .with("xxxxx")
            .with("xxxxx");
        assert(b.draft().holds(0x4040_0000, 0xc4c0_0000));
        let b = b.inst(LoadStoreRegisterUnsignedImmediate::LDRSHImmediate64)
            .with("01")
            .with("0")
            .with("10")
            .with("xxxx_xxxx_xxxx")
            .with("xxxxx")
            .with("xxxxx");
        assert(b.draft().holds(0x4080_0000, 0xc4c0_0000));
        let b = b.inst(LoadStoreRegisterUnsignedImmediate::LDRSHImmediate32)
            .with("01")
            .with("0")
            .with("11")
            .with("xxxx_xxxx_xxxx")
            .with("xxxxx")
            .with("xxxxx");
        assert(b.draft().holds(0x40c0_0000, 0xc4c0_0000));
        let b = b.inst(LoadStoreRegisterUnsignedImmediate::STRImmediateSIMDFP16)
            .with("01")
            .with("1")
            .with("00")
            .with("xxxx_xxxx_xxxx")
            .with("xxxxx")
            .with("xxxxx");
        assert(b.draft().holds(0x4400_0000, 0xc4c0_0000));
        let b = b.inst(LoadStoreRegisterUnsignedImmediate::LDRImmediateSIMDFP16)
            .with("01")
            .with("1")
            .with("01")
            .with("xxxx_xxxx_xxxx")
            .with("xxxxx")
            .with("xxxxx");
        assert(b.draft().holds(0x4440_0000, 0xc4c0_0000));
        let b = b.inst(LoadStoreRegisterUnsignedImmediate::Unallocated1)
            .with("1x")
            .with("0")
            .with("11")
            .with("xxxx_xxxx_xxxx")
            .with("xxxxx")
            .with("xxxxx");
        assert(b.draft().holds(0x80c0_0000, 0x84c0_0000));
        let b = b.inst(LoadStoreRegisterUnsignedImmediate::Unallocated2)
            .with("1x")
            .with("1")
            .with("1x")
            .with("xxxx_xxxx_xxxx")
            .with("xxxxx")
            .with("xxxxx");
        assert(b.draft().holds(0x8480_0000, 0x8480_0000));
        let b = b.inst(LoadStoreRegisterUnsignedImmediate::STRImmediate32)
            .with("10")
            .with("0")
            .with("00")
            .with("xxxx_xxxx_xxxx")
            .with("xxxxx")
            .with("xxxxx");
        assert(b.draft().holds(0x8000_0000, 0xc4c0_0000));
        let b = b.inst(LoadStoreRegisterUnsignedImmediate::LDRImmediate32)
            .with("10")
            .with("0")
            .with("01")
            .with("xxxx_xxxx_xxxx")
            .with("xxxxx")
            .with("xxxxx");
        assert(b.draft().holds(0x8040_0000, 0xc4c0_0000));
        let b = b.inst(LoadStoreRegisterUnsignedImmediate::LDRSWImmediate)
            .with("10")
            .with("0")
            .with("10")
            .with("xxxx_xxxx_xxxx")
            .with("xxxxx")
            .with("xxxxx");
        assert(b.draft().holds(0x8080_0000, 0xc4c0_0000));
        let b = b.inst(LoadStoreRegisterUnsignedImmediate::STRImmediateSIMDFP32)
            .with("10")
            .with("1")
            .with("00")
            .with("xxxx_xxxx_xxxx")
            .with("xxxxx")
            .with("xxxxx");
        assert(b.draft().holds(0x8400_0000, 0xc4c0_0000));
        let b = b.inst(LoadStoreRegisterUnsignedImmediate::LDRImmediateSIMDFP32)
            .with("10")
            .with("1")
            .with("01")
            .with("xxxx_xxxx_xxxx")
            .with("xxxxx")
            .with("xxxxx");
        assert(b.draft().holds(0x8440_0000, 0xc4c0_0000));
        let b = b.inst(LoadStoreRegisterUnsignedImmediate::STRImmediate64)
            .with("11")
            .with("0")
            .with("00")
            .with("xxxx_xxxx_xxxx")
            .with("xxxxx")
            .with("xxxxx");
        assert(b.draft().holds(0xc000_0000, 0xc4c0_0000));
        let b = b.inst(LoadStoreRegisterUnsignedImmediate::LDRImmediate64)
            .with("11")
            .with("0")
            .with("01")
            .with("xxxx_xxxx_xxxx")
            .with("xxxxx")
            .with("xxxxx");
        assert(b.draft().holds(0xc040_0000, 0xc4c0_0000));
        let b = b.inst(LoadStoreRegisterUnsignedImmediate::PRFMImmediate)
            .with("11")
            .with("0")
            .with("10")
            .with("xxxx_xxxx_xxxx")
            .with("xxxxx")
            .with("xxxxx");
        assert(b.draft().holds(0xc080_0000, 0xc4c0_0000));
        let b = b.inst(LoadStoreRegisterUnsignedImmediate::STRImmediateSIMDFP64)
            .with("11")
            .with("1")
            .with("00")
            .with("xxxx_xxxx_xxxx")
            .with("xxxxx")
            .with("xxxxx");
        assert(b.draft().holds(0xc400_0000, 0xc4c0_0000));
        let b = b.inst(LoadStoreRegisterUnsignedImmediate::LDRImmediateSIMDFP64)
            .with("11")
            .with("1")
            .with("01")
            .with("xxxx_xxxx_xxxx")
            .with("xxxxx")
            .with("xxxxx");
        assert(b.draft().holds(0xc440_0000, 0xc4c0_0000));
        match b.build() {
            Ok(pm) => {
                proof {
                    assert(pm@.fields =~= load_store_register_unsigned_immediate_table().fields);
                    assert(pm@.rules =~= load_store_register_unsigned_immediate_table().rules);
                }
                pm
            },
            Err(_) => unreached(),
        }
    }

    /// The table of data processing with register operands.
    fn data_processing_register_pm() -> (pm: PatternMatcher<DataProcessingRegister>)
        ensures
            pm@ == data_processing_register_table(),
    {
        proof {
            lemma_data_processing_register_strings();
            lemma_data_processing_register_rows();
        }
        let b = PatternMatcher::<DataProcessingRegister>::builder()
            .args("op0", 30..31)
            .args("op1", 28..29)
            .args("op2", 21..25)
            .args("op3", 10..16)
            .inst(DataProcessingRegister::DataProcessing2Source)
            .with("0")
            .with("1")
            .with("0110")
            .with("xxx_xxx");
        assert(b.draft().holds(0x10c0_0000, 0x51e0_0000));
        let b = b.inst(DataProcessingRegister::DataProcessing1Source)
            .with("1")
            .with("1")
            .with("0110")
            .with("xxx_xxx");
        assert(b.draft().holds(0x50c0_0000, 0x51e0_0000));
        let b = b.inst(DataProcessingRegister::LogicalShiftedRegister)
            .with("x")
            .with("0")
            .with("0xxx")
            .with("xxx_xxx");
        assert(b.draft().holds(0x0000_0000, 0x1100_0000));
        let b = b.inst(DataProcessingRegister::AddSubtractShiftedRegister)
            .with("x")
            .with("0")
            .with("1xx0")
            .with("xxx_xxx");
        assert(b.draft().holds(0x0100_0000, 0x1120_0000));
        let b = b.inst(DataProcessingRegister::AddSubtractExtendedRegister)
            .with("x")
            .with("0")
            .with("1xx1")
            .with("xxx_xxx");
        assert(b.draft().holds(0x0120_0000, 0x1120_0000));
        let b = b.inst(DataProcessingRegister::AddSubtractWithCarry)
            .with("x")
            .with("1")
            .with("0000")
            .with("000_000");
        assert(b.draft().holds(0x1000_0000, 0x11e0_fc00));
        let b = b.inst(DataProcessingRegister::RotateRightIntoFlags)
            .with("x")
            .with("1")
            .with("0000")
            .with("x00_001");
        assert(b.draft().holds(0x1000_0400, 0x11e0_7c00));
        let b = b.inst(DataProcessingRegister::EvaluateInfoFlags)
            .with("x")
            .with("1")
            .with("0000")
            .with("xx0_010");
        assert(b.draft().holds(0x1000_0800, 0x11e0_3c00));
        let b = b.inst(DataProcessingRegister::ConditionalCompareRegister)
            .with("x")
            .with("1")
            .with("0010")
            .with("xxx_x0x");
        assert(b.draft().holds(0x1040_0000, 0x11e0_0800));
        let b = b.inst(DataProcessingRegister::ConditionalCompareImmediate)
            .with("x")
            .with("1")
            .with("0010")
            .with("xxx_x1x");
        assert(b.draft().holds(0x1040_0800, 0x11e0_0800));
        let b = b.inst(DataProcessingRegister::ConditionalSelect)
            .with("x")
            .with("1")
            .with("0100")
            .with("xxx_xxx");
        assert(b.draft().holds(0x1080_0000, 0x11e0_0000));
        let b = b.inst(DataProcessingRegister::DataProcessing3Source)
            .with("x")
            .with("1")
            .with("1xxx")
            .with("xxx_xxx");
        assert(b.draft().holds(0x1100_0000, 0x1100_0000));
        match b.build() {
            Ok(pm) => {
                proof {
                    assert(pm@.fields =~= data_processing_register_table().fields);
                    assert(pm@.rules =~= data_processing_register_table().rules);
                }
                pm
            },
            Err(_) => unreached(),
        }
    }

    /// The table of additions and subtractions of a shifted register.
    fn add_subtract_shifted_register_pm() -> (pm: PatternMatcher<AddSubtractShiftedRegister>)
        ensures
            pm@ == add_subtract_shifted_register_table(),
    {
        proof {
            lemma_add_subtract_shifted_register_strings();
            lemma_add_subtract_shifted_register_rows();
        }
        let b = PatternMatcher::<AddSubtractShiftedRegister>::builder()
            .args("sf", 31..32)
            .args("op", 30..31)
            .args("S", 29..30)
            .args("shift", 22..24)
            .args("imm6", 10..16)
            .args("Rm", 16..21)
            .args("Rn", 5..10)
            .args("Rd", 0..5)
            .inst(AddSubtractShiftedRegister::Unallocated0)
            .with("x")
            .with("x")
            .with("x")
            .with("11")
            .with("xxx_xxx")
            .with("xxxxx")
            .with("xxxxx")
            .with("xxxxx");
        assert(b.draft().holds(0x00c0_0000, 0x00c0_0000));
        let b = b.inst(AddSubtractShiftedRegister::Unallocated1)
            .with("0")
            .with("x")
            .with("x")
            .with("xx")
            .with("1xx_xxx")
            .with("xxxxx")
            .with("xxxxx")
            .with("xxxxx");
        assert(b.draft().holds(0x0000_8000, 0x8000_8000));
        let b = b.inst(AddSubtractShiftedRegister::ADDShiftedRegister32)
            .with("0")
            .with("0")
            .with("0")
            .with("xx")
            .with("xxx_xxx")
            .with("xxxxx")
            .with("xxxxx")
            .with("xxxxx");
        assert(b.draft().holds(0x0000_0000, 0xe000_0000));
        let b = b.inst(AddSubtractShiftedRegister::ADDSShiftedReigster32)
            .with("0")
            .with("0")
            .with("1")
            .with("xx")
            .with("xxx_xxx")
            .with("xxxxx")
            .with("xxxxx")
            .with("xxxxx");
        assert(b.draft().holds(0x2000_0000, 0xe000_0000));
        let b = b.inst(AddSubtractShiftedRegister::SUBShiftedRegister32)
            .with("0")
            .with("1")
            .with("0")
            .with("xx")
            .with("xxx_xxx")
            .with("xxxxx")
            .with("xxxxx")
            .with("xxxxx");
        assert(b.draft().holds(0x4000_0000, 0xe000_0000));
        let b = b.inst(AddSubtractShiftedRegister::SUBSShiftedRegister32)
            .with("0")
            .with("1")
            .with("1")
            .with("xx")
            .with("xxx_xxx")
            .with("xxxxx")
            .with("xxxxx")
            .with("xxxxx");
        assert(b.draft().holds(0x6000_0000, 0xe000_0000));
        let b = b.inst(AddSubtractShiftedRegister::ADDShiftedRegister64)
            .with("1")
            .with("0")
            .with("0")
            .with("xx")
            .with("xxx_xxx")
            .with("xxxxx")
            .with("xxxxx")
            .with("xxxxx");
        assert(b.draft().holds(0x8000_0000, 0xe000_0000));
        let b = b.inst(AddSubtractShiftedRegister::ADDSShiftedRegister64)
            .with("1")
            .with("0")
            .with("1")
            .with("xx")
            .with("xxx_xxx")
            .with("xxxxx")
            .with("xxxxx")
            .with("xxxxx");
        assert(b.draft().holds(0xa000_0000, 0xe000_0000));
        let b = b.inst(AddSubtractShiftedRegister::SUBShiftedRegister64)
            .with("1")
            .with("1")
            .with("0")
            .with("xx")
            .with("xxx_xxx")
            .with("xxxxx")
            .with("xxxxx")
            .with("xxxxx");
        assert(b.draft().holds(0xc000_0000, 0xe000_0000));
        let b = b.inst(AddSubtractShiftedRegister::SUBSShiftedRegister64)
            .with("1")
            .with("1")
            .with("1")
            .with("xx")
            .with("xxx_xxx")
            .with("xxxxx")
            .with("xxxxx")
            .with("xxxxx");
        assert(b.draft().holds(0xe000_0000, 0xe000_0000));
        match b.build() {
            Ok(pm) => {
                proof {
                    assert(pm@.fields =~= add_subtract_shifted_register_table().fields);
                    assert(pm@.rules =~= add_subtract_shifted_register_table().rules);
                }
                pm
            },
            Err(_) => unreached(),
        }
    }

    /// Decodes one instruction word.
    pub fn parse(&self, instr: u32) -> (decoded: Result<AArch64Inst, DecodeError>)
        ensures
            decoded == decode(instr),
    {
        proof {
            use_type_invariant(self);
        }
        match self.main_encoding_pm.match_pattern(instr) {
            Some(pat) => match pat {
                MainEncodingTable::DataProcessingImmediate => {
                    self.parse_data_processing_immediate(instr)
                },
                MainEncodingTable::BranchesExceptionGenNSysInstr => {
                    self.parse_brnch_xcept_gen_sys_instr(instr)
                },
                MainEncodingTable::LoadsAndStores => self.parse_load_and_stores(instr),
                MainEncodingTable::DataProcessingRegister => {
                    self.parse_data_processing_register(instr)
                },
                _ => Err(DecodeError::Unsupported(EncodingGroup::MainEncodingTable(pat), instr)),
            },
            None => Err(DecodeError::NoMatch(instr)),
        }
    }

    //=================================Data processing Immediate================================
    /// Decodes a word of the group of data processing with an immediate operand.
    pub fn parse_data_processing_immediate(&self, instr: u32) -> (decoded: Result<
        AArch64Inst,
        DecodeError,
    >)
        ensures
            decoded == decode_tree().decode_data_processing_immediate(instr),
    {
        proof {
            use_type_invariant(self);
        }
        match self.data_processing_immediate_pm.match_pattern(instr) {
            Some(pat) => match pat {
                DataProcessingImmediate::AddSubtractImmediate => {
                    self.parse_add_subtract_immediate(instr)
                },
                _ => Err(
                    DecodeError::Unsupported(EncodingGroup::DataProcessingImmediate(pat), instr),
                ),
            },
            None => Err(DecodeError::NoMatch(instr)),
        }
    }

    /// Decodes a word of the group of additions and subtractions of an immediate.
    pub fn parse_add_subtract_immediate(&self, instr: u32) -> (decoded: Result<
        AArch64Inst,
        DecodeError,
    >)
        ensures
            decoded == decode_tree().decode_add_subtract_immediate(instr),
    {
        proof {
            use_type_invariant(self);
        }
        let data = AddSubtractImmediateData {
            sf: self.add_subtract_immediate_pm.get_arg(instr, 0),
            op: self.add_subtract_immediate_pm.get_arg(instr, 1),
            s: self.add_subtract_immediate_pm.get_arg(instr, 2),
            sh: self.add_subtract_immediate_pm.get_arg(instr, 3),
            imm12: self.add_subtract_immediate_pm.get_arg(instr, 4),
            rn: self.add_subtract_immediate_pm.get_arg(instr, 5),
            rd: self.add_subtract_immediate_pm.get_arg(instr, 6),
        };
        match self.add_subtract_immediate_pm.match_pattern(instr) {
            Some(pat) => match pat {
                AddSubtractImmediate::SUBImmediate64 => Ok(AArch64Inst::SubImmediate64(data)),
                _ => Err(DecodeError::Unsupported(EncodingGroup::AddSubtractImmediate(pat), instr)),
            },
            None => Err(DecodeError::NoMatch(instr)),
        }
    }

    //==================Branches, Exception Generating and System instructions==================
    /// Decodes a word of the group of branches, exception generating and
    /// system instructions.
    pub fn parse_brnch_xcept_gen_sys_instr(&self, instr: u32) -> (decoded: Result<
        AArch64Inst,
        DecodeError,
    >)
        ensures
            decoded == decode_tree().decode_brnch_xcept_gen_sys_instr(instr),
    {
        proof {
            use_type_invariant(self);
        }
        match self.brnch_xcept_gen_sys_instr_pm.match_pattern(instr) {
            Some(pat) => match pat {
                BranchesExceptionGenNSysInstr::ConditionalBranchImmediate => {
                    self.parse_conditional_branch_immediate(instr)
                },
                _ => Err(
                    DecodeError::Unsupported(
                        EncodingGroup::BranchesExceptionGenNSysInstr(pat),
                        instr,
                    ),
                ),
            },
            None => Err(DecodeError::NoMatch(instr)),
        }
    }

    /// Decodes a word of the group of conditional branches to an immediate offset.
    pub fn parse_conditional_branch_immediate(&self, instr: u32) -> (decoded: Result<
        AArch64Inst,
        DecodeError,
    >)
        ensures
            decoded == decode_tree().decode_conditional_branch_immediate(instr),
    {
        proof {
            use_type_invariant(self);
        }
        let data = ConditionalBranchImmediateData {
            o1: self.conditional_branch_immediate_pm.get_arg(instr, 0),
            o0: self.conditional_branch_immediate_pm.get_arg(instr, 1),
            imm19: self.conditional_branch_immediate_pm.get_arg(instr, 2),
            cond: self.conditional_branch_immediate_pm.get_arg(instr, 3),
        };
        match self.conditional_branch_immediate_pm.match_pattern(instr) {
            Some(pat) => match pat {
                ConditionalBranchImmediate::BCond => Ok(AArch64Inst::BCond(data)),
                _ => Err(
                    DecodeError::Unsupported(EncodingGroup::ConditionalBranchImmediate(pat), instr),
                ),
            },
            None => Err(DecodeError::NoMatch(instr)),
        }
    }

    //======================================Load and Stores=====================================
    /// Decodes a word of the group of loads and stores.
    pub fn parse_load_and_stores(&self, instr: u32) -> (decoded: Result<AArch64Inst, DecodeError>)
        ensures
            decoded == decode_tree().decode_loads_and_stores(instr),
    {
        proof {
            use_type_invariant(self);
        }
        match self.loads_and_stores_pm.match_pattern(instr) {
            Some(pat) => match pat {
                LoadsAndStores::LoadStoreRegisterUnsignedImmediate => {
                    self.parse_load_store_register_unsigned_immediate(instr)
                },
                _ => Err(DecodeError::Unsupported(EncodingGroup::LoadsAndStores(pat), instr)),
            },
            None => Err(DecodeError::NoMatch(instr)),
        }
    }

    /// Decodes a word of the group of loads and stores of a register at an
    /// unsigned immediate offset.
    pub fn parse_load_store_register_unsigned_immediate(&self, instr: u32) -> (decoded: Result<
        AArch64Inst,
        DecodeError,
    >)
        ensures
            decoded == decode_tree().decode_load_store_register_unsigned_immediate(instr),
    {
        proof {
            use_type_invariant(self);
        }
        let data = LoadStoreRegisterUnsignedImmediateData {
            size: self.load_store_register_unsigned_immediate_pm.get_arg(instr, 0),
            v: self.load_store_register_unsigned_immediate_pm.get_arg(instr, 1),
            opc: self.load_store_register_unsigned_immediate_pm.get_arg(instr, 2),
            imm12: self.load_store_register_unsigned_immediate_pm.get_arg(instr, 3),
            rn: self.load_store_register_unsigned_immediate_pm.get_arg(instr, 4),
            rt: self.load_store_register_unsigned_immediate_pm.get_arg(instr, 5),
        };
        match self.load_store_register_unsigned_immediate_pm.match_pattern(instr) {
            Some(pat) => match pat {
                LoadStoreRegisterUnsignedImmediate::STRImmediate64 => Ok(
                    AArch64Inst::STRImmediate64(data),
                ),
                _ => Err(
                    DecodeError::Unsupported(
                        EncodingGroup::LoadStoreRegisterUnsignedImmediate(pat),
                        instr,
                    ),
                ),
            },
            None => Err(DecodeError::NoMatch(instr)),
        }
    }

    //=================================Data processing Register=================================
    /// Decodes a word of the group of data processing with register operands.
    pub fn parse_data_processing_register(&self, instr: u32) -> (decoded: Result<
        AArch64Inst,
        DecodeError,
    >)
        ensures
            decoded == decode_tree().decode_data_processing_register(instr),
    {
        proof {
            use_type_invariant(self);
        }
        match self.data_processing_register_pm.match_pattern(instr) {
            Some(pat) => match pat {
                DataProcessingRegister::AddSubtractShiftedRegister => {
                    self.parse_add_subtract_shifted_register(instr)
                },
                _ => Err(
                    DecodeError::Unsupported(EncodingGroup::DataProcessingRegister(pat), instr),
                ),
            },
            None => Err(DecodeError::NoMatch(instr)),
        }
    }

    /// Decodes a word of the group of additions and subtractions of a shifted register.
    pub fn parse_add_subtract_shifted_register(&self, instr: u32) -> (decoded: Result<
        AArch64Inst,
        DecodeError,
    >)
        ensures
            decoded == decode_tree().decode_add_subtract_shifted_register(instr),
    {
        proof {
            use_type_invariant(self);
        }
        let data = AddSubtractShiftedRegisterData {
            sf: self.add_subtract_shifted_register_pm.get_arg(instr, 0),
            op: self.add_subtract_shifted_register_pm.get_arg(instr, 1),
            s: self.add_subtract_shifted_register_pm.get_arg(instr, 2),
            shift: self.add_subtract_shifted_register_pm.get_arg(instr, 3),
            imm6: self.add_subtract_shifted_register_pm.get_arg(instr, 4),
            rm: self.add_subtract_shifted_register_pm.get_arg(instr, 5),
            rn: self.add_subtract_shifted_register_pm.get_arg(instr, 6),
            rd: self.add_subtract_shifted_register_pm.get_arg(instr, 7),
        };
        match self.add_subtract_shifted_register_pm.match_pattern(instr) {
            Some(pat) => match pat {
                AddSubtractShiftedRegister::SUBSShiftedRegister64 => Ok(
                    AArch64Inst::SUBSShiftedRegister64(data),
                ),
                _ => Err(
                    DecodeError::Unsupported(EncodingGroup::AddSubtractShiftedRegister(pat), instr),
                ),
            },
            None => Err(DecodeError::NoMatch(instr)),
        }
    }
}

/// Decoding is idempotent: what `parse` gives for a word, it gives again for the
/// same word, whichever parser is asked and however often.
pub proof fn lemma_parse_idempotent(
    word: u32,
    first: Result<AArch64Inst, DecodeError>,
    second: Result<AArch64Inst, DecodeError>,
)
    requires
        first == decode(word),
        second == decode(word),
    ensures
        first == second,
{
}

} // verus!
