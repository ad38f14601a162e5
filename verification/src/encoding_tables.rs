//! The encoding tables of the decode tree, as the patterns that their rules compile to.

use crate::instructions::brnch_xcept_gen_sys_instr::{
    BranchesExceptionGenNSysInstr, ConditionalBranchImmediate,
};
use crate::instructions::data_processing_immediate::{
    AddSubtractImmediate, DataProcessingImmediate,
};
use crate::instructions::data_processing_register::{
    AddSubtractShiftedRegister, DataProcessingRegister,
};
use crate::instructions::loads_and_stores::{LoadStoreRegisterUnsignedImmediate, LoadsAndStores};
use crate::instructions::MainEncodingTable;
use crate::pattern_matcher::{
    classify_from, lemma_classify_is_scan, FieldSpec, Pattern, Rule, Table,
};
use crate::utils::masked_equal;
use std::ops::Range;
use vstd::prelude::*;

verus! {

/// The field called `name` at `range`.
pub open spec fn field(name: Seq<char>, range: Range<u8>) -> FieldSpec {
    FieldSpec { name, range }
}

/// The rule that gives `tag` to the words that hold `pattern` in the bits of `mask`.
pub open spec fn rule<T>(tag: T, pattern: u32, mask: u32) -> Rule<T> {
    Rule { tag, pattern: Pattern { pattern, mask } }
}

/// The top-level encoding table.
/// The comment above each rule gives the bits that it asks for of
/// `op0` and `op1`.
pub open spec fn main_encoding_table() -> Table<MainEncodingTable> {
    Table {
        fields: seq![
            field("op0"@, 31..32),
            field("op1"@, 25..29),
        ],
        rules: seq![
            // 0 0000
            rule(MainEncodingTable::Reserved, 0x0000_0000, 0x9e00_0000),
            // 1 0000
            rule(MainEncodingTable::SmeEncodings, 0x8000_0000, 0x9e00_0000),
            // x 0001
            rule(MainEncodingTable::Unallocated0, 0x0200_0000, 0x1e00_0000),
            // x 0010
            rule(MainEncodingTable::SveEncodings, 0x0400_0000, 0x1e00_0000),
            // x 0011
            rule(MainEncodingTable::Unallocated1, 0x0600_0000, 0x1e00_0000),
            // x 100x
            rule(MainEncodingTable::DataProcessingImmediate, 0x1000_0000, 0x1c00_0000),
            // x 101x
            rule(MainEncodingTable::BranchesExceptionGenNSysInstr, 0x1400_0000, 0x1c00_0000),
            // x x1x0
            rule(MainEncodingTable::LoadsAndStores, 0x0800_0000, 0x0a00_0000),
            // x x101
            rule(MainEncodingTable::DataProcessingRegister, 0x0a00_0000, 0x0e00_0000),
            // x x111
            rule(
                MainEncodingTable::DataProcessingScalarFloatingPointAndAdvancedSIMD,
                0x0e00_0000,
                0x0e00_0000,
            ),
        ],
    }
}

/// Data processing with an immediate operand.
/// The comment above each rule gives the bits of `op0` that it asks for.
pub open spec fn data_processing_immediate_table() -> Table<DataProcessingImmediate> {
    Table {
        fields: seq![
            field("op0"@, 23..26),
        ],
        rules: seq![
            // 00x
            rule(DataProcessingImmediate::PCrelAddressing, 0x0000_0000, 0x0300_0000),
            // 010
            rule(DataProcessingImmediate::AddSubtractImmediate, 0x0100_0000, 0x0380_0000),
            // 011
            rule(DataProcessingImmediate::AddSubtractImmediateWithTags, 0x0180_0000, 0x0380_0000),
            // 100
            rule(DataProcessingImmediate::LogicalImmediate, 0x0200_0000, 0x0380_0000),
            // 101
            rule(DataProcessingImmediate::MoveWideImmediate, 0x0280_0000, 0x0380_0000),
            // 110
            rule(DataProcessingImmediate::Bitfield, 0x0300_0000, 0x0380_0000),
            // 111
            rule(DataProcessingImmediate::Extract, 0x0380_0000, 0x0380_0000),
        ],
    }
}

/// Addition and subtraction of an immediate.
/// The comment above each rule gives the bits that it asks for of
/// `sf`, `op` and `S`.
pub open spec fn add_subtract_immediate_table() -> Table<AddSubtractImmediate> {
    Table {
        fields: seq![
            field("sf"@, 31..32),
            field("op"@, 30..31),
            field("S"@, 29..30),
            field("sh"@, 22..23),
            field("imm12"@, 10..22),
            field("Rn"@, 5..10),
            field("Rd"@, 0..5),
        ],
        rules: seq![
            // 0 0 0
            rule(AddSubtractImmediate::ADDImmediate32, 0x0000_0000, 0xe000_0000),
            // 0 0 1
            rule(AddSubtractImmediate::ADDSImmediate32, 0x2000_0000, 0xe000_0000),
            // 0 1 0
            rule(AddSubtractImmediate::SUBImmediate32, 0x4000_0000, 0xe000_0000),
            // 0 1 1
            rule(AddSubtractImmediate::SUBSImmediate32, 0x6000_0000, 0xe000_0000),
            // 1 0 0
            rule(AddSubtractImmediate::ADDImmediate64, 0x8000_0000, 0xe000_0000),
            // 1 0 1
            rule(AddSubtractImmediate::ADDSImmediate64, 0xa000_0000, 0xe000_0000),
            // 1 1 0
            rule(AddSubtractImmediate::SUBImmediate64, 0xc000_0000, 0xe000_0000),
            // 1 1 1
            rule(AddSubtractImmediate::SUBSImmediate64, 0xe000_0000, 0xe000_0000),
        ],
    }
}

/// Branches, exception generating and system instructions.
/// The comment above each rule gives the bits that it asks for of
/// `op0`, `op1` and `op2`.
pub open spec fn brnch_xcept_gen_sys_instr_table() -> Table<BranchesExceptionGenNSysInstr> {
    Table {
        fields: seq![
            field("op0"@, 29..32),
            field("op1"@, 12..26),
            field("op2"@, 0..5),
        ],
        rules: seq![
            // 010 0x_xxxx_xxxx_xxxx xxxxx
            rule(
                BranchesExceptionGenNSysInstr::ConditionalBranchImmediate,
                0x4000_0000,
                0xe200_0000,
            ),
            // 110 00_xxxx_xxxx_xxxx xxxxx
            rule(BranchesExceptionGenNSysInstr::ExceptionGeneration, 0xc000_0000, 0xe300_0000),
            // 110 01_0000_0011_0001 xxxxx
            rule(
                BranchesExceptionGenNSysInstr::SystemInstructionsWithRegisterArgument,
                0xc103_1000,
                0xe3ff_f000,
            ),
            // 110 01_0000_0011_0010 11111
            rule(BranchesExceptionGenNSysInstr::Hints, 0xc103_201f, 0xe3ff_f01f),
            // 110 01_0000_0011_0011 xxxxx
            rule(BranchesExceptionGenNSysInstr::Barriers, 0xc103_3000, 0xe3ff_f000),
            // 110 01_0000_0xxx_0100 xxxxx
            rule(BranchesExceptionGenNSysInstr::PSTATE, 0xc100_4000, 0xe3f8_f000),
            // 110 01_0010_0xxx_xxxx xxxxx
            rule(BranchesExceptionGenNSysInstr::SystemWithResult, 0xc120_0000, 0xe3f8_0000),
            // 110 01_00x0_1xxx_xxxx xxxxx
            rule(BranchesExceptionGenNSysInstr::SystemInstructions, 0xc108_0000, 0xe3d8_0000),
            // 110 01_00x1_xxxx_xxxx xxxxx
            rule(BranchesExceptionGenNSysInstr::SystemRegisterMove, 0xc110_0000, 0xe3d0_0000),
            // 110 1x_xxxx_xxxx_xxxx xxxxx
            rule(
                BranchesExceptionGenNSysInstr::UnconditionalBranchRegister,
                0xc200_0000,
                0xe200_0000,
            ),
            // x00 xx_xxxx_xxxx_xxxx xxxxx
            rule(
                BranchesExceptionGenNSysInstr::UnconditionalBranchImmediate,
                0x0000_0000,
                0x6000_0000,
            ),
            // x01 0x_xxxx_xxxx_xxxx xxxxx
            rule(
                BranchesExceptionGenNSysInstr::CompareAndBranchImmediate,
                0x2000_0000,
                0x6200_0000,
            ),
            // x01 1x_xxxx_xxxx_xxxx xxxxx
            rule(BranchesExceptionGenNSysInstr::TestAndBranchImmediate, 0x2200_0000, 0x6200_0000),
        ],
    }
}

/// Conditional branches to an immediate offset.
/// The comment above each rule gives the bits that it asks for of
/// `o1` and `o0`.
pub open spec fn conditional_branch_immediate_table() -> Table<ConditionalBranchImmediate> {
    Table {
        fields: seq![
            field("o1"@, 24..25),
            field("o0"@, 4..5),
            field("imm19"@, 5..24),
            field("cond"@, 0..4),
        ],
        rules: seq![
            // 0 0
            rule(ConditionalBranchImmediate::BCond, 0x0000_0000, 0x0100_0010),
            // 0 1
            rule(ConditionalBranchImmediate::BcCond, 0x0000_0010, 0x0100_0010),
            // 1 x
            rule(ConditionalBranchImmediate::Unallocated, 0x0100_0000, 0x0100_0000),
        ],
    }
}

/// Loads and stores.
/// The comment above each rule gives the bits that it asks for of
/// `op0`, `op1`, `op2`, `op3` and `op4`.
pub open spec fn loads_and_stores_table() -> Table<LoadsAndStores> {
    Table {
        fields: seq![
            field("op0"@, 28..32),
            field("op1"@, 26..27),
            field("op2"@, 23..25),
            field("op3"@, 16..22),
            field("op4"@, 10..12),
        ],
        rules: seq![
            // 0x00 0 00 1xx_xxx xx
            rule(LoadsAndStores::CompareAndSwapPair, 0x0020_0000, 0xb5a0_0000),
            // 0x00 1 00 000_000 xx
            rule(LoadsAndStores::AdvancedSIMDLoadStoreMultipleStructures, 0x0400_0000, 0xb5bf_0000),
            // 0x00 1 01 0xx_xxx xx
            rule(
                LoadsAndStores::AdvancedSIMDLoadStoreMultipleStructuresPostIndexed,
                0x0480_0000,
                0xb5a0_0000,
            ),
            // 0x00 1 0x 1xx_xxx xx
            rule(LoadsAndStores::Unallocated0, 0x0420_0000, 0xb520_0000),
            // 0x00 1 10 x00_000 xx
            rule(LoadsAndStores::AdvancedSIMDLoadStoreSingleStructure, 0x0500_0000, 0xb59f_0000),
            // 0x00 1 11 xxx_xxx xx
            rule(
                LoadsAndStores::AdvancedSIMDLoadStoreSingleStructurePostIndexed,
                0x0580_0000,
                0xb580_0000,
            ),
            // 0x00 1 x0 x1x_xxx xx
            rule(LoadsAndStores::Unallocated1, 0x0410_0000, 0xb490_0000),
            // 0x00 1 x0 xx1_xxx xx
            rule(LoadsAndStores::Unallocated2, 0x0408_0000, 0xb488_0000),
            // 0x00 1 x0 xxx_1xx xx
            rule(LoadsAndStores::Unallocated3, 0x0404_0000, 0xb484_0000),
            // 0x00 1 x0 xxx_x1x xx
            rule(LoadsAndStores::Unallocated4, 0x0402_0000, 0xb482_0000),
            // 0x00 1 x0 xxx_xx1 xx
            rule(LoadsAndStores::Unallocated5, 0x0401_0000, 0xb481_0000),
            // 1101 0 1x 1xx_xxx xx
            rule(LoadsAndStores::LoadStoreMemoryTags, 0xd120_0000, 0xf520_0000),
            // 1x00 0 00 1xx_xxx xx
            rule(LoadsAndStores::LoadStoreExclusivePair, 0x8020_0000, 0xb5a0_0000),
            // 1x00 1 xx xxx_xxx xx
            rule(LoadsAndStores::Unallocated6, 0x8400_0000, 0xb400_0000),
            // xx00 0 00 0xx_xxx xx
            rule(LoadsAndStores::LoadStoreExclusiveRegister, 0x0000_0000, 0x35a0_0000),
            // xx00 0 01 0xx_xxx xx
            rule(LoadsAndStores::LoadStoreOrdered, 0x0080_0000, 0x35a0_0000),
            // xx00 0 01 1xx_xxx xx
            rule(LoadsAndStores::CompareAndSwap, 0x00a0_0000, 0x35a0_0000),
            // xx01 0 1x 0xx_xxx 00
            rule(LoadsAndStores::LDAPRSTLRUnscalaedImmediate, 0x1100_0000, 0x3520_0c00),
            // xx01 x 0x xxx_xxx xx
            rule(LoadsAndStores::LoadRegisterLiteral, 0x1000_0000, 0x3100_0000),
            // xx01 x 1x 0xx_xxx 01
            rule(LoadsAndStores::MemoryCopyAndMemorySet, 0x1100_0400, 0x3120_0c00),
            // xx10 x 00 xxx_xxx xx
            rule(LoadsAndStores::LoadStoreNoAllocatePairOffset, 0x2000_0000, 0x3180_0000),
            // xx10 x 01 xxx_xxx xx
            rule(LoadsAndStores::LoadStoreRegisterPairPostIndexed, 0x2080_0000, 0x3180_0000),
            // xx10 x 10 xxx_xxx xx
            rule(LoadsAndStores::LoadStoreRegisterPairOffset, 0x2100_0000, 0x3180_0000),
            // xx10 x 11 xxx_xxx xx
            rule(LoadsAndStores::LoadStoreRegisterPairPreIndexed, 0x2180_0000, 0x3180_0000),
            // xx11 x 0x 0xx_xxx 00
            rule(LoadsAndStores::LoadStoreRegisterUnscalaedImmediate, 0x3000_0000, 0x3120_0c00),
            // xx11 x 0x 0xx_xxx 01
            rule(LoadsAndStores::LoadStoreRegisterImmediatePostIndexed, 0x3000_0400, 0x3120_0c00),
            // xx11 x 0x 0xx_xxx 10
            rule(LoadsAndStores::LoadStoreRegisterUnprivileged, 0x3000_0800, 0x3120_0c00),
            // xx11 x 0x 0xx_xxx 11
            rule(LoadsAndStores::LoadStoreRegisterImmediatePreIndexed, 0x3000_0c00, 0x3120_0c00),
            // xx11 x 0x 1xx_xxx 00
            rule(LoadsAndStores::AtomicMemoryOperations, 0x3020_0000, 0x3120_0c00),
            // xx11 x 0x 1xx_xxx 10
            rule(LoadsAndStores::LoadStoreRegisterRegisterOffset, 0x3020_0800, 0x3120_0c00),
            // xx11 x 0x 1xx_xxx x1
            rule(LoadsAndStores::LoadStoreRegisterPac, 0x3020_0400, 0x3120_0400),
            // xx11 x 1x xxx_xxx xx
            rule(LoadsAndStores::LoadStoreRegisterUnsignedImmediate, 0x3100_0000, 0x3100_0000),
        ],
    }
}

/// Loads and stores of a register at an unsigned immediate offset.
/// The comment above each rule gives the bits that it asks for of
/// `size`, `V` and `opc`.
pub open spec fn load_store_register_unsigned_immediate_table() -> Table<
    LoadStoreRegisterUnsignedImmediate,
> {
    Table {
        fields: seq![
            field("size"@, 30..32),
            field("V"@, 26..27),
            field("opc"@, 22..24),
            field("imm12"@, 10..22),
            field("Rn"@, 5..10),
            field("Rt"@, 0..5),
        ],
        rules: seq![
            // x1 1 1x
            rule(LoadStoreRegisterUnsignedImmediate::Unallocated0, 0x4480_0000, 0x4480_0000),
            // 00 0 00
            rule(LoadStoreRegisterUnsignedImmediate::STRBImmediate, 0x0000_0000, 0xc4c0_0000),
            // 00 0 01
            rule(LoadStoreRegisterUnsignedImmediate::LDRBImmediate, 0x0040_0000, 0xc4c0_0000),
            // 00 0 10
            rule(LoadStoreRegisterUnsignedImmediate::LDRSBImmediate64, 0x0080_0000, 0xc4c0_0000),
            // 00 0 11
            rule(LoadStoreRegisterUnsignedImmediate::LDRSBImmediate32, 0x00c0_0000, 0xc4c0_0000),
            // 00 1 00
            rule(LoadStoreRegisterUnsignedImmediate::STRImmediateSIMDFP8, 0x0400_0000, 0xc4c0_0000),
            // 00 1 01
            rule(LoadStoreRegisterUnsignedImmediate::LDRImmediateSIMDFP8, 0x0440_0000, 0xc4c0_0000),
            // 00 1 10
            rule(
                LoadStoreRegisterUnsignedImmediate::STRImmediateSIMDFP128,
                0x0480_0000,
                0xc4c0_0000,
            ),
            // 00 1 11
            rule(
                LoadStoreRegisterUnsignedImmediate::LDRImmediateSIMDFP128,
                0x04c0_0000,
                0xc4c0_0000,
            ),
            // 01 0 00
            rule(LoadStoreRegisterUnsignedImmediate::STRHImmediate, 0x4000_0000, 0xc4c0_0000),
            // 01 0 01
            rule(LoadStoreRegisterUnsignedImmediate::LDRHImmediate, 0x4040_0000, 0xc4c0_0000),
            // 01 0 10
            rule(LoadStoreRegisterUnsignedImmediate::LDRSHImmediate64, 0x4080_0000, 0xc4c0_0000),
            // 01 0 11
            rule(LoadStoreRegisterUnsignedImmediate::LDRSHImmediate32, 0x40c0_0000, 0xc4c0_0000),
            // 01 1 00
            rule(
                LoadStoreRegisterUnsignedImmediate::STRImmediateSIMDFP16,
                0x4400_0000,
                0xc4c0_0000,
            ),
            // 01 1 01
            rule(
                LoadStoreRegisterUnsignedImmediate::LDRImmediateSIMDFP16,
                0x4440_0000,
                0xc4c0_0000,
            ),
            // 1x 0 11
            rule(LoadStoreRegisterUnsignedImmediate::Unallocated1, 0x80c0_0000, 0x84c0_0000),
            // 1x 1 1x
            rule(LoadStoreRegisterUnsignedImmediate::Unallocated2, 0x8480_0000, 0x8480_0000),
            // 10 0 00
            rule(LoadStoreRegisterUnsignedImmediate::STRImmediate32, 0x8000_0000, 0xc4c0_0000),
            // 10 0 01
            rule(LoadStoreRegisterUnsignedImmediate::LDRImmediate32, 0x8040_0000, 0xc4c0_0000),
            // 10 0 10
            rule(LoadStoreRegisterUnsignedImmediate::LDRSWImmediate, 0x8080_0000, 0xc4c0_0000),
            // 10 1 00
            rule(
                LoadStoreRegisterUnsignedImmediate::STRImmediateSIMDFP32,
                0x8400_0000,
                0xc4c0_0000,
            ),
            // 10 1 01
            rule(
                LoadStoreRegisterUnsignedImmediate::LDRImmediateSIMDFP32,
                0x8440_0000,
                0xc4c0_0000,
            ),
            // 11 0 00
            rule(LoadStoreRegisterUnsignedImmediate::STRImmediate64, 0xc000_0000, 0xc4c0_0000),
            // 11 0 01
            rule(LoadStoreRegisterUnsignedImmediate::LDRImmediate64, 0xc040_0000, 0xc4c0_0000),
            // 11 0 10
            rule(LoadStoreRegisterUnsignedImmediate::PRFMImmediate, 0xc080_0000, 0xc4c0_0000),
            // 11 1 00
            rule(
                LoadStoreRegisterUnsignedImmediate::STRImmediateSIMDFP64,
                0xc400_0000,
                0xc4c0_0000,
            ),
            // 11 1 01
            rule(
                LoadStoreRegisterUnsignedImmediate::LDRImmediateSIMDFP64,
                0xc440_0000,
                0xc4c0_0000,
            ),
        ],
    }
}

/// Data processing with register operands.
/// The comment above each rule gives the bits that it asks for of
/// `op0`, `op1`, `op2` and `op3`.
pub open spec fn data_processing_register_table() -> Table<DataProcessingRegister> {
    Table {
        fields: seq![
            field("op0"@, 30..31),
            field("op1"@, 28..29),
            field("op2"@, 21..25),
            field("op3"@, 10..16),
        ],
        rules: seq![
            // 0 1 0110 xxx_xxx
            rule(DataProcessingRegister::DataProcessing2Source, 0x10c0_0000, 0x51e0_0000),
            // 1 1 0110 xxx_xxx
            rule(DataProcessingRegister::DataProcessing1Source, 0x50c0_0000, 0x51e0_0000),
            // x 0 0xxx xxx_xxx
            rule(DataProcessingRegister::LogicalShiftedRegister, 0x0000_0000, 0x1100_0000),
            // x 0 1xx0 xxx_xxx
            rule(DataProcessingRegister::AddSubtractShiftedRegister, 0x0100_0000, 0x1120_0000),
            // x 0 1xx1 xxx_xxx
            rule(DataProcessingRegister::AddSubtractExtendedRegister, 0x0120_0000, 0x1120_0000),
            // x 1 0000 000_000
            rule(DataProcessingRegister::AddSubtractWithCarry, 0x1000_0000, 0x11e0_fc00),
            // x 1 0000 x00_001
            rule(DataProcessingRegister::RotateRightIntoFlags, 0x1000_0400, 0x11e0_7c00),
            // x 1 0000 xx0_010
            rule(DataProcessingRegister::EvaluateInfoFlags, 0x1000_0800, 0x11e0_3c00),
            // x 1 0010 xxx_x0x
            rule(DataProcessingRegister::ConditionalCompareRegister, 0x1040_0000, 0x11e0_0800),
            // x 1 0010 xxx_x1x
            rule(DataProcessingRegister::ConditionalCompareImmediate, 0x1040_0800, 0x11e0_0800),
            // x 1 0100 xxx_xxx
            rule(DataProcessingRegister::ConditionalSelect, 0x1080_0000, 0x11e0_0000),
            // x 1 1xxx xxx_xxx
            rule(DataProcessingRegister::DataProcessing3Source, 0x1100_0000, 0x1100_0000),
        ],
    }
}

/// Addition and subtraction of a shifted register.
/// The comment above each rule gives the bits that it asks for of
/// `sf`, `op`, `S`, `shift` and `imm6`.
pub open spec fn add_subtract_shifted_register_table() -> Table<AddSubtractShiftedRegister> {
    Table {
        fields: seq![
            field("sf"@, 31..32),
            field("op"@, 30..31),
            field("S"@, 29..30),
            field("shift"@, 22..24),
            field("imm6"@, 10..16),
            field("Rm"@, 16..21),
            field("Rn"@, 5..10),
            field("Rd"@, 0..5),
        ],
        rules: seq![
            // x x x 11 xxx_xxx
            rule(AddSubtractShiftedRegister::Unallocated0, 0x00c0_0000, 0x00c0_0000),
            // 0 x x xx 1xx_xxx
            rule(AddSubtractShiftedRegister::Unallocated1, 0x0000_8000, 0x8000_8000),
            // 0 0 0 xx xxx_xxx
            rule(AddSubtractShiftedRegister::ADDShiftedRegister32, 0x0000_0000, 0xe000_0000),
            // 0 0 1 xx xxx_xxx
            rule(AddSubtractShiftedRegister::ADDSShiftedReigster32, 0x2000_0000, 0xe000_0000),
            // 0 1 0 xx xxx_xxx
            rule(AddSubtractShiftedRegister::SUBShiftedRegister32, 0x4000_0000, 0xe000_0000),
            // 0 1 1 xx xxx_xxx
            rule(AddSubtractShiftedRegister::SUBSShiftedRegister32, 0x6000_0000, 0xe000_0000),
            // 1 0 0 xx xxx_xxx
            rule(AddSubtractShiftedRegister::ADDShiftedRegister64, 0x8000_0000, 0xe000_0000),
            // 1 0 1 xx xxx_xxx
            rule(AddSubtractShiftedRegister::ADDSShiftedRegister64, 0xa000_0000, 0xe000_0000),
            // 1 1 0 xx xxx_xxx
            rule(AddSubtractShiftedRegister::SUBShiftedRegister64, 0xc000_0000, 0xe000_0000),
            // 1 1 1 xx xxx_xxx
            rule(AddSubtractShiftedRegister::SUBSShiftedRegister64, 0xe000_0000, 0xe000_0000),
        ],
    }
}

/// One of the rules matches, whatever the word.
proof fn lemma_main_encoding_covers(word: u32)
    by (bit_vector)
    ensures
        masked_equal(word, 0x0000_0000, 0x9e00_0000)
            || masked_equal(word, 0x8000_0000, 0x9e00_0000)
            || masked_equal(word, 0x0200_0000, 0x1e00_0000)
            || masked_equal(word, 0x0400_0000, 0x1e00_0000)
            || masked_equal(word, 0x0600_0000, 0x1e00_0000)
            || masked_equal(word, 0x1000_0000, 0x1c00_0000)
            || masked_equal(word, 0x1400_0000, 0x1c00_0000)
            || masked_equal(word, 0x0800_0000, 0x0a00_0000)
            || masked_equal(word, 0x0a00_0000, 0x0e00_0000)
            || masked_equal(word, 0x0e00_0000, 0x0e00_0000),
{
}

/// Every word matches a rule of the top-level table.
pub proof fn lemma_main_encoding_total(word: u32)
    ensures
        main_encoding_table().classify(word) is Some,
{
    lemma_main_encoding_covers(word);
    lemma_classify_is_scan(main_encoding_table(), word);
    reveal_with_fuel(classify_from, 11);
}

/// One of the rules matches, whatever the word.
proof fn lemma_data_processing_immediate_covers(word: u32)
    by (bit_vector)
    ensures
        masked_equal(word, 0x0000_0000, 0x0300_0000)
            || masked_equal(word, 0x0100_0000, 0x0380_0000)
            || masked_equal(word, 0x0180_0000, 0x0380_0000)
            || masked_equal(word, 0x0200_0000, 0x0380_0000)
            || masked_equal(word, 0x0280_0000, 0x0380_0000)
            || masked_equal(word, 0x0300_0000, 0x0380_0000)
            || masked_equal(word, 0x0380_0000, 0x0380_0000),
{
}

/// Every word matches a rule of the table of data processing with an immediate operand.
pub proof fn lemma_data_processing_immediate_total(word: u32)
    ensures
        data_processing_immediate_table().classify(word) is Some,
{
    lemma_data_processing_immediate_covers(word);
    lemma_classify_is_scan(data_processing_immediate_table(), word);
    reveal_with_fuel(classify_from, 8);
}

/// One of the rules matches, whatever the word.
proof fn lemma_add_subtract_immediate_covers(word: u32)
    by (bit_vector)
    ensures
        masked_equal(word, 0x0000_0000, 0xe000_0000)
            || masked_equal(word, 0x2000_0000, 0xe000_0000)
            || masked_equal(word, 0x4000_0000, 0xe000_0000)
            || masked_equal(word, 0x6000_0000, 0xe000_0000)
            || masked_equal(word, 0x8000_0000, 0xe000_0000)
            || masked_equal(word, 0xa000_0000, 0xe000_0000)
            || masked_equal(word, 0xc000_0000, 0xe000_0000)
            || masked_equal(word, 0xe000_0000, 0xe000_0000),
{
}

/// Every word matches a rule of the table of additions and subtractions of an immediate.
pub proof fn lemma_add_subtract_immediate_total(word: u32)
    ensures
        add_subtract_immediate_table().classify(word) is Some,
{
    lemma_add_subtract_immediate_covers(word);
    lemma_classify_is_scan(add_subtract_immediate_table(), word);
    reveal_with_fuel(classify_from, 9);
}

/// One of the rules matches, whatever the word.
proof fn lemma_conditional_branch_immediate_covers(word: u32)
    by (bit_vector)
    ensures
        masked_equal(word, 0x0000_0000, 0x0100_0010)
            || masked_equal(word, 0x0000_0010, 0x0100_0010)
            || masked_equal(word, 0x0100_0000, 0x0100_0000),
{
}

/// Every word matches a rule of the table of conditional branches.
pub proof fn lemma_conditional_branch_immediate_total(word: u32)
    ensures
        conditional_branch_immediate_table().classify(word) is Some,
{
    lemma_conditional_branch_immediate_covers(word);
    lemma_classify_is_scan(conditional_branch_immediate_table(), word);
    reveal_with_fuel(classify_from, 4);
}

/// One of the rules matches, whatever the word.
proof fn lemma_load_store_register_unsigned_immediate_covers(word: u32)
    by (bit_vector)
    ensures
        masked_equal(word, 0x4480_0000, 0x4480_0000)
            || masked_equal(word, 0x0000_0000, 0xc4c0_0000)
            || masked_equal(word, 0x0040_0000, 0xc4c0_0000)
            || masked_equal(word, 0x0080_0000, 0xc4c0_0000)
            || masked_equal(word, 0x00c0_0000, 0xc4c0_0000)
            || masked_equal(word, 0x0400_0000, 0xc4c0_0000)
            || masked_equal(word, 0x0440_0000, 0xc4c0_0000)
            || masked_equal(word, 0x0480_0000, 0xc4c0_0000)
            || masked_equal(word, 0x04c0_0000, 0xc4c0_0000)
            || masked_equal(word, 0x4000_0000, 0xc4c0_0000)
            || masked_equal(word, 0x4040_0000, 0xc4c0_0000)
            || masked_equal(word, 0x4080_0000, 0xc4c0_0000)
            || masked_equal(word, 0x40c0_0000, 0xc4c0_0000)
            || masked_equal(word, 0x4400_0000, 0xc4c0_0000)
            || masked_equal(word, 0x4440_0000, 0xc4c0_0000)
            || masked_equal(word, 0x80c0_0000, 0x84c0_0000)
            || masked_equal(word, 0x8480_0000, 0x8480_0000)
            || masked_equal(word, 0x8000_0000, 0xc4c0_0000)
            || masked_equal(word, 0x8040_0000, 0xc4c0_0000)
            || masked_equal(word, 0x8080_0000, 0xc4c0_0000)
            || masked_equal(word, 0x8400_0000, 0xc4c0_0000)
            || masked_equal(word, 0x8440_0000, 0xc4c0_0000)
            || masked_equal(word, 0xc000_0000, 0xc4c0_0000)
            || masked_equal(word, 0xc040_0000, 0xc4c0_0000)
            || masked_equal(word, 0xc080_0000, 0xc4c0_0000)
            || masked_equal(word, 0xc400_0000, 0xc4c0_0000)
            || masked_equal(word, 0xc440_0000, 0xc4c0_0000),
{
}

/// Every word matches a rule of the table of loads and stores at an unsigned immediate offset.
pub proof fn lemma_load_store_register_unsigned_immediate_total(word: u32)
    ensures
        load_store_register_unsigned_immediate_table().classify(word) is Some,
{
    lemma_load_store_register_unsigned_immediate_covers(word);
    lemma_classify_is_scan(load_store_register_unsigned_immediate_table(), word);
    reveal_with_fuel(classify_from, 28);
}

/// One of the rules matches, whatever the word.
proof fn lemma_add_subtract_shifted_register_covers(word: u32)
    by (bit_vector)
    ensures
        masked_equal(word, 0x00c0_0000, 0x00c0_0000)
            || masked_equal(word, 0x0000_8000, 0x8000_8000)
            || masked_equal(word, 0x0000_0000, 0xe000_0000)
            || masked_equal(word, 0x2000_0000, 0xe000_0000)
            || masked_equal(word, 0x4000_0000, 0xe000_0000)
            || masked_equal(word, 0x6000_0000, 0xe000_0000)
            || masked_equal(word, 0x8000_0000, 0xe000_0000)
            || masked_equal(word, 0xa000_0000, 0xe000_0000)
            || masked_equal(word, 0xc000_0000, 0xe000_0000)
            || masked_equal(word, 0xe000_0000, 0xe000_0000),
{
}

/// Every word matches a rule of the table of additions and subtractions of a shifted register.
pub proof fn lemma_add_subtract_shifted_register_total(word: u32)
    ensures
        add_subtract_shifted_register_table().classify(word) is Some,
{
    lemma_add_subtract_shifted_register_covers(word);
    lemma_classify_is_scan(add_subtract_shifted_register_table(), word);
    reveal_with_fuel(classify_from, 11);
}

} // verus!
