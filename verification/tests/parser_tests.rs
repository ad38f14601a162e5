use aarch64_decoder::aarc64_parser::AArch64Parser;
use aarch64_decoder::error::{DecodeError, EncodingGroup};
use aarch64_decoder::instructions::brnch_xcept_gen_sys_instr::{
    BranchesExceptionGenNSysInstr, ConditionalBranchImmediate, ConditionalBranchImmediateData,
};
use aarch64_decoder::instructions::data_processing_immediate::{
    AddSubtractImmediate, AddSubtractImmediateData, DataProcessingImmediate,
};
use aarch64_decoder::instructions::data_processing_register::{
    AddSubtractShiftedRegister, AddSubtractShiftedRegisterData, DataProcessingRegister,
};
use aarch64_decoder::instructions::loads_and_stores::{
    LoadStoreRegisterUnsignedImmediate, LoadStoreRegisterUnsignedImmediateData, LoadsAndStores,
};
use aarch64_decoder::instructions::MainEncodingTable;
use aarch64_decoder::AArch64Inst;

#[test]
fn sub_immediate_64_is_decoded_with_its_operands() {
    let parser = AArch64Parser::new();
    let word = 0b11_0_1_0001_00_000000000001_00001_00010;

    assert_eq!(word, 0xd100_0422);
    assert_eq!(
        parser.parse(word),
        Ok(AArch64Inst::SubImmediate64(AddSubtractImmediateData {
            sf: 1,
            op: 1,
            s: 0,
            sh: 0,
            imm12: 1,
            rn: 1,
            rd: 2,
        }))
    );
}

#[test]
fn sub_immediate_64_with_every_operand_bit_set() {
    let parser = AArch64Parser::new();

    assert_eq!(
        parser.parse(0xd17f_ffff),
        Ok(AArch64Inst::SubImmediate64(AddSubtractImmediateData {
            sf: 1,
            op: 1,
            s: 0,
            sh: 1,
            imm12: 0xfff,
            rn: 31,
            rd: 31,
        }))
    );
}

#[test]
fn reserved_top_level_groups_are_unsupported() {
    let parser = AArch64Parser::new();
    let cases = [
        (0x0000_0000, MainEncodingTable::Reserved),
        (0x8000_0000, MainEncodingTable::SmeEncodings),
        (0x0200_0000, MainEncodingTable::Unallocated0),
        (0x0400_0000, MainEncodingTable::SveEncodings),
        (0x0600_0000, MainEncodingTable::Unallocated1),
        (0x1e00_0000, MainEncodingTable::DataProcessingScalarFloatingPointAndAdvancedSIMD),
        (0xffff_ffff, MainEncodingTable::DataProcessingScalarFloatingPointAndAdvancedSIMD),
    ];

    for (word, row) in cases {
        assert_eq!(
            parser.parse(word),
            Err(DecodeError::Unsupported(EncodingGroup::MainEncodingTable(row), word))
        );
    }
}

#[test]
fn conditional_branch_is_decoded_with_its_operands() {
    let parser = AArch64Parser::new();

    assert_eq!(
        parser.parse(0x5400_0021),
        Ok(AArch64Inst::BCond(ConditionalBranchImmediateData { o1: 0, o0: 0, imm19: 1, cond: 1 }))
    );
    assert_eq!(
        parser.parse(0x5480_000a),
        Ok(AArch64Inst::BCond(ConditionalBranchImmediateData {
            o1: 0,
            o0: 0,
            imm19: 0x4_0000,
            cond: 10,
        }))
    );
}

#[test]
fn conditional_branch_offset_is_not_sign_extended() {
    let parser = AArch64Parser::new();

    assert_eq!(
        parser.parse(0x54ff_ffe0),
        Ok(AArch64Inst::BCond(ConditionalBranchImmediateData {
            o1: 0,
            o0: 0,
            imm19: 0x7_ffff,
            cond: 0,
        }))
    );
}

#[test]
fn other_conditional_branch_rows_are_unsupported() {
    let parser = AArch64Parser::new();

    assert_eq!(
        parser.parse(0x5400_0030),
        Err(DecodeError::Unsupported(
            EncodingGroup::ConditionalBranchImmediate(ConditionalBranchImmediate::BcCond),
            0x5400_0030
        ))
    );
    assert_eq!(
        parser.parse(0x5500_0000),
        Err(DecodeError::Unsupported(
            EncodingGroup::ConditionalBranchImmediate(ConditionalBranchImmediate::Unallocated),
            0x5500_0000
        ))
    );
}

#[test]
fn str_immediate_64_is_decoded_with_its_operands() {
    let parser = AArch64Parser::new();

    assert_eq!(
        parser.parse(0xf900_07e0),
        Ok(AArch64Inst::STRImmediate64(LoadStoreRegisterUnsignedImmediateData {
            size: 3,
            v: 0,
            opc: 0,
            imm12: 1,
            rn: 31,
            rt: 0,
        }))
    );
}

#[test]
fn subs_shifted_register_64_is_decoded_with_its_operands() {
    let parser = AArch64Parser::new();

    assert_eq!(
        parser.parse(0xeb02_0020),
        Ok(AArch64Inst::SUBSShiftedRegister64(AddSubtractShiftedRegisterData {
            sf: 1,
            op: 1,
            s: 1,
            shift: 0,
            imm6: 0,
            rm: 2,
            rn: 1,
            rd: 0,
        }))
    );
    assert_eq!(
        parser.parse(0xeb9f_fc85),
        Ok(AArch64Inst::SUBSShiftedRegister64(AddSubtractShiftedRegisterData {
            sf: 1,
            op: 1,
            s: 1,
            shift: 2,
            imm6: 63,
            rm: 31,
            rn: 4,
            rd: 5,
        }))
    );
}

#[test]
fn a_reserved_shift_goes_before_the_instruction_rows() {
    let parser = AArch64Parser::new();

    assert_eq!(
        parser.parse(0xebc2_0020),
        Err(DecodeError::Unsupported(
            EncodingGroup::AddSubtractShiftedRegister(AddSubtractShiftedRegister::Unallocated0),
            0xebc2_0020
        ))
    );
}

#[test]
fn rows_without_a_decoder_are_unsupported() {
    let parser = AArch64Parser::new();

    assert_eq!(
        parser.parse(0x9100_0421),
        Err(DecodeError::Unsupported(
            EncodingGroup::AddSubtractImmediate(AddSubtractImmediate::ADDImmediate64),
            0x9100_0421
        ))
    );
    assert_eq!(
        parser.parse(0xd503_201f),
        Err(DecodeError::Unsupported(
            EncodingGroup::BranchesExceptionGenNSysInstr(BranchesExceptionGenNSysInstr::Hints),
            0xd503_201f
        ))
    );
    assert_eq!(
        parser.parse(0xb900_0000),
        Err(DecodeError::Unsupported(
            EncodingGroup::LoadStoreRegisterUnsignedImmediate(
                LoadStoreRegisterUnsignedImmediate::STRImmediate32
            ),
            0xb900_0000
        ))
    );
    assert_eq!(
        parser.parse(0x6b02_0020),
        Err(DecodeError::Unsupported(
            EncodingGroup::AddSubtractShiftedRegister(
                AddSubtractShiftedRegister::SUBSShiftedRegister32
            ),
            0x6b02_0020
        ))
    );
    assert_eq!(
        parser.parse(0x1200_0000),
        Err(DecodeError::Unsupported(
            EncodingGroup::DataProcessingImmediate(DataProcessingImmediate::LogicalImmediate),
            0x1200_0000
        ))
    );
    assert_eq!(
        parser.parse(0x0a00_0000),
        Err(DecodeError::Unsupported(
            EncodingGroup::DataProcessingRegister(DataProcessingRegister::LogicalShiftedRegister),
            0x0a00_0000
        ))
    );
    assert_eq!(
        parser.parse(0x2800_0000),
        Err(DecodeError::Unsupported(
            EncodingGroup::LoadsAndStores(LoadsAndStores::LoadStoreNoAllocatePairOffset),
            0x2800_0000
        ))
    );
}

#[test]
fn words_that_no_rule_matches_are_reported() {
    let parser = AArch64Parser::new();

    assert_eq!(parser.parse(0x5600_0000), Err(DecodeError::NoMatch(0x5600_0000)));
    assert_eq!(parser.parse(0x1a00_0c00), Err(DecodeError::NoMatch(0x1a00_0c00)));
    assert_eq!(parser.parse(0x0900_0000), Err(DecodeError::NoMatch(0x0900_0000)));
}

#[test]
fn decoding_twice_gives_the_same_result() {
    let parser = AArch64Parser::new();
    let other = AArch64Parser::new();

    for word in [0xd100_0422, 0x5400_0021, 0xf900_07e0, 0xeb02_0020, 0, 0x5600_0000, u32::MAX] {
        let first = parser.parse(word);
        assert_eq!(parser.parse(word), first);
        assert_eq!(other.parse(word), first);
    }
}

#[test]
fn sub_immediate_64_is_decoded_exactly_on_its_fixed_bits() {
    let parser = AArch64Parser::new();

    for low in [0u32, 1, 0x0042_0422, 0x007f_ffff, 0x0055_5555] {
        let word = 0xd100_0000 | low;
        assert!(matches!(parser.parse(word), Ok(AArch64Inst::SubImmediate64(_))));
        for bit in 23..32 {
            let flipped = word ^ (1 << bit);
            assert!(!matches!(parser.parse(flipped), Ok(AArch64Inst::SubImmediate64(_))));
        }
    }
}

#[test]
fn the_groups_decode_their_own_words() {
    let parser = AArch64Parser::new();

    assert_eq!(parser.parse_data_processing_immediate(0xd100_0422), parser.parse(0xd100_0422));
    assert_eq!(parser.parse_add_subtract_immediate(0xd100_0422), parser.parse(0xd100_0422));
    assert_eq!(parser.parse_brnch_xcept_gen_sys_instr(0x5400_0021), parser.parse(0x5400_0021));
    assert_eq!(parser.parse_conditional_branch_immediate(0x5400_0021), parser.parse(0x5400_0021));
    assert_eq!(parser.parse_load_and_stores(0xf900_07e0), parser.parse(0xf900_07e0));
    assert_eq!(
        parser.parse_load_store_register_unsigned_immediate(0xf900_07e0),
        parser.parse(0xf900_07e0)
    );
    assert_eq!(parser.parse_data_processing_register(0xeb02_0020), parser.parse(0xeb02_0020));
    assert_eq!(parser.parse_add_subtract_shifted_register(0xeb02_0020), parser.parse(0xeb02_0020));
}
