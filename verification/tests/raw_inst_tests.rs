use aarch64_decoder::aarc64_parser::AArch64Parser;
use aarch64_decoder::error::{DecodeError, EncodingGroup};
use aarch64_decoder::instructions::data_processing_immediate::AddSubtractImmediateData;
use aarch64_decoder::instructions::loads_and_stores::LoadsAndStores as LoadsAndStoresRow;
use aarch64_decoder::raw_inst::brnch_xcept_gen_and_sys_inst::BranchExceptionGenAndSysInst;
use aarch64_decoder::raw_inst::data_processing_immediate::{
    AddSubtractImmediate, DataProcessingImmediate,
};
use aarch64_decoder::raw_inst::data_processing_register::DataProcessingRegister;
use aarch64_decoder::raw_inst::loads_and_stores::{LoadNStoreRegisterUnsignedImdt, LoadsAndStores};
use aarch64_decoder::raw_inst::RawInst;
use aarch64_decoder::AArch64Inst;

#[test]
fn bitwise_check_test() {
    let val = RawInst(0b_1111_0000_1010_0101_1100_0011_1001_0110);

    assert_eq!(val.get_op0(), 0b1);
    assert_eq!(val.get_op1(), 0b1000);
}

#[test]
fn add_subtract_immediate_fields() {
    let word = AddSubtractImmediate(0xd100_0422);

    assert_eq!(word.get_sf(), 1);
    assert_eq!(word.get_op(), 1);
    assert_eq!(word.get_S(), 0);
    assert_eq!(word.get_sh(), 0);
    assert_eq!(word.get_imm12(), 1);
    assert_eq!(word.get_rn(), 1);
    assert_eq!(word.get_rd(), 2);
    assert_eq!(DataProcessingImmediate(0xd100_0422).get_op0(), 0b010);
}

#[test]
fn branch_group_fields() {
    let word = BranchExceptionGenAndSysInst(0xd503_201f);

    assert_eq!(word.get_op0(), 0b110);
    assert_eq!(word.get_op1(), 0b01_0000_0011_0010);
    assert_eq!(word.get_op2(), 0b11111);
}

#[test]
fn data_processing_register_fields() {
    let word = DataProcessingRegister(0xeb9f_fc85);

    assert_eq!(word.get_op0(), 1);
    assert_eq!(word.get_op1(), 0);
    assert_eq!(word.get_op2(), 0b1100);
    assert_eq!(word.get_op3(), 0b111111);
}

#[test]
fn loads_and_stores_fields() {
    let word = LoadsAndStores(0xf900_07e0);

    assert_eq!(word.get_op0(), 0b1111);
    assert_eq!(word.get_op1(), 0);
    assert_eq!(word.get_op2(), 0b10);
    assert_eq!(word.get_op3(), 0);
    assert_eq!(word.get_op4(), 0b01);

    let store = LoadNStoreRegisterUnsignedImdt(0xf900_07e0);
    assert_eq!(store.get_size(), 0b11);
    assert_eq!(store.get_V(), 0);
    assert_eq!(store.get_opc(), 0);
    assert_eq!(store.get_imm12(), 1);
    assert_eq!(store.get_rn(), 31);
    assert_eq!(store.get_rt(), 0);
}

#[test]
fn raw_word_decodes_by_its_fields() {
    assert_eq!(
        RawInst(0xd100_0422).try_into(),
        Ok(AArch64Inst::SubImmediate64(AddSubtractImmediateData {
            sf: 1,
            op: 1,
            s: 0,
            sh: 0,
            imm12: 1,
            rn: 1,
            rd: 2,
        }))
    );
    assert_eq!(RawInst(0x5600_0000).try_into(), Err(DecodeError::NoMatch(0x5600_0000)));
    assert_eq!(
        LoadsAndStores(0x2800_0000).try_into(),
        Err(DecodeError::Unsupported(
            EncodingGroup::LoadsAndStores(LoadsAndStoresRow::LoadStoreNoAllocatePairOffset),
            0x2800_0000
        ))
    );
}

#[test]
fn decoding_by_fields_agrees_with_the_tables_on_chosen_words() {
    let parser = AArch64Parser::new();
    let words = [
        0xd100_0422,
        0xd17f_ffff,
        0x9100_0421,
        0x5400_0021,
        0x54ff_ffe0,
        0x5400_0030,
        0x5500_0000,
        0x5600_0000,
        0xd503_201f,
        0xf900_07e0,
        0xb900_0000,
        0x2800_0000,
        0x0900_0000,
        0xeb02_0020,
        0xeb9f_fc85,
        0xebc2_0020,
        0x6b02_0020,
        0x1a00_0c00,
        0x0a00_0000,
        0x1200_0000,
        0x0000_0000,
        0x8000_0000,
        0x0200_0000,
        0x0400_0000,
        0x0600_0000,
        0x1e00_0000,
        0xffff_ffff,
    ];

    for word in words {
        assert_eq!(RawInst(word).try_into(), parser.parse(word));
    }
}

#[test]
fn decoding_by_fields_agrees_with_the_tables_on_many_words() {
    let parser = AArch64Parser::new();
    let mut word: u32 = 0x2545_f491;

    for _ in 0..200_000 {
        word ^= word << 13;
        word ^= word >> 17;
        word ^= word << 5;
        assert_eq!(RawInst(word).try_into(), parser.parse(word));
    }
}

#[test]
fn the_groups_decode_by_fields_as_the_parser_does() {
    let parser = AArch64Parser::new();
    let mut word: u32 = 0x9e37_79b9;

    for _ in 0..50_000 {
        word ^= word << 13;
        word ^= word >> 17;
        word ^= word << 5;
        assert_eq!(
            DataProcessingImmediate(word).try_into(),
            parser.parse_data_processing_immediate(word)
        );
        assert_eq!(
            AddSubtractImmediate(word).try_into(),
            parser.parse_add_subtract_immediate(word)
        );
        assert_eq!(
            BranchExceptionGenAndSysInst(word).try_into(),
            parser.parse_brnch_xcept_gen_sys_instr(word)
        );
        assert_eq!(LoadsAndStores(word).try_into(), parser.parse_load_and_stores(word));
        assert_eq!(
            LoadNStoreRegisterUnsignedImdt(word).try_into(),
            parser.parse_load_store_register_unsigned_immediate(word)
        );
        assert_eq!(
            DataProcessingRegister(word).try_into(),
            parser.parse_data_processing_register(word)
        );
    }
}
