use aarch64_decoder::error::ErrorKind;
use aarch64_decoder::pattern_matcher::{parse_pattern, Pattern, PatternMatcher};
use aarch64_decoder::utils::GetBits;

#[derive(Clone, Copy, Debug, PartialEq, Eq)]
enum MockPattern {
    Pattern1,
    Pattern2,
    Pattern3,
}

#[test]
fn test_one_pattern_match() {
    let pattern_matcher = PatternMatcher::<MockPattern>::builder()
        .args("op0", 0..4)
        .inst(MockPattern::Pattern1)
        .with("x000")
        .inst(MockPattern::Pattern2)
        .with("11xx")
        .inst(MockPattern::Pattern3)
        .with("0011")
        .build()
        .unwrap();

    match pattern_matcher.match_pattern(0b0000) {
        Some(MockPattern::Pattern1) => assert!(true),
        Some(MockPattern::Pattern2) => unreachable!(),
        Some(MockPattern::Pattern3) => unreachable!(),
        None => unreachable!(),
    }

    match pattern_matcher.match_pattern(0b1111) {
        Some(MockPattern::Pattern1) => unreachable!(),
        Some(MockPattern::Pattern2) => assert!(true),
        Some(MockPattern::Pattern3) => unreachable!(),
        None => unreachable!(),
    }

    match pattern_matcher.match_pattern(0b0011) {
        Some(MockPattern::Pattern1) => unreachable!(),
        Some(MockPattern::Pattern2) => unreachable!(),
        Some(MockPattern::Pattern3) => assert!(true),
        None => unreachable!(),
    }

    match pattern_matcher.match_pattern(0b1010) {
        Some(MockPattern::Pattern1) => unreachable!(),
        Some(MockPattern::Pattern2) => unreachable!(),
        Some(MockPattern::Pattern3) => unreachable!(),
        None => assert!(true),
    }
}

#[test]
fn test_invalid_pattern_length() {
    let built = PatternMatcher::<MockPattern>::builder()
        .args("op0", 0..4)
        .inst(MockPattern::Pattern1)
        .with("x0x0x0x0")
        .build();

    assert!(matches!(built, Err(ErrorKind::PatternArityMismatch)));
}

#[test]
fn test_multiple_pattern_match() {
    let pattern_matcher = PatternMatcher::<MockPattern>::builder()
        .args("op0", 0..4)
        .args("op1", 31..32)
        .args("op2", 10..16)
        .inst(MockPattern::Pattern1)
        .with("x000")
        .with("1")
        .with("xxx_xx1")
        .inst(MockPattern::Pattern2)
        .with("11xx")
        .with("0")
        .with("010_xx1")
        .inst(MockPattern::Pattern3)
        .with("0011")
        .with("0")
        .with("000_xx1")
        .build()
        .unwrap();

    match pattern_matcher.match_pattern(0b1_000_0000_0000_0000_000001_00_0000_0000) {
        Some(MockPattern::Pattern1) => assert!(true),
        Some(MockPattern::Pattern2) => unreachable!(),
        Some(MockPattern::Pattern3) => unreachable!(),
        None => unreachable!(),
    }

    match pattern_matcher.match_pattern(0b0_000_0000_0000_0000_010111_00_0000_1110) {
        Some(MockPattern::Pattern1) => unreachable!(),
        Some(MockPattern::Pattern2) => assert!(true),
        Some(MockPattern::Pattern3) => unreachable!(),
        None => unreachable!(),
    }

    match pattern_matcher.match_pattern(0b0_000_0000_0000_0000_000111_00_0000_0011) {
        Some(MockPattern::Pattern1) => unreachable!(),
        Some(MockPattern::Pattern2) => unreachable!(),
        Some(MockPattern::Pattern3) => assert!(true),
        None => unreachable!(),
    }

    match pattern_matcher.match_pattern(0b1_000_0000_0000_0000_010001_00_0000_1111) {
        Some(MockPattern::Pattern1) => unreachable!(),
        Some(MockPattern::Pattern2) => unreachable!(),
        Some(MockPattern::Pattern3) => unreachable!(),
        None => assert!(true),
    }
}

#[test]
fn parse_pattern_places_value_and_mask_in_the_field() {
    assert_eq!(
        parse_pattern("x1x0", &(25..29)),
        Ok(Pattern { pattern: 0x0800_0000, mask: 0x0a00_0000 })
    );
    assert_eq!(
        parse_pattern("1", &(31..32)),
        Ok(Pattern { pattern: 0x8000_0000, mask: 0x8000_0000 })
    );
    assert_eq!(parse_pattern("0", &(31..32)), Ok(Pattern { pattern: 0, mask: 0x8000_0000 }));
    assert_eq!(parse_pattern("x", &(31..32)), Ok(Pattern { pattern: 0, mask: 0 }));
    assert_eq!(parse_pattern("0011", &(0..4)), Ok(Pattern { pattern: 0b0011, mask: 0b1111 }));
    assert_eq!(
        parse_pattern("01_0000_0xxx_0100", &(12..26)),
        Ok(Pattern { pattern: 0x0100_4000, mask: 0x03f8_f000 })
    );
}

#[test]
fn parse_pattern_skips_separators() {
    let plain = parse_pattern("010xx1", &(10..16));
    assert_eq!(plain, Ok(Pattern { pattern: 0b010001 << 10, mask: 0b111001 << 10 }));
    assert_eq!(parse_pattern("010_xx1", &(10..16)), plain);
    assert_eq!(parse_pattern("_0_1_0_x_x_1_", &(10..16)), plain);
    assert_eq!(parse_pattern("01__0xx1", &(10..16)), plain);
}

#[test]
fn parse_pattern_round_trip() {
    let cases: [(&str, u8, u8, u32, u32); 6] = [
        ("x000", 0, 4, 0b0000, 0b0111),
        ("11xx", 0, 4, 0b1100, 0b1100),
        ("1xx_xxx", 16, 22, 0b100000, 0b100000),
        ("x00_001", 10, 16, 0b000001, 0b011111),
        ("101", 29, 32, 0b101, 0b111),
        ("1111_0000_1010_0101_xxxx_xxxx_1001_0110", 0, 32, 0xf0a5_0096, 0xffff_00ff),
    ];
    for (text, start, end, value, mask) in cases {
        let range = start..end;
        let compiled = parse_pattern(text, &range).unwrap();
        assert_eq!(compiled.pattern.get_bits(&range), value);
        assert_eq!(compiled.mask.get_bits(&range), mask);
        assert_eq!(compiled.pattern, value << start);
        assert_eq!(compiled.mask, mask << start);
        assert_eq!(compiled.pattern & !compiled.mask, 0);
    }
}

#[test]
fn parse_pattern_mask_bits_are_the_fixed_positions() {
    let compiled = parse_pattern("1x0_x1", &(3..8)).unwrap();

    // characters, last first: '1' bit 3, 'x' bit 4, '0' bit 5, 'x' bit 6, '1' bit 7
    assert_eq!(compiled.mask, (1 << 3) | (1 << 5) | (1 << 7));
    assert_eq!(compiled.pattern, (1 << 3) | (1 << 7));
}

#[test]
fn parse_pattern_rejects_a_wrong_number_of_bits() {
    let wrong = Err(ErrorKind::PatternArityMismatch);

    assert_eq!(parse_pattern("x00", &(0..4)), wrong);
    assert_eq!(parse_pattern("x0000", &(0..4)), wrong);
    assert!(parse_pattern("x000", &(0..4)).is_ok());
    assert_eq!(parse_pattern("", &(0..1)), wrong);
    assert_eq!(parse_pattern("___", &(0..1)), wrong);
    assert_eq!(parse_pattern("xx", &(31..32)), wrong);
    assert_eq!(parse_pattern("x_x", &(31..32)), wrong);
    assert_eq!(parse_pattern("1111_0000_1010_0101_xxxx_xxxx_1001_011", &(0..32)), wrong);
    assert_eq!(parse_pattern("1111_0000_1010_0101_xxxx_xxxx_1001_0110_1", &(0..32)), wrong);
    assert_eq!(
        parse_pattern("1111_0000_1010_0101_xxxx_xxxx_1001_0110_1111_0000_1010_0101", &(0..32)),
        wrong
    );
}

#[test]
fn separators_do_not_count_as_bits() {
    assert!(parse_pattern("x_0_0_0", &(0..4)).is_ok());
    assert_eq!(parse_pattern("x_00", &(0..4)), Err(ErrorKind::PatternArityMismatch));
}

#[test]
fn first_matching_rule_wins_in_either_order() {
    let general_first = PatternMatcher::<MockPattern>::builder()
        .args("op0", 0..4)
        .inst(MockPattern::Pattern1)
        .with("1xxx")
        .inst(MockPattern::Pattern2)
        .with("1010")
        .build()
        .unwrap();
    let specific_first = PatternMatcher::<MockPattern>::builder()
        .args("op0", 0..4)
        .inst(MockPattern::Pattern2)
        .with("1010")
        .inst(MockPattern::Pattern1)
        .with("1xxx")
        .build()
        .unwrap();

    assert_eq!(general_first.match_pattern(0b1010), Some(MockPattern::Pattern1));
    assert_eq!(specific_first.match_pattern(0b1010), Some(MockPattern::Pattern2));
    assert_eq!(general_first.match_pattern(0b1000), Some(MockPattern::Pattern1));
    assert_eq!(specific_first.match_pattern(0b1000), Some(MockPattern::Pattern1));
    assert_eq!(general_first.match_pattern(0b0010), None);
    assert_eq!(specific_first.match_pattern(0b0010), None);
}

#[test]
fn a_table_over_every_value_of_a_field_always_matches() {
    let table = PatternMatcher::<u8>::builder()
        .args("op", 6..8)
        .inst(0)
        .with("00")
        .inst(1)
        .with("01")
        .inst(2)
        .with("10")
        .inst(3)
        .with("11")
        .build()
        .unwrap();

    for value in 0u32..4 {
        for rest in [0u32, 0x3f, 0xffff_ff00, 0xffff_ff3f, 0x1234_5600] {
            let word = (value << 6) | (rest & !0xc0);
            assert_eq!(table.match_pattern(word), Some(value as u8));
        }
    }
}

#[test]
fn matching_looks_at_the_masked_bits_only() {
    let table = PatternMatcher::<MockPattern>::builder()
        .args("hi", 28..32)
        .args("lo", 0..4)
        .inst(MockPattern::Pattern1)
        .with("1x01")
        .with("xx10")
        .build()
        .unwrap();

    assert_eq!(table.match_pattern(0x9000_0002), Some(MockPattern::Pattern1));
    assert_eq!(table.match_pattern(0xdfff_fffe), Some(MockPattern::Pattern1));
    assert_eq!(table.match_pattern(0x9000_0003), None);
    assert_eq!(table.match_pattern(0x1000_0002), None);
    assert_eq!(table.match_pattern(0xb000_0002), None);
}

#[test]
fn get_arg_extracts_the_declared_fields() {
    let table = PatternMatcher::<MockPattern>::builder()
        .args("sf", 31..32)
        .args("imm12", 10..22)
        .args("Rn", 5..10)
        .args("Rd", 0..5)
        .inst(MockPattern::Pattern1)
        .with("x")
        .with("xxxx_xxxx_xxxx")
        .with("xxxxx")
        .with("xxxxx")
        .build()
        .unwrap();
    let word = 0xd100_0422;

    assert_eq!(table.get_arg(word, 0), 1);
    assert_eq!(table.get_arg(word, 1), 1);
    assert_eq!(table.get_arg(word, 2), 1);
    assert_eq!(table.get_arg(word, 3), 2);
    assert_eq!(table.get_arg(0x003f_fc00, 1), 0xfff);
    assert_eq!(table.get_arg(!0x003f_fc00, 1), 0);
}

#[test]
fn too_few_patterns_are_a_fault() {
    let ended_early = PatternMatcher::<MockPattern>::builder()
        .args("op0", 0..4)
        .args("op1", 31..32)
        .inst(MockPattern::Pattern1)
        .with("x000")
        .build();
    assert!(matches!(ended_early, Err(ErrorKind::FieldArityMismatch)));

    let next_rule_early = PatternMatcher::<MockPattern>::builder()
        .args("op0", 0..4)
        .args("op1", 31..32)
        .inst(MockPattern::Pattern1)
        .with("x000")
        .inst(MockPattern::Pattern2)
        .with("11xx")
        .with("0")
        .build();
    assert!(matches!(next_rule_early, Err(ErrorKind::FieldArityMismatch)));

    let none_at_all = PatternMatcher::<MockPattern>::builder()
        .args("op0", 0..4)
        .inst(MockPattern::Pattern1)
        .build();
    assert!(matches!(none_at_all, Err(ErrorKind::FieldArityMismatch)));
}

#[test]
fn too_many_patterns_are_a_fault() {
    let built = PatternMatcher::<MockPattern>::builder()
        .args("op0", 0..4)
        .inst(MockPattern::Pattern1)
        .with("x000")
        .with("1")
        .build();
    assert!(matches!(built, Err(ErrorKind::FieldArityMismatch)));

    let no_fields = PatternMatcher::<MockPattern>::builder()
        .inst(MockPattern::Pattern1)
        .with("1")
        .build();
    assert!(matches!(no_fields, Err(ErrorKind::FieldArityMismatch)));
}

#[test]
fn the_first_fault_is_the_one_reported() {
    let length_then_count = PatternMatcher::<MockPattern>::builder()
        .args("op0", 0..4)
        .inst(MockPattern::Pattern1)
        .with("x00")
        .with("1")
        .with("1")
        .inst(MockPattern::Pattern2)
        .build();
    assert!(matches!(length_then_count, Err(ErrorKind::PatternArityMismatch)));

    let count_then_length = PatternMatcher::<MockPattern>::builder()
        .args("op0", 0..4)
        .inst(MockPattern::Pattern1)
        .with("x000")
        .with("1")
        .inst(MockPattern::Pattern2)
        .with("x00")
        .build();
    assert!(matches!(count_then_length, Err(ErrorKind::FieldArityMismatch)));
}

#[test]
fn a_fault_in_one_rule_is_not_mended_by_later_rules() {
    let built = PatternMatcher::<MockPattern>::builder()
        .args("op0", 0..4)
        .inst(MockPattern::Pattern1)
        .with("x00000")
        .inst(MockPattern::Pattern2)
        .with("11xx")
        .inst(MockPattern::Pattern3)
        .with("0011")
        .build();

    assert!(matches!(built, Err(ErrorKind::PatternArityMismatch)));
}

#[test]
fn a_table_without_fields_matches_every_word() {
    let table = PatternMatcher::<MockPattern>::builder()
        .inst(MockPattern::Pattern2)
        .inst(MockPattern::Pattern1)
        .build()
        .unwrap();

    assert_eq!(table.match_pattern(0), Some(MockPattern::Pattern2));
    assert_eq!(table.match_pattern(u32::MAX), Some(MockPattern::Pattern2));
}

#[test]
fn overlapping_fields_are_joined_bit_by_bit() {
    let table = PatternMatcher::<MockPattern>::builder()
        .args("wide", 0..8)
        .args("low", 0..4)
        .inst(MockPattern::Pattern1)
        .with("1010_xxxx")
        .with("xx01")
        .build()
        .unwrap();

    assert_eq!(table.match_pattern(0xa1), Some(MockPattern::Pattern1));
    assert_eq!(table.match_pattern(0xad), Some(MockPattern::Pattern1));
    assert_eq!(table.match_pattern(0xa2), None);
    assert_eq!(table.match_pattern(0xb1), None);
}
