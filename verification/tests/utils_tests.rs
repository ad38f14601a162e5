use aarch64_decoder::error::ErrorKind;
use aarch64_decoder::utils::{check_range, word_from_le_bytes, GetBits, InstReader, TestBits};

#[test]
fn get_bits_test() {
    let val: u32 = 0b1111_0000_1010_0101_1100_0011_1001_0110;

    assert_eq!(val.get_bits(&(0..4)), 0b0110);
    assert_eq!(val.get_bits(&(4..12)), 0b0011_1001);
    assert_eq!(val.get_bits(&(12..24)), 0b1010_0101_1100);
    assert_eq!(val.get_bits(&(28..32)), 0b1111);
}

#[test]
fn test_bits_test() {
    let val: u32 = 0b11_00_10;

    assert!(val.test_bits(0b11_00_00, 0b11_11_00));
    assert!(val.test_bits(0b00_01_10, 0b00_10_11));
}

#[test]
fn get_bits_of_the_whole_word() {
    let val: u32 = 0xdead_beef;

    assert_eq!(val.get_bits(&(0..32)), 0xdead_beef);
    assert_eq!(0u32.get_bits(&(0..32)), 0);
    assert_eq!(u32::MAX.get_bits(&(0..32)), u32::MAX);
}

#[test]
fn get_bits_of_single_bits() {
    let val: u32 = 0x8000_0001;

    assert_eq!(val.get_bits(&(31..32)), 1);
    assert_eq!(val.get_bits(&(30..31)), 0);
    assert_eq!(val.get_bits(&(0..1)), 1);
    assert_eq!(val.get_bits(&(1..2)), 0);
}

#[test]
fn get_bits_up_to_the_top_shifts_in_zeros() {
    let val: u32 = 0xf000_0000;

    assert_eq!(val.get_bits(&(28..32)), 0xf);
    assert_eq!(val.get_bits(&(24..32)), 0xf0);
    assert_eq!(val.get_bits(&(1..32)), 0x7800_0000);
}

#[test]
fn get_bits_is_division_and_remainder() {
    let val: u32 = 0x1234_5678;

    assert_eq!(val.get_bits(&(8..20)), (val / (1 << 8)) % (1 << 12));
    assert_eq!(val.get_bits(&(8..20)), 0x456);
}

#[test]
fn test_bits_sees_a_difference_under_the_mask() {
    let val: u32 = 0b11_00_10;

    assert!(!val.test_bits(0b11_01_10, 0b00_11_00));
    assert!(!val.test_bits(0b01_00_10, 0b10_00_00));
    assert!(!0u32.test_bits(u32::MAX, 1 << 31));
}

#[test]
fn test_bits_ignores_bits_outside_the_mask() {
    let val: u32 = 0xffff_0000;

    assert!(val.test_bits(0xffff_ffff, 0xffff_0000));
    assert!(val.test_bits(0x0000_0000, 0x0000_ffff));
    assert!(val.test_bits(0x1234_5678, 0));
    assert!(val.test_bits(val, u32::MAX));
    assert!(!val.test_bits(val ^ 1, u32::MAX));
}

#[test]
fn check_range_accepts_ranges_inside_the_word() {
    assert_eq!(check_range(&(0..32)), Ok(()));
    assert_eq!(check_range(&(31..32)), Ok(()));
    assert_eq!(check_range(&(0..1)), Ok(()));
    assert_eq!(check_range(&(10..22)), Ok(()));
}

#[test]
fn check_range_rejects_empty_and_overlong_ranges() {
    assert_eq!(check_range(&(0..33)), Err(ErrorKind::InvalidRange));
    assert_eq!(check_range(&(32..33)), Err(ErrorKind::InvalidRange));
    assert_eq!(check_range(&(4..4)), Err(ErrorKind::InvalidRange));
    assert_eq!(check_range(&(5..4)), Err(ErrorKind::InvalidRange));
    assert_eq!(check_range(&(0..0)), Err(ErrorKind::InvalidRange));
    assert_eq!(check_range(&(0..255)), Err(ErrorKind::InvalidRange));
}

#[test]
fn word_from_le_bytes_puts_the_first_byte_lowest() {
    assert_eq!(word_from_le_bytes(0x22, 0x04, 0x00, 0xd1), 0xd100_0422);
    assert_eq!(word_from_le_bytes(0x01, 0x00, 0x00, 0x00), 1);
    assert_eq!(word_from_le_bytes(0x00, 0x00, 0x00, 0x80), 0x8000_0000);
    assert_eq!(word_from_le_bytes(0xff, 0xff, 0xff, 0xff), u32::MAX);
    assert_eq!(word_from_le_bytes(0x78, 0x56, 0x34, 0x12), 0x1234_5678);
}

#[test]
fn inst_reader_yields_words_in_order() {
    let bytes = vec![0x22, 0x04, 0x00, 0xd1, 0x1f, 0x20, 0x03, 0xd5];
    let mut reader = InstReader::new(bytes);

    assert_eq!(reader.next(), Some(0xd100_0422));
    assert_eq!(reader.next(), Some(0xd503_201f));
    assert_eq!(reader.next(), None);
    assert_eq!(reader.next(), None);
}

#[test]
fn inst_reader_drops_a_short_final_chunk() {
    let bytes = vec![0x22, 0x04, 0x00, 0xd1, 0x1f, 0x20, 0x03];
    let mut reader = InstReader::new(bytes);

    assert_eq!(reader.next(), Some(0xd100_0422));
    assert_eq!(reader.next(), None);
    assert_eq!(reader.next(), None);
}

#[test]
fn inst_reader_on_few_bytes_yields_nothing() {
    let mut empty = InstReader::new(Vec::new());
    assert_eq!(empty.next(), None);

    let mut three = InstReader::new(vec![1, 2, 3]);
    assert_eq!(three.next(), None);
    assert_eq!(three.next(), None);
}
