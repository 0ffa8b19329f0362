use shared::bitpacker::BitPacker;
use shared::common::errors::BitPackerError;
use shared::common::utils::{char6, ord6, str_eq};

#[test]
fn from_int_pads_to_the_width() {
    let bp = BitPacker::from_int(5, Some(4));
    assert_eq!(*bp.bits_len(), 4);
    assert_eq!(bp.to_bin_str(), "0101");
}

#[test]
fn from_int_without_width_keeps_the_significant_bits() {
    let bp = BitPacker::from_int(5, None);
    assert_eq!(*bp.bits_len(), 3);
    assert_eq!(bp.to_bin_str(), "101");
    let zero = BitPacker::from_int(0, None);
    assert_eq!(*zero.bits_len(), 0);
    assert_eq!(zero.to_bin_str(), "");
}

#[test]
fn from_int_truncates_to_the_width() {
    let bp = BitPacker::from_int(0b1_0110, Some(3));
    assert_eq!(bp.to_bin_str(), "110");
}

#[test]
fn add_places_self_above_rhs() {
    let bp = BitPacker::from_int(1, Some(2)).add(BitPacker::from_int(2, Some(3)));
    assert_eq!(*bp.bits_len(), 5);
    assert_eq!(bp.to_bin_str(), "01010");
    assert_eq!(bp.extract_int(None, None), Ok(0b01010));
}

#[test]
fn extract_int_reads_a_field() {
    let bp = BitPacker::from_int(0b1011_0110, Some(8));
    assert_eq!(bp.extract_int(Some(1), Some(3)), Ok(0b011));
    assert_eq!(bp.extract_int(Some(4), None), Ok(0b1011));
    assert_eq!(bp.extract_int(None, None), Ok(0b1011_0110));
}

#[test]
fn extract_int_out_of_bounds() {
    let bp = BitPacker::from_int(0xFF, Some(8));
    assert_eq!(bp.extract_int(Some(8), Some(9)), Err(BitPackerError::IndexOutOfBounds));
    assert_eq!(bp.extract_int(Some(2), Some(8)), Err(BitPackerError::IndexOutOfBounds));
}

#[test]
fn slice_copies_a_field() {
    let bp = BitPacker::from_int(0b1011_0110, Some(8));
    let s = bp.slice(Some(4), Some(7)).unwrap();
    assert_eq!(*s.bits_len(), 4);
    assert_eq!(s.to_bin_str(), "1011");
    assert_eq!(*s.bits(), vec![0b1011u8]);
    assert_eq!(bp.slice(Some(3), Some(8)).err(), Some(BitPackerError::IndexOutOfBounds));
}

#[test]
fn from_slice_is_big_endian() {
    let bp = BitPacker::from_slice(&[0x12, 0x34], None);
    assert_eq!(*bp.bits_len(), 16);
    assert_eq!(bp.extract_int(None, None), Ok(0x1234));
    let short = BitPacker::from_slice(&[0x12, 0x34], Some(10));
    assert_eq!(*short.bits_len(), 10);
    assert_eq!(*short.bits(), vec![0x12u8, 0x34]);
}

#[test]
fn from_str_packs_six_bits_a_character() {
    let bp = BitPacker::from_str("AB", None);
    assert_eq!(*bp.bits_len(), 12);
    assert_eq!(bp.to_bin_str(), "000011000010");
    assert_eq!(bp.extract_str(None, None), Ok("AB".to_string()));
}

#[test]
fn from_str_upper_cases_and_pads() {
    let bp = BitPacker::from_str("ab", Some(42));
    assert_eq!(*bp.bits_len(), 42);
    assert_eq!(bp.extract_str(None, None), Ok("AB".to_string()));
}

#[test]
fn from_str_drops_what_does_not_fit() {
    let bp = BitPacker::from_str("HELLO", Some(18));
    assert_eq!(bp.extract_str(None, None), Ok("HEL".to_string()));
}

#[test]
fn sixbit_text_round_trip() {
    let bp = BitPacker::from_str("PORT 42", Some(120));
    assert_eq!(bp.extract_str(None, None), Ok("PORT 42".to_string()));
}

#[test]
fn extract_str_skips_zero_groups_and_partial_groups() {
    let bp = BitPacker::from_int(0, Some(6)).add(BitPacker::from_int(2, Some(6)));
    assert_eq!(bp.extract_str(None, None), Ok("A".to_string()));
    let partial = BitPacker::from_int(0b11, Some(2)).add(BitPacker::from_int(3, Some(6)));
    assert_eq!(partial.extract_str(None, None), Ok("B".to_string()));
    assert_eq!(partial.extract_str(Some(9), None), Err(BitPackerError::IndexOutOfBounds));
}

#[test]
fn question_mark_spills_into_the_next_character() {
    assert_eq!(ord6('?'), 64);
    let bp = BitPacker::from_str("?A", Some(12));
    assert_eq!(bp.extract_str(None, None), Ok("B".to_string()));
}

#[test]
fn alphabet_codes() {
    assert_eq!(char6(1), '@');
    assert_eq!(char6(2), 'A');
    assert_eq!(char6(33), ' ');
    assert_eq!(char6(64), '?');
    assert_eq!(ord6('@'), 1);
    assert_eq!(ord6('Z'), 27);
    assert_eq!(ord6(' '), 33);
    assert_eq!(ord6('9'), 58);
    assert_eq!(ord6('a'), 1);
}

#[test]
fn str_eq_compares_characters() {
    assert!(str_eq("mmsi", "mmsi"));
    assert!(!str_eq("mmsi", "mmsa"));
    assert!(!str_eq("mmsi", "mms"));
    assert!(str_eq("", ""));
}

#[test]
fn six_bit_text_reads_back_upper_cased() {
    for (text, n) in [("Brest 2", 42usize), ("saint-malo", 120), ("@home: <1>", 60), ("z", 6)] {
        let bp = BitPacker::from_str(text, Some(n));
        assert_eq!(bp.extract_str(None, None), Ok(text.to_ascii_uppercase()));
    }
}
