use vex_v5_serial::errors::{DecodeError, EncodeError};
use vex_v5_serial::varint::VarU16;

#[test]
fn wide() {
    // A value that will be encoded as a wide variable length u16.
    const VAL: u16 = 0xF00;
    const ENCODED: [u8; 2] = [0x8f, 0x00];

    let var = VarU16::new(VAL);
    assert_eq!(ENCODED.to_vec(), var.encode().unwrap());
    assert_eq!(VAL, VarU16::decode(&ENCODED).unwrap().into_inner())
}

#[test]
fn thin() {
    // A value that will be encoded as a thin variable length u16.
    const VAL: u16 = 0x0F;
    const ENCODED: [u8; 1] = [0x0F];

    let var = VarU16::new(VAL);
    assert_eq!(ENCODED.to_vec(), var.encode().unwrap());
    assert_eq!(VAL, VarU16::decode(&ENCODED).unwrap().into_inner())
}

#[test]
fn largest_thin_value_takes_one_byte() {
    assert_eq!(VarU16::new(0x7F).encode().unwrap(), vec![0x7F]);
}

#[test]
fn smallest_wide_value_takes_two_bytes() {
    assert_eq!(VarU16::new(0x80).encode().unwrap(), vec![0x80, 0x80]);
}

#[test]
fn largest_value_is_all_ones() {
    assert_eq!(VarU16::new(0x7FFF).encode().unwrap(), vec![0xFF, 0xFF]);
}

#[test]
fn every_value_round_trips() {
    for v in 0..=0x7FFFu16 {
        let bytes = VarU16::new(v).encode().unwrap();
        assert_eq!(bytes.len(), if v < 0x80 { 1 } else { 2 });
        let (back, used) = VarU16::decode_prefix(&bytes).unwrap();
        assert_eq!(back.into_inner(), v);
        assert_eq!(used, bytes.len());
    }
}

#[test]
fn decode_ignores_what_follows() {
    let (v, used) = VarU16::decode_prefix(&[0x05, 0xAA, 0xBB]).unwrap();
    assert_eq!((v.into_inner(), used), (5, 1));
    let (v, used) = VarU16::decode_prefix(&[0x81, 0x02, 0xBB]).unwrap();
    assert_eq!((v.into_inner(), used), (0x102, 2));
}

#[test]
fn decode_of_nothing_is_an_unexpected_end() {
    assert_eq!(VarU16::decode(&[]).unwrap_err(), DecodeError::UnexpectedEnd);
}

#[test]
fn decode_of_half_a_wide_value_is_an_unexpected_end() {
    assert_eq!(VarU16::decode(&[0x80]).unwrap_err(), DecodeError::UnexpectedEnd);
}

#[test]
fn check_wide_looks_at_the_top_bit() {
    assert!(!VarU16::check_wide(0x00));
    assert!(!VarU16::check_wide(0x7F));
    assert!(VarU16::check_wide(0x80));
    assert!(VarU16::check_wide(0xFF));
}

#[test]
fn checked_new_refuses_sixteen_bit_values() {
    assert_eq!(VarU16::checked_new(0x7FFF).unwrap().into_inner(), 0x7FFF);
    assert_eq!(VarU16::checked_new(0x8000).unwrap_err(), EncodeError::VarShortTooLarge);
    assert_eq!(VarU16::checked_new(0xFFFF).unwrap_err(), EncodeError::VarShortTooLarge);
}
