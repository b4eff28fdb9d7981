use tls_render::hex::{HexSlice, HexU16, HexU8};

#[test]
fn hex_u8_is_two_digits() {
    assert_eq!(HexU8 { d: 0 }.render(), "0x00");
    assert_eq!(HexU8 { d: 0x0a }.render(), "0x0a");
    assert_eq!(HexU8 { d: 0xff }.render(), "0xff");
}

#[test]
fn hex_u16_is_four_digits() {
    assert_eq!(HexU16 { d: 0 }.render(), "0x0000");
    assert_eq!(HexU16 { d: 0x0303 }.render(), "0x0303");
    assert_eq!(HexU16 { d: 0xbeef }.render(), "0xbeef");
}

#[test]
fn hex_slice_is_bracketed_and_spaced() {
    assert_eq!(HexSlice { d: &[] }.render(), "[]");
    assert_eq!(HexSlice { d: &[0xab] }.render(), "[ab]");
    assert_eq!(HexSlice { d: &[0xab, 0xcd, 0x0e] }.render(), "[ab cd 0e]");
}
