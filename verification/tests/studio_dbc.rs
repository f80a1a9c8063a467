use can_flasher::protocol::CanFrame;
use can_flasher::studio::dbc::{extract_raw, signal_key, strip_bom};

fn make_frame(data: [u8; 8]) -> CanFrame {
    CanFrame { id: 0x100, data, len: 8 }
}

#[test]
fn little_endian_byte_aligned_unsigned() {
    let frame = make_frame([0xA5, 0, 0, 0, 0, 0, 0, 0]);
    let raw = extract_raw(&frame.data, 0, 8, true, false) as f64;
    assert_eq!(raw, 0xA5 as f64);
}

#[test]
fn little_endian_16bit_unsigned_crosses_byte() {
    let frame = make_frame([0x34, 0x12, 0, 0, 0, 0, 0, 0]);
    let raw = extract_raw(&frame.data, 0, 16, true, false) as f64;
    assert_eq!(raw, 0x1234 as f64);
}

#[test]
fn little_endian_signed_sign_extends() {
    let frame = make_frame([0xFF, 0, 0, 0, 0, 0, 0, 0]);
    let raw = extract_raw(&frame.data, 0, 8, true, true) as f64;
    assert_eq!(raw, -1.0);
}

#[test]
fn big_endian_16bit_motorola_walk() {
    let frame = make_frame([0x12, 0x34, 0, 0, 0, 0, 0, 0]);
    let raw = extract_raw(&frame.data, 7, 16, false, false) as f64;
    assert_eq!(raw, 0x1234 as f64);
}

#[test]
fn extraction_edges() {
    let d = [0xFF; 8];
    assert_eq!(extract_raw(&d, 0, 0, true, true), 0);
    assert_eq!(extract_raw(&d, 0, 64, true, false), u64::MAX as i128);
    assert_eq!(extract_raw(&d, 0, 200, true, true), -1);
    // Bits past the payload read as zero.
    assert_eq!(extract_raw(&d, 60, 8, true, false), 0x0F);
    assert_eq!(extract_raw(&d, 64, 8, true, false), 0);
    // A Motorola walk that leaves the payload stops there.
    let e = [0, 0, 0, 0, 0, 0, 0, 0x80];
    assert_eq!(extract_raw(&e, 63, 4, false, false), 0b1000);
    // 12-bit signed Intel field with the sign bit set.
    let f = [0x00, 0x08, 0, 0, 0, 0, 0, 0];
    assert_eq!(extract_raw(&f, 0, 12, true, true), -2048);
}

#[test]
fn dbc_text_helpers() {
    assert_eq!(strip_bom("\u{FEFF}VERSION \"\""), "VERSION \"\"");
    assert_eq!(strip_bom("VERSION"), "VERSION");
    assert_eq!(signal_key(0x123, "Speed"), "291|Speed");
}
