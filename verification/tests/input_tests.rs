use orbiter_rs::Key;
use orbiter_rs::KeyStates;

#[test]
fn scan_code_roundtrip_all_codes() {
    // Decoding any 8-bit code and re-encoding the result yields the code
    // back: named keys map to their own code, unknown codes are carried
    // through unchanged.
    for code in 0..=255u8 {
        let key = Key::from(code);
        assert_eq!(key.as_u8(), code);
    }
}

#[test]
fn named_keys_decode() {
    assert_eq!(Key::from(0x01), Key::Escape);
    assert_eq!(Key::from(0x26), Key::L);
    assert_eq!(Key::from(0x39), Key::Space);
    assert_eq!(Key::from(0xD3), Key::Delete);
    assert_eq!(Key::Escape.as_u8(), 0x01);
    assert_eq!(Key::L.as_u8(), 0x26);
    assert_eq!(Key::NumPadEnter.as_u8(), 0x9C);
}

#[test]
fn unknown_codes_carry_raw_byte() {
    assert_eq!(Key::from(0x00), Key::Unknown(0x00));
    assert_eq!(Key::from(0x54), Key::Unknown(0x54));
    assert_eq!(Key::from(0xFF), Key::Unknown(0xFF));
    assert_eq!(Key::Unknown(0x54).as_u8(), 0x54);
}

#[test]
fn key_state_down_and_reset() {
    let mut buf = vec![0u8; 256];
    buf[0x26] = 0x80; // 'L' down
    let mut ks = KeyStates::from(buf);
    assert!(ks.is_down(Key::L));
    assert!(!ks.is_down(Key::A));
    ks.reset_key(Key::L);
    assert!(!ks.is_down(Key::L));
    let out = ks.into_inner();
    assert_eq!(out[0x26], 0);
    assert_eq!(out.len(), 256);
}

#[test]
fn modifier_queries() {
    let mut buf = vec![0u8; 256];
    buf[0x2A] = 0x80; // left shift
    buf[0x9D] = 0x80; // right control
    buf[0xB8] = 0x80; // right alt
    let ks = KeyStates::from(buf);
    assert!(ks.left_shift());
    assert!(!ks.right_shift());
    assert!(ks.shift());
    assert!(!ks.left_control());
    assert!(ks.right_control());
    assert!(ks.control());
    assert!(!ks.left_alt());
    assert!(ks.right_alt());
    assert!(ks.alt());
}

#[test]
fn high_bit_alone_means_down() {
    let mut buf = vec![0u8; 256];
    buf[0x1E] = 0x7F; // every bit but the high one
    buf[0x1F] = 0x81;
    let ks = KeyStates::from(buf);
    assert!(!ks.is_down(Key::A));
    assert!(ks.is_down(Key::S));
}
