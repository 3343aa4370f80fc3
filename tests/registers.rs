use lr35902::registers::{Flags, RegisterFlags, Registers};

#[test]
fn pairs_round_trip() {
    let mut r = Registers::new();
    for v in [0x0000u16, 0x1234, 0xBEEF, 0xFFFF] {
        r.set_bc(v);
        assert_eq!(r.bc(), v);
        assert_eq!(r.b, (v >> 8) as u8);
        assert_eq!(r.c, (v & 0xFF) as u8);
        r.set_de(v);
        assert_eq!(r.de(), v);
        assert_eq!(r.d, (v >> 8) as u8);
        assert_eq!(r.e, (v & 0xFF) as u8);
        r.set_hl(v);
        assert_eq!(r.hl(), v);
        assert_eq!(r.h, (v >> 8) as u8);
        assert_eq!(r.l, (v & 0xFF) as u8);
    }
}

#[test]
fn hl_and_af_are_independent() {
    let mut r = Registers::new();
    r.set_af(0x12F0);
    r.set_hl(0xABCD);
    assert_eq!(r.af(), 0x12F0);
    assert_eq!(r.a, 0x12);
    assert_eq!(r.hl(), 0xABCD);
}

#[test]
fn af_drops_the_low_nibble() {
    let mut r = Registers::new();
    r.set_af(0x34FF);
    assert_eq!(r.af(), 0x34F0);
    assert_eq!(r.f, Flags { z: true, n: true, h: true, c: true });
    r.set_af(0x0090);
    assert_eq!(r.f, Flags { z: true, n: false, h: false, c: true });
}

#[test]
fn register_codes() {
    let mut r = Registers::new();
    for code in [0u8, 1, 2, 3, 4, 5, 7] {
        r.set_reg(code, 10 + code);
    }
    assert_eq!((r.b, r.c, r.d, r.e, r.h, r.l, r.a), (10, 11, 12, 13, 14, 15, 17));
    for code in [0u8, 1, 2, 3, 4, 5, 7] {
        assert_eq!(r.get_reg(code), 10 + code);
    }
    r.set_reg16(3, 0x5550);
    assert_eq!(r.get_reg16(3), 0x5550);
    assert_eq!(r.get_reg16(0), 0x0A0B);
    assert_eq!(r.get_reg16(1), 0x0C0D);
    assert_eq!(r.get_reg16(2), 0x0E0F);
}

#[test]
fn flags_by_name() {
    let mut r = Registers::new();
    r.set_flag(RegisterFlags::H, true);
    assert!(r.get_flag(RegisterFlags::H));
    assert!(!r.get_flag(RegisterFlags::Z));
    assert_eq!(r.af(), 0x0020);
    r.set_flag(RegisterFlags::H, false);
    r.set_flag(RegisterFlags::Z, true);
    assert_eq!(r.af(), 0x0080);
}
