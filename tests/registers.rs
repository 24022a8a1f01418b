use rustboylib::registers::{Registers, C_FLAG, H_FLAG, N_FLAG, Z_FLAG};

#[test]
fn af_round_trip_keeps_registers() {
    let mut r = Registers::new();
    r.a = 0x12;
    r.f = Z_FLAG | C_FLAG;
    r.b = 0x34;
    let af = r.af();
    assert_eq!(af, 0x1290);
    r.set_af(af);
    assert_eq!(r.a, 0x12);
    assert_eq!(r.f, Z_FLAG | C_FLAG);
    assert_eq!(r.b, 0x34);
    // the low nibble of F is always cleared
    r.set_af(0xABCD);
    assert_eq!(r.af(), 0xABC0);
}

#[test]
fn pairs_are_high_byte_first() {
    let mut r = Registers::new();
    r.set_bc(0x1234);
    r.set_de(0x5678);
    r.set_hl(0x9ABC);
    assert_eq!((r.b, r.c, r.d, r.e, r.h, r.l), (0x12, 0x34, 0x56, 0x78, 0x9A, 0xBC));
    assert_eq!(r.bc(), 0x1234);
    assert_eq!(r.de(), 0x5678);
    assert_eq!(r.hl(), 0x9ABC);
}

#[test]
fn flags_set_and_clear() {
    let mut r = Registers::new();
    r.set_flag(N_FLAG | H_FLAG, true);
    assert!(r.flag(N_FLAG) && r.flag(H_FLAG) && !r.flag(Z_FLAG));
    r.set_flag(N_FLAG, false);
    assert_eq!(r.f, H_FLAG);
}

#[test]
fn debug_text_uses_hex_and_binary() {
    let mut r = Registers::new();
    r.set_af(0x01B0);
    r.set_bc(0x0013);
    r.set_de(0x00D8);
    r.set_hl(0x014D);
    r.sp = 0xFFFE;
    r.pc = 0x0100;
    assert_eq!(
        r.debug_text(),
        "A:01 B:00 C:13 D:00 E:D8 F:10110000 H:01 L:4D SP:FFFE PC:0100"
    );
}
