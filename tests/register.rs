use i8080::register::{Register, Register8, Register8Pair};

#[test]
fn reg8_16() {
    let mut reg = Register8::new(3);
    reg.load(13);
    assert_eq!(reg.read(), 13);
    let reg16 = Register8Pair::new(Register8::new(10), Register8::new(32));
    assert_eq!(reg16.read(), 2592);
    let mut reg16 = reg16;
    reg16.load(3141);
    let mut reg16 = Register8Pair::from_tuple(reg16.split());
    assert_eq!(reg16.read(), 3141);
    reg16.increment();
    assert_eq!(reg16.read(), 3142);
    reg16.decrement();
    assert_eq!(reg16.read(), 3141);
    let (h, l) = reg16.split();
    assert_eq!(h.read(), 12);
    assert_eq!(l.read(), 69);
}

#[test]
fn reg8_flag_reg() {
    let reg = Register8::default();
    let mut reg = reg.masked(0x33);
    reg.load(0x55);
    let reg = reg.unmasked();
    assert_eq!(reg.read(), 0x11);
    let mut reg = reg.masked(0x66);
    reg.load(0x44);
    let reg = reg.unmasked();
    assert_eq!(reg.read(), 0x55);
}

#[test]
fn pair_load_read_round_trip() {
    for w in [0u16, 1, 0x00FF, 0x0100, 0x1234, 0xABCD, 0xFFFF] {
        let mut p = Register8Pair::default();
        p.load(w);
        assert_eq!(p.read(), w);
        assert_eq!(p.as_u16(), w);
    }
}

#[test]
fn pair_wraps() {
    let mut p = Register8Pair::new(Register8::new(0xFF), Register8::new(0xFF));
    p.increment();
    assert_eq!(p.read(), 0);
    p.decrement();
    assert_eq!(p.read(), 0xFFFF);
}

#[test]
fn masked_read() {
    let reg = Register8::new(0xF5).masked(0x0F);
    assert_eq!(reg.read(), 0x05);
}
