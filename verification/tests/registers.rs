use feo_boy::cpu::{Flags, Registers};

#[test]
fn add() {
    let mut reg = Registers::default();
    reg.a = 0xFF;
    reg.add(0xFF);
    assert_eq!(reg.a, 0xFE);
    assert_eq!(reg.f, Flags::half_carry() | Flags::carry());

    let mut reg = Registers::default();
    reg.a = 0xFF;
    reg.add(0x01);
    assert_eq!(reg.a, 0x00);
    assert_eq!(reg.f, Flags::zero() | Flags::half_carry() | Flags::carry());

    let mut reg = Registers::default();
    reg.a = 0x00;
    reg.add(0x01);
    assert_eq!(reg.a, 0x01);
    assert_eq!(reg.f, Flags::empty());

    let mut reg = Registers::default();
    reg.a = 0x3A;
    reg.add(0xC6);
    assert_eq!(reg.a, 0);
    assert_eq!(reg.f, Flags::zero() | Flags::half_carry() | Flags::carry());

    let mut reg = Registers::default();
    reg.a = 0x3C;
    reg.add(0xFF);
    assert_eq!(reg.a, 0x3B);
    assert_eq!(reg.f, Flags::half_carry() | Flags::carry());

    let mut reg = Registers::default();
    reg.a = 0x3C;
    reg.add(0x12);
    assert_eq!(reg.a, 0x4E);
    assert_eq!(reg.f, Flags::empty());
}

#[test]
fn adc() {
    let mut reg = Registers::default();
    reg.a = 0xE1;
    reg.f.insert(Flags::carry());
    reg.adc(0x0F);
    assert_eq!(reg.a, 0xF1);
    assert_eq!(reg.f, Flags::half_carry());

    let mut reg = Registers::default();
    reg.a = 0xE1;
    reg.f.insert(Flags::carry());
    reg.adc(0x3B);
    assert_eq!(reg.a, 0x1D);
    assert_eq!(reg.f, Flags::carry());

    let mut reg = Registers::default();
    reg.a = 0xE1;
    reg.f.insert(Flags::carry());
    reg.adc(0x1E);
    assert_eq!(reg.a, 0x00);
    assert_eq!(reg.f, Flags::zero() | Flags::half_carry() | Flags::carry());
}

#[test]
fn add_hl() {
    let mut reg = Registers::default();
    reg.hl_mut().write(0xFFFF);
    reg.add_hl(0xFFFF);
    assert_eq!(reg.hl(), 0xFFFE);
    assert_eq!(reg.f, Flags::half_carry() | Flags::carry());

    let mut reg = Registers::default();
    reg.hl_mut().write(0xFFFF);
    reg.add_hl(0x0001);
    assert_eq!(reg.hl(), 0);
    assert_eq!(reg.f, Flags::half_carry() | Flags::carry()); // zero flag is preserved

    let mut reg = Registers::default();
    reg.hl_mut().write(0x0000);
    reg.add_hl(0x0001);
    assert_eq!(reg.hl(), 1);
    assert_eq!(reg.f, Flags::empty());

    let mut reg = Registers::default();
    reg.hl_mut().write(0x8A23);
    reg.add_hl(0x0605);
    assert_eq!(reg.hl(), 0x9028);
    assert_eq!(reg.f, Flags::half_carry());

    let mut reg = Registers::default();
    reg.hl_mut().write(0x8A23);
    reg.add_hl(0x8A23);
    assert_eq!(reg.hl(), 0x1446);
    assert_eq!(reg.f, Flags::half_carry() | Flags::carry());
}

#[test]
fn add_sp() {
    let mut reg = Registers::default();
    reg.sp = 0xFFF8;
    reg.add_sp(2);
    assert_eq!(reg.sp, 0xFFFA);
    assert_eq!(reg.f, Flags::empty());
}

#[test]
fn ld_hl_sp_r8() {
    let mut reg = Registers::default();
    reg.sp = 0xFFF8;
    reg.ld_hl_sp_r8(2);
    assert_eq!(reg.hl(), 0xFFFA);
    assert_eq!(reg.sp, 0xFFF8);
    assert_eq!(reg.f, Flags::empty());
}

#[test]
fn sub() {
    let mut reg = Registers::default();
    reg.a = 0x3E;
    reg.sub(0x3E);
    assert_eq!(reg.a, 0);
    assert_eq!(reg.f, Flags::subtract() | Flags::zero());

    let mut reg = Registers::default();
    reg.a = 0x3E;
    reg.sub(0x0F);
    assert_eq!(reg.a, 0x2F);
    assert_eq!(reg.f, Flags::subtract() | Flags::half_carry());

    let mut reg = Registers::default();
    reg.a = 0x3E;
    reg.sub(0x40);
    assert_eq!(reg.a, 0xFE);
    assert_eq!(reg.f, Flags::subtract() | Flags::carry());

    let mut reg = Registers::default();
    reg.a = 0x00;
    reg.sub(0x01);
    assert_eq!(reg.a, 0xFF);
    assert_eq!(reg.f, Flags::subtract() | Flags::half_carry() | Flags::carry());

    let mut reg = Registers::default();
    reg.a = 0xFF;
    reg.sub(0x0F);
    assert_eq!(reg.a, 0xF0);
    assert_eq!(reg.f, Flags::subtract());
}

#[test]
fn sbc() {
    let mut reg = Registers::default();
    reg.a = 0x3B;
    reg.f.insert(Flags::carry());
    reg.sbc(0x2A);
    assert_eq!(reg.a, 0x10);
    assert_eq!(reg.f, Flags::subtract());

    let mut reg = Registers::default();
    reg.a = 0x3B;
    reg.f.insert(Flags::carry());
    reg.sbc(0x3A);
    assert_eq!(reg.a, 0);
    assert_eq!(reg.f, Flags::subtract() | Flags::zero());

    let mut reg = Registers::default();
    reg.a = 0x3B;
    reg.f.insert(Flags::carry());
    reg.sbc(0x4F);
    assert_eq!(reg.a, 0xEB);
    assert_eq!(reg.f, Flags::subtract() | Flags::half_carry() | Flags::carry());
}

#[test]
fn and() {
    let mut reg = Registers::default();
    reg.a = 0x5A;
    reg.and(0x3F);
    assert_eq!(reg.a, 0x1A);
    assert_eq!(reg.f, Flags::half_carry());

    let mut reg = Registers::default();
    reg.a = 0x5A;
    reg.and(0x38);
    assert_eq!(reg.a, 0x18);
    assert_eq!(reg.f, Flags::half_carry());

    let mut reg = Registers::default();
    reg.a = 0x5A;
    reg.and(0x00);
    assert_eq!(reg.a, 0);
    assert_eq!(reg.f, Flags::zero() | Flags::half_carry());
}

#[test]
fn or() {
    let mut reg = Registers::default();
    reg.a = 0x5A;
    reg.or(0x5A);
    assert_eq!(reg.a, 0x5A);
    assert!(reg.f.is_empty());

    let mut reg = Registers::default();
    reg.a = 0x5A;
    reg.or(3);
    assert_eq!(reg.a, 0x5B);
    assert!(reg.f.is_empty());

    let mut reg = Registers::default();
    reg.a = 0x5A;
    reg.or(0x0F);
    assert_eq!(reg.a, 0x5F);
    assert!(reg.f.is_empty());

    let mut reg = Registers::default();
    reg.a = 0;
    reg.or(0);
    assert_eq!(reg.a, 0);
    assert_eq!(reg.f, Flags::zero());
}

#[test]
fn cp() {
    let mut reg = Registers::default();
    reg.a = 0x3C;
    reg.cp(0x2F);
    assert_eq!(reg.a, 0x3C);
    assert_eq!(reg.f, Flags::subtract() | Flags::half_carry());

    let mut reg = Registers::default();
    reg.a = 0x3C;
    reg.cp(0x3C);
    assert_eq!(reg.a, 0x3C);
    assert_eq!(reg.f, Flags::subtract() | Flags::zero());

    let mut reg = Registers::default();
    reg.a = 0x3C;
    reg.cp(0x40);
    assert_eq!(reg.a, 0x3C);
    assert_eq!(reg.f, Flags::subtract() | Flags::carry());
}

#[test]
fn registers_rlc() {
    let mut reg = Registers::default();
    reg.a = 0x85;
    reg.rlc();

    // This is a different value than the GameBoy programming manual, which specifies `0x0A` as
    // the correct result.
    assert_eq!(reg.a, 0x0B);
    assert_eq!(reg.f, Flags::carry());
}

#[test]
fn rrc() {
    let mut reg = Registers::default();
    reg.a = 0x11;
    reg.rrc();

    assert_eq!(reg.a, 0x88);
    assert_eq!(reg.f, Flags::carry());

    reg.a = 0x10;
    reg.rrc();

    assert_eq!(reg.a, 0x08);
    assert_eq!(reg.f, Flags::empty());
}

#[test]
fn rr() {
    let mut reg = Registers::default();
    reg.a = 0x11;
    reg.rr();

    assert_eq!(reg.a, 0x08);
    assert_eq!(reg.f, Flags::carry());

    reg.a = 0x10;
    reg.f = Flags::carry();
    reg.rr();

    assert_eq!(reg.a, 0x88);
    assert_eq!(reg.f, Flags::empty());
}

#[test]
fn cpl() {
    let mut reg = Registers::default();
    reg.a = 0x35;
    reg.cpl();
    assert_eq!(reg.a, 0xCA);
    assert_eq!(reg.f, Flags::subtract() | Flags::half_carry());
}

#[test]
fn wrap_pair() {
    let mut registers = Registers::default();

    registers.hl_mut().sub_assign(1);

    assert_eq!(registers.h, 0xFF);
    assert_eq!(registers.l, 0xFF);
}

#[test]
fn conversion_equals_immutable() {
    let mut registers = Registers::default();

    registers.hl_mut().write(0xBEEF);

    assert_eq!(0xBEEF, registers.hl_mut().as_word());
    assert_eq!(registers.hl_mut().as_word(), registers.hl());
}

#[test]
fn daa() {
    // FIXME: We should decide what to do in the undocumented cases,
    // and maybe test them.

    let mut registers = Registers::default();

    // Test with no flags set
    for i in 0x00..0xff {
        registers.a = i;
        registers.f = Flags::empty();

        registers.daa();

        let lo = i & 0x0f;
        let hi = i & 0xf0;

        if hi <= 0x90 && lo <= 0x9 {
            assert_eq!(registers.a, i);
            assert!(!registers.f.contains(Flags::carry()));
        } else if hi <= 0x80 && lo >= 0xa {
            assert_eq!(registers.a, i.wrapping_add(0x6));
            assert!(!registers.f.contains(Flags::carry()));
        } else if hi >= 0xa0 && lo <= 0x9 {
            assert_eq!(registers.a, i.wrapping_add(0x60));
            assert!(registers.f.contains(Flags::carry()));
        } else if hi >= 0x90 && lo >= 0xa {
            assert_eq!(registers.a, i.wrapping_add(0x66));
            assert!(registers.f.contains(Flags::carry()));
        }
    }

    // Test with only carry flag set
    for i in 0x00..0xff {
        registers.a = i;
        registers.f = Flags::empty();
        registers.f.insert(Flags::carry());

        registers.daa();

        let lo = i & 0x0f;
        let hi = i & 0xf0;

        if hi <= 0x20 && lo <= 0x9 {
            assert_eq!(registers.a, i.wrapping_add(0x60));
            assert!(registers.f.contains(Flags::carry()));
        } else if hi <= 0x20 && lo >= 0xa {
            assert_eq!(registers.a, i.wrapping_add(0x66));
            assert!(registers.f.contains(Flags::carry()));
        }
    }


    // Test with only half-carry flag set
    for i in 0x00..0xff {
        registers.a = i;
        registers.f = Flags::empty();
        registers.f.insert(Flags::half_carry());

        registers.daa();

        let lo = i & 0x0f;
        let hi = i & 0xf0;

        if hi <= 0x90 && lo <= 0x3 {
            assert_eq!(registers.a, i.wrapping_add(0x6));
            assert!(!registers.f.contains(Flags::carry()));
        } else if hi >= 0xa0 && lo <= 0x3 {
            assert_eq!(registers.a, i.wrapping_add(0x66));
            assert!(registers.f.contains(Flags::carry()));
        }
    }

    // Test with carry and half-carry flags set
    for i in 0x00..0xff {
        registers.a = i;
        registers.f = Flags::half_carry() | Flags::carry();

        registers.daa();

        let lo = i & 0x0f;
        let hi = i & 0xf0;

        if hi <= 0x30 && lo <= 0x3 {
            assert_eq!(registers.a, i.wrapping_add(0x66));
            assert!(registers.f.contains(Flags::carry()));
        }
    }

    // Test with only subtraction flag set
    for i in 0x00..0xff {
        registers.a = i;
        registers.f = Flags::subtract();

        registers.daa();

        let lo = i & 0x0f;
        let hi = i & 0xf0;

        if hi <= 0x90 && lo <= 0x9 {
            assert_eq!(registers.a, i);
            assert!(!registers.f.contains(Flags::carry()));
        }
    }

    // Test with subtraction and carry flags set
    for i in 0x00..0xff {
        registers.a = i;
        registers.f = Flags::subtract() | Flags::carry();

        registers.daa();

        let lo = i & 0x0f;
        let hi = i & 0xf0;

        if hi >= 0x70 && lo <= 0x9 {
            assert_eq!(registers.a, i.wrapping_add(0xa0));
            assert!(registers.f.contains(Flags::carry()));
        }
    }

    // Test with subtraction and half-carry flags set
    for i in 0x00..0xff {
        registers.a = i;
        registers.f = Flags::subtract() | Flags::half_carry();

        registers.daa();

        let lo = i & 0x0f;
        let hi = i & 0xf0;

        if hi <= 0x80 && lo >= 0x6 {
            assert_eq!(registers.a, i.wrapping_add(0xfa));
            assert!(!registers.f.contains(Flags::carry()));
        }
    }

    // Test with subtraction, carry, and half-carry flags set
    for i in 0x00..0xff {
        registers.a = i;
        registers.f = Flags::subtract() | Flags::carry() | Flags::half_carry();

        registers.daa();

        let lo = i & 0x0f;
        let hi = i & 0xf0;

        if hi >= 0x60 && lo >= 0x6 {
            assert_eq!(registers.a, i.wrapping_add(0x9a));
            assert!(registers.f.contains(Flags::carry()));
        }
    }
}

#[test]
fn registers_text() {
    let mut reg = Registers::default();
    reg.a = 0x01;
    reg.f = Flags::zero() | Flags::half_carry() | Flags::carry();
    reg.b = 0x00;
    reg.c = 0x13;
    reg.d = 0x00;
    reg.e = 0xD8;
    reg.h = 0x01;
    reg.l = 0x4D;
    reg.sp = 0xFFFE;
    reg.pc = 0x0100;
    let expected = format!(
        "A {:#04x}\nB {:#04x}  {:#04x} C\nD {:#04x}  {:#04x} E\nH {:#04x}  {:#04x} L\n\nSP {:#06x}\nPC {:#06x}\n\n  ZNHC\nF {:08b}\n",
        0x01, 0x00, 0x13, 0x00, 0xD8, 0x01, 0x4D, 0xFFFE, 0x0100, 0xB0
    );
    assert_eq!(reg.to_string(), expected);
    assert_eq!(
        reg.to_string(),
        "A 0x01\nB 0x00  0x13 C\nD 0x00  0xd8 E\nH 0x01  0x4d L\n\nSP 0xfffe\nPC 0x0100\n\n  ZNHC\nF 10110000\n"
    );
}

#[test]
fn pair_roundtrip() {
    let mut reg = Registers::default();
    reg.write_af(0x12FF);
    assert_eq!(reg.af(), 0x12F0);
    reg.write_bc(0xBEEF);
    assert_eq!(reg.bc(), 0xBEEF);
    reg.write_de(0x0102);
    reg.write_hl(0xFFFF);
    assert_eq!(reg.de(), 0x0102);
    assert_eq!(reg.hl(), 0xFFFF);
    assert_eq!(reg.bc(), 0xBEEF);
    assert_eq!(reg.af(), 0x12F0);
}

#[test]
fn daa_decimal_law() {
    let dec = |v: u8| 10 * (v >> 4) as u32 + (v & 0xF) as u32;
    let bcd = |v: u32| (((v / 10) << 4) | (v % 10)) as u8;
    for x in 0..=0x99u8 {
        for y in 0..=0x99u8 {
            if x & 0xF > 9 || y & 0xF > 9 {
                continue;
            }
            let mut reg = Registers::default();
            reg.a = x;
            reg.f = Flags::empty();
            reg.add(y);
            reg.daa();
            let s = dec(x) + dec(y);
            assert_eq!(reg.a, bcd(s % 100));
            assert_eq!(reg.f.contains(Flags::carry()), s >= 100);
            assert_eq!(reg.f.contains(Flags::zero()), reg.a == 0);

            let mut reg = Registers::default();
            reg.a = x;
            reg.f = Flags::empty();
            reg.sub(y);
            reg.daa();
            let d = dec(x) + 100 - dec(y);
            assert_eq!(reg.a, bcd(d % 100));
            assert_eq!(reg.f.contains(Flags::carry()), dec(x) < dec(y));
            assert_eq!(reg.f.contains(Flags::zero()), reg.a == 0);
            assert!(reg.f.contains(Flags::subtract()));
        }
    }
}
