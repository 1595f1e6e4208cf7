use feo_boy::bytes::{ByteExt, WordExt};

#[test]
fn has_bit_set() {
    let byte = 0x80;
    assert!(byte.has_bit_set(7));
    assert!(!byte.has_bit_set(0));
}

#[test]
fn set_bit() {
    let mut byte = 0xF0;
    byte.set_bit(0, true);
    byte.set_bit(1, false);
    byte.set_bit(3, true);
    byte.set_bit(7, false);
    byte.set_bit(6, true);

    assert_eq!(byte, 0b01111001);
}

#[test]
fn high_and_low() {
    assert_eq!(0xabcd.lo(), 0xcd);
    assert_eq!(0xabcd.hi(), 0xab);
    assert_eq!(0xff00.lo(), 0x00);
    assert_eq!(0xff00.hi(), 0xff);
}

#[test]
fn bytes_half_carry() {
    assert_eq!(0x0Fu8.half_carry_add(0x01), (0x10, true));
    assert_eq!(0x37u8.half_carry_add(0x44), (0x7B, false));

    assert_eq!(0x0FFFu16.half_carry_add(0x0FFF), (0x1FFE, true));
    assert_eq!(0x0FFFu16.half_carry_add(0x0001), (0x1000, true));
    assert_eq!(0x0000u16.half_carry_add(0x0001), (0x0001, false));

    assert_eq!(0xF0u8.half_carry_sub(0x01), (0xEF, true));
    assert_eq!(0xFFu8.half_carry_sub(0xF0), (0x0F, false));
    assert_eq!(0x3Eu8.half_carry_sub(0x0F), (0x2F, true));
}

#[test]
fn set_bit_then_has_bit() {
    for value in 0..=255u8 {
        for n in 0..8u8 {
            for set in [false, true] {
                let mut byte = value;
                byte.set_bit(n, set);
                assert_eq!(byte.has_bit_set(n), set);
                for m in 0..8u8 {
                    if m != n {
                        assert_eq!(byte.has_bit_set(m), value.has_bit_set(m));
                    }
                }
            }
        }
    }
}
