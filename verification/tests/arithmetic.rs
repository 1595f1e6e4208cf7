use feo_boy::cpu::arithmetic;
use feo_boy::cpu::Flags;

#[test]
fn inc() {
    let mut byte = 0xFF;
    let mut flags = Flags::empty();
    arithmetic::inc(&mut byte, &mut flags);
    assert_eq!(byte, 0);
    assert_eq!(flags, Flags::zero() | Flags::half_carry());

    let mut byte = 0x50;
    let mut flags = Flags::carry();
    arithmetic::inc(&mut byte, &mut flags);
    assert_eq!(byte, 0x51);
    assert_eq!(flags, Flags::carry());
}

#[test]
fn dec() {
    let mut byte = 0x01;
    let mut flags = Flags::empty();
    arithmetic::dec(&mut byte, &mut flags);
    assert_eq!(byte, 0);
    assert_eq!(flags, Flags::zero() | Flags::subtract());

    let mut byte = 0x00;
    let mut flags = Flags::carry();
    arithmetic::dec(&mut byte, &mut flags);
    assert_eq!(byte, 0xFF);
    assert_eq!(flags, Flags::subtract() | Flags::half_carry() | Flags::carry());
}

#[test]
fn arithmetic_rlc() {
    let mut byte = 0x85;
    let mut flags = Flags::empty();
    arithmetic::rlc(&mut byte, &mut flags);
    assert_eq!(byte, 0x0B);
    assert_eq!(flags, Flags::carry());

    let mut byte = 0x00;
    let mut flags = Flags::empty();
    arithmetic::rlc(&mut byte, &mut flags);
    assert_eq!(byte, 0x00);
    assert_eq!(flags, Flags::zero());
}

#[test]
fn rl() {
    let mut byte = 0x80;
    let mut flags = Flags::empty();
    arithmetic::rl(&mut byte, &mut flags);
    assert_eq!(byte, 0);
    assert_eq!(flags, Flags::carry() | Flags::zero());

    let mut byte = 0x95;
    let mut flags = Flags::carry();
    arithmetic::rl(&mut byte, &mut flags);
    assert_eq!(byte, 0x2B);
    assert_eq!(flags, Flags::carry());
}
