use feo_boy::cpu::timer::Timer;
use feo_boy::cpu::MCycles;

#[test]
fn div() {
    let mut interrupt_requested = false;
    let mut timer = Timer::default();

    for _ in 0..64 {
        timer.tick(MCycles(1), &mut interrupt_requested);
    }

    assert_eq!(timer.reg.divider(), 1);

    for _ in 0..128 {
        timer.tick(MCycles(1), &mut interrupt_requested);
    }

    assert_eq!(timer.reg.divider(), 3);
}

#[test]
fn reset_div() {
    let mut interrupt_requested = false;
    let mut timer = Timer::default();

    for _ in 0..63 {
        timer.tick(MCycles(1), &mut interrupt_requested);
    }
    assert_eq!(timer.reg.divider(), 0);

    timer.reset_divider();
    assert_eq!(timer.reg.divider(), 0);

    for _ in 0..63 {
        timer.tick(MCycles(1), &mut interrupt_requested);
    }
    assert_eq!(timer.reg.divider(), 0);

    timer.tick(MCycles(1), &mut interrupt_requested);
    assert_eq!(timer.reg.divider(), 1);
}

#[test]
fn tima() {
    let mut interrupt_requested = false;

    // Enable timer, increment every 64 M-cycles.
    let mut timer = Timer::default();
    timer.reg.control = 0x07;

    for _ in 0..63 {
        timer.tick(MCycles(1), &mut interrupt_requested);
    }
    assert_eq!(timer.reg.counter, 0);

    timer.tick(MCycles(1), &mut interrupt_requested);
    assert_eq!(timer.reg.counter, 1);

    // Enable timer, increment every 4 M-cycles.
    let mut timer = Timer::default();
    timer.reg.control = 0x05;

    timer.tick(MCycles(16), &mut interrupt_requested);
    assert_eq!(timer.reg.counter, 4);
}

#[test]
fn tima_overflow() {
    let mut interrupt_requested = false;

    // Enable timer, increment every 4 M-cycles.
    let mut timer = Timer::default();
    timer.reg.control = 0x05;

    // The number of M-cycles it will take to trigger an interrupt, divided by 8 iterations.
    const INCREMENT: MCycles = MCycles(((u8::MAX as u16 * 4) / 8) as u32);

    for _ in 0..8 {
        timer.tick(INCREMENT, &mut interrupt_requested);
        assert!(!interrupt_requested);
    }

    timer.tick(INCREMENT, &mut interrupt_requested);
    assert!(interrupt_requested);
}

#[test]
fn diff_counts_every_tick() {
    let mut interrupt_requested = false;
    let mut timer = Timer::default();
    timer.tick(MCycles(7), &mut interrupt_requested);
    timer.reset_diff();
    let ticks = [1u32, 5, 3, 24, 0, 6];
    for m in ticks {
        timer.tick(MCycles(m), &mut interrupt_requested);
    }
    assert_eq!(timer.diff().0, ticks.iter().sum::<u32>());
    assert_eq!(timer.diff().0, timer.diff().0);

    timer.reset_diff();
    timer.reg.control = 0b101;
    for m in ticks {
        timer.tick(MCycles(m), &mut interrupt_requested);
    }
    assert_eq!(timer.diff().0, 39);
}
