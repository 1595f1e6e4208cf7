use feo_boy::cpu::clock::Clock;

#[test]
fn tick() {
    let mut clock = Clock::new();

    clock.tick(4);
    assert_eq!(clock.m, 1);
    assert_eq!(clock.t, 4);
    assert_eq!(clock.diff(), 4);

    clock.tick(12);
    assert_eq!(clock.m, 4);
    assert_eq!(clock.t, 16);
    assert_eq!(clock.diff(), 12);
}
