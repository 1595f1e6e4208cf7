#[test]
fn parse_breakpoint() {
    assert_eq!(feo_boy::tui::parse_breakpoint("b 0x174").unwrap(), 0x174);
}
