use feo_boy::input::{Button, ButtonState, SelectFlags};

#[test]
fn press() {
    let mut state = ButtonState::default();
    state.press(Button::A);
    assert!(!state.is_pressed(Button::A));

    state.select = SelectFlags::button();
    assert!(state.is_pressed(Button::A));

    state.press(Button::Up);
    assert!(!state.is_pressed(Button::Up));

    state.select = SelectFlags::direction();
    assert!(state.is_pressed(Button::Up));

    assert!(!state.is_pressed(Button::Down));

    state.select = SelectFlags::button().union(SelectFlags::direction());
    state.press(Button::B);
    state.press(Button::Left);
    assert!(state.is_pressed(Button::B));
    assert!(state.is_pressed(Button::Left));
}
