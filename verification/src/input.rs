//! The joypad.

use vstd::prelude::*;

use crate::bytes::{bit, byte_of_bits};

verus! {

/// Which group of buttons register `0xFF00` reads: bit 4 the buttons, bit 5 the directions.
#[derive(Debug, Clone, Copy, PartialEq, Eq, Structural)]
pub struct SelectFlags {
    /// Bit 4 (`0x10`).
    pub button: bool,
    /// Bit 5 (`0x20`).
    pub direction: bool,
}

impl SelectFlags {
    /// Neither group.
    pub fn empty() -> (r: Self)
        ensures
            r == (SelectFlags { button: false, direction: false }),
    {
        SelectFlags { button: false, direction: false }
    }

    /// The button group (`0x10`).
    pub fn button() -> (r: Self)
        ensures
            r == (SelectFlags { button: true, direction: false }),
    {
        SelectFlags { button: true, direction: false }
    }

    /// The direction group (`0x20`).
    pub fn direction() -> (r: Self)
        ensures
            r == (SelectFlags { button: false, direction: true }),
    {
        SelectFlags { button: false, direction: true }
    }

    /// Both groups.
    pub fn union(self, other: Self) -> (r: Self)
        ensures
            r == (SelectFlags {
                button: self.button || other.button,
                direction: self.direction || other.direction,
            }),
    {
        SelectFlags { button: self.button || other.button, direction: self.direction || other.direction }
    }

    /// The groups of a register byte: bits 4 and 5; the other bits are dropped.
    pub fn from_bits_truncate(byte: u8) -> (r: Self)
        ensures
            r == (SelectFlags { button: bit(byte, 4), direction: bit(byte, 5) }),
    {
        proof {
            reveal(bit);
        }
        SelectFlags { button: (byte / 16) % 2 == 1, direction: (byte / 32) % 2 == 1 }
    }

    /// The groups as bits 4 and 5 of a byte.
    pub fn bits(&self) -> (r: u8)
        ensures
            r == (if self.button { 16int } else { 0 }) + (if self.direction { 32int } else { 0 }),
    {
        (if self.button { 16u8 } else { 0 }) + (if self.direction { 32u8 } else { 0 })
    }
}

impl Default for SelectFlags {
    fn default() -> (r: Self)
        ensures
            r == (SelectFlags { button: false, direction: false }),
    {
        SelectFlags::empty()
    }
}

/// A joypad button.
#[derive(Debug, Clone, Copy, PartialEq, Eq, Structural)]
pub enum Button {
    Up,
    Down,
    Left,
    Right,
    B,
    A,
    Start,
    Select,
}

/// The position of a button in the pressed-button table.
pub open spec fn button_index(button: Button) -> int {
    match button {
        Button::Up => 0,
        Button::Down => 1,
        Button::Left => 2,
        Button::Right => 3,
        Button::B => 4,
        Button::A => 5,
        Button::Start => 6,
        Button::Select => 7,
    }
}

/// Whether a button is on the directional pad.
pub open spec fn is_direction(button: Button) -> bool {
    button_index(button) < 4
}

impl Button {
    fn index(&self) -> (r: usize)
        ensures
            r == button_index(*self),
    {
        match *self {
            Button::Up => 0,
            Button::Down => 1,
            Button::Left => 2,
            Button::Right => 3,
            Button::B => 4,
            Button::A => 5,
            Button::Start => 6,
            Button::Select => 7,
        }
    }

    fn is_direction(&self) -> (r: bool)
        ensures
            r == is_direction(*self),
    {
        matches!(self, Button::Up | Button::Down | Button::Right | Button::Left)
    }
}

/// The state of the joypad: the selected groups and the pressed buttons.
#[derive(Debug, Clone, Copy, PartialEq, Eq)]
pub struct ButtonState {
    /// The selected groups.
    pub select: SelectFlags,
    /// Whether each button is held, by `button_index`.
    pub pressed: [bool; 8],
}

impl ButtonState {
    /// Whether a button reads as pressed: it is held and its group is selected.
    pub open spec fn spec_is_pressed(self, button: Button) -> bool {
        let selected = if is_direction(button) { self.select.direction } else { self.select.button };
        selected && self.pressed@[button_index(button)]
    }

    /// The value of I/O register `0xFF00`: bits 0-3 read 0 for a pressed button of a selected
    /// group (right/A, left/B, up/select, down/start), bits 4-5 the selection, bits 6-7 high.
    pub open spec fn spec_as_byte(self) -> u8 {
        byte_of_bits(
            !(self.spec_is_pressed(Button::Right) || self.spec_is_pressed(Button::A)),
            !(self.spec_is_pressed(Button::Left) || self.spec_is_pressed(Button::B)),
            !(self.spec_is_pressed(Button::Up) || self.spec_is_pressed(Button::Select)),
            !(self.spec_is_pressed(Button::Down) || self.spec_is_pressed(Button::Start)),
            self.select.button,
            self.select.direction,
            true,
            true,
        )
    }

    /// No button held, no group selected.
    pub fn new() -> (r: Self)
        ensures
            r.select == SelectFlags::spec_empty(),
            forall|i: int| 0 <= i < 8 ==> !r.pressed@[i],
    {
        ButtonState { select: SelectFlags::empty(), pressed: [false; 8] }
    }

    /// Whether a button reads as pressed: it is held and its group is selected.
    pub fn is_pressed(&self, button: Button) -> (r: bool)
        ensures
            r == self.spec_is_pressed(button),
    {
        let selected = if button.is_direction() { self.select.direction } else { self.select.button };
        selected && self.pressed[button.index()]
    }

    /// Select which group of buttons should be read (a write to I/O register `0xFF00`).
    pub fn select(&mut self, register: u8)
        ensures
            *final(self) == (ButtonState {
                select: SelectFlags { button: bit(register, 4), direction: bit(register, 5) },
                ..*old(self)
            }),
    {
        self.select = SelectFlags::from_bits_truncate(register);
    }

    /// Conversion to I/O register `0xFF00`.
    pub fn as_byte(&self) -> (r: u8)
        ensures
            r == self.spec_as_byte(),
    {
        let b0: u8 = if self.is_pressed(Button::Right) || self.is_pressed(Button::A) { 0 } else { 1 };
        let b1: u8 = if self.is_pressed(Button::Left) || self.is_pressed(Button::B) { 0 } else { 2 };
        let b2: u8 = if self.is_pressed(Button::Up) || self.is_pressed(Button::Select) { 0 } else { 4 };
        let b3: u8 = if self.is_pressed(Button::Down) || self.is_pressed(Button::Start) { 0 } else { 8 };
        0xc0 + self.select.bits() + b0 + b1 + b2 + b3
    }

    /// Hold a button.
    pub fn press(&mut self, button: Button)
        ensures
            final(self).select == old(self).select,
            final(self).pressed@ == old(self).pressed@.update(button_index(button), true),
    {
        self.pressed[button.index()] = true;
    }

    /// Let go of a button.
    pub fn release(&mut self, button: Button)
        ensures
            final(self).select == old(self).select,
            final(self).pressed@ == old(self).pressed@.update(button_index(button), false),
    {
        self.pressed[button.index()] = false;
    }
}

impl SelectFlags {
    pub open spec fn spec_empty() -> SelectFlags {
        SelectFlags { button: false, direction: false }
    }
}

impl Default for ButtonState {
    fn default() -> (r: Self)
        ensures
            r.select == SelectFlags::spec_empty(),
            forall|i: int| 0 <= i < 8 ==> !r.pressed@[i],
    {
        ButtonState::new()
    }
}

} // verus!
