//! Buffered input state: pointer position, button edges, wheel and queued key events.
use vstd::prelude::*;

use crate::types::Vec2;

verus! {

/// Keys that widgets react to.
#[derive(Clone, Copy, Debug, PartialEq, Eq, Structural)]
pub enum KeyCode {
    Up,
    Down,
    Right,
    Left,
    Backspace,
    Delete,
    Enter,
    Tab,
    Home,
    End,
    /// select all
    A,
    /// undo
    Z,
    /// redo
    Y,
    /// copy
    C,
    /// paste
    V,
    /// cut
    X,
}

/// One queued keyboard event: a typed character or a control key.
#[derive(Clone, Copy, Debug, PartialEq, Eq, Structural)]
pub enum InputCharacter {
    Char(char),
    ControlCode { key_code: KeyCode, modifier_shift: bool },
}

/// The input snapshot of one frame.
#[derive(Clone, Debug)]
pub struct Input {
    pub mouse_position: Vec2,
    pub is_mouse_down: bool,
    pub click_down: bool,
    pub click_up: bool,
    pub mouse_wheel: Vec2,
    pub input_buffer: Vec<InputCharacter>,
    pub cursor_grabbed: bool,
    pub escape: bool,
}

impl Default for Input {
    fn default() -> (r: Input)
        ensures
            r.mouse_position == Vec2::spec_origin(),
            !r.is_mouse_down,
            !r.click_down,
            !r.click_up,
            r.mouse_wheel == Vec2::spec_origin(),
            r.input_buffer@ == Seq::<InputCharacter>::empty(),
            !r.cursor_grabbed,
            !r.escape,
    {
        Input {
            mouse_position: Vec2::zero(),
            is_mouse_down: false,
            click_down: false,
            click_up: false,
            mouse_wheel: Vec2::zero(),
            input_buffer: Vec::new(),
            cursor_grabbed: false,
            escape: false,
        }
    }
}

impl Input {
    /// Whether the button is held and no widget has grabbed the pointer.
    pub fn clicked(&self) -> (r: bool)
        ensures
            r == (self.is_mouse_down && !self.cursor_grabbed),
    {
        self.is_mouse_down && !self.cursor_grabbed
    }

    /// Whether the input holds nothing that lasts for one frame only.
    pub open spec fn transient_cleared(self) -> bool {
        &&& !self.click_down
        &&& !self.click_up
        &&& !self.escape
        &&& self.mouse_wheel == Vec2::spec_origin()
        &&& self.input_buffer@.len() == 0
    }

    /// Clears the edges, the wheel and the key queue; keeps the held button and the pointer.
    pub fn reset(&mut self)
        ensures
            final(self).transient_cleared(),
            final(self).mouse_position == old(self).mouse_position,
            final(self).is_mouse_down == old(self).is_mouse_down,
            final(self).cursor_grabbed == old(self).cursor_grabbed,
    {
        self.click_down = false;
        self.click_up = false;
        self.escape = false;
        self.mouse_wheel = Vec2::zero();
        self.input_buffer = Vec::new();
    }
}

} // verus!
