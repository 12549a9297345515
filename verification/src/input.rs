//! Input state: mouse and keyboard, and the event model the engine's
//! host feeds it.

use vstd::prelude::*;

verus! {

#[derive(Debug, Clone, Copy, PartialEq, Eq, Structural)]
pub enum MouseButton {
    Left,
    Middle,
    Right,
}

#[derive(Debug, Clone, Copy, PartialEq, Eq, Structural)]
pub struct Modifiers {
    pub shift: bool,
    pub ctrl: bool,
    pub alt: bool,
    pub meta: bool,
}

impl Default for Modifiers {
    fn default() -> (r: Modifiers)
        ensures
            r == (Modifiers { shift: false, ctrl: false, alt: false, meta: false }),
    {
        Modifiers { shift: false, ctrl: false, alt: false, meta: false }
    }
}

#[derive(Debug, Clone, Copy, PartialEq, Eq, Structural)]
pub enum KeyCode {
    Backspace,
    Tab,
    Return,
    Escape,
    Space,
    Left,
    Right,
    Up,
    Down,
    Home,
    End,
    PageUp,
    PageDown,
    Delete,
    Letter(u8),
    Digit(u8),
    Function(u8),
    Unknown,
}

/// One input event as the host hands it over.
#[derive(Debug, Clone)]
pub enum InputEvent {
    MouseDown { x: i32, y: i32, button: MouseButton },
    MouseUp { x: i32, y: i32, button: MouseButton },
    MouseMove { x: i32, y: i32 },
    MouseWheel { x: i32, y: i32 },
    KeyDown { keycode: KeyCode, modifiers: Modifiers },
    KeyUp { keycode: KeyCode, modifiers: Modifiers },
    TextInput { text: String },
    WindowResize { width: u32, height: u32 },
}

#[derive(Debug, Clone, Copy, PartialEq, Eq, Structural)]
pub struct MouseState {
    pub x: i32,
    pub y: i32,
    pub left_down: bool,
    pub middle_down: bool,
    pub right_down: bool,
}

impl MouseState {
    pub fn new() -> (r: MouseState)
        ensures
            r == (MouseState { x: 0, y: 0, left_down: false, middle_down: false, right_down: false }),
    {
        MouseState { x: 0, y: 0, left_down: false, middle_down: false, right_down: false }
    }

    pub fn set_position(&mut self, x: i32, y: i32)
        ensures
            *final(self) == (MouseState { x, y, ..*old(self) }),
    {
        self.x = x;
        self.y = y;
    }

    pub fn set_button(&mut self, button: MouseButton, down: bool)
        ensures
            *final(self) == match button {
                MouseButton::Left => MouseState { left_down: down, ..*old(self) },
                MouseButton::Middle => MouseState { middle_down: down, ..*old(self) },
                MouseButton::Right => MouseState { right_down: down, ..*old(self) },
            },
    {
        match button {
            MouseButton::Left => self.left_down = down,
            MouseButton::Middle => self.middle_down = down,
            MouseButton::Right => self.right_down = down,
        }
    }
}

impl Default for MouseState {
    fn default() -> (r: MouseState)
        ensures
            r == (MouseState { x: 0, y: 0, left_down: false, middle_down: false, right_down: false }),
    {
        MouseState::new()
    }
}

#[derive(Debug, Clone, Copy, PartialEq, Eq, Structural)]
pub struct KeyboardState {
    pub modifiers: Modifiers,
}

impl KeyboardState {
    pub fn new() -> (r: KeyboardState)
        ensures
            r.modifiers == (Modifiers { shift: false, ctrl: false, alt: false, meta: false }),
    {
        KeyboardState {
            modifiers: Modifiers { shift: false, ctrl: false, alt: false, meta: false },
        }
    }
}

impl Default for KeyboardState {
    fn default() -> (r: KeyboardState)
        ensures
            r.modifiers == (Modifiers { shift: false, ctrl: false, alt: false, meta: false }),
    {
        KeyboardState::new()
    }
}

} // verus!
