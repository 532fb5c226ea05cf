//! Input events, as the event pump hands them to the consumer.

use vstd::prelude::*;

verus! {

#[derive(Debug, Copy, Clone, PartialEq, Eq, Structural)]
pub enum InputEvent {
    Cursor(CursorEvent),
    Mouse(MouseEvent),
    Touch(TouchEvent),
    Keyboard(KeyboardEvent),
}

#[derive(Debug, Copy, Clone, PartialEq, Eq, Structural)]
pub struct CursorEvent {
    pub location: Location,
}

#[derive(Debug, Copy, Clone, PartialEq, Eq, Structural)]
pub struct MouseEvent {
    pub state: MouseState,
    pub button: MouseButton,
}

#[derive(Debug, Copy, Clone, PartialEq, Eq, Structural)]
pub enum MouseState {
    Pressed,
    Released,
}

#[derive(Debug, Copy, Clone, PartialEq, Eq, Structural)]
pub enum MouseButton {
    Left,
    Middle,
    Right,
    Back,
    Forward,
    Other(u16),
}

#[derive(Debug, Copy, Clone, PartialEq, Eq, Structural)]
pub struct TouchEvent {
    pub state: TouchState,
    pub location: Location,
    pub id: u64,
}

#[derive(Debug, Copy, Clone, PartialEq, Eq, Structural)]
pub enum TouchState {
    Down,
    Up,
    Move,
    Cancelled,
}

#[derive(Debug, Copy, Clone, PartialEq, Eq, Structural)]
pub struct KeyboardEvent {
    pub state: KeyState,
    pub key: Key,
}

#[derive(Debug, Copy, Clone, PartialEq, Eq, Structural)]
pub enum KeyState {
    Pressed,
    Released,
}

#[derive(Debug, Copy, Clone, PartialEq, Eq, Structural)]
pub enum Key {
    Back,
    Escape,
    Unknown,
}

/// A position in physical pixels. Each coordinate is held as the bits of a
/// single-precision number, so that the position passes through unchanged.
#[derive(Debug, Copy, Clone, PartialEq, Eq, Structural)]
pub struct Location {
    pub x: u32,
    pub y: u32,
}

} // verus!
