//! The events that travel from the platform into the windows.

use vstd::prelude::*;
use crate::command::{Command, Target};
use crate::ids::TimerToken;

verus! {

/// A real number, carried as the bit pattern of its IEEE 754 double. This
/// layer never computes with it: whoever handles the event reads it back.
#[derive(Clone, Copy, Debug, PartialEq, Eq, Structural)]
pub struct Scalar {
    pub bits: u64,
}

/// A position inside a window.
#[derive(Clone, Copy, Debug, PartialEq, Eq, Structural)]
pub struct Point {
    pub x: Scalar,
    pub y: Scalar,
}

/// A displacement, as a wheel reports it.
#[derive(Clone, Copy, Debug, PartialEq, Eq, Structural)]
pub struct Vec2 {
    pub x: Scalar,
    pub y: Scalar,
}

/// The size of a window's content, in pixels.
#[derive(Clone, Copy, Debug, PartialEq, Eq, Structural)]
pub struct Size {
    pub width: u32,
    pub height: u32,
}

/// The modifier keys that were down when an event happened.
#[derive(Clone, Copy, Debug, PartialEq, Eq, Structural)]
pub struct KeyModifiers {
    pub shift: bool,
    pub alt: bool,
    pub ctrl: bool,
    pub meta: bool,
}

#[derive(Clone, Copy, Debug, PartialEq, Eq, Structural)]
pub enum MouseButton {
    Left,
    Middle,
    Right,
    X1,
    X2,
}

#[derive(Clone, Copy, Debug, PartialEq, Eq, Structural)]
pub struct MouseEvent {
    pub pos: Point,
    pub mods: KeyModifiers,
    /// How many clicks came in a row; 0 for a move.
    pub count: u32,
    pub button: MouseButton,
}

#[derive(Clone, Copy, Debug, PartialEq, Eq, Structural)]
pub struct KeyEvent {
    pub key_code: u32,
    pub is_repeat: bool,
    pub mods: KeyModifiers,
}

#[derive(Clone, Copy, Debug, PartialEq, Eq, Structural)]
pub struct WheelEvent {
    pub delta: Vec2,
    pub mods: KeyModifiers,
}

/// What the clipboard held when a paste was asked for.
#[derive(Clone, Debug, PartialEq, Eq)]
pub struct Clipboard {
    pub text: Option<String>,
}

/// One event for a window's widget tree.
#[derive(Clone, Debug, PartialEq, Eq)]
pub enum Event {
    /// The platform has made the window real.
    WindowConnected,
    Size(Size),
    MouseDown(MouseEvent),
    MouseUp(MouseEvent),
    MouseMoved(MouseEvent),
    KeyDown(KeyEvent),
    KeyUp(KeyEvent),
    Wheel(WheelEvent),
    Zoom(Scalar),
    Timer(TimerToken),
    Paste(Clipboard),
    /// A command on its way to a window or to a widget.
    TargetedCommand(Target, Command),
}

} // verus!
