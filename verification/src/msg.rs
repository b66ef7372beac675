//! Messages a host delivers to the editor, and the toolbar buttons. Pointer
//! coordinates reach the editor already converted to drawing space by the
//! host.

use vstd::prelude::*;
use crate::geometry::Point;
use crate::keyboard_event_args::{KeyboardEventArgs, VirtualKeyCode, spec_key_of};

verus! {

/// A toolbar button.
#[derive(Debug, Copy, Clone, PartialEq, Eq, Structural)]
pub enum ButtonType {
    Select,
    Point,
    Line,
    Arc,
    Snap,
}

/// One input message from the host.
#[derive(Debug, Copy, Clone, PartialEq, Eq, Structural)]
pub enum Msg {
    Rendered,
    MouseDown(Point),
    MouseUp(Point),
    MouseMove(Point),
    KeyPressed(KeyboardEventArgs),
    ButtonClicked(ButtonType),
    WindowResized,
}

impl Msg {
    /// The message for a key press, given the key's textual name and the
    /// modifier state. Unknown key names carry no semantic key; a host may
    /// log them to extend the enumeration later.
    pub fn from_key_press(key_text: &str, shift: bool, ctrl: bool) -> (m: Msg)
        ensures
            m == Msg::KeyPressed(
                KeyboardEventArgs {
                    shift_pressed: shift,
                    control_pressed: ctrl,
                    key: spec_key_of(key_text@),
                },
            ),
    {
        let key = VirtualKeyCode::from_text(key_text);
        Msg::KeyPressed(KeyboardEventArgs { shift_pressed: shift, control_pressed: ctrl, key })
    }
}

} // verus!
