//! Keyboard input: the semantic key codes, the event payload, and the
//! parsing of textual key names (as a host reports them) into key codes.
//! Unrecognised key text yields no semantic key rather than an error.

use vstd::prelude::*;

verus! {

/// The state of the keyboard during a key-press event.
#[derive(Debug, Copy, Clone, PartialEq, Eq, Structural)]
pub struct KeyboardEventArgs {
    pub shift_pressed: bool,
    pub control_pressed: bool,
    /// The semantic meaning of the key currently being pressed, if there is
    /// one.
    pub key: Option<VirtualKeyCode>,
}

impl KeyboardEventArgs {
    /// A [`KeyboardEventArgs`] which just presses a key.
    pub fn pressing(key: VirtualKeyCode) -> (r: Self)
        ensures
            r == (KeyboardEventArgs {
                shift_pressed: false,
                control_pressed: false,
                key: Some(key),
            }),
    {
        KeyboardEventArgs { shift_pressed: false, control_pressed: false, key: Some(key) }
    }
}

impl Default for KeyboardEventArgs {
    /// No modifiers held and no semantic key.
    fn default() -> (r: Self)
        ensures
            r == (KeyboardEventArgs { shift_pressed: false, control_pressed: false, key: None }),
    {
        KeyboardEventArgs { shift_pressed: false, control_pressed: false, key: None }
    }
}

/// The semantic identity of a key.
#[derive(Debug, Copy, Clone, PartialEq, Eq, Structural, Hash)]
#[allow(non_camel_case_types)]
pub enum VirtualKeyCode {
    Escape,
    Enter,
    Control,
    Shift,
    Alt,
    Left,
    Up,
    Right,
    Down,
    Backspace,
    Return,
    Space,
    A,
    B,
    C,
    D,
    E,
    F,
    G,
    H,
    I,
    J,
    K,
    L,
    M,
    N,
    O,
    P,
    Q,
    R,
    S,
    T,
    U,
    V,
    W,
    X,
    Y,
    Z,
    a,
    b,
    c,
    d,
    e,
    f,
    g,
    h,
    i,
    j,
    k,
    l,
    m,
    n,
    o,
    p,
    q,
    r,
    s,
    t,
    u,
    v,
    w,
    x,
    y,
    z,
    Key1,
    Key2,
    Key3,
    Key4,
    Key5,
    Key6,
    Key7,
    Key8,
    Key9,
    Key0,
}

/// The key code a single-character key name denotes, if any; the space
/// character names the space key.
pub open spec fn spec_key_of_char(c: char) -> Option<VirtualKeyCode> {
    match c {
        'A' => Some(VirtualKeyCode::A),
        'B' => Some(VirtualKeyCode::B),
        'C' => Some(VirtualKeyCode::C),
        'D' => Some(VirtualKeyCode::D),
        'E' => Some(VirtualKeyCode::E),
        'F' => Some(VirtualKeyCode::F),
        'G' => Some(VirtualKeyCode::G),
        'H' => Some(VirtualKeyCode::H),
        'I' => Some(VirtualKeyCode::I),
        'J' => Some(VirtualKeyCode::J),
        'K' => Some(VirtualKeyCode::K),
        'L' => Some(VirtualKeyCode::L),
        'M' => Some(VirtualKeyCode::M),
        'N' => Some(VirtualKeyCode::N),
        'O' => Some(VirtualKeyCode::O),
        'P' => Some(VirtualKeyCode::P),
        'Q' => Some(VirtualKeyCode::Q),
        'R' => Some(VirtualKeyCode::R),
        'S' => Some(VirtualKeyCode::S),
        'T' => Some(VirtualKeyCode::T),
        'U' => Some(VirtualKeyCode::U),
        'V' => Some(VirtualKeyCode::V),
        'W' => Some(VirtualKeyCode::W),
        'X' => Some(VirtualKeyCode::X),
        'Y' => Some(VirtualKeyCode::Y),
        'Z' => Some(VirtualKeyCode::Z),
        'a' => Some(VirtualKeyCode::a),
        'b' => Some(VirtualKeyCode::b),
        'c' => Some(VirtualKeyCode::c),
        'd' => Some(VirtualKeyCode::d),
        'e' => Some(VirtualKeyCode::e),
        'f' => Some(VirtualKeyCode::f),
        'g' => Some(VirtualKeyCode::g),
        'h' => Some(VirtualKeyCode::h),
        'i' => Some(VirtualKeyCode::i),
        'j' => Some(VirtualKeyCode::j),
        'k' => Some(VirtualKeyCode::k),
        'l' => Some(VirtualKeyCode::l),
        'm' => Some(VirtualKeyCode::m),
        'n' => Some(VirtualKeyCode::n),
        'o' => Some(VirtualKeyCode::o),
        'p' => Some(VirtualKeyCode::p),
        'q' => Some(VirtualKeyCode::q),
        'r' => Some(VirtualKeyCode::r),
        's' => Some(VirtualKeyCode::s),
        't' => Some(VirtualKeyCode::t),
        'u' => Some(VirtualKeyCode::u),
        'v' => Some(VirtualKeyCode::v),
        'w' => Some(VirtualKeyCode::w),
        'x' => Some(VirtualKeyCode::x),
        'y' => Some(VirtualKeyCode::y),
        'z' => Some(VirtualKeyCode::z),
        '0' => Some(VirtualKeyCode::Key0),
        '1' => Some(VirtualKeyCode::Key1),
        '2' => Some(VirtualKeyCode::Key2),
        '3' => Some(VirtualKeyCode::Key3),
        '4' => Some(VirtualKeyCode::Key4),
        '5' => Some(VirtualKeyCode::Key5),
        '6' => Some(VirtualKeyCode::Key6),
        '7' => Some(VirtualKeyCode::Key7),
        '8' => Some(VirtualKeyCode::Key8),
        '9' => Some(VirtualKeyCode::Key9),
        ' ' => Some(VirtualKeyCode::Space),
        _ => None,
    }
}

/// The key code a textual key name denotes: single characters name letter
/// and digit keys (and the space character names the space key), and a
/// fixed set of multi-character names covers the control and arrow keys.
/// Anything else has no semantic key.
pub open spec fn spec_key_of(s: Seq<char>) -> Option<VirtualKeyCode> {
    if s.len() == 1 {
        spec_key_of_char(s[0])
    } else if s.len() == 5 && s[0] == 'E' && s[1] == 'n' && s[2] == 't' && s[3] == 'e' && s[4]
        == 'r' {
        Some(VirtualKeyCode::Enter)
    } else if s.len() == 9 && s[0] == 'B' && s[1] == 'a' && s[2] == 'c' && s[3] == 'k' && s[4] == 's'
        && s[5] == 'p' && s[6] == 'a' && s[7] == 'c' && s[8] == 'e' {
        Some(VirtualKeyCode::Backspace)
    } else if s.len() == 6 && s[0] == 'E' && s[1] == 's' && s[2] == 'c' && s[3] == 'a' && s[4] == 'p'
        && s[5] == 'e' {
        Some(VirtualKeyCode::Escape)
    } else if s.len() == 5 && s[0] == 'S' && s[1] == 'h' && s[2] == 'i' && s[3] == 'f' && s[4]
        == 't' {
        Some(VirtualKeyCode::Shift)
    } else if s.len() == 7 && s[0] == 'C' && s[1] == 'o' && s[2] == 'n' && s[3] == 't' && s[4] == 'r'
        && s[5] == 'o' && s[6] == 'l' {
        Some(VirtualKeyCode::Control)
    } else if s.len() == 3 && s[0] == 'A' && s[1] == 'l' && s[2] == 't' {
        Some(VirtualKeyCode::Alt)
    } else if s.len() == 9 && s[0] == 'A' && s[1] == 'r' && s[2] == 'r' && s[3] == 'o' && s[4] == 'w'
        && s[5] == 'L' && s[6] == 'e' && s[7] == 'f' && s[8] == 't' {
        Some(VirtualKeyCode::Left)
    } else if s.len() == 10 && s[0] == 'A' && s[1] == 'r' && s[2] == 'r' && s[3] == 'o' && s[4]
        == 'w' && s[5] == 'R' && s[6] == 'i' && s[7] == 'g' && s[8] == 'h' && s[9] == 't' {
        Some(VirtualKeyCode::Right)
    } else if s.len() == 7 && s[0] == 'A' && s[1] == 'r' && s[2] == 'r' && s[3] == 'o' && s[4] == 'w'
        && s[5] == 'U' && s[6] == 'p' {
        Some(VirtualKeyCode::Up)
    } else if s.len() == 9 && s[0] == 'A' && s[1] == 'r' && s[2] == 'r' && s[3] == 'o' && s[4] == 'w'
        && s[5] == 'D' && s[6] == 'o' && s[7] == 'w' && s[8] == 'n' {
        Some(VirtualKeyCode::Down)
    } else {
        None
    }
}

impl VirtualKeyCode {
    /// Parses a key name based on the names the W3C gives to keyboard event
    /// key values.
    pub fn from_text(s: &str) -> (r: Option<VirtualKeyCode>)
        ensures
            r == spec_key_of(s@),
    {
        let len = s.unicode_len();
        if len == 1 {
            key_of_char(s.get_char(0))
        } else if len == 5 {
            if s.get_char(0) == 'E' && s.get_char(1) == 'n' && s.get_char(2) == 't' && s.get_char(3)
                == 'e' && s.get_char(4) == 'r' {
                Some(VirtualKeyCode::Enter)
            } else if s.get_char(0) == 'S' && s.get_char(1) == 'h' && s.get_char(2) == 'i'
                && s.get_char(3) == 'f' && s.get_char(4) == 't' {
                Some(VirtualKeyCode::Shift)
            } else {
                None
            }
        } else if len == 9 {
            if s.get_char(0) == 'B' && s.get_char(1) == 'a' && s.get_char(2) == 'c' && s.get_char(3)
                == 'k' && s.get_char(4) == 's' && s.get_char(5) == 'p' && s.get_char(6) == 'a'
                && s.get_char(7) == 'c' && s.get_char(8) == 'e' {
                Some(VirtualKeyCode::Backspace)
            } else if s.get_char(0) == 'A' && s.get_char(1) == 'r' && s.get_char(2) == 'r'
                && s.get_char(3) == 'o' && s.get_char(4) == 'w' && s.get_char(5) == 'L'
                && s.get_char(6) == 'e' && s.get_char(7) == 'f' && s.get_char(8) == 't' {
                Some(VirtualKeyCode::Left)
            } else if s.get_char(0) == 'A' && s.get_char(1) == 'r' && s.get_char(2) == 'r'
                && s.get_char(3) == 'o' && s.get_char(4) == 'w' && s.get_char(5) == 'D'
                && s.get_char(6) == 'o' && s.get_char(7) == 'w' && s.get_char(8) == 'n' {
                Some(VirtualKeyCode::Down)
            } else {
                None
            }
        } else if len == 6 {
            if s.get_char(0) == 'E' && s.get_char(1) == 's' && s.get_char(2) == 'c' && s.get_char(3)
                == 'a' && s.get_char(4) == 'p' && s.get_char(5) == 'e' {
                Some(VirtualKeyCode::Escape)
            } else {
                None
            }
        } else if len == 7 {
            if s.get_char(0) == 'C' && s.get_char(1) == 'o' && s.get_char(2) == 'n' && s.get_char(3)
                == 't' && s.get_char(4) == 'r' && s.get_char(5) == 'o' && s.get_char(6) == 'l' {
                Some(VirtualKeyCode::Control)
            } else if s.get_char(0) == 'A' && s.get_char(1) == 'r' && s.get_char(2) == 'r'
                && s.get_char(3) == 'o' && s.get_char(4) == 'w' && s.get_char(5) == 'U'
                && s.get_char(6) == 'p' {
                Some(VirtualKeyCode::Up)
            } else {
                None
            }
        } else if len == 10 {
            if s.get_char(0) == 'A' && s.get_char(1) == 'r' && s.get_char(2) == 'r' && s.get_char(3)
                == 'o' && s.get_char(4) == 'w' && s.get_char(5) == 'R' && s.get_char(6) == 'i'
                && s.get_char(7) == 'g' && s.get_char(8) == 'h' && s.get_char(9) == 't' {
                Some(VirtualKeyCode::Right)
            } else {
                None
            }
        } else if len == 3 {
            if s.get_char(0) == 'A' && s.get_char(1) == 'l' && s.get_char(2) == 't' {
                Some(VirtualKeyCode::Alt)
            } else {
                None
            }
        } else {
            None
        }
    }
}

/// The key code a single-character key name denotes, if any.
fn key_of_char(c: char) -> (r: Option<VirtualKeyCode>)
    ensures
        r == spec_key_of_char(c),
{
    match c {
        'A' => Some(VirtualKeyCode::A),
        'B' => Some(VirtualKeyCode::B),
        'C' => Some(VirtualKeyCode::C),
        'D' => Some(VirtualKeyCode::D),
        'E' => Some(VirtualKeyCode::E),
        'F' => Some(VirtualKeyCode::F),
        'G' => Some(VirtualKeyCode::G),
        'H' => Some(VirtualKeyCode::H),
        'I' => Some(VirtualKeyCode::I),
        'J' => Some(VirtualKeyCode::J),
        'K' => Some(VirtualKeyCode::K),
        'L' => Some(VirtualKeyCode::L),
        'M' => Some(VirtualKeyCode::M),
        'N' => Some(VirtualKeyCode::N),
        'O' => Some(VirtualKeyCode::O),
        'P' => Some(VirtualKeyCode::P),
        'Q' => Some(VirtualKeyCode::Q),
        'R' => Some(VirtualKeyCode::R),
        'S' => Some(VirtualKeyCode::S),
        'T' => Some(VirtualKeyCode::T),
        'U' => Some(VirtualKeyCode::U),
        'V' => Some(VirtualKeyCode::V),
        'W' => Some(VirtualKeyCode::W),
        'X' => Some(VirtualKeyCode::X),
        'Y' => Some(VirtualKeyCode::Y),
        'Z' => Some(VirtualKeyCode::Z),
        'a' => Some(VirtualKeyCode::a),
        'b' => Some(VirtualKeyCode::b),
        'c' => Some(VirtualKeyCode::c),
        'd' => Some(VirtualKeyCode::d),
        'e' => Some(VirtualKeyCode::e),
        'f' => Some(VirtualKeyCode::f),
        'g' => Some(VirtualKeyCode::g),
        'h' => Some(VirtualKeyCode::h),
        'i' => Some(VirtualKeyCode::i),
        'j' => Some(VirtualKeyCode::j),
        'k' => Some(VirtualKeyCode::k),
        'l' => Some(VirtualKeyCode::l),
        'm' => Some(VirtualKeyCode::m),
        'n' => Some(VirtualKeyCode::n),
        'o' => Some(VirtualKeyCode::o),
        'p' => Some(VirtualKeyCode::p),
        'q' => Some(VirtualKeyCode::q),
        'r' => Some(VirtualKeyCode::r),
        's' => Some(VirtualKeyCode::s),
        't' => Some(VirtualKeyCode::t),
        'u' => Some(VirtualKeyCode::u),
        'v' => Some(VirtualKeyCode::v),
        'w' => Some(VirtualKeyCode::w),
        'x' => Some(VirtualKeyCode::x),
        'y' => Some(VirtualKeyCode::y),
        'z' => Some(VirtualKeyCode::z),
        '0' => Some(VirtualKeyCode::Key0),
        '1' => Some(VirtualKeyCode::Key1),
        '2' => Some(VirtualKeyCode::Key2),
        '3' => Some(VirtualKeyCode::Key3),
        '4' => Some(VirtualKeyCode::Key4),
        '5' => Some(VirtualKeyCode::Key5),
        '6' => Some(VirtualKeyCode::Key6),
        '7' => Some(VirtualKeyCode::Key7),
        '8' => Some(VirtualKeyCode::Key8),
        '9' => Some(VirtualKeyCode::Key9),
        ' ' => Some(VirtualKeyCode::Space),
        _ => None,
    }
}

} // verus!
