//! Keyboard input decoding.
//!
//! The host engine reports buffered keyboard events by 8-bit scan code and
//! hands each input callback a 256-entry key-state buffer, one byte per
//! scan code with the high bit meaning "down".  [`Key`] is the logical key
//! enumeration; decoding a scan code is total (unrecognized codes map to
//! [`Key::Unknown`] carrying the raw byte) and encoding is its exact
//! inverse.  [`KeyStates`] is the view over one callback invocation's
//! buffer.

use vstd::prelude::*;

verus! {

/// A logical keyboard key.
#[derive(Debug, Clone, Copy, PartialEq, Eq, Structural)]
pub enum Key {
    /// Escape key
    Escape,
    /// '1' key on main keyboard
    Main1,
    /// '2' key on main keyboard
    Main2,
    /// '3' key on main keyboard
    Main3,
    /// '4' key on main keyboard
    Main4,
    /// '5' key on main keyboard
    Main5,
    /// '6' key on main keyboard
    Main6,
    /// '7' key on main keyboard
    Main7,
    /// '8' key on main keyboard
    Main8,
    /// '9' key on main keyboard
    Main9,
    /// '0' key on main keyboard
    Main0,
    /// '-' key on main keyboard
    Minus,
    /// '=' key on main keyboard
    Equals,
    /// backspace key
    Backspace,
    /// tab key
    Tabulation,
    /// 'Q' key
    Q,
    /// 'W' key
    W,
    /// 'E' key
    E,
    /// 'R' key
    R,
    /// 'T' key
    T,
    /// 'Y' key
    Y,
    /// 'U' key
    U,
    /// 'I' key
    I,
    /// 'O' key
    O,
    /// 'P' key
    P,
    /// '[' (left bracket) key
    LeftBracket,
    /// ']' (right bracket) key
    RightBracket,
    /// 'Enter' key on main keyboard
    Enter,
    /// Left 'Ctrl' key
    LeftControl,
    /// 'A' key
    A,
    /// 'S' key
    S,
    /// 'D' key
    D,
    /// 'F' key
    F,
    /// 'G' key
    G,
    /// 'H' key
    H,
    /// 'J' key
    J,
    /// 'K' key
    K,
    /// 'L' key
    L,
    /// ';' (semicolon) key
    Semicolon,
    /// ' (apostrophe) key
    Apostrophe,
    /// accent grave
    Grave,
    /// Left 'Shift' key
    LeftShift,
    /// '\' (backslash) key
    Backslash,
    /// 'Z' key
    Z,
    /// 'X' key
    X,
    /// 'C' key
    C,
    /// 'V' key
    V,
    /// 'B' key
    B,
    /// 'N' key
    N,
    /// 'M' key
    M,
    /// ',' (comma) key
    Comma,
    /// '.' key on main keyboard
    Period,
    /// '/' key on main keyboard
    Slash,
    /// Right 'Shift' key
    RightShift,
    /// '*' on numeric keypad
    Multiply,
    /// left Alt
    LeftAlt,
    /// 'Space' key
    Space,
    /// caps lock key
    CapsLock,
    /// F1 function key
    F1,
    /// F2 function key
    F2,
    /// F3 function key
    F3,
    /// F4 function key
    F4,
    /// F5 function key
    F5,
    /// F6 function key
    F6,
    /// F7 function key
    F7,
    /// F8 function key
    F8,
    /// F9 function key
    F9,
    /// F10 function key
    F10,
    /// 'Num Lock' key
    NumLock,
    /// Scroll lock
    ScrollLock,
    /// '7' key on numeric keypad
    NumPad7,
    /// '8' key on numeric keypad
    NumPad8,
    /// '9' key on numeric keypad
    NumPad9,
    /// '-' key on numeric keypad
    Subtract,
    /// '4' key on numeric keypad
    NumPad4,
    /// '5' key on numeric keypad
    NumPad5,
    /// '6' key on numeric keypad
    NumPad6,
    /// '+' key on numeric keypad
    Add,
    /// '1' key on numeric keypad
    NumPad1,
    /// '2' key on numeric keypad
    NumPad2,
    /// '3' key on numeric keypad
    NumPad3,
    /// '0' key on numeric keypad
    NumPad0,
    /// '.' key on numeric keypad
    Decimal,
    /// '|', '<', '>' on UK/German keyboards
    OEM102,
    /// F11 function key
    F11,
    /// F12 function key
    F12,
    /// Enter on numeric keypad
    NumPadEnter,
    /// right Control key
    RightControl,
    /// '/' key on numeric keypad
    Divide,
    /// SysRq/PrtScn key
    PrintScreen,
    /// right Alt
    RightAlt,
    /// Break/Pause key
    Pause,
    /// Home on cursor keypad
    Home,
    /// up-arrow on cursor keypad
    Up,
    /// PgUp on cursor keypad
    PageUp,
    /// left-arrow on cursor keypad
    Left,
    /// right-arrow on cursor keypad
    Right,
    /// End on cursor keypad
    End,
    /// down-arrow on cursor keypad
    Down,
    /// PgDn on cursor keypad
    PageDown,
    /// Insert on cursor keypad
    Insert,
    /// Delete on cursor keypad
    Delete,
    /// A scan code outside the named set, carried through unchanged
    Unknown(u8),
}

/// The scan code a key encodes to.
pub open spec fn key_code(k: Key) -> u8 {
    match k {
        Key::Escape => 0x01,
        Key::Main1 => 0x02,
        Key::Main2 => 0x03,
        Key::Main3 => 0x04,
        Key::Main4 => 0x05,
        Key::Main5 => 0x06,
        Key::Main6 => 0x07,
        Key::Main7 => 0x08,
        Key::Main8 => 0x09,
        Key::Main9 => 0x0A,
        Key::Main0 => 0x0B,
        Key::Minus => 0x0C,
        Key::Equals => 0x0D,
        Key::Backspace => 0x0E,
        Key::Tabulation => 0x0F,
        Key::Q => 0x10,
        Key::W => 0x11,
        Key::E => 0x12,
        Key::R => 0x13,
        Key::T => 0x14,
        Key::Y => 0x15,
        Key::U => 0x16,
        Key::I => 0x17,
        Key::O => 0x18,
        Key::P => 0x19,
        Key::LeftBracket => 0x1A,
        Key::RightBracket => 0x1B,
        Key::Enter => 0x1C,
        Key::LeftControl => 0x1D,
        Key::A => 0x1E,
        Key::S => 0x1F,
        Key::D => 0x20,
        Key::F => 0x21,
        Key::G => 0x22,
        Key::H => 0x23,
        Key::J => 0x24,
        Key::K => 0x25,
        Key::L => 0x26,
        Key::Semicolon => 0x27,
        Key::Apostrophe => 0x28,
        Key::Grave => 0x29,
        Key::LeftShift => 0x2A,
        Key::Backslash => 0x2B,
        Key::Z => 0x2C,
        Key::X => 0x2D,
        Key::C => 0x2E,
        Key::V => 0x2F,
        Key::B => 0x30,
        Key::N => 0x31,
        Key::M => 0x32,
        Key::Comma => 0x33,
        Key::Period => 0x34,
        Key::Slash => 0x35,
        Key::RightShift => 0x36,
        Key::Multiply => 0x37,
        Key::LeftAlt => 0x38,
        Key::Space => 0x39,
        Key::CapsLock => 0x3A,
        Key::F1 => 0x3B,
        Key::F2 => 0x3C,
        Key::F3 => 0x3D,
        Key::F4 => 0x3E,
        Key::F5 => 0x3F,
        Key::F6 => 0x40,
        Key::F7 => 0x41,
        Key::F8 => 0x42,
        Key::F9 => 0x43,
        Key::F10 => 0x44,
        Key::NumLock => 0x45,
        Key::ScrollLock => 0x46,
        Key::NumPad7 => 0x47,
        Key::NumPad8 => 0x48,
        Key::NumPad9 => 0x49,
        Key::Subtract => 0x4A,
        Key::NumPad4 => 0x4B,
        Key::NumPad5 => 0x4C,
        Key::NumPad6 => 0x4D,
        Key::Add => 0x4E,
        Key::NumPad1 => 0x4F,
        Key::NumPad2 => 0x50,
        Key::NumPad3 => 0x51,
        Key::NumPad0 => 0x52,
        Key::Decimal => 0x53,
        Key::OEM102 => 0x56,
        Key::F11 => 0x57,
        Key::F12 => 0x58,
        Key::NumPadEnter => 0x9C,
        Key::RightControl => 0x9D,
        Key::Divide => 0xB5,
        Key::PrintScreen => 0xB7,
        Key::RightAlt => 0xB8,
        Key::Pause => 0xC5,
        Key::Home => 0xC7,
        Key::Up => 0xC8,
        Key::PageUp => 0xC9,
        Key::Left => 0xCB,
        Key::Right => 0xCD,
        Key::End => 0xCF,
        Key::Down => 0xD0,
        Key::PageDown => 0xD1,
        Key::Insert => 0xD2,
        Key::Delete => 0xD3,
        Key::Unknown(value) => value,
    }
}

/// The key a scan code decodes to; total over all 8-bit codes.
pub open spec fn key_of(code: u8) -> Key {
    if code == 0x01 {
        Key::Escape
    } else if code == 0x02 {
        Key::Main1
    } else if code == 0x03 {
        Key::Main2
    } else if code == 0x04 {
        Key::Main3
    } else if code == 0x05 {
        Key::Main4
    } else if code == 0x06 {
        Key::Main5
    } else if code == 0x07 {
        Key::Main6
    } else if code == 0x08 {
        Key::Main7
    } else if code == 0x09 {
        Key::Main8
    } else if code == 0x0A {
        Key::Main9
    } else if code == 0x0B {
        Key::Main0
    } else if code == 0x0C {
        Key::Minus
    } else if code == 0x0D {
        Key::Equals
    } else if code == 0x0E {
        Key::Backspace
    } else if code == 0x0F {
        Key::Tabulation
    } else if code == 0x10 {
        Key::Q
    } else if code == 0x11 {
        Key::W
    } else if code == 0x12 {
        Key::E
    } else if code == 0x13 {
        Key::R
    } else if code == 0x14 {
        Key::T
    } else if code == 0x15 {
        Key::Y
    } else if code == 0x16 {
        Key::U
    } else if code == 0x17 {
        Key::I
    } else if code == 0x18 {
        Key::O
    } else if code == 0x19 {
        Key::P
    } else if code == 0x1A {
        Key::LeftBracket
    } else if code == 0x1B {
        Key::RightBracket
    } else if code == 0x1C {
        Key::Enter
    } else if code == 0x1D {
        Key::LeftControl
    } else if code == 0x1E {
        Key::A
    } else if code == 0x1F {
        Key::S
    } else if code == 0x20 {
        Key::D
    } else if code == 0x21 {
        Key::F
    } else if code == 0x22 {
        Key::G
    } else if code == 0x23 {
        Key::H
    } else if code == 0x24 {
        Key::J
    } else if code == 0x25 {
        Key::K
    } else if code == 0x26 {
        Key::L
    } else if code == 0x27 {
        Key::Semicolon
    } else if code == 0x28 {
        Key::Apostrophe
    } else if code == 0x29 {
        Key::Grave
    } else if code == 0x2A {
        Key::LeftShift
    } else if code == 0x2B {
        Key::Backslash
    } else if code == 0x2C {
        Key::Z
    } else if code == 0x2D {
        Key::X
    } else if code == 0x2E {
        Key::C
    } else if code == 0x2F {
        Key::V
    } else if code == 0x30 {
        Key::B
    } else if code == 0x31 {
        Key::N
    } else if code == 0x32 {
        Key::M
    } else if code == 0x33 {
        Key::Comma
    } else if code == 0x34 {
        Key::Period
    } else if code == 0x35 {
        Key::Slash
    } else if code == 0x36 {
        Key::RightShift
    } else if code == 0x37 {
        Key::Multiply
    } else if code == 0x38 {
        Key::LeftAlt
    } else if code == 0x39 {
        Key::Space
    } else if code == 0x3A {
        Key::CapsLock
    } else if code == 0x3B {
        Key::F1
    } else if code == 0x3C {
        Key::F2
    } else if code == 0x3D {
        Key::F3
    } else if code == 0x3E {
        Key::F4
    } else if code == 0x3F {
        Key::F5
    } else if code == 0x40 {
        Key::F6
    } else if code == 0x41 {
        Key::F7
    } else if code == 0x42 {
        Key::F8
    } else if code == 0x43 {
        Key::F9
    } else if code == 0x44 {
        Key::F10
    } else if code == 0x45 {
        Key::NumLock
    } else if code == 0x46 {
        Key::ScrollLock
    } else if code == 0x47 {
        Key::NumPad7
    } else if code == 0x48 {
        Key::NumPad8
    } else if code == 0x49 {
        Key::NumPad9
    } else if code == 0x4A {
        Key::Subtract
    } else if code == 0x4B {
        Key::NumPad4
    } else if code == 0x4C {
        Key::NumPad5
    } else if code == 0x4D {
        Key::NumPad6
    } else if code == 0x4E {
        Key::Add
    } else if code == 0x4F {
        Key::NumPad1
    } else if code == 0x50 {
        Key::NumPad2
    } else if code == 0x51 {
        Key::NumPad3
    } else if code == 0x52 {
        Key::NumPad0
    } else if code == 0x53 {
        Key::Decimal
    } else if code == 0x56 {
        Key::OEM102
    } else if code == 0x57 {
        Key::F11
    } else if code == 0x58 {
        Key::F12
    } else if code == 0x9C {
        Key::NumPadEnter
    } else if code == 0x9D {
        Key::RightControl
    } else if code == 0xB5 {
        Key::Divide
    } else if code == 0xB7 {
        Key::PrintScreen
    } else if code == 0xB8 {
        Key::RightAlt
    } else if code == 0xC5 {
        Key::Pause
    } else if code == 0xC7 {
        Key::Home
    } else if code == 0xC8 {
        Key::Up
    } else if code == 0xC9 {
        Key::PageUp
    } else if code == 0xCB {
        Key::Left
    } else if code == 0xCD {
        Key::Right
    } else if code == 0xCF {
        Key::End
    } else if code == 0xD0 {
        Key::Down
    } else if code == 0xD1 {
        Key::PageDown
    } else if code == 0xD2 {
        Key::Insert
    } else if code == 0xD3 {
        Key::Delete
    } else {
        Key::Unknown(code)
    }
}

impl Key {
    /// Scan code of this key; the exact inverse of [`Key::from`] on every
    /// named key, and the raw byte itself on [`Key::Unknown`].
    pub fn as_u8(self) -> (code: u8)
        ensures
            code == key_code(self),
    {
        match self {
            Self::Escape => 0x01,
            Self::Main1 => 0x02,
            Self::Main2 => 0x03,
            Self::Main3 => 0x04,
            Self::Main4 => 0x05,
            Self::Main5 => 0x06,
            Self::Main6 => 0x07,
            Self::Main7 => 0x08,
            Self::Main8 => 0x09,
            Self::Main9 => 0x0A,
            Self::Main0 => 0x0B,
            Self::Minus => 0x0C,
            Self::Equals => 0x0D,
            Self::Backspace => 0x0E,
            Self::Tabulation => 0x0F,
            Self::Q => 0x10,
            Self::W => 0x11,
            Self::E => 0x12,
            Self::R => 0x13,
            Self::T => 0x14,
            Self::Y => 0x15,
            Self::U => 0x16,
            Self::I => 0x17,
            Self::O => 0x18,
            Self::P => 0x19,
            Self::LeftBracket => 0x1A,
            Self::RightBracket => 0x1B,
            Self::Enter => 0x1C,
            Self::LeftControl => 0x1D,
            Self::A => 0x1E,
            Self::S => 0x1F,
            Self::D => 0x20,
            Self::F => 0x21,
            Self::G => 0x22,
            Self::H => 0x23,
            Self::J => 0x24,
            Self::K => 0x25,
            Self::L => 0x26,
            Self::Semicolon => 0x27,
            Self::Apostrophe => 0x28,
            Self::Grave => 0x29,
            Self::LeftShift => 0x2A,
            Self::Backslash => 0x2B,
            Self::Z => 0x2C,
            Self::X => 0x2D,
            Self::C => 0x2E,
            Self::V => 0x2F,
            Self::B => 0x30,
            Self::N => 0x31,
            Self::M => 0x32,
            Self::Comma => 0x33,
            Self::Period => 0x34,
            Self::Slash => 0x35,
            Self::RightShift => 0x36,
            Self::Multiply => 0x37,
            Self::LeftAlt => 0x38,
            Self::Space => 0x39,
            Self::CapsLock => 0x3A,
            Self::F1 => 0x3B,
            Self::F2 => 0x3C,
            Self::F3 => 0x3D,
            Self::F4 => 0x3E,
            Self::F5 => 0x3F,
            Self::F6 => 0x40,
            Self::F7 => 0x41,
            Self::F8 => 0x42,
            Self::F9 => 0x43,
            Self::F10 => 0x44,
            Self::NumLock => 0x45,
            Self::ScrollLock => 0x46,
            Self::NumPad7 => 0x47,
            Self::NumPad8 => 0x48,
            Self::NumPad9 => 0x49,
            Self::Subtract => 0x4A,
            Self::NumPad4 => 0x4B,
            Self::NumPad5 => 0x4C,
            Self::NumPad6 => 0x4D,
            Self::Add => 0x4E,
            Self::NumPad1 => 0x4F,
            Self::NumPad2 => 0x50,
            Self::NumPad3 => 0x51,
            Self::NumPad0 => 0x52,
            Self::Decimal => 0x53,
            Self::OEM102 => 0x56,
            Self::F11 => 0x57,
            Self::F12 => 0x58,
            Self::NumPadEnter => 0x9C,
            Self::RightControl => 0x9D,
            Self::Divide => 0xB5,
            Self::PrintScreen => 0xB7,
            Self::RightAlt => 0xB8,
            Self::Pause => 0xC5,
            Self::Home => 0xC7,
            Self::Up => 0xC8,
            Self::PageUp => 0xC9,
            Self::Left => 0xCB,
            Self::Right => 0xCD,
            Self::End => 0xCF,
            Self::Down => 0xD0,
            Self::PageDown => 0xD1,
            Self::Insert => 0xD2,
            Self::Delete => 0xD3,
            Self::Unknown(value) => value,
        }
    }

    /// Decode a scan code.  Total: a code outside the named set yields
    /// [`Key::Unknown`] carrying the code, never an error.
    pub fn from(value: u8) -> (k: Self)
        ensures
            k == key_of(value),
    {
        match value {
            0x01 => Self::Escape,
            0x02 => Self::Main1,
            0x03 => Self::Main2,
            0x04 => Self::Main3,
            0x05 => Self::Main4,
            0x06 => Self::Main5,
            0x07 => Self::Main6,
            0x08 => Self::Main7,
            0x09 => Self::Main8,
            0x0A => Self::Main9,
            0x0B => Self::Main0,
            0x0C => Self::Minus,
            0x0D => Self::Equals,
            0x0E => Self::Backspace,
            0x0F => Self::Tabulation,
            0x10 => Self::Q,
            0x11 => Self::W,
            0x12 => Self::E,
            0x13 => Self::R,
            0x14 => Self::T,
            0x15 => Self::Y,
            0x16 => Self::U,
            0x17 => Self::I,
            0x18 => Self::O,
            0x19 => Self::P,
            0x1A => Self::LeftBracket,
            0x1B => Self::RightBracket,
            0x1C => Self::Enter,
            0x1D => Self::LeftControl,
            0x1E => Self::A,
            0x1F => Self::S,
            0x20 => Self::D,
            0x21 => Self::F,
            0x22 => Self::G,
            0x23 => Self::H,
            0x24 => Self::J,
            0x25 => Self::K,
            0x26 => Self::L,
            0x27 => Self::Semicolon,
            0x28 => Self::Apostrophe,
            0x29 => Self::Grave,
            0x2A => Self::LeftShift,
            0x2B => Self::Backslash,
            0x2C => Self::Z,
            0x2D => Self::X,
            0x2E => Self::C,
            0x2F => Self::V,
            0x30 => Self::B,
            0x31 => Self::N,
            0x32 => Self::M,
            0x33 => Self::Comma,
            0x34 => Self::Period,
            0x35 => Self::Slash,
            0x36 => Self::RightShift,
            0x37 => Self::Multiply,
            0x38 => Self::LeftAlt,
            0x39 => Self::Space,
            0x3A => Self::CapsLock,
            0x3B => Self::F1,
            0x3C => Self::F2,
            0x3D => Self::F3,
            0x3E => Self::F4,
            0x3F => Self::F5,
            0x40 => Self::F6,
            0x41 => Self::F7,
            0x42 => Self::F8,
            0x43 => Self::F9,
            0x44 => Self::F10,
            0x45 => Self::NumLock,
            0x46 => Self::ScrollLock,
            0x47 => Self::NumPad7,
            0x48 => Self::NumPad8,
            0x49 => Self::NumPad9,
            0x4A => Self::Subtract,
            0x4B => Self::NumPad4,
            0x4C => Self::NumPad5,
            0x4D => Self::NumPad6,
            0x4E => Self::Add,
            0x4F => Self::NumPad1,
            0x50 => Self::NumPad2,
            0x51 => Self::NumPad3,
            0x52 => Self::NumPad0,
            0x53 => Self::Decimal,
            0x56 => Self::OEM102,
            0x57 => Self::F11,
            0x58 => Self::F12,
            0x9C => Self::NumPadEnter,
            0x9D => Self::RightControl,
            0xB5 => Self::Divide,
            0xB7 => Self::PrintScreen,
            0xB8 => Self::RightAlt,
            0xC5 => Self::Pause,
            0xC7 => Self::Home,
            0xC8 => Self::Up,
            0xC9 => Self::PageUp,
            0xCB => Self::Left,
            0xCD => Self::Right,
            0xCF => Self::End,
            0xD0 => Self::Down,
            0xD1 => Self::PageDown,
            0xD2 => Self::Insert,
            0xD3 => Self::Delete,
            _ => Self::Unknown(value),
        }
    }
}

/// Law: decoding any scan code and re-encoding the result yields the
/// original code — named keys map back to their own code, and an
/// unrecognized code is carried through [`Key::Unknown`] unchanged.
pub proof fn lemma_scan_code_roundtrip(code: u8)
    ensures
        key_code(key_of(code)) == code,
{
}

/// Law: every named key survives an encode-decode round trip; only
/// [`Key::Unknown`] values whose carried byte collides with a named code
/// decode to the named key instead.
pub proof fn lemma_named_key_roundtrip(k: Key)
    requires
        !(k matches Key::Unknown(_)),
    ensures
        key_of(key_code(k)) == k,
{
}

/// Whether the buffer `s` records `key` as pressed down: the high bit of
/// the byte at the key's scan-code index.
pub open spec fn key_is_down(s: Seq<u8>, key: Key) -> bool {
    s[key_code(key) as int] & 0x80 != 0
}

/// One input callback invocation's view of the host's 256-entry keyboard
/// state buffer, one byte per scan code.  The host owns the real buffer;
/// the unverified rim copies it in before the callback and writes it back
/// after, so a cleared entry suppresses the host's default handling of
/// that key for the current event.
pub struct KeyStates {
    kstate: Vec<u8>,
}

impl View for KeyStates {
    type V = Seq<u8>;

    closed spec fn view(&self) -> Seq<u8> {
        self.kstate@
    }
}

impl KeyStates {
    /// The buffer always holds one byte per possible scan code.
    pub open spec fn wf(self) -> bool {
        self@.len() == 256
    }

    /// Wrap the buffer of one callback invocation.
    pub fn from(kstate: Vec<u8>) -> (r: Self)
        requires
            kstate@.len() == 256,
        ensures
            r@ == kstate@,
            r.wf(),
    {
        KeyStates { kstate }
    }

    /// Hand the possibly modified buffer back for the rim to write through
    /// to the host.
    pub fn into_inner(self) -> (r: Vec<u8>)
        ensures
            r@ == self@,
    {
        self.kstate
    }

    /// Check if a key is pressed down.
    pub fn is_down(&self, key: Key) -> (r: bool)
        requires
            self.wf(),
        ensures
            r == key_is_down(self@, key),
    {
        (self.kstate[key.as_u8() as usize] & 0x80) != 0
    }

    /// Clear a key's entry, preventing the host's default processing of
    /// that key for the current event.
    pub fn reset_key(&mut self, key: Key)
        requires
            old(self).wf(),
        ensures
            final(self)@ == old(self)@.update(key_code(key) as int, 0u8),
            final(self).wf(),
    {
        let idx = key.as_u8() as usize;
        self.kstate.set(idx, 0);
    }

    /// Check if the left shift key is pressed.
    pub fn left_shift(&self) -> (r: bool)
        requires
            self.wf(),
        ensures
            r == key_is_down(self@, Key::LeftShift),
    {
        self.is_down(Key::LeftShift)
    }

    /// Check if the right shift key is pressed.
    pub fn right_shift(&self) -> (r: bool)
        requires
            self.wf(),
        ensures
            r == key_is_down(self@, Key::RightShift),
    {
        self.is_down(Key::RightShift)
    }

    /// Check if either shift key is pressed.
    pub fn shift(&self) -> (r: bool)
        requires
            self.wf(),
        ensures
            r == (key_is_down(self@, Key::LeftShift) || key_is_down(
                self@,
                Key::RightShift,
            )),
    {
        self.left_shift() || self.right_shift()
    }

    /// Check if the left control key is pressed.
    pub fn left_control(&self) -> (r: bool)
        requires
            self.wf(),
        ensures
            r == key_is_down(self@, Key::LeftControl),
    {
        self.is_down(Key::LeftControl)
    }

    /// Check if the right control key is pressed.
    pub fn right_control(&self) -> (r: bool)
        requires
            self.wf(),
        ensures
            r == key_is_down(self@, Key::RightControl),
    {
        self.is_down(Key::RightControl)
    }

    /// Check if either control key is pressed.
    pub fn control(&self) -> (r: bool)
        requires
            self.wf(),
        ensures
            r == (key_is_down(self@, Key::LeftControl) || key_is_down(
                self@,
                Key::RightControl,
            )),
    {
        self.left_control() || self.right_control()
    }

    /// Check if the left alt key is pressed.
    pub fn left_alt(&self) -> (r: bool)
        requires
            self.wf(),
        ensures
            r == key_is_down(self@, Key::LeftAlt),
    {
        self.is_down(Key::LeftAlt)
    }

    /// Check if the right alt key is pressed.
    pub fn right_alt(&self) -> (r: bool)
        requires
            self.wf(),
        ensures
            r == key_is_down(self@, Key::RightAlt),
    {
        self.is_down(Key::RightAlt)
    }

    /// Check if either alt key is pressed.
    pub fn alt(&self) -> (r: bool)
        requires
            self.wf(),
        ensures
            r == (key_is_down(self@, Key::LeftAlt) || key_is_down(
                self@,
                Key::RightAlt,
            )),
    {
        self.left_alt() || self.right_alt()
    }
}

} // verus!
