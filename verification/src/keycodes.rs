//! The keycode alphabet of the firmware and its wire encoding.

use vstd::prelude::*;

verus! {

/// One keycode per key semantic the keyboard can report.  Each keycode
/// has a fixed one-byte identity on the wire, given by [`usage_id`]: the
/// usage ID the HID boot-keyboard convention assigns to that key, so a
/// compliant host interprets reports without a custom driver.  The eight
/// `LCtrl`..`RGui` keycodes are modifiers: each owns one bit of the
/// report's modifier mask (see [`modifier_bit`]) and never occupies a
/// keycode slot.  `No` is the empty sentinel, encoded as zero.
#[derive(Clone, Copy, PartialEq, Eq, Structural, Debug)]
pub enum Keycode {
    No,
    A,
    B,
    C,
    D,
    E,
    F,
    G,
    H,
    I,
    J,
    K,
    L,
    M,
    N,
    O,
    P,
    Q,
    R,
    S,
    T,
    U,
    V,
    W,
    X,
    Y,
    Z,
    N1,
    N2,
    N3,
    N4,
    N5,
    N6,
    N7,
    N8,
    N9,
    N0,
    Enter,
    Escape,
    Backspace,
    Tab,
    Space,
    Minus,
    Equal,
    LeftBracket,
    RightBracket,
    Backslash,
    NonUsHash,
    Semicolon,
    Apostrofe,
    Grave,
    Comma,
    Dot,
    Slash,
    CapsLock,
    F1,
    F2,
    F3,
    F4,
    F5,
    F6,
    F7,
    F8,
    F9,
    F10,
    F11,
    F12,
    PrintScreen,
    ScrollLock,
    Pause,
    Insert,
    Home,
    PageUp,
    Delete,
    End,
    PageDown,
    Right,
    Left,
    Down,
    Up,
    NumLock,
    KpSlash,
    KpAsterisk,
    KpMinus,
    KpPlus,
    KpEnter,
    Kp1,
    Kp2,
    Kp3,
    Kp4,
    Kp5,
    Kp6,
    Kp7,
    Kp8,
    Kp9,
    Kp0,
    KpDot,
    NonUsBackslash,
    Application,
    Power,
    KpEqual,
    F13,
    F14,
    F15,
    F16,
    F17,
    F18,
    F19,
    F20,
    F21,
    F22,
    F23,
    F24,
    Execute,
    Help,
    Menu,
    Select,
    Stop,
    Again,
    Undo,
    Cut,
    Copy,
    Paste,
    Find,
    Mute,
    VolumeUp,
    VolumeDown,
    LockingCapsLock,
    LockingNumLock,
    LockingScrollLock,
    KpComma,
    KpEqualSign,
    International1,
    International2,
    International3,
    International4,
    International5,
    International6,
    International7,
    International8,
    International9,
    Lang1,
    Lang2,
    Lang3,
    Lang4,
    Lang5,
    Lang6,
    Lang7,
    Lang8,
    Lang9,
    AlternateErase,
    SysReq,
    Cancel,
    Clear,
    Prior,
    Return,
    Separator,
    Out,
    Oper,
    ClearAgain,
    CrSel,
    ExSel,
    LCtrl,
    LShift,
    LAlt,
    LGui,
    RCtrl,
    RShift,
    RAlt,
    RGui,
}

/// The one-byte HID usage ID under which a keycode travels on the wire.
pub open spec fn usage_id(k: Keycode) -> u8 {
    match k {
        Keycode::No => 0x00,
        Keycode::A => 0x04,
        Keycode::B => 0x05,
        Keycode::C => 0x06,
        Keycode::D => 0x07,
        Keycode::E => 0x08,
        Keycode::F => 0x09,
        Keycode::G => 0x0A,
        Keycode::H => 0x0B,
        Keycode::I => 0x0C,
        Keycode::J => 0x0D,
        Keycode::K => 0x0E,
        Keycode::L => 0x0F,
        Keycode::M => 0x10,
        Keycode::N => 0x11,
        Keycode::O => 0x12,
        Keycode::P => 0x13,
        Keycode::Q => 0x14,
        Keycode::R => 0x15,
        Keycode::S => 0x16,
        Keycode::T => 0x17,
        Keycode::U => 0x18,
        Keycode::V => 0x19,
        Keycode::W => 0x1A,
        Keycode::X => 0x1B,
        Keycode::Y => 0x1C,
        Keycode::Z => 0x1D,
        Keycode::N1 => 0x1E,
        Keycode::N2 => 0x1F,
        Keycode::N3 => 0x20,
        Keycode::N4 => 0x21,
        Keycode::N5 => 0x22,
        Keycode::N6 => 0x23,
        Keycode::N7 => 0x24,
        Keycode::N8 => 0x25,
        Keycode::N9 => 0x26,
        Keycode::N0 => 0x27,
        Keycode::Enter => 0x28,
        Keycode::Escape => 0x29,
        Keycode::Backspace => 0x2A,
        Keycode::Tab => 0x2B,
        Keycode::Space => 0x2C,
        Keycode::Minus => 0x2D,
        Keycode::Equal => 0x2E,
        Keycode::LeftBracket => 0x2F,
        Keycode::RightBracket => 0x30,
        Keycode::Backslash => 0x31,
        Keycode::NonUsHash => 0x32,
        Keycode::Semicolon => 0x33,
        Keycode::Apostrofe => 0x34,
        Keycode::Grave => 0x35,
        Keycode::Comma => 0x36,
        Keycode::Dot => 0x37,
        Keycode::Slash => 0x38,
        Keycode::CapsLock => 0x39,
        Keycode::F1 => 0x3A,
        Keycode::F2 => 0x3B,
        Keycode::F3 => 0x3C,
        Keycode::F4 => 0x3D,
        Keycode::F5 => 0x3E,
        Keycode::F6 => 0x3F,
        Keycode::F7 => 0x40,
        Keycode::F8 => 0x41,
        Keycode::F9 => 0x42,
        Keycode::F10 => 0x43,
        Keycode::F11 => 0x44,
        Keycode::F12 => 0x45,
        Keycode::PrintScreen => 0x46,
        Keycode::ScrollLock => 0x47,
        Keycode::Pause => 0x48,
        Keycode::Insert => 0x49,
        Keycode::Home => 0x4A,
        Keycode::PageUp => 0x4B,
        Keycode::Delete => 0x4C,
        Keycode::End => 0x4D,
        Keycode::PageDown => 0x4E,
        Keycode::Right => 0x4F,
        Keycode::Left => 0x50,
        Keycode::Down => 0x51,
        Keycode::Up => 0x52,
        Keycode::NumLock => 0x53,
        Keycode::KpSlash => 0x54,
        Keycode::KpAsterisk => 0x55,
        Keycode::KpMinus => 0x56,
        Keycode::KpPlus => 0x57,
        Keycode::KpEnter => 0x58,
        Keycode::Kp1 => 0x59,
        Keycode::Kp2 => 0x5A,
        Keycode::Kp3 => 0x5B,
        Keycode::Kp4 => 0x5C,
        Keycode::Kp5 => 0x5D,
        Keycode::Kp6 => 0x5E,
        Keycode::Kp7 => 0x5F,
        Keycode::Kp8 => 0x60,
        Keycode::Kp9 => 0x61,
        Keycode::Kp0 => 0x62,
        Keycode::KpDot => 0x63,
        Keycode::NonUsBackslash => 0x64,
        Keycode::Application => 0x65,
        Keycode::Power => 0x66,
        Keycode::KpEqual => 0x67,
        Keycode::F13 => 0x68,
        Keycode::F14 => 0x69,
        Keycode::F15 => 0x6A,
        Keycode::F16 => 0x6B,
        Keycode::F17 => 0x6C,
        Keycode::F18 => 0x6D,
        Keycode::F19 => 0x6E,
        Keycode::F20 => 0x6F,
        Keycode::F21 => 0x70,
        Keycode::F22 => 0x71,
        Keycode::F23 => 0x72,
        Keycode::F24 => 0x73,
        Keycode::Execute => 0x74,
        Keycode::Help => 0x75,
        Keycode::Menu => 0x76,
        Keycode::Select => 0x77,
        Keycode::Stop => 0x78,
        Keycode::Again => 0x79,
        Keycode::Undo => 0x7A,
        Keycode::Cut => 0x7B,
        Keycode::Copy => 0x7C,
        Keycode::Paste => 0x7D,
        Keycode::Find => 0x7E,
        Keycode::Mute => 0x7F,
        Keycode::VolumeUp => 0x80,
        Keycode::VolumeDown => 0x81,
        Keycode::LockingCapsLock => 0x82,
        Keycode::LockingNumLock => 0x83,
        Keycode::LockingScrollLock => 0x84,
        Keycode::KpComma => 0x85,
        Keycode::KpEqualSign => 0x86,
        Keycode::International1 => 0x87,
        Keycode::International2 => 0x88,
        Keycode::International3 => 0x89,
        Keycode::International4 => 0x8A,
        Keycode::International5 => 0x8B,
        Keycode::International6 => 0x8C,
        Keycode::International7 => 0x8D,
        Keycode::International8 => 0x8E,
        Keycode::International9 => 0x8F,
        Keycode::Lang1 => 0x90,
        Keycode::Lang2 => 0x91,
        Keycode::Lang3 => 0x92,
        Keycode::Lang4 => 0x93,
        Keycode::Lang5 => 0x94,
        Keycode::Lang6 => 0x95,
        Keycode::Lang7 => 0x96,
        Keycode::Lang8 => 0x97,
        Keycode::Lang9 => 0x98,
        Keycode::AlternateErase => 0x99,
        Keycode::SysReq => 0x9A,
        Keycode::Cancel => 0x9B,
        Keycode::Clear => 0x9C,
        Keycode::Prior => 0x9D,
        Keycode::Return => 0x9E,
        Keycode::Separator => 0x9F,
        Keycode::Out => 0xA0,
        Keycode::Oper => 0xA1,
        Keycode::ClearAgain => 0xA2,
        Keycode::CrSel => 0xA3,
        Keycode::ExSel => 0xA4,
        Keycode::LCtrl => 0xE0,
        Keycode::LShift => 0xE1,
        Keycode::LAlt => 0xE2,
        Keycode::LGui => 0xE3,
        Keycode::RCtrl => 0xE4,
        Keycode::RShift => 0xE5,
        Keycode::RAlt => 0xE6,
        Keycode::RGui => 0xE7,
    }
}

/// Whether a keycode is one of the eight modifiers.
pub open spec fn spec_is_modifier(k: Keycode) -> bool {
    match k {
        Keycode::LCtrl | Keycode::LShift | Keycode::LAlt | Keycode::LGui
        | Keycode::RCtrl | Keycode::RShift | Keycode::RAlt | Keycode::RGui => true,
        _ => false,
    }
}

/// The bit a modifier keycode owns in the modifier mask; zero for every
/// keycode that is not a modifier.
pub open spec fn modifier_bit(k: Keycode) -> u8 {
    match k {
        Keycode::LCtrl => 0x01,
        Keycode::LShift => 0x02,
        Keycode::LAlt => 0x04,
        Keycode::LGui => 0x08,
        Keycode::RCtrl => 0x10,
        Keycode::RShift => 0x20,
        Keycode::RAlt => 0x40,
        Keycode::RGui => 0x80,
        _ => 0x00,
    }
}

impl Keycode {
    /// Whether this keycode is reported through the modifier mask rather
    /// than through a keycode slot.
    pub fn is_modifier(&self) -> (r: bool)
        ensures
            r == spec_is_modifier(*self),
    {
        matches!(
            *self,
            Keycode::LCtrl
                | Keycode::LShift
                | Keycode::LAlt
                | Keycode::LGui
                | Keycode::RCtrl
                | Keycode::RShift
                | Keycode::RAlt
                | Keycode::RGui
        )
    }

    /// The bit this keycode contributes to the modifier mask.
    pub fn to_modifier_bitfield(&self) -> (r: u8)
        ensures
            r == modifier_bit(*self),
    {
        match *self {
            Keycode::LCtrl => 0x01,
            Keycode::LShift => 0x02,
            Keycode::LAlt => 0x04,
            Keycode::LGui => 0x08,
            Keycode::RCtrl => 0x10,
            Keycode::RShift => 0x20,
            Keycode::RAlt => 0x40,
            Keycode::RGui => 0x80,
            _ => 0x00,
        }
    }

    /// The HID usage ID of this keycode, as written into a report slot.
    pub fn to_byte(&self) -> (r: u8)
        ensures
            r == usage_id(*self),
    {
        match *self {
            Keycode::No => 0x00,
            Keycode::A => 0x04,
            Keycode::B => 0x05,
            Keycode::C => 0x06,
            Keycode::D => 0x07,
            Keycode::E => 0x08,
            Keycode::F => 0x09,
            Keycode::G => 0x0A,
            Keycode::H => 0x0B,
            Keycode::I => 0x0C,
            Keycode::J => 0x0D,
            Keycode::K => 0x0E,
            Keycode::L => 0x0F,
            Keycode::M => 0x10,
            Keycode::N => 0x11,
            Keycode::O => 0x12,
            Keycode::P => 0x13,
            Keycode::Q => 0x14,
            Keycode::R => 0x15,
            Keycode::S => 0x16,
            Keycode::T => 0x17,
            Keycode::U => 0x18,
            Keycode::V => 0x19,
            Keycode::W => 0x1A,
            Keycode::X => 0x1B,
            Keycode::Y => 0x1C,
            Keycode::Z => 0x1D,
            Keycode::N1 => 0x1E,
            Keycode::N2 => 0x1F,
            Keycode::N3 => 0x20,
            Keycode::N4 => 0x21,
            Keycode::N5 => 0x22,
            Keycode::N6 => 0x23,
            Keycode::N7 => 0x24,
            Keycode::N8 => 0x25,
            Keycode::N9 => 0x26,
            Keycode::N0 => 0x27,
            Keycode::Enter => 0x28,
            Keycode::Escape => 0x29,
            Keycode::Backspace => 0x2A,
            Keycode::Tab => 0x2B,
            Keycode::Space => 0x2C,
            Keycode::Minus => 0x2D,
            Keycode::Equal => 0x2E,
            Keycode::LeftBracket => 0x2F,
            Keycode::RightBracket => 0x30,
            Keycode::Backslash => 0x31,
            Keycode::NonUsHash => 0x32,
            Keycode::Semicolon => 0x33,
            Keycode::Apostrofe => 0x34,
            Keycode::Grave => 0x35,
            Keycode::Comma => 0x36,
            Keycode::Dot => 0x37,
            Keycode::Slash => 0x38,
            Keycode::CapsLock => 0x39,
            Keycode::F1 => 0x3A,
            Keycode::F2 => 0x3B,
            Keycode::F3 => 0x3C,
            Keycode::F4 => 0x3D,
            Keycode::F5 => 0x3E,
            Keycode::F6 => 0x3F,
            Keycode::F7 => 0x40,
            Keycode::F8 => 0x41,
            Keycode::F9 => 0x42,
            Keycode::F10 => 0x43,
            Keycode::F11 => 0x44,
            Keycode::F12 => 0x45,
            Keycode::PrintScreen => 0x46,
            Keycode::ScrollLock => 0x47,
            Keycode::Pause => 0x48,
            Keycode::Insert => 0x49,
            Keycode::Home => 0x4A,
            Keycode::PageUp => 0x4B,
            Keycode::Delete => 0x4C,
            Keycode::End => 0x4D,
            Keycode::PageDown => 0x4E,
            Keycode::Right => 0x4F,
            Keycode::Left => 0x50,
            Keycode::Down => 0x51,
            Keycode::Up => 0x52,
            Keycode::NumLock => 0x53,
            Keycode::KpSlash => 0x54,
            Keycode::KpAsterisk => 0x55,
            Keycode::KpMinus => 0x56,
            Keycode::KpPlus => 0x57,
            Keycode::KpEnter => 0x58,
            Keycode::Kp1 => 0x59,
            Keycode::Kp2 => 0x5A,
            Keycode::Kp3 => 0x5B,
            Keycode::Kp4 => 0x5C,
            Keycode::Kp5 => 0x5D,
            Keycode::Kp6 => 0x5E,
            Keycode::Kp7 => 0x5F,
            Keycode::Kp8 => 0x60,
            Keycode::Kp9 => 0x61,
            Keycode::Kp0 => 0x62,
            Keycode::KpDot => 0x63,
            Keycode::NonUsBackslash => 0x64,
            Keycode::Application => 0x65,
            Keycode::Power => 0x66,
            Keycode::KpEqual => 0x67,
            Keycode::F13 => 0x68,
            Keycode::F14 => 0x69,
            Keycode::F15 => 0x6A,
            Keycode::F16 => 0x6B,
            Keycode::F17 => 0x6C,
            Keycode::F18 => 0x6D,
            Keycode::F19 => 0x6E,
            Keycode::F20 => 0x6F,
            Keycode::F21 => 0x70,
            Keycode::F22 => 0x71,
            Keycode::F23 => 0x72,
            Keycode::F24 => 0x73,
            Keycode::Execute => 0x74,
            Keycode::Help => 0x75,
            Keycode::Menu => 0x76,
            Keycode::Select => 0x77,
            Keycode::Stop => 0x78,
            Keycode::Again => 0x79,
            Keycode::Undo => 0x7A,
            Keycode::Cut => 0x7B,
            Keycode::Copy => 0x7C,
            Keycode::Paste => 0x7D,
            Keycode::Find => 0x7E,
            Keycode::Mute => 0x7F,
            Keycode::VolumeUp => 0x80,
            Keycode::VolumeDown => 0x81,
            Keycode::LockingCapsLock => 0x82,
            Keycode::LockingNumLock => 0x83,
            Keycode::LockingScrollLock => 0x84,
            Keycode::KpComma => 0x85,
            Keycode::KpEqualSign => 0x86,
            Keycode::International1 => 0x87,
            Keycode::International2 => 0x88,
            Keycode::International3 => 0x89,
            Keycode::International4 => 0x8A,
            Keycode::International5 => 0x8B,
            Keycode::International6 => 0x8C,
            Keycode::International7 => 0x8D,
            Keycode::International8 => 0x8E,
            Keycode::International9 => 0x8F,
            Keycode::Lang1 => 0x90,
            Keycode::Lang2 => 0x91,
            Keycode::Lang3 => 0x92,
            Keycode::Lang4 => 0x93,
            Keycode::Lang5 => 0x94,
            Keycode::Lang6 => 0x95,
            Keycode::Lang7 => 0x96,
            Keycode::Lang8 => 0x97,
            Keycode::Lang9 => 0x98,
            Keycode::AlternateErase => 0x99,
            Keycode::SysReq => 0x9A,
            Keycode::Cancel => 0x9B,
            Keycode::Clear => 0x9C,
            Keycode::Prior => 0x9D,
            Keycode::Return => 0x9E,
            Keycode::Separator => 0x9F,
            Keycode::Out => 0xA0,
            Keycode::Oper => 0xA1,
            Keycode::ClearAgain => 0xA2,
            Keycode::CrSel => 0xA3,
            Keycode::ExSel => 0xA4,
            Keycode::LCtrl => 0xE0,
            Keycode::LShift => 0xE1,
            Keycode::LAlt => 0xE2,
            Keycode::LGui => 0xE3,
            Keycode::RCtrl => 0xE4,
            Keycode::RShift => 0xE5,
            Keycode::RAlt => 0xE6,
            Keycode::RGui => 0xE7,
        }
    }
}

} // verus!
