//! HID usage codes for the boot keyboard protocol.

use vstd::prelude::*;

verus! {

/// A key code from HID usage page 0x07 (0x00-0xA4), one of the eight
/// modifiers (0xE0-0xE7), or an unofficial media code (0xE8-0xFB).
/// Names follow the american QWERTY layout.
#[allow(missing_docs)]
#[derive(Debug, Copy, Clone, PartialEq, Eq, Structural)]
pub enum KeyCode {
    No,
    ErrorRollOver,
    PostFail,
    ErrorUndefined,
    A,
    B,
    C,
    D,
    E,
    F,
    G,
    H,
    I,
    J,
    K,
    L,
    M,
    N,
    O,
    P,
    Q,
    R,
    S,
    T,
    U,
    V,
    W,
    X,
    Y,
    Z,
    Kb1,
    Kb2,
    Kb3,
    Kb4,
    Kb5,
    Kb6,
    Kb7,
    Kb8,
    Kb9,
    Kb0,
    Enter,
    Escape,
    BSpace,
    Tab,
    Space,
    Minus,
    Equal,
    LBracket,
    RBracket,
    Bslash,
    NonUsHash,
    SColon,
    Quote,
    Grave,
    Comma,
    Dot,
    Slash,
    CapsLock,
    F1,
    F2,
    F3,
    F4,
    F5,
    F6,
    F7,
    F8,
    F9,
    F10,
    F11,
    F12,
    PScreen,
    ScrollLock,
    Pause,
    Insert,
    Home,
    PgUp,
    Delete,
    End,
    PgDown,
    Right,
    Left,
    Down,
    Up,
    NumLock,
    KpSlash,
    KpAsterisk,
    KpMinus,
    KpPlus,
    KpEnter,
    Kp1,
    Kp2,
    Kp3,
    Kp4,
    Kp5,
    Kp6,
    Kp7,
    Kp8,
    Kp9,
    Kp0,
    KpDot,
    NonUsBslash,
    Application,
    Power,
    KpEqual,
    F13,
    F14,
    F15,
    F16,
    F17,
    F18,
    F19,
    F20,
    F21,
    F22,
    F23,
    F24,
    Execute,
    Help,
    Menu,
    Select,
    Stop,
    Again,
    Undo,
    Cut,
    Copy,
    Paste,
    Find,
    Mute,
    VolUp,
    VolDown,
    LockingCapsLock,
    LockingNumLock,
    LockingScrollLock,
    KpComma,
    KpEqualSign,
    Intl1,
    Intl2,
    Intl3,
    Intl4,
    Intl5,
    Intl6,
    Intl7,
    Intl8,
    Intl9,
    Lang1,
    Lang2,
    Lang3,
    Lang4,
    Lang5,
    Lang6,
    Lang7,
    Lang8,
    Lang9,
    AltErase,
    SysReq,
    Cancel,
    Clear,
    Prior,
    Return,
    Separator,
    Out,
    Oper,
    ClearAgain,
    CrSel,
    ExSel,
    LCtrl,
    LShift,
    LAlt,
    LGui,
    RCtrl,
    RShift,
    RAlt,
    RGui,
    MediaPlayPause,
    MediaStopCD,
    MediaPreviousSong,
    MediaNextSong,
    MediaEjectCD,
    MediaVolUp,
    MediaVolDown,
    MediaMute,
    MediaWWW,
    MediaBack,
    MediaForward,
    MediaStop,
    MediaFind,
    MediaScrollUp,
    MediaScrollDown,
    MediaEdit,
    MediaSleep,
    MediaCoffee,
    MediaRefresh,
    MediaCalc,
}

impl KeyCode {
    /// The HID usage value of this code: its representation on the wire.
    pub open spec fn spec_code(self) -> u8 {
        match self {
            KeyCode::No => 0x00,
            KeyCode::ErrorRollOver => 0x01,
            KeyCode::PostFail => 0x02,
            KeyCode::ErrorUndefined => 0x03,
            KeyCode::A => 0x04,
            KeyCode::B => 0x05,
            KeyCode::C => 0x06,
            KeyCode::D => 0x07,
            KeyCode::E => 0x08,
            KeyCode::F => 0x09,
            KeyCode::G => 0x0A,
            KeyCode::H => 0x0B,
            KeyCode::I => 0x0C,
            KeyCode::J => 0x0D,
            KeyCode::K => 0x0E,
            KeyCode::L => 0x0F,
            KeyCode::M => 0x10,
            KeyCode::N => 0x11,
            KeyCode::O => 0x12,
            KeyCode::P => 0x13,
            KeyCode::Q => 0x14,
            KeyCode::R => 0x15,
            KeyCode::S => 0x16,
            KeyCode::T => 0x17,
            KeyCode::U => 0x18,
            KeyCode::V => 0x19,
            KeyCode::W => 0x1A,
            KeyCode::X => 0x1B,
            KeyCode::Y => 0x1C,
            KeyCode::Z => 0x1D,
            KeyCode::Kb1 => 0x1E,
            KeyCode::Kb2 => 0x1F,
            KeyCode::Kb3 => 0x20,
            KeyCode::Kb4 => 0x21,
            KeyCode::Kb5 => 0x22,
            KeyCode::Kb6 => 0x23,
            KeyCode::Kb7 => 0x24,
            KeyCode::Kb8 => 0x25,
            KeyCode::Kb9 => 0x26,
            KeyCode::Kb0 => 0x27,
            KeyCode::Enter => 0x28,
            KeyCode::Escape => 0x29,
            KeyCode::BSpace => 0x2A,
            KeyCode::Tab => 0x2B,
            KeyCode::Space => 0x2C,
            KeyCode::Minus => 0x2D,
            KeyCode::Equal => 0x2E,
            KeyCode::LBracket => 0x2F,
            KeyCode::RBracket => 0x30,
            KeyCode::Bslash => 0x31,
            KeyCode::NonUsHash => 0x32,
            KeyCode::SColon => 0x33,
            KeyCode::Quote => 0x34,
            KeyCode::Grave => 0x35,
            KeyCode::Comma => 0x36,
            KeyCode::Dot => 0x37,
            KeyCode::Slash => 0x38,
            KeyCode::CapsLock => 0x39,
            KeyCode::F1 => 0x3A,
            KeyCode::F2 => 0x3B,
            KeyCode::F3 => 0x3C,
            KeyCode::F4 => 0x3D,
            KeyCode::F5 => 0x3E,
            KeyCode::F6 => 0x3F,
            KeyCode::F7 => 0x40,
            KeyCode::F8 => 0x41,
            KeyCode::F9 => 0x42,
            KeyCode::F10 => 0x43,
            KeyCode::F11 => 0x44,
            KeyCode::F12 => 0x45,
            KeyCode::PScreen => 0x46,
            KeyCode::ScrollLock => 0x47,
            KeyCode::Pause => 0x48,
            KeyCode::Insert => 0x49,
            KeyCode::Home => 0x4A,
            KeyCode::PgUp => 0x4B,
            KeyCode::Delete => 0x4C,
            KeyCode::End => 0x4D,
            KeyCode::PgDown => 0x4E,
            KeyCode::Right => 0x4F,
            KeyCode::Left => 0x50,
            KeyCode::Down => 0x51,
            KeyCode::Up => 0x52,
            KeyCode::NumLock => 0x53,
            KeyCode::KpSlash => 0x54,
            KeyCode::KpAsterisk => 0x55,
            KeyCode::KpMinus => 0x56,
            KeyCode::KpPlus => 0x57,
            KeyCode::KpEnter => 0x58,
            KeyCode::Kp1 => 0x59,
            KeyCode::Kp2 => 0x5A,
            KeyCode::Kp3 => 0x5B,
            KeyCode::Kp4 => 0x5C,
            KeyCode::Kp5 => 0x5D,
            KeyCode::Kp6 => 0x5E,
            KeyCode::Kp7 => 0x5F,
            KeyCode::Kp8 => 0x60,
            KeyCode::Kp9 => 0x61,
            KeyCode::Kp0 => 0x62,
            KeyCode::KpDot => 0x63,
            KeyCode::NonUsBslash => 0x64,
            KeyCode::Application => 0x65,
            KeyCode::Power => 0x66,
            KeyCode::KpEqual => 0x67,
            KeyCode::F13 => 0x68,
            KeyCode::F14 => 0x69,
            KeyCode::F15 => 0x6A,
            KeyCode::F16 => 0x6B,
            KeyCode::F17 => 0x6C,
            KeyCode::F18 => 0x6D,
            KeyCode::F19 => 0x6E,
            KeyCode::F20 => 0x6F,
            KeyCode::F21 => 0x70,
            KeyCode::F22 => 0x71,
            KeyCode::F23 => 0x72,
            KeyCode::F24 => 0x73,
            KeyCode::Execute => 0x74,
            KeyCode::Help => 0x75,
            KeyCode::Menu => 0x76,
            KeyCode::Select => 0x77,
            KeyCode::Stop => 0x78,
            KeyCode::Again => 0x79,
            KeyCode::Undo => 0x7A,
            KeyCode::Cut => 0x7B,
            KeyCode::Copy => 0x7C,
            KeyCode::Paste => 0x7D,
            KeyCode::Find => 0x7E,
            KeyCode::Mute => 0x7F,
            KeyCode::VolUp => 0x80,
            KeyCode::VolDown => 0x81,
            KeyCode::LockingCapsLock => 0x82,
            KeyCode::LockingNumLock => 0x83,
            KeyCode::LockingScrollLock => 0x84,
            KeyCode::KpComma => 0x85,
            KeyCode::KpEqualSign => 0x86,
            KeyCode::Intl1 => 0x87,
            KeyCode::Intl2 => 0x88,
            KeyCode::Intl3 => 0x89,
            KeyCode::Intl4 => 0x8A,
            KeyCode::Intl5 => 0x8B,
            KeyCode::Intl6 => 0x8C,
            KeyCode::Intl7 => 0x8D,
            KeyCode::Intl8 => 0x8E,
            KeyCode::Intl9 => 0x8F,
            KeyCode::Lang1 => 0x90,
            KeyCode::Lang2 => 0x91,
            KeyCode::Lang3 => 0x92,
            KeyCode::Lang4 => 0x93,
            KeyCode::Lang5 => 0x94,
            KeyCode::Lang6 => 0x95,
            KeyCode::Lang7 => 0x96,
            KeyCode::Lang8 => 0x97,
            KeyCode::Lang9 => 0x98,
            KeyCode::AltErase => 0x99,
            KeyCode::SysReq => 0x9A,
            KeyCode::Cancel => 0x9B,
            KeyCode::Clear => 0x9C,
            KeyCode::Prior => 0x9D,
            KeyCode::Return => 0x9E,
            KeyCode::Separator => 0x9F,
            KeyCode::Out => 0xA0,
            KeyCode::Oper => 0xA1,
            KeyCode::ClearAgain => 0xA2,
            KeyCode::CrSel => 0xA3,
            KeyCode::ExSel => 0xA4,
            KeyCode::LCtrl => 0xE0,
            KeyCode::LShift => 0xE1,
            KeyCode::LAlt => 0xE2,
            KeyCode::LGui => 0xE3,
            KeyCode::RCtrl => 0xE4,
            KeyCode::RShift => 0xE5,
            KeyCode::RAlt => 0xE6,
            KeyCode::RGui => 0xE7,
            KeyCode::MediaPlayPause => 0xE8,
            KeyCode::MediaStopCD => 0xE9,
            KeyCode::MediaPreviousSong => 0xEA,
            KeyCode::MediaNextSong => 0xEB,
            KeyCode::MediaEjectCD => 0xEC,
            KeyCode::MediaVolUp => 0xED,
            KeyCode::MediaVolDown => 0xEE,
            KeyCode::MediaMute => 0xEF,
            KeyCode::MediaWWW => 0xF0,
            KeyCode::MediaBack => 0xF1,
            KeyCode::MediaForward => 0xF2,
            KeyCode::MediaStop => 0xF3,
            KeyCode::MediaFind => 0xF4,
            KeyCode::MediaScrollUp => 0xF5,
            KeyCode::MediaScrollDown => 0xF6,
            KeyCode::MediaEdit => 0xF7,
            KeyCode::MediaSleep => 0xF8,
            KeyCode::MediaCoffee => 0xF9,
            KeyCode::MediaRefresh => 0xFA,
            KeyCode::MediaCalc => 0xFB,
        }
    }

    /// The HID usage value of this code, as sent in a report.
    pub fn as_byte(self) -> (b: u8)
        ensures
            b == self.spec_code(),
    {
        match self {
            KeyCode::No => 0x00,
            KeyCode::ErrorRollOver => 0x01,
            KeyCode::PostFail => 0x02,
            KeyCode::ErrorUndefined => 0x03,
            KeyCode::A => 0x04,
            KeyCode::B => 0x05,
            KeyCode::C => 0x06,
            KeyCode::D => 0x07,
            KeyCode::E => 0x08,
            KeyCode::F => 0x09,
            KeyCode::G => 0x0A,
            KeyCode::H => 0x0B,
            KeyCode::I => 0x0C,
            KeyCode::J => 0x0D,
            KeyCode::K => 0x0E,
            KeyCode::L => 0x0F,
            KeyCode::M => 0x10,
            KeyCode::N => 0x11,
            KeyCode::O => 0x12,
            KeyCode::P => 0x13,
            KeyCode::Q => 0x14,
            KeyCode::R => 0x15,
            KeyCode::S => 0x16,
            KeyCode::T => 0x17,
            KeyCode::U => 0x18,
            KeyCode::V => 0x19,
            KeyCode::W => 0x1A,
            KeyCode::X => 0x1B,
            KeyCode::Y => 0x1C,
            KeyCode::Z => 0x1D,
            KeyCode::Kb1 => 0x1E,
            KeyCode::Kb2 => 0x1F,
            KeyCode::Kb3 => 0x20,
            KeyCode::Kb4 => 0x21,
            KeyCode::Kb5 => 0x22,
            KeyCode::Kb6 => 0x23,
            KeyCode::Kb7 => 0x24,
            KeyCode::Kb8 => 0x25,
            KeyCode::Kb9 => 0x26,
            KeyCode::Kb0 => 0x27,
            KeyCode::Enter => 0x28,
            KeyCode::Escape => 0x29,
            KeyCode::BSpace => 0x2A,
            KeyCode::Tab => 0x2B,
            KeyCode::Space => 0x2C,
            KeyCode::Minus => 0x2D,
            KeyCode::Equal => 0x2E,
            KeyCode::LBracket => 0x2F,
            KeyCode::RBracket => 0x30,
            KeyCode::Bslash => 0x31,
            KeyCode::NonUsHash => 0x32,
            KeyCode::SColon => 0x33,
            KeyCode::Quote => 0x34,
            KeyCode::Grave => 0x35,
            KeyCode::Comma => 0x36,
            KeyCode::Dot => 0x37,
            KeyCode::Slash => 0x38,
            KeyCode::CapsLock => 0x39,
            KeyCode::F1 => 0x3A,
            KeyCode::F2 => 0x3B,
            KeyCode::F3 => 0x3C,
            KeyCode::F4 => 0x3D,
            KeyCode::F5 => 0x3E,
            KeyCode::F6 => 0x3F,
            KeyCode::F7 => 0x40,
            KeyCode::F8 => 0x41,
            KeyCode::F9 => 0x42,
            KeyCode::F10 => 0x43,
            KeyCode::F11 => 0x44,
            KeyCode::F12 => 0x45,
            KeyCode::PScreen => 0x46,
            KeyCode::ScrollLock => 0x47,
            KeyCode::Pause => 0x48,
            KeyCode::Insert => 0x49,
            KeyCode::Home => 0x4A,
            KeyCode::PgUp => 0x4B,
            KeyCode::Delete => 0x4C,
            KeyCode::End => 0x4D,
            KeyCode::PgDown => 0x4E,
            KeyCode::Right => 0x4F,
            KeyCode::Left => 0x50,
            KeyCode::Down => 0x51,
            KeyCode::Up => 0x52,
            KeyCode::NumLock => 0x53,
            KeyCode::KpSlash => 0x54,
            KeyCode::KpAsterisk => 0x55,
            KeyCode::KpMinus => 0x56,
            KeyCode::KpPlus => 0x57,
            KeyCode::KpEnter => 0x58,
            KeyCode::Kp1 => 0x59,
            KeyCode::Kp2 => 0x5A,
            KeyCode::Kp3 => 0x5B,
            KeyCode::Kp4 => 0x5C,
            KeyCode::Kp5 => 0x5D,
            KeyCode::Kp6 => 0x5E,
            KeyCode::Kp7 => 0x5F,
            KeyCode::Kp8 => 0x60,
            KeyCode::Kp9 => 0x61,
            KeyCode::Kp0 => 0x62,
            KeyCode::KpDot => 0x63,
            KeyCode::NonUsBslash => 0x64,
            KeyCode::Application => 0x65,
            KeyCode::Power => 0x66,
            KeyCode::KpEqual => 0x67,
            KeyCode::F13 => 0x68,
            KeyCode::F14 => 0x69,
            KeyCode::F15 => 0x6A,
            KeyCode::F16 => 0x6B,
            KeyCode::F17 => 0x6C,
            KeyCode::F18 => 0x6D,
            KeyCode::F19 => 0x6E,
            KeyCode::F20 => 0x6F,
            KeyCode::F21 => 0x70,
            KeyCode::F22 => 0x71,
            KeyCode::F23 => 0x72,
            KeyCode::F24 => 0x73,
            KeyCode::Execute => 0x74,
            KeyCode::Help => 0x75,
            KeyCode::Menu => 0x76,
            KeyCode::Select => 0x77,
            KeyCode::Stop => 0x78,
            KeyCode::Again => 0x79,
            KeyCode::Undo => 0x7A,
            KeyCode::Cut => 0x7B,
            KeyCode::Copy => 0x7C,
            KeyCode::Paste => 0x7D,
            KeyCode::Find => 0x7E,
            KeyCode::Mute => 0x7F,
            KeyCode::VolUp => 0x80,
            KeyCode::VolDown => 0x81,
            KeyCode::LockingCapsLock => 0x82,
            KeyCode::LockingNumLock => 0x83,
            KeyCode::LockingScrollLock => 0x84,
            KeyCode::KpComma => 0x85,
            KeyCode::KpEqualSign => 0x86,
            KeyCode::Intl1 => 0x87,
            KeyCode::Intl2 => 0x88,
            KeyCode::Intl3 => 0x89,
            KeyCode::Intl4 => 0x8A,
            KeyCode::Intl5 => 0x8B,
            KeyCode::Intl6 => 0x8C,
            KeyCode::Intl7 => 0x8D,
            KeyCode::Intl8 => 0x8E,
            KeyCode::Intl9 => 0x8F,
            KeyCode::Lang1 => 0x90,
            KeyCode::Lang2 => 0x91,
            KeyCode::Lang3 => 0x92,
            KeyCode::Lang4 => 0x93,
            KeyCode::Lang5 => 0x94,
            KeyCode::Lang6 => 0x95,
            KeyCode::Lang7 => 0x96,
            KeyCode::Lang8 => 0x97,
            KeyCode::Lang9 => 0x98,
            KeyCode::AltErase => 0x99,
            KeyCode::SysReq => 0x9A,
            KeyCode::Cancel => 0x9B,
            KeyCode::Clear => 0x9C,
            KeyCode::Prior => 0x9D,
            KeyCode::Return => 0x9E,
            KeyCode::Separator => 0x9F,
            KeyCode::Out => 0xA0,
            KeyCode::Oper => 0xA1,
            KeyCode::ClearAgain => 0xA2,
            KeyCode::CrSel => 0xA3,
            KeyCode::ExSel => 0xA4,
            KeyCode::LCtrl => 0xE0,
            KeyCode::LShift => 0xE1,
            KeyCode::LAlt => 0xE2,
            KeyCode::LGui => 0xE3,
            KeyCode::RCtrl => 0xE4,
            KeyCode::RShift => 0xE5,
            KeyCode::RAlt => 0xE6,
            KeyCode::RGui => 0xE7,
            KeyCode::MediaPlayPause => 0xE8,
            KeyCode::MediaStopCD => 0xE9,
            KeyCode::MediaPreviousSong => 0xEA,
            KeyCode::MediaNextSong => 0xEB,
            KeyCode::MediaEjectCD => 0xEC,
            KeyCode::MediaVolUp => 0xED,
            KeyCode::MediaVolDown => 0xEE,
            KeyCode::MediaMute => 0xEF,
            KeyCode::MediaWWW => 0xF0,
            KeyCode::MediaBack => 0xF1,
            KeyCode::MediaForward => 0xF2,
            KeyCode::MediaStop => 0xF3,
            KeyCode::MediaFind => 0xF4,
            KeyCode::MediaScrollUp => 0xF5,
            KeyCode::MediaScrollDown => 0xF6,
            KeyCode::MediaEdit => 0xF7,
            KeyCode::MediaSleep => 0xF8,
            KeyCode::MediaCoffee => 0xF9,
            KeyCode::MediaRefresh => 0xFA,
            KeyCode::MediaCalc => 0xFB,
        }
    }

    /// Whether a usage value denotes a modifier (LCtrl through RGui).
    pub open spec fn spec_is_modifier_code(code: u8) -> bool {
        0xE0 <= code && code <= 0xE7
    }

    pub open spec fn spec_is_modifier(self) -> bool {
        Self::spec_is_modifier_code(self.spec_code())
    }

    /// Returns `true` if the key code corresponds to a modifier (sent
    /// separately on the USB HID report).
    pub fn is_modifier(self) -> (r: bool)
        ensures
            r == self.spec_is_modifier(),
    {
        let b = self.as_byte();
        0xE0 <= b && b <= 0xE7
    }

    /// The modifier bitfield contribution of this code: bit `i` for the
    /// modifier with usage value `0xE0 + i`, and `0` for any other code.
    pub open spec fn spec_modifier_bit(self) -> u8 {
        if self.spec_is_modifier() {
            1u8 << ((self.spec_code() - 0xE0) as u8)
        } else {
            0
        }
    }

    /// Returns the byte with the bit corresponding to the USB HID
    /// modifier bitfield set.
    pub fn as_modifier_bit(self) -> (r: u8)
        ensures
            r == self.spec_modifier_bit(),
    {
        if self.is_modifier() {
            1u8 << (self.as_byte() - 0xE0)
        } else {
            0
        }
    }

    /// The display label of this code.
    pub open spec fn spec_label(self) -> Seq<char> {
        match self {
            KeyCode::A => "A"@,
            KeyCode::B => "B"@,
            KeyCode::C => "C"@,
            KeyCode::D => "D"@,
            KeyCode::E => "E"@,
            KeyCode::F => "F"@,
            KeyCode::G => "G"@,
            KeyCode::H => "H"@,
            KeyCode::I => "I"@,
            KeyCode::J => "J"@,
            KeyCode::K => "K"@,
            KeyCode::L => "L"@,
            KeyCode::M => "M"@,
            KeyCode::N => "N"@,
            KeyCode::O => "O"@,
            KeyCode::P => "P"@,
            KeyCode::Q => "Q"@,
            KeyCode::R => "R"@,
            KeyCode::S => "S"@,
            KeyCode::T => "T"@,
            KeyCode::U => "U"@,
            KeyCode::V => "V"@,
            KeyCode::W => "W"@,
            KeyCode::X => "X"@,
            KeyCode::Y => "Y"@,
            KeyCode::Z => "Z"@,
            KeyCode::Kb1 => "1"@,
            KeyCode::Kb2 => "2"@,
            KeyCode::Kb3 => "3"@,
            KeyCode::Kb4 => "4"@,
            KeyCode::Kb5 => "5"@,
            KeyCode::Kb6 => "6"@,
            KeyCode::Kb7 => "7"@,
            KeyCode::Kb8 => "8"@,
            KeyCode::Kb9 => "9"@,
            KeyCode::Kb0 => "0"@,
            KeyCode::Enter => "↵"@,
            KeyCode::Escape => "␛"@,
            KeyCode::BSpace => "⌫"@,
            KeyCode::Tab => "⭾"@,
            KeyCode::Space => "␠"@,
            KeyCode::Minus => "-"@,
            KeyCode::Equal => "="@,
            KeyCode::LBracket => "["@,
            KeyCode::RBracket => "]"@,
            KeyCode::Bslash => "\\"@,
            KeyCode::NonUsHash => "#"@,
            KeyCode::SColon => ";"@,
            KeyCode::Quote => "'"@,
            KeyCode::Grave => "`"@,
            KeyCode::Comma => ","@,
            KeyCode::Dot => "."@,
            KeyCode::Slash => "/"@,
            KeyCode::CapsLock => "CapsLock"@,
            KeyCode::F1 => "F1"@,
            KeyCode::F2 => "F2"@,
            KeyCode::F3 => "F3"@,
            KeyCode::F4 => "F4"@,
            KeyCode::F5 => "F5"@,
            KeyCode::F6 => "F6"@,
            KeyCode::F7 => "F7"@,
            KeyCode::F8 => "F8"@,
            KeyCode::F9 => "F9"@,
            KeyCode::F10 => "F10"@,
            KeyCode::F11 => "F11"@,
            KeyCode::F12 => "F12"@,
            KeyCode::PScreen => "PScreen"@,
            KeyCode::ScrollLock => "ScrollLock"@,
            KeyCode::Pause => "Pause"@,
            KeyCode::Insert => "Insert"@,
            KeyCode::Home => "↖"@,
            KeyCode::PgUp => "⇞"@,
            KeyCode::Delete => "␡"@,
            KeyCode::End => "End"@,
            KeyCode::PgDown => "⇟"@,
            KeyCode::Right => "▶"@,
            KeyCode::Left => "◀"@,
            KeyCode::Down => "▼"@,
            KeyCode::Up => "▲"@,
            KeyCode::NumLock => "NumLock"@,
            KeyCode::KpSlash => "/"@,
            KeyCode::KpAsterisk => "*"@,
            KeyCode::KpMinus => "-"@,
            KeyCode::KpPlus => "+"@,
            KeyCode::KpEnter => "↵"@,
            KeyCode::Kp1 => "1"@,
            KeyCode::Kp2 => "2"@,
            KeyCode::Kp3 => "3"@,
            KeyCode::Kp4 => "4"@,
            KeyCode::Kp5 => "5"@,
            KeyCode::Kp6 => "6"@,
            KeyCode::Kp7 => "7"@,
            KeyCode::Kp8 => "8"@,
            KeyCode::Kp9 => "9"@,
            KeyCode::Kp0 => "0"@,
            KeyCode::KpDot => ""@,
            KeyCode::NonUsBslash => "\\"@,
            KeyCode::Application => "≣"@,
            KeyCode::KpEqual => "="@,
            KeyCode::F13 => "F13"@,
            KeyCode::F14 => "F14"@,
            KeyCode::F15 => "F15"@,
            KeyCode::F16 => "F16"@,
            KeyCode::F17 => "F17"@,
            KeyCode::F18 => "F18"@,
            KeyCode::F19 => "F19"@,
            KeyCode::F20 => "F20"@,
            KeyCode::F21 => "F21"@,
            KeyCode::F22 => "F22"@,
            KeyCode::F23 => "F23"@,
            KeyCode::F24 => "F24"@,
            KeyCode::Execute => "Execute"@,
            KeyCode::Help => "Help"@,
            KeyCode::Menu => "Menu"@,
            KeyCode::Select => "Select"@,
            KeyCode::Stop => "Stop"@,
            KeyCode::Again => "Again"@,
            KeyCode::Undo => "Undo"@,
            KeyCode::Cut => "Cut"@,
            KeyCode::Copy => "Copy"@,
            KeyCode::Paste => "Paste"@,
            KeyCode::Find => "Find"@,
            KeyCode::Mute => "🔇"@,
            KeyCode::VolUp => "🔉"@,
            KeyCode::VolDown => "🔊"@,
            KeyCode::KpComma => ","@,
            KeyCode::KpEqualSign => "="@,
            KeyCode::Intl1 => "Intl1"@,
            KeyCode::Intl2 => "Intl2"@,
            KeyCode::Intl3 => "Intl3"@,
            KeyCode::Intl4 => "Intl4"@,
            KeyCode::Intl5 => "Intl5"@,
            KeyCode::Intl6 => "Intl6"@,
            KeyCode::Intl7 => "Intl7"@,
            KeyCode::Intl8 => "Intl8"@,
            KeyCode::Intl9 => "Intl9"@,
            KeyCode::Lang1 => "Lang1"@,
            KeyCode::Lang2 => "Lang2"@,
            KeyCode::Lang3 => "Lang3"@,
            KeyCode::Lang4 => "Lang4"@,
            KeyCode::Lang5 => "Lang5"@,
            KeyCode::Lang6 => "Lang6"@,
            KeyCode::Lang7 => "Lang7"@,
            KeyCode::Lang8 => "Lang8"@,
            KeyCode::Lang9 => "Lang9"@,
            KeyCode::AltErase => "AltErase"@,
            KeyCode::SysReq => "SysReq"@,
            KeyCode::Cancel => "Cancel"@,
            KeyCode::Clear => "Clear"@,
            KeyCode::Prior => "Prior"@,
            KeyCode::Return => "Return"@,
            KeyCode::Separator => "Separator"@,
            KeyCode::Out => "Out"@,
            KeyCode::Oper => "Oper"@,
            KeyCode::ClearAgain => "ClearAgain"@,
            KeyCode::CrSel => "CrSel"@,
            KeyCode::ExSel => "ExSel"@,
            KeyCode::LCtrl => "LCtrl"@,
            KeyCode::LShift => "LShift"@,
            KeyCode::LAlt => "LAlt"@,
            KeyCode::LGui => "LGui"@,
            KeyCode::RCtrl => "RCtrl"@,
            KeyCode::RShift => "RShift"@,
            KeyCode::RAlt => "RAlt"@,
            KeyCode::RGui => "RGui"@,
            KeyCode::MediaPlayPause => "⏯"@,
            KeyCode::MediaStopCD => "⏹"@,
            KeyCode::MediaPreviousSong => "⏮"@,
            KeyCode::MediaNextSong => "⏭"@,
            KeyCode::MediaEjectCD => "⏏"@,
            KeyCode::MediaVolUp => "🔊"@,
            KeyCode::MediaVolDown => "🔉"@,
            KeyCode::MediaMute => ""@,
            KeyCode::MediaWWW => "ℹ"@,
            KeyCode::MediaBack => "⏪"@,
            KeyCode::MediaForward => "⏩"@,
            KeyCode::MediaStop => "⏹"@,
            KeyCode::MediaFind => ""@,
            KeyCode::MediaScrollUp => ""@,
            KeyCode::MediaScrollDown => ""@,
            KeyCode::MediaEdit => ""@,
            KeyCode::MediaSleep => ""@,
            KeyCode::MediaCoffee => ""@,
            KeyCode::MediaRefresh => "🔄"@,
            KeyCode::MediaCalc => ""@,
            _ => ""@,
        }
    }

    /// View this key code as a printable text.
    pub fn as_str(&self) -> (r: &str)
        ensures
            r@ == self.spec_label(),
    {
        match self {
            KeyCode::A => "A",
            KeyCode::B => "B",
            KeyCode::C => "C",
            KeyCode::D => "D",
            KeyCode::E => "E",
            KeyCode::F => "F",
            KeyCode::G => "G",
            KeyCode::H => "H",
            KeyCode::I => "I",
            KeyCode::J => "J",
            KeyCode::K => "K",
            KeyCode::L => "L",
            KeyCode::M => "M",
            KeyCode::N => "N",
            KeyCode::O => "O",
            KeyCode::P => "P",
            KeyCode::Q => "Q",
            KeyCode::R => "R",
            KeyCode::S => "S",
            KeyCode::T => "T",
            KeyCode::U => "U",
            KeyCode::V => "V",
            KeyCode::W => "W",
            KeyCode::X => "X",
            KeyCode::Y => "Y",
            KeyCode::Z => "Z",
            KeyCode::Kb1 => "1",
            KeyCode::Kb2 => "2",
            KeyCode::Kb3 => "3",
            KeyCode::Kb4 => "4",
            KeyCode::Kb5 => "5",
            KeyCode::Kb6 => "6",
            KeyCode::Kb7 => "7",
            KeyCode::Kb8 => "8",
            KeyCode::Kb9 => "9",
            KeyCode::Kb0 => "0",
            KeyCode::Enter => "↵",
            KeyCode::Escape => "␛",
            KeyCode::BSpace => "⌫",
            KeyCode::Tab => "⭾",
            KeyCode::Space => "␠",
            KeyCode::Minus => "-",
            KeyCode::Equal => "=",
            KeyCode::LBracket => "[",
            KeyCode::RBracket => "]",
            KeyCode::Bslash => "\\",
            KeyCode::NonUsHash => "#",
            KeyCode::SColon => ";",
            KeyCode::Quote => "'",
            KeyCode::Grave => "`",
            KeyCode::Comma => ",",
            KeyCode::Dot => ".",
            KeyCode::Slash => "/",
            KeyCode::CapsLock => "CapsLock",
            KeyCode::F1 => "F1",
            KeyCode::F2 => "F2",
            KeyCode::F3 => "F3",
            KeyCode::F4 => "F4",
            KeyCode::F5 => "F5",
            KeyCode::F6 => "F6",
            KeyCode::F7 => "F7",
            KeyCode::F8 => "F8",
            KeyCode::F9 => "F9",
            KeyCode::F10 => "F10",
            KeyCode::F11 => "F11",
            KeyCode::F12 => "F12",
            KeyCode::PScreen => "PScreen",
            KeyCode::ScrollLock => "ScrollLock",
            KeyCode::Pause => "Pause",
            KeyCode::Insert => "Insert",
            KeyCode::Home => "↖",
            KeyCode::PgUp => "⇞",
            KeyCode::Delete => "␡",
            KeyCode::End => "End",
            KeyCode::PgDown => "⇟",
            KeyCode::Right => "▶",
            KeyCode::Left => "◀",
            KeyCode::Down => "▼",
            KeyCode::Up => "▲",
            KeyCode::NumLock => "NumLock",
            KeyCode::KpSlash => "/",
            KeyCode::KpAsterisk => "*",
            KeyCode::KpMinus => "-",
            KeyCode::KpPlus => "+",
            KeyCode::KpEnter => "↵",
            KeyCode::Kp1 => "1",
            KeyCode::Kp2 => "2",
            KeyCode::Kp3 => "3",
            KeyCode::Kp4 => "4",
            KeyCode::Kp5 => "5",
            KeyCode::Kp6 => "6",
            KeyCode::Kp7 => "7",
            KeyCode::Kp8 => "8",
            KeyCode::Kp9 => "9",
            KeyCode::Kp0 => "0",
            KeyCode::KpDot => "",
            KeyCode::NonUsBslash => "\\",
            KeyCode::Application => "≣",
            KeyCode::KpEqual => "=",
            KeyCode::F13 => "F13",
            KeyCode::F14 => "F14",
            KeyCode::F15 => "F15",
            KeyCode::F16 => "F16",
            KeyCode::F17 => "F17",
            KeyCode::F18 => "F18",
            KeyCode::F19 => "F19",
            KeyCode::F20 => "F20",
            KeyCode::F21 => "F21",
            KeyCode::F22 => "F22",
            KeyCode::F23 => "F23",
            KeyCode::F24 => "F24",
            KeyCode::Execute => "Execute",
            KeyCode::Help => "Help",
            KeyCode::Menu => "Menu",
            KeyCode::Select => "Select",
            KeyCode::Stop => "Stop",
            KeyCode::Again => "Again",
            KeyCode::Undo => "Undo",
            KeyCode::Cut => "Cut",
            KeyCode::Copy => "Copy",
            KeyCode::Paste => "Paste",
            KeyCode::Find => "Find",
            KeyCode::Mute => "🔇",
            KeyCode::VolUp => "🔉",
            KeyCode::VolDown => "🔊",
            KeyCode::KpComma => ",",
            KeyCode::KpEqualSign => "=",
            KeyCode::Intl1 => "Intl1",
            KeyCode::Intl2 => "Intl2",
            KeyCode::Intl3 => "Intl3",
            KeyCode::Intl4 => "Intl4",
            KeyCode::Intl5 => "Intl5",
            KeyCode::Intl6 => "Intl6",
            KeyCode::Intl7 => "Intl7",
            KeyCode::Intl8 => "Intl8",
            KeyCode::Intl9 => "Intl9",
            KeyCode::Lang1 => "Lang1",
            KeyCode::Lang2 => "Lang2",
            KeyCode::Lang3 => "Lang3",
            KeyCode::Lang4 => "Lang4",
            KeyCode::Lang5 => "Lang5",
            KeyCode::Lang6 => "Lang6",
            KeyCode::Lang7 => "Lang7",
            KeyCode::Lang8 => "Lang8",
            KeyCode::Lang9 => "Lang9",
            KeyCode::AltErase => "AltErase",
            KeyCode::SysReq => "SysReq",
            KeyCode::Cancel => "Cancel",
            KeyCode::Clear => "Clear",
            KeyCode::Prior => "Prior",
            KeyCode::Return => "Return",
            KeyCode::Separator => "Separator",
            KeyCode::Out => "Out",
            KeyCode::Oper => "Oper",
            KeyCode::ClearAgain => "ClearAgain",
            KeyCode::CrSel => "CrSel",
            KeyCode::ExSel => "ExSel",
            KeyCode::LCtrl => "LCtrl",
            KeyCode::LShift => "LShift",
            KeyCode::LAlt => "LAlt",
            KeyCode::LGui => "LGui",
            KeyCode::RCtrl => "RCtrl",
            KeyCode::RShift => "RShift",
            KeyCode::RAlt => "RAlt",
            KeyCode::RGui => "RGui",
            KeyCode::MediaPlayPause => "⏯",
            KeyCode::MediaStopCD => "⏹",
            KeyCode::MediaPreviousSong => "⏮",
            KeyCode::MediaNextSong => "⏭",
            KeyCode::MediaEjectCD => "⏏",
            KeyCode::MediaVolUp => "🔊",
            KeyCode::MediaVolDown => "🔉",
            KeyCode::MediaMute => "",
            KeyCode::MediaWWW => "ℹ",
            KeyCode::MediaBack => "⏪",
            KeyCode::MediaForward => "⏩",
            KeyCode::MediaStop => "⏹",
            KeyCode::MediaFind => "",
            KeyCode::MediaScrollUp => "",
            KeyCode::MediaScrollDown => "",
            KeyCode::MediaEdit => "",
            KeyCode::MediaSleep => "",
            KeyCode::MediaCoffee => "",
            KeyCode::MediaRefresh => "🔄",
            KeyCode::MediaCalc => "",
            _ => "",
        }
    }
}

} // verus!
