//! The keys of a keyboard and their codes.

use vstd::prelude::*;

verus! {

/// A key of a keyboard. Each key has a code of its own; the keys are declared,
/// and therefore ordered, by rising code.
#[derive(Clone, Copy, Debug, PartialEq, Eq, PartialOrd, Ord, Hash, Structural)]
pub enum Key {
    Unknown,
    Backspace,
    Tab,
    Return,
    Escape,
    Space,
    Exclaim,
    Quotedbl,
    Hash,
    Dollar,
    Percent,
    Ampersand,
    Quote,
    LeftParen,
    RightParen,
    Asterisk,
    Plus,
    Comma,
    Minus,
    Period,
    Slash,
    D0,
    D1,
    D2,
    D3,
    D4,
    D5,
    D6,
    D7,
    D8,
    D9,
    Colon,
    Semicolon,
    Less,
    Equals,
    Greater,
    Question,
    At,
    LeftBracket,
    Backslash,
    RightBracket,
    Caret,
    Underscore,
    Backquote,
    A,
    B,
    C,
    D,
    E,
    F,
    G,
    H,
    I,
    J,
    K,
    L,
    M,
    N,
    O,
    P,
    Q,
    R,
    S,
    T,
    U,
    V,
    W,
    X,
    Y,
    Z,
    Delete,
    CapsLock,
    F1,
    F2,
    F3,
    F4,
    F5,
    F6,
    F7,
    F8,
    F9,
    F10,
    F11,
    F12,
    PrintScreen,
    ScrollLock,
    Pause,
    Insert,
    Home,
    PageUp,
    End,
    PageDown,
    Right,
    Left,
    Down,
    Up,
    NumLockClear,
    NumPadDivide,
    NumPadMultiply,
    NumPadMinus,
    NumPadPlus,
    NumPadEnter,
    NumPad1,
    NumPad2,
    NumPad3,
    NumPad4,
    NumPad5,
    NumPad6,
    NumPad7,
    NumPad8,
    NumPad9,
    NumPad0,
    NumPadPeriod,
    Application,
    Power,
    NumPadEquals,
    F13,
    F14,
    F15,
    F16,
    F17,
    F18,
    F19,
    F20,
    F21,
    F22,
    F23,
    F24,
    Execute,
    Help,
    Menu,
    Select,
    Stop,
    Again,
    Undo,
    Cut,
    Copy,
    Paste,
    Find,
    Mute,
    VolumeUp,
    VolumeDown,
    NumPadComma,
    NumPadEqualsAS400,
    AltErase,
    Sysreq,
    Cancel,
    Clear,
    Prior,
    Return2,
    Separator,
    Out,
    Oper,
    ClearAgain,
    CrSel,
    ExSel,
    NumPad00,
    NumPad000,
    ThousandsSeparator,
    DecimalSeparator,
    CurrencyUnit,
    CurrencySubUnit,
    NumPadLeftParen,
    NumPadRightParen,
    NumPadLeftBrace,
    NumPadRightBrace,
    NumPadTab,
    NumPadBackspace,
    NumPadA,
    NumPadB,
    NumPadC,
    NumPadD,
    NumPadE,
    NumPadF,
    NumPadXor,
    NumPadPower,
    NumPadPercent,
    NumPadLess,
    NumPadGreater,
    NumPadAmpersand,
    NumPadDblAmpersand,
    NumPadVerticalBar,
    NumPadDblVerticalBar,
    NumPadColon,
    NumPadHash,
    NumPadSpace,
    NumPadAt,
    NumPadExclam,
    NumPadMemStore,
    NumPadMemRecall,
    NumPadMemClear,
    NumPadMemAdd,
    NumPadMemSubtract,
    NumPadMemMultiply,
    NumPadMemDivide,
    NumPadPlusMinus,
    NumPadClear,
    NumPadClearEntry,
    NumPadBinary,
    NumPadOctal,
    NumPadDecimal,
    NumPadHexadecimal,
    LCtrl,
    LShift,
    LAlt,
    LGui,
    RCtrl,
    RShift,
    RAlt,
    RGui,
    Mode,
    AudioNext,
    AudioPrev,
    AudioStop,
    AudioPlay,
    AudioMute,
    MediaSelect,
    Www,
    Mail,
    Calculator,
    Computer,
    AcSearch,
    AcHome,
    AcBack,
    AcForward,
    AcStop,
    AcRefresh,
    AcBookmarks,
    BrightnessDown,
    BrightnessUp,
    DisplaySwitch,
    KbdIllumToggle,
    KbdIllumDown,
    KbdIllumUp,
    Eject,
    Sleep,
}

impl Key {
    /// The code of the key.
    pub open spec fn spec_code(self) -> int {
        match self {
            Key::Unknown => 0x00,
            Key::Backspace => 0x08,
            Key::Tab => 0x09,
            Key::Return => 0x0D,
            Key::Escape => 0x1B,
            Key::Space => 0x20,
            Key::Exclaim => 0x21,
            Key::Quotedbl => 0x22,
            Key::Hash => 0x23,
            Key::Dollar => 0x24,
            Key::Percent => 0x25,
            Key::Ampersand => 0x26,
            Key::Quote => 0x27,
            Key::LeftParen => 0x28,
            Key::RightParen => 0x29,
            Key::Asterisk => 0x2A,
            Key::Plus => 0x2B,
            Key::Comma => 0x2C,
            Key::Minus => 0x2D,
            Key::Period => 0x2E,
            Key::Slash => 0x2F,
            Key::D0 => 0x30,
            Key::D1 => 0x31,
            Key::D2 => 0x32,
            Key::D3 => 0x33,
            Key::D4 => 0x34,
            Key::D5 => 0x35,
            Key::D6 => 0x36,
            Key::D7 => 0x37,
            Key::D8 => 0x38,
            Key::D9 => 0x39,
            Key::Colon => 0x3A,
            Key::Semicolon => 0x3B,
            Key::Less => 0x3C,
            Key::Equals => 0x3D,
            Key::Greater => 0x3E,
            Key::Question => 0x3F,
            Key::At => 0x40,
            Key::LeftBracket => 0x5B,
            Key::Backslash => 0x5C,
            Key::RightBracket => 0x5D,
            Key::Caret => 0x5E,
            Key::Underscore => 0x5F,
            Key::Backquote => 0x60,
            Key::A => 0x61,
            Key::B => 0x62,
            Key::C => 0x63,
            Key::D => 0x64,
            Key::E => 0x65,
            Key::F => 0x66,
            Key::G => 0x67,
            Key::H => 0x68,
            Key::I => 0x69,
            Key::J => 0x6A,
            Key::K => 0x6B,
            Key::L => 0x6C,
            Key::M => 0x6D,
            Key::N => 0x6E,
            Key::O => 0x6F,
            Key::P => 0x70,
            Key::Q => 0x71,
            Key::R => 0x72,
            Key::S => 0x73,
            Key::T => 0x74,
            Key::U => 0x75,
            Key::V => 0x76,
            Key::W => 0x77,
            Key::X => 0x78,
            Key::Y => 0x79,
            Key::Z => 0x7A,
            Key::Delete => 0x7F,
            Key::CapsLock => 0x40000039,
            Key::F1 => 0x4000003A,
            Key::F2 => 0x4000003B,
            Key::F3 => 0x4000003C,
            Key::F4 => 0x4000003D,
            Key::F5 => 0x4000003E,
            Key::F6 => 0x4000003F,
            Key::F7 => 0x40000040,
            Key::F8 => 0x40000041,
            Key::F9 => 0x40000042,
            Key::F10 => 0x40000043,
            Key::F11 => 0x40000044,
            Key::F12 => 0x40000045,
            Key::PrintScreen => 0x40000046,
            Key::ScrollLock => 0x40000047,
            Key::Pause => 0x40000048,
            Key::Insert => 0x40000049,
            Key::Home => 0x4000004A,
            Key::PageUp => 0x4000004B,
            Key::End => 0x4000004D,
            Key::PageDown => 0x4000004E,
            Key::Right => 0x4000004F,
            Key::Left => 0x40000050,
            Key::Down => 0x40000051,
            Key::Up => 0x40000052,
            Key::NumLockClear => 0x40000053,
            Key::NumPadDivide => 0x40000054,
            Key::NumPadMultiply => 0x40000055,
            Key::NumPadMinus => 0x40000056,
            Key::NumPadPlus => 0x40000057,
            Key::NumPadEnter => 0x40000058,
            Key::NumPad1 => 0x40000059,
            Key::NumPad2 => 0x4000005A,
            Key::NumPad3 => 0x4000005B,
            Key::NumPad4 => 0x4000005C,
            Key::NumPad5 => 0x4000005D,
            Key::NumPad6 => 0x4000005E,
            Key::NumPad7 => 0x4000005F,
            Key::NumPad8 => 0x40000060,
            Key::NumPad9 => 0x40000061,
            Key::NumPad0 => 0x40000062,
            Key::NumPadPeriod => 0x40000063,
            Key::Application => 0x40000065,
            Key::Power => 0x40000066,
            Key::NumPadEquals => 0x40000067,
            Key::F13 => 0x40000068,
            Key::F14 => 0x40000069,
            Key::F15 => 0x4000006A,
            Key::F16 => 0x4000006B,
            Key::F17 => 0x4000006C,
            Key::F18 => 0x4000006D,
            Key::F19 => 0x4000006E,
            Key::F20 => 0x4000006F,
            Key::F21 => 0x40000070,
            Key::F22 => 0x40000071,
            Key::F23 => 0x40000072,
            Key::F24 => 0x40000073,
            Key::Execute => 0x40000074,
            Key::Help => 0x40000075,
            Key::Menu => 0x40000076,
            Key::Select => 0x40000077,
            Key::Stop => 0x40000078,
            Key::Again => 0x40000079,
            Key::Undo => 0x4000007A,
            Key::Cut => 0x4000007B,
            Key::Copy => 0x4000007C,
            Key::Paste => 0x4000007D,
            Key::Find => 0x4000007E,
            Key::Mute => 0x4000007F,
            Key::VolumeUp => 0x40000080,
            Key::VolumeDown => 0x40000081,
            Key::NumPadComma => 0x40000085,
            Key::NumPadEqualsAS400 => 0x40000086,
            Key::AltErase => 0x40000099,
            Key::Sysreq => 0x4000009A,
            Key::Cancel => 0x4000009B,
            Key::Clear => 0x4000009C,
            Key::Prior => 0x4000009D,
            Key::Return2 => 0x4000009E,
            Key::Separator => 0x4000009F,
            Key::Out => 0x400000A0,
            Key::Oper => 0x400000A1,
            Key::ClearAgain => 0x400000A2,
            Key::CrSel => 0x400000A3,
            Key::ExSel => 0x400000A4,
            Key::NumPad00 => 0x400000B0,
            Key::NumPad000 => 0x400000B1,
            Key::ThousandsSeparator => 0x400000B2,
            Key::DecimalSeparator => 0x400000B3,
            Key::CurrencyUnit => 0x400000B4,
            Key::CurrencySubUnit => 0x400000B5,
            Key::NumPadLeftParen => 0x400000B6,
            Key::NumPadRightParen => 0x400000B7,
            Key::NumPadLeftBrace => 0x400000B8,
            Key::NumPadRightBrace => 0x400000B9,
            Key::NumPadTab => 0x400000BA,
            Key::NumPadBackspace => 0x400000BB,
            Key::NumPadA => 0x400000BC,
            Key::NumPadB => 0x400000BD,
            Key::NumPadC => 0x400000BE,
            Key::NumPadD => 0x400000BF,
            Key::NumPadE => 0x400000C0,
            Key::NumPadF => 0x400000C1,
            Key::NumPadXor => 0x400000C2,
            Key::NumPadPower => 0x400000C3,
            Key::NumPadPercent => 0x400000C4,
            Key::NumPadLess => 0x400000C5,
            Key::NumPadGreater => 0x400000C6,
            Key::NumPadAmpersand => 0x400000C7,
            Key::NumPadDblAmpersand => 0x400000C8,
            Key::NumPadVerticalBar => 0x400000C9,
            Key::NumPadDblVerticalBar => 0x400000CA,
            Key::NumPadColon => 0x400000CB,
            Key::NumPadHash => 0x400000CC,
            Key::NumPadSpace => 0x400000CD,
            Key::NumPadAt => 0x400000CE,
            Key::NumPadExclam => 0x400000CF,
            Key::NumPadMemStore => 0x400000D0,
            Key::NumPadMemRecall => 0x400000D1,
            Key::NumPadMemClear => 0x400000D2,
            Key::NumPadMemAdd => 0x400000D3,
            Key::NumPadMemSubtract => 0x400000D4,
            Key::NumPadMemMultiply => 0x400000D5,
            Key::NumPadMemDivide => 0x400000D6,
            Key::NumPadPlusMinus => 0x400000D7,
            Key::NumPadClear => 0x400000D8,
            Key::NumPadClearEntry => 0x400000D9,
            Key::NumPadBinary => 0x400000DA,
            Key::NumPadOctal => 0x400000DB,
            Key::NumPadDecimal => 0x400000DC,
            Key::NumPadHexadecimal => 0x400000DD,
            Key::LCtrl => 0x400000E0,
            Key::LShift => 0x400000E1,
            Key::LAlt => 0x400000E2,
            Key::LGui => 0x400000E3,
            Key::RCtrl => 0x400000E4,
            Key::RShift => 0x400000E5,
            Key::RAlt => 0x400000E6,
            Key::RGui => 0x400000E7,
            Key::Mode => 0x40000101,
            Key::AudioNext => 0x40000102,
            Key::AudioPrev => 0x40000103,
            Key::AudioStop => 0x40000104,
            Key::AudioPlay => 0x40000105,
            Key::AudioMute => 0x40000106,
            Key::MediaSelect => 0x40000107,
            Key::Www => 0x40000108,
            Key::Mail => 0x40000109,
            Key::Calculator => 0x4000010A,
            Key::Computer => 0x4000010B,
            Key::AcSearch => 0x4000010C,
            Key::AcHome => 0x4000010D,
            Key::AcBack => 0x4000010E,
            Key::AcForward => 0x4000010F,
            Key::AcStop => 0x40000110,
            Key::AcRefresh => 0x40000111,
            Key::AcBookmarks => 0x40000112,
            Key::BrightnessDown => 0x40000113,
            Key::BrightnessUp => 0x40000114,
            Key::DisplaySwitch => 0x40000115,
            Key::KbdIllumToggle => 0x40000116,
            Key::KbdIllumDown => 0x40000117,
            Key::KbdIllumUp => 0x40000118,
            Key::Eject => 0x40000119,
            Key::Sleep => 0x4000011A,
        }
    }

    /// The key with the code `code`, or `Unknown` where no key has it.
    pub open spec fn of_code(code: u32) -> Key {
        match code {
            0x00 => Key::Unknown,
            0x08 => Key::Backspace,
            0x09 => Key::Tab,
            0x0D => Key::Return,
            0x1B => Key::Escape,
            0x20 => Key::Space,
            0x21 => Key::Exclaim,
            0x22 => Key::Quotedbl,
            0x23 => Key::Hash,
            0x24 => Key::Dollar,
            0x25 => Key::Percent,
            0x26 => Key::Ampersand,
            0x27 => Key::Quote,
            0x28 => Key::LeftParen,
            0x29 => Key::RightParen,
            0x2A => Key::Asterisk,
            0x2B => Key::Plus,
            0x2C => Key::Comma,
            0x2D => Key::Minus,
            0x2E => Key::Period,
            0x2F => Key::Slash,
            0x30 => Key::D0,
            0x31 => Key::D1,
            0x32 => Key::D2,
            0x33 => Key::D3,
            0x34 => Key::D4,
            0x35 => Key::D5,
            0x36 => Key::D6,
            0x37 => Key::D7,
            0x38 => Key::D8,
            0x39 => Key::D9,
            0x3A => Key::Colon,
            0x3B => Key::Semicolon,
            0x3C => Key::Less,
            0x3D => Key::Equals,
            0x3E => Key::Greater,
            0x3F => Key::Question,
            0x40 => Key::At,
            0x5B => Key::LeftBracket,
            0x5C => Key::Backslash,
            0x5D => Key::RightBracket,
            0x5E => Key::Caret,
            0x5F => Key::Underscore,
            0x60 => Key::Backquote,
            0x61 => Key::A,
            0x62 => Key::B,
            0x63 => Key::C,
            0x64 => Key::D,
            0x65 => Key::E,
            0x66 => Key::F,
            0x67 => Key::G,
            0x68 => Key::H,
            0x69 => Key::I,
            0x6A => Key::J,
            0x6B => Key::K,
            0x6C => Key::L,
            0x6D => Key::M,
            0x6E => Key::N,
            0x6F => Key::O,
            0x70 => Key::P,
            0x71 => Key::Q,
            0x72 => Key::R,
            0x73 => Key::S,
            0x74 => Key::T,
            0x75 => Key::U,
            0x76 => Key::V,
            0x77 => Key::W,
            0x78 => Key::X,
            0x79 => Key::Y,
            0x7A => Key::Z,
            0x7F => Key::Delete,
            0x40000039 => Key::CapsLock,
            0x4000003A => Key::F1,
            0x4000003B => Key::F2,
            0x4000003C => Key::F3,
            0x4000003D => Key::F4,
            0x4000003E => Key::F5,
            0x4000003F => Key::F6,
            0x40000040 => Key::F7,
            0x40000041 => Key::F8,
            0x40000042 => Key::F9,
            0x40000043 => Key::F10,
            0x40000044 => Key::F11,
            0x40000045 => Key::F12,
            0x40000046 => Key::PrintScreen,
            0x40000047 => Key::ScrollLock,
            0x40000048 => Key::Pause,
            0x40000049 => Key::Insert,
            0x4000004A => Key::Home,
            0x4000004B => Key::PageUp,
            0x4000004D => Key::End,
            0x4000004E => Key::PageDown,
            0x4000004F => Key::Right,
            0x40000050 => Key::Left,
            0x40000051 => Key::Down,
            0x40000052 => Key::Up,
            0x40000053 => Key::NumLockClear,
            0x40000054 => Key::NumPadDivide,
            0x40000055 => Key::NumPadMultiply,
            0x40000056 => Key::NumPadMinus,
            0x40000057 => Key::NumPadPlus,
            0x40000058 => Key::NumPadEnter,
            0x40000059 => Key::NumPad1,
            0x4000005A => Key::NumPad2,
            0x4000005B => Key::NumPad3,
            0x4000005C => Key::NumPad4,
            0x4000005D => Key::NumPad5,
            0x4000005E => Key::NumPad6,
            0x4000005F => Key::NumPad7,
            0x40000060 => Key::NumPad8,
            0x40000061 => Key::NumPad9,
            0x40000062 => Key::NumPad0,
            0x40000063 => Key::NumPadPeriod,
            0x40000065 => Key::Application,
            0x40000066 => Key::Power,
            0x40000067 => Key::NumPadEquals,
            0x40000068 => Key::F13,
            0x40000069 => Key::F14,
            0x4000006A => Key::F15,
            0x4000006B => Key::F16,
            0x4000006C => Key::F17,
            0x4000006D => Key::F18,
            0x4000006E => Key::F19,
            0x4000006F => Key::F20,
            0x40000070 => Key::F21,
            0x40000071 => Key::F22,
            0x40000072 => Key::F23,
            0x40000073 => Key::F24,
            0x40000074 => Key::Execute,
            0x40000075 => Key::Help,
            0x40000076 => Key::Menu,
            0x40000077 => Key::Select,
            0x40000078 => Key::Stop,
            0x40000079 => Key::Again,
            0x4000007A => Key::Undo,
            0x4000007B => Key::Cut,
            0x4000007C => Key::Copy,
            0x4000007D => Key::Paste,
            0x4000007E => Key::Find,
            0x4000007F => Key::Mute,
            0x40000080 => Key::VolumeUp,
            0x40000081 => Key::VolumeDown,
            0x40000085 => Key::NumPadComma,
            0x40000086 => Key::NumPadEqualsAS400,
            0x40000099 => Key::AltErase,
            0x4000009A => Key::Sysreq,
            0x4000009B => Key::Cancel,
            0x4000009C => Key::Clear,
            0x4000009D => Key::Prior,
            0x4000009E => Key::Return2,
            0x4000009F => Key::Separator,
            0x400000A0 => Key::Out,
            0x400000A1 => Key::Oper,
            0x400000A2 => Key::ClearAgain,
            0x400000A3 => Key::CrSel,
            0x400000A4 => Key::ExSel,
            0x400000B0 => Key::NumPad00,
            0x400000B1 => Key::NumPad000,
            0x400000B2 => Key::ThousandsSeparator,
            0x400000B3 => Key::DecimalSeparator,
            0x400000B4 => Key::CurrencyUnit,
            0x400000B5 => Key::CurrencySubUnit,
            0x400000B6 => Key::NumPadLeftParen,
            0x400000B7 => Key::NumPadRightParen,
            0x400000B8 => Key::NumPadLeftBrace,
            0x400000B9 => Key::NumPadRightBrace,
            0x400000BA => Key::NumPadTab,
            0x400000BB => Key::NumPadBackspace,
            0x400000BC => Key::NumPadA,
            0x400000BD => Key::NumPadB,
            0x400000BE => Key::NumPadC,
            0x400000BF => Key::NumPadD,
            0x400000C0 => Key::NumPadE,
            0x400000C1 => Key::NumPadF,
            0x400000C2 => Key::NumPadXor,
            0x400000C3 => Key::NumPadPower,
            0x400000C4 => Key::NumPadPercent,
            0x400000C5 => Key::NumPadLess,
            0x400000C6 => Key::NumPadGreater,
            0x400000C7 => Key::NumPadAmpersand,
            0x400000C8 => Key::NumPadDblAmpersand,
            0x400000C9 => Key::NumPadVerticalBar,
            0x400000CA => Key::NumPadDblVerticalBar,
            0x400000CB => Key::NumPadColon,
            0x400000CC => Key::NumPadHash,
            0x400000CD => Key::NumPadSpace,
            0x400000CE => Key::NumPadAt,
            0x400000CF => Key::NumPadExclam,
            0x400000D0 => Key::NumPadMemStore,
            0x400000D1 => Key::NumPadMemRecall,
            0x400000D2 => Key::NumPadMemClear,
            0x400000D3 => Key::NumPadMemAdd,
            0x400000D4 => Key::NumPadMemSubtract,
            0x400000D5 => Key::NumPadMemMultiply,
            0x400000D6 => Key::NumPadMemDivide,
            0x400000D7 => Key::NumPadPlusMinus,
            0x400000D8 => Key::NumPadClear,
            0x400000D9 => Key::NumPadClearEntry,
            0x400000DA => Key::NumPadBinary,
            0x400000DB => Key::NumPadOctal,
            0x400000DC => Key::NumPadDecimal,
            0x400000DD => Key::NumPadHexadecimal,
            0x400000E0 => Key::LCtrl,
            0x400000E1 => Key::LShift,
            0x400000E2 => Key::LAlt,
            0x400000E3 => Key::LGui,
            0x400000E4 => Key::RCtrl,
            0x400000E5 => Key::RShift,
            0x400000E6 => Key::RAlt,
            0x400000E7 => Key::RGui,
            0x40000101 => Key::Mode,
            0x40000102 => Key::AudioNext,
            0x40000103 => Key::AudioPrev,
            0x40000104 => Key::AudioStop,
            0x40000105 => Key::AudioPlay,
            0x40000106 => Key::AudioMute,
            0x40000107 => Key::MediaSelect,
            0x40000108 => Key::Www,
            0x40000109 => Key::Mail,
            0x4000010A => Key::Calculator,
            0x4000010B => Key::Computer,
            0x4000010C => Key::AcSearch,
            0x4000010D => Key::AcHome,
            0x4000010E => Key::AcBack,
            0x4000010F => Key::AcForward,
            0x40000110 => Key::AcStop,
            0x40000111 => Key::AcRefresh,
            0x40000112 => Key::AcBookmarks,
            0x40000113 => Key::BrightnessDown,
            0x40000114 => Key::BrightnessUp,
            0x40000115 => Key::DisplaySwitch,
            0x40000116 => Key::KbdIllumToggle,
            0x40000117 => Key::KbdIllumDown,
            0x40000118 => Key::KbdIllumUp,
            0x40000119 => Key::Eject,
            0x4000011A => Key::Sleep,
            _ => Key::Unknown,
        }
    }

    /// No two keys share a code, and every code fits in 31 bits.
    pub proof fn codes_differ(a: Key, b: Key)
        ensures
            a.spec_code() == b.spec_code() ==> a == b,
            0 <= a.spec_code() <= 0x4000011A,
    {
    }

    /// The key of a key's code is that key.
    pub proof fn of_code_of_key(key: Key)
        ensures
            Key::of_code(key.spec_code() as u32) == key,
    {
    }

    /// The key of a code has that code, unless no key has it: then the key is
    /// `Unknown`.
    pub proof fn code_of_of_code(code: u32, other: Key)
        ensures
            Key::of_code(code).spec_code() == code || Key::of_code(code) == Key::Unknown,
            Key::of_code(code).spec_code() != code ==> other.spec_code() != code,
    {
    }

    /// The code of the key.
    pub fn code(&self) -> (r: i32)
        ensures
            r == self.spec_code(),
    {
        match self {
            Key::Unknown => 0x00,
            Key::Backspace => 0x08,
            Key::Tab => 0x09,
            Key::Return => 0x0D,
            Key::Escape => 0x1B,
            Key::Space => 0x20,
            Key::Exclaim => 0x21,
            Key::Quotedbl => 0x22,
            Key::Hash => 0x23,
            Key::Dollar => 0x24,
            Key::Percent => 0x25,
            Key::Ampersand => 0x26,
            Key::Quote => 0x27,
            Key::LeftParen => 0x28,
            Key::RightParen => 0x29,
            Key::Asterisk => 0x2A,
            Key::Plus => 0x2B,
            Key::Comma => 0x2C,
            Key::Minus => 0x2D,
            Key::Period => 0x2E,
            Key::Slash => 0x2F,
            Key::D0 => 0x30,
            Key::D1 => 0x31,
            Key::D2 => 0x32,
            Key::D3 => 0x33,
            Key::D4 => 0x34,
            Key::D5 => 0x35,
            Key::D6 => 0x36,
            Key::D7 => 0x37,
            Key::D8 => 0x38,
            Key::D9 => 0x39,
            Key::Colon => 0x3A,
            Key::Semicolon => 0x3B,
            Key::Less => 0x3C,
            Key::Equals => 0x3D,
            Key::Greater => 0x3E,
            Key::Question => 0x3F,
            Key::At => 0x40,
            Key::LeftBracket => 0x5B,
            Key::Backslash => 0x5C,
            Key::RightBracket => 0x5D,
            Key::Caret => 0x5E,
            Key::Underscore => 0x5F,
            Key::Backquote => 0x60,
            Key::A => 0x61,
            Key::B => 0x62,
            Key::C => 0x63,
            Key::D => 0x64,
            Key::E => 0x65,
            Key::F => 0x66,
            Key::G => 0x67,
            Key::H => 0x68,
            Key::I => 0x69,
            Key::J => 0x6A,
            Key::K => 0x6B,
            Key::L => 0x6C,
            Key::M => 0x6D,
            Key::N => 0x6E,
            Key::O => 0x6F,
            Key::P => 0x70,
            Key::Q => 0x71,
            Key::R => 0x72,
            Key::S => 0x73,
            Key::T => 0x74,
            Key::U => 0x75,
            Key::V => 0x76,
            Key::W => 0x77,
            Key::X => 0x78,
            Key::Y => 0x79,
            Key::Z => 0x7A,
            Key::Delete => 0x7F,
            Key::CapsLock => 0x40000039,
            Key::F1 => 0x4000003A,
            Key::F2 => 0x4000003B,
            Key::F3 => 0x4000003C,
            Key::F4 => 0x4000003D,
            Key::F5 => 0x4000003E,
            Key::F6 => 0x4000003F,
            Key::F7 => 0x40000040,
            Key::F8 => 0x40000041,
            Key::F9 => 0x40000042,
            Key::F10 => 0x40000043,
            Key::F11 => 0x40000044,
            Key::F12 => 0x40000045,
            Key::PrintScreen => 0x40000046,
            Key::ScrollLock => 0x40000047,
            Key::Pause => 0x40000048,
            Key::Insert => 0x40000049,
            Key::Home => 0x4000004A,
            Key::PageUp => 0x4000004B,
            Key::End => 0x4000004D,
            Key::PageDown => 0x4000004E,
            Key::Right => 0x4000004F,
            Key::Left => 0x40000050,
            Key::Down => 0x40000051,
            Key::Up => 0x40000052,
            Key::NumLockClear => 0x40000053,
            Key::NumPadDivide => 0x40000054,
            Key::NumPadMultiply => 0x40000055,
            Key::NumPadMinus => 0x40000056,
            Key::NumPadPlus => 0x40000057,
            Key::NumPadEnter => 0x40000058,
            Key::NumPad1 => 0x40000059,
            Key::NumPad2 => 0x4000005A,
            Key::NumPad3 => 0x4000005B,
            Key::NumPad4 => 0x4000005C,
            Key::NumPad5 => 0x4000005D,
            Key::NumPad6 => 0x4000005E,
            Key::NumPad7 => 0x4000005F,
            Key::NumPad8 => 0x40000060,
            Key::NumPad9 => 0x40000061,
            Key::NumPad0 => 0x40000062,
            Key::NumPadPeriod => 0x40000063,
            Key::Application => 0x40000065,
            Key::Power => 0x40000066,
            Key::NumPadEquals => 0x40000067,
            Key::F13 => 0x40000068,
            Key::F14 => 0x40000069,
            Key::F15 => 0x4000006A,
            Key::F16 => 0x4000006B,
            Key::F17 => 0x4000006C,
            Key::F18 => 0x4000006D,
            Key::F19 => 0x4000006E,
            Key::F20 => 0x4000006F,
            Key::F21 => 0x40000070,
            Key::F22 => 0x40000071,
            Key::F23 => 0x40000072,
            Key::F24 => 0x40000073,
            Key::Execute => 0x40000074,
            Key::Help => 0x40000075,
            Key::Menu => 0x40000076,
            Key::Select => 0x40000077,
            Key::Stop => 0x40000078,
            Key::Again => 0x40000079,
            Key::Undo => 0x4000007A,
            Key::Cut => 0x4000007B,
            Key::Copy => 0x4000007C,
            Key::Paste => 0x4000007D,
            Key::Find => 0x4000007E,
            Key::Mute => 0x4000007F,
            Key::VolumeUp => 0x40000080,
            Key::VolumeDown => 0x40000081,
            Key::NumPadComma => 0x40000085,
            Key::NumPadEqualsAS400 => 0x40000086,
            Key::AltErase => 0x40000099,
            Key::Sysreq => 0x4000009A,
            Key::Cancel => 0x4000009B,
            Key::Clear => 0x4000009C,
            Key::Prior => 0x4000009D,
            Key::Return2 => 0x4000009E,
            Key::Separator => 0x4000009F,
            Key::Out => 0x400000A0,
            Key::Oper => 0x400000A1,
            Key::ClearAgain => 0x400000A2,
            Key::CrSel => 0x400000A3,
            Key::ExSel => 0x400000A4,
            Key::NumPad00 => 0x400000B0,
            Key::NumPad000 => 0x400000B1,
            Key::ThousandsSeparator => 0x400000B2,
            Key::DecimalSeparator => 0x400000B3,
            Key::CurrencyUnit => 0x400000B4,
            Key::CurrencySubUnit => 0x400000B5,
            Key::NumPadLeftParen => 0x400000B6,
            Key::NumPadRightParen => 0x400000B7,
            Key::NumPadLeftBrace => 0x400000B8,
            Key::NumPadRightBrace => 0x400000B9,
            Key::NumPadTab => 0x400000BA,
            Key::NumPadBackspace => 0x400000BB,
            Key::NumPadA => 0x400000BC,
            Key::NumPadB => 0x400000BD,
            Key::NumPadC => 0x400000BE,
            Key::NumPadD => 0x400000BF,
            Key::NumPadE => 0x400000C0,
            Key::NumPadF => 0x400000C1,
            Key::NumPadXor => 0x400000C2,
            Key::NumPadPower => 0x400000C3,
            Key::NumPadPercent => 0x400000C4,
            Key::NumPadLess => 0x400000C5,
            Key::NumPadGreater => 0x400000C6,
            Key::NumPadAmpersand => 0x400000C7,
            Key::NumPadDblAmpersand => 0x400000C8,
            Key::NumPadVerticalBar => 0x400000C9,
            Key::NumPadDblVerticalBar => 0x400000CA,
            Key::NumPadColon => 0x400000CB,
            Key::NumPadHash => 0x400000CC,
            Key::NumPadSpace => 0x400000CD,
            Key::NumPadAt => 0x400000CE,
            Key::NumPadExclam => 0x400000CF,
            Key::NumPadMemStore => 0x400000D0,
            Key::NumPadMemRecall => 0x400000D1,
            Key::NumPadMemClear => 0x400000D2,
            Key::NumPadMemAdd => 0x400000D3,
            Key::NumPadMemSubtract => 0x400000D4,
            Key::NumPadMemMultiply => 0x400000D5,
            Key::NumPadMemDivide => 0x400000D6,
            Key::NumPadPlusMinus => 0x400000D7,
            Key::NumPadClear => 0x400000D8,
            Key::NumPadClearEntry => 0x400000D9,
            Key::NumPadBinary => 0x400000DA,
            Key::NumPadOctal => 0x400000DB,
            Key::NumPadDecimal => 0x400000DC,
            Key::NumPadHexadecimal => 0x400000DD,
            Key::LCtrl => 0x400000E0,
            Key::LShift => 0x400000E1,
            Key::LAlt => 0x400000E2,
            Key::LGui => 0x400000E3,
            Key::RCtrl => 0x400000E4,
            Key::RShift => 0x400000E5,
            Key::RAlt => 0x400000E6,
            Key::RGui => 0x400000E7,
            Key::Mode => 0x40000101,
            Key::AudioNext => 0x40000102,
            Key::AudioPrev => 0x40000103,
            Key::AudioStop => 0x40000104,
            Key::AudioPlay => 0x40000105,
            Key::AudioMute => 0x40000106,
            Key::MediaSelect => 0x40000107,
            Key::Www => 0x40000108,
            Key::Mail => 0x40000109,
            Key::Calculator => 0x4000010A,
            Key::Computer => 0x4000010B,
            Key::AcSearch => 0x4000010C,
            Key::AcHome => 0x4000010D,
            Key::AcBack => 0x4000010E,
            Key::AcForward => 0x4000010F,
            Key::AcStop => 0x40000110,
            Key::AcRefresh => 0x40000111,
            Key::AcBookmarks => 0x40000112,
            Key::BrightnessDown => 0x40000113,
            Key::BrightnessUp => 0x40000114,
            Key::DisplaySwitch => 0x40000115,
            Key::KbdIllumToggle => 0x40000116,
            Key::KbdIllumDown => 0x40000117,
            Key::KbdIllumUp => 0x40000118,
            Key::Eject => 0x40000119,
            Key::Sleep => 0x4000011A,
        }
    }
}

impl From<u32> for Key {
    /// The key with the given code, or `Unknown` where no key has it.
    fn from(code: u32) -> (r: Key) {
        match code {
            0x00 => Key::Unknown,
            0x08 => Key::Backspace,
            0x09 => Key::Tab,
            0x0D => Key::Return,
            0x1B => Key::Escape,
            0x20 => Key::Space,
            0x21 => Key::Exclaim,
            0x22 => Key::Quotedbl,
            0x23 => Key::Hash,
            0x24 => Key::Dollar,
            0x25 => Key::Percent,
            0x26 => Key::Ampersand,
            0x27 => Key::Quote,
            0x28 => Key::LeftParen,
            0x29 => Key::RightParen,
            0x2A => Key::Asterisk,
            0x2B => Key::Plus,
            0x2C => Key::Comma,
            0x2D => Key::Minus,
            0x2E => Key::Period,
            0x2F => Key::Slash,
            0x30 => Key::D0,
            0x31 => Key::D1,
            0x32 => Key::D2,
            0x33 => Key::D3,
            0x34 => Key::D4,
            0x35 => Key::D5,
            0x36 => Key::D6,
            0x37 => Key::D7,
            0x38 => Key::D8,
            0x39 => Key::D9,
            0x3A => Key::Colon,
            0x3B => Key::Semicolon,
            0x3C => Key::Less,
            0x3D => Key::Equals,
            0x3E => Key::Greater,
            0x3F => Key::Question,
            0x40 => Key::At,
            0x5B => Key::LeftBracket,
            0x5C => Key::Backslash,
            0x5D => Key::RightBracket,
            0x5E => Key::Caret,
            0x5F => Key::Underscore,
            0x60 => Key::Backquote,
            0x61 => Key::A,
            0x62 => Key::B,
            0x63 => Key::C,
            0x64 => Key::D,
            0x65 => Key::E,
            0x66 => Key::F,
            0x67 => Key::G,
            0x68 => Key::H,
            0x69 => Key::I,
            0x6A => Key::J,
            0x6B => Key::K,
            0x6C => Key::L,
            0x6D => Key::M,
            0x6E => Key::N,
            0x6F => Key::O,
            0x70 => Key::P,
            0x71 => Key::Q,
            0x72 => Key::R,
            0x73 => Key::S,
            0x74 => Key::T,
            0x75 => Key::U,
            0x76 => Key::V,
            0x77 => Key::W,
            0x78 => Key::X,
            0x79 => Key::Y,
            0x7A => Key::Z,
            0x7F => Key::Delete,
            0x40000039 => Key::CapsLock,
            0x4000003A => Key::F1,
            0x4000003B => Key::F2,
            0x4000003C => Key::F3,
            0x4000003D => Key::F4,
            0x4000003E => Key::F5,
            0x4000003F => Key::F6,
            0x40000040 => Key::F7,
            0x40000041 => Key::F8,
            0x40000042 => Key::F9,
            0x40000043 => Key::F10,
            0x40000044 => Key::F11,
            0x40000045 => Key::F12,
            0x40000046 => Key::PrintScreen,
            0x40000047 => Key::ScrollLock,
            0x40000048 => Key::Pause,
            0x40000049 => Key::Insert,
            0x4000004A => Key::Home,
            0x4000004B => Key::PageUp,
            0x4000004D => Key::End,
            0x4000004E => Key::PageDown,
            0x4000004F => Key::Right,
            0x40000050 => Key::Left,
            0x40000051 => Key::Down,
            0x40000052 => Key::Up,
            0x40000053 => Key::NumLockClear,
            0x40000054 => Key::NumPadDivide,
            0x40000055 => Key::NumPadMultiply,
            0x40000056 => Key::NumPadMinus,
            0x40000057 => Key::NumPadPlus,
            0x40000058 => Key::NumPadEnter,
            0x40000059 => Key::NumPad1,
            0x4000005A => Key::NumPad2,
            0x4000005B => Key::NumPad3,
            0x4000005C => Key::NumPad4,
            0x4000005D => Key::NumPad5,
            0x4000005E => Key::NumPad6,
            0x4000005F => Key::NumPad7,
            0x40000060 => Key::NumPad8,
            0x40000061 => Key::NumPad9,
            0x40000062 => Key::NumPad0,
            0x40000063 => Key::NumPadPeriod,
            0x40000065 => Key::Application,
            0x40000066 => Key::Power,
            0x40000067 => Key::NumPadEquals,
            0x40000068 => Key::F13,
            0x40000069 => Key::F14,
            0x4000006A => Key::F15,
            0x4000006B => Key::F16,
            0x4000006C => Key::F17,
            0x4000006D => Key::F18,
            0x4000006E => Key::F19,
            0x4000006F => Key::F20,
            0x40000070 => Key::F21,
            0x40000071 => Key::F22,
            0x40000072 => Key::F23,
            0x40000073 => Key::F24,
            0x40000074 => Key::Execute,
            0x40000075 => Key::Help,
            0x40000076 => Key::Menu,
            0x40000077 => Key::Select,
            0x40000078 => Key::Stop,
            0x40000079 => Key::Again,
            0x4000007A => Key::Undo,
            0x4000007B => Key::Cut,
            0x4000007C => Key::Copy,
            0x4000007D => Key::Paste,
            0x4000007E => Key::Find,
            0x4000007F => Key::Mute,
            0x40000080 => Key::VolumeUp,
            0x40000081 => Key::VolumeDown,
            0x40000085 => Key::NumPadComma,
            0x40000086 => Key::NumPadEqualsAS400,
            0x40000099 => Key::AltErase,
            0x4000009A => Key::Sysreq,
            0x4000009B => Key::Cancel,
            0x4000009C => Key::Clear,
            0x4000009D => Key::Prior,
            0x4000009E => Key::Return2,
            0x4000009F => Key::Separator,
            0x400000A0 => Key::Out,
            0x400000A1 => Key::Oper,
            0x400000A2 => Key::ClearAgain,
            0x400000A3 => Key::CrSel,
            0x400000A4 => Key::ExSel,
            0x400000B0 => Key::NumPad00,
            0x400000B1 => Key::NumPad000,
            0x400000B2 => Key::ThousandsSeparator,
            0x400000B3 => Key::DecimalSeparator,
            0x400000B4 => Key::CurrencyUnit,
            0x400000B5 => Key::CurrencySubUnit,
            0x400000B6 => Key::NumPadLeftParen,
            0x400000B7 => Key::NumPadRightParen,
            0x400000B8 => Key::NumPadLeftBrace,
            0x400000B9 => Key::NumPadRightBrace,
            0x400000BA => Key::NumPadTab,
            0x400000BB => Key::NumPadBackspace,
            0x400000BC => Key::NumPadA,
            0x400000BD => Key::NumPadB,
            0x400000BE => Key::NumPadC,
            0x400000BF => Key::NumPadD,
            0x400000C0 => Key::NumPadE,
            0x400000C1 => Key::NumPadF,
            0x400000C2 => Key::NumPadXor,
            0x400000C3 => Key::NumPadPower,
            0x400000C4 => Key::NumPadPercent,
            0x400000C5 => Key::NumPadLess,
            0x400000C6 => Key::NumPadGreater,
            0x400000C7 => Key::NumPadAmpersand,
            0x400000C8 => Key::NumPadDblAmpersand,
            0x400000C9 => Key::NumPadVerticalBar,
            0x400000CA => Key::NumPadDblVerticalBar,
            0x400000CB => Key::NumPadColon,
            0x400000CC => Key::NumPadHash,
            0x400000CD => Key::NumPadSpace,
            0x400000CE => Key::NumPadAt,
            0x400000CF => Key::NumPadExclam,
            0x400000D0 => Key::NumPadMemStore,
            0x400000D1 => Key::NumPadMemRecall,
            0x400000D2 => Key::NumPadMemClear,
            0x400000D3 => Key::NumPadMemAdd,
            0x400000D4 => Key::NumPadMemSubtract,
            0x400000D5 => Key::NumPadMemMultiply,
            0x400000D6 => Key::NumPadMemDivide,
            0x400000D7 => Key::NumPadPlusMinus,
            0x400000D8 => Key::NumPadClear,
            0x400000D9 => Key::NumPadClearEntry,
            0x400000DA => Key::NumPadBinary,
            0x400000DB => Key::NumPadOctal,
            0x400000DC => Key::NumPadDecimal,
            0x400000DD => Key::NumPadHexadecimal,
            0x400000E0 => Key::LCtrl,
            0x400000E1 => Key::LShift,
            0x400000E2 => Key::LAlt,
            0x400000E3 => Key::LGui,
            0x400000E4 => Key::RCtrl,
            0x400000E5 => Key::RShift,
            0x400000E6 => Key::RAlt,
            0x400000E7 => Key::RGui,
            0x40000101 => Key::Mode,
            0x40000102 => Key::AudioNext,
            0x40000103 => Key::AudioPrev,
            0x40000104 => Key::AudioStop,
            0x40000105 => Key::AudioPlay,
            0x40000106 => Key::AudioMute,
            0x40000107 => Key::MediaSelect,
            0x40000108 => Key::Www,
            0x40000109 => Key::Mail,
            0x4000010A => Key::Calculator,
            0x4000010B => Key::Computer,
            0x4000010C => Key::AcSearch,
            0x4000010D => Key::AcHome,
            0x4000010E => Key::AcBack,
            0x4000010F => Key::AcForward,
            0x40000110 => Key::AcStop,
            0x40000111 => Key::AcRefresh,
            0x40000112 => Key::AcBookmarks,
            0x40000113 => Key::BrightnessDown,
            0x40000114 => Key::BrightnessUp,
            0x40000115 => Key::DisplaySwitch,
            0x40000116 => Key::KbdIllumToggle,
            0x40000117 => Key::KbdIllumDown,
            0x40000118 => Key::KbdIllumUp,
            0x40000119 => Key::Eject,
            0x4000011A => Key::Sleep,
            _ => Key::Unknown,
        }
    }
}

impl vstd::std_specs::convert::FromSpecImpl<u32> for Key {
    open spec fn obeys_from_spec() -> bool {
        true
    }

    open spec fn from_spec(code: u32) -> Key {
        Key::of_code(code)
    }
}

impl From<Key> for u32 {
    /// The code of the key.
    fn from(key: Key) -> (r: u32) {
        match key {
            Key::Unknown => 0x00,
            Key::Backspace => 0x08,
            Key::Tab => 0x09,
            Key::Return => 0x0D,
            Key::Escape => 0x1B,
            Key::Space => 0x20,
            Key::Exclaim => 0x21,
            Key::Quotedbl => 0x22,
            Key::Hash => 0x23,
            Key::Dollar => 0x24,
            Key::Percent => 0x25,
            Key::Ampersand => 0x26,
            Key::Quote => 0x27,
            Key::LeftParen => 0x28,
            Key::RightParen => 0x29,
            Key::Asterisk => 0x2A,
            Key::Plus => 0x2B,
            Key::Comma => 0x2C,
            Key::Minus => 0x2D,
            Key::Period => 0x2E,
            Key::Slash => 0x2F,
            Key::D0 => 0x30,
            Key::D1 => 0x31,
            Key::D2 => 0x32,
            Key::D3 => 0x33,
            Key::D4 => 0x34,
            Key::D5 => 0x35,
            Key::D6 => 0x36,
            Key::D7 => 0x37,
            Key::D8 => 0x38,
            Key::D9 => 0x39,
            Key::Colon => 0x3A,
            Key::Semicolon => 0x3B,
            Key::Less => 0x3C,
            Key::Equals => 0x3D,
            Key::Greater => 0x3E,
            Key::Question => 0x3F,
            Key::At => 0x40,
            Key::LeftBracket => 0x5B,
            Key::Backslash => 0x5C,
            Key::RightBracket => 0x5D,
            Key::Caret => 0x5E,
            Key::Underscore => 0x5F,
            Key::Backquote => 0x60,
            Key::A => 0x61,
            Key::B => 0x62,
            Key::C => 0x63,
            Key::D => 0x64,
            Key::E => 0x65,
            Key::F => 0x66,
            Key::G => 0x67,
            Key::H => 0x68,
            Key::I => 0x69,
            Key::J => 0x6A,
            Key::K => 0x6B,
            Key::L => 0x6C,
            Key::M => 0x6D,
            Key::N => 0x6E,
            Key::O => 0x6F,
            Key::P => 0x70,
            Key::Q => 0x71,
            Key::R => 0x72,
            Key::S => 0x73,
            Key::T => 0x74,
            Key::U => 0x75,
            Key::V => 0x76,
            Key::W => 0x77,
            Key::X => 0x78,
            Key::Y => 0x79,
            Key::Z => 0x7A,
            Key::Delete => 0x7F,
            Key::CapsLock => 0x40000039,
            Key::F1 => 0x4000003A,
            Key::F2 => 0x4000003B,
            Key::F3 => 0x4000003C,
            Key::F4 => 0x4000003D,
            Key::F5 => 0x4000003E,
            Key::F6 => 0x4000003F,
            Key::F7 => 0x40000040,
            Key::F8 => 0x40000041,
            Key::F9 => 0x40000042,
            Key::F10 => 0x40000043,
            Key::F11 => 0x40000044,
            Key::F12 => 0x40000045,
            Key::PrintScreen => 0x40000046,
            Key::ScrollLock => 0x40000047,
            Key::Pause => 0x40000048,
            Key::Insert => 0x40000049,
            Key::Home => 0x4000004A,
            Key::PageUp => 0x4000004B,
            Key::End => 0x4000004D,
            Key::PageDown => 0x4000004E,
            Key::Right => 0x4000004F,
            Key::Left => 0x40000050,
            Key::Down => 0x40000051,
            Key::Up => 0x40000052,
            Key::NumLockClear => 0x40000053,
            Key::NumPadDivide => 0x40000054,
            Key::NumPadMultiply => 0x40000055,
            Key::NumPadMinus => 0x40000056,
            Key::NumPadPlus => 0x40000057,
            Key::NumPadEnter => 0x40000058,
            Key::NumPad1 => 0x40000059,
            Key::NumPad2 => 0x4000005A,
            Key::NumPad3 => 0x4000005B,
            Key::NumPad4 => 0x4000005C,
            Key::NumPad5 => 0x4000005D,
            Key::NumPad6 => 0x4000005E,
            Key::NumPad7 => 0x4000005F,
            Key::NumPad8 => 0x40000060,
            Key::NumPad9 => 0x40000061,
            Key::NumPad0 => 0x40000062,
            Key::NumPadPeriod => 0x40000063,
            Key::Application => 0x40000065,
            Key::Power => 0x40000066,
            Key::NumPadEquals => 0x40000067,
            Key::F13 => 0x40000068,
            Key::F14 => 0x40000069,
            Key::F15 => 0x4000006A,
            Key::F16 => 0x4000006B,
            Key::F17 => 0x4000006C,
            Key::F18 => 0x4000006D,
            Key::F19 => 0x4000006E,
            Key::F20 => 0x4000006F,
            Key::F21 => 0x40000070,
            Key::F22 => 0x40000071,
            Key::F23 => 0x40000072,
            Key::F24 => 0x40000073,
            Key::Execute => 0x40000074,
            Key::Help => 0x40000075,
            Key::Menu => 0x40000076,
            Key::Select => 0x40000077,
            Key::Stop => 0x40000078,
            Key::Again => 0x40000079,
            Key::Undo => 0x4000007A,
            Key::Cut => 0x4000007B,
            Key::Copy => 0x4000007C,
            Key::Paste => 0x4000007D,
            Key::Find => 0x4000007E,
            Key::Mute => 0x4000007F,
            Key::VolumeUp => 0x40000080,
            Key::VolumeDown => 0x40000081,
            Key::NumPadComma => 0x40000085,
            Key::NumPadEqualsAS400 => 0x40000086,
            Key::AltErase => 0x40000099,
            Key::Sysreq => 0x4000009A,
            Key::Cancel => 0x4000009B,
            Key::Clear => 0x4000009C,
            Key::Prior => 0x4000009D,
            Key::Return2 => 0x4000009E,
            Key::Separator => 0x4000009F,
            Key::Out => 0x400000A0,
            Key::Oper => 0x400000A1,
            Key::ClearAgain => 0x400000A2,
            Key::CrSel => 0x400000A3,
            Key::ExSel => 0x400000A4,
            Key::NumPad00 => 0x400000B0,
            Key::NumPad000 => 0x400000B1,
            Key::ThousandsSeparator => 0x400000B2,
            Key::DecimalSeparator => 0x400000B3,
            Key::CurrencyUnit => 0x400000B4,
            Key::CurrencySubUnit => 0x400000B5,
            Key::NumPadLeftParen => 0x400000B6,
            Key::NumPadRightParen => 0x400000B7,
            Key::NumPadLeftBrace => 0x400000B8,
            Key::NumPadRightBrace => 0x400000B9,
            Key::NumPadTab => 0x400000BA,
            Key::NumPadBackspace => 0x400000BB,
            Key::NumPadA => 0x400000BC,
            Key::NumPadB => 0x400000BD,
            Key::NumPadC => 0x400000BE,
            Key::NumPadD => 0x400000BF,
            Key::NumPadE => 0x400000C0,
            Key::NumPadF => 0x400000C1,
            Key::NumPadXor => 0x400000C2,
            Key::NumPadPower => 0x400000C3,
            Key::NumPadPercent => 0x400000C4,
            Key::NumPadLess => 0x400000C5,
            Key::NumPadGreater => 0x400000C6,
            Key::NumPadAmpersand => 0x400000C7,
            Key::NumPadDblAmpersand => 0x400000C8,
            Key::NumPadVerticalBar => 0x400000C9,
            Key::NumPadDblVerticalBar => 0x400000CA,
            Key::NumPadColon => 0x400000CB,
            Key::NumPadHash => 0x400000CC,
            Key::NumPadSpace => 0x400000CD,
            Key::NumPadAt => 0x400000CE,
            Key::NumPadExclam => 0x400000CF,
            Key::NumPadMemStore => 0x400000D0,
            Key::NumPadMemRecall => 0x400000D1,
            Key::NumPadMemClear => 0x400000D2,
            Key::NumPadMemAdd => 0x400000D3,
            Key::NumPadMemSubtract => 0x400000D4,
            Key::NumPadMemMultiply => 0x400000D5,
            Key::NumPadMemDivide => 0x400000D6,
            Key::NumPadPlusMinus => 0x400000D7,
            Key::NumPadClear => 0x400000D8,
            Key::NumPadClearEntry => 0x400000D9,
            Key::NumPadBinary => 0x400000DA,
            Key::NumPadOctal => 0x400000DB,
            Key::NumPadDecimal => 0x400000DC,
            Key::NumPadHexadecimal => 0x400000DD,
            Key::LCtrl => 0x400000E0,
            Key::LShift => 0x400000E1,
            Key::LAlt => 0x400000E2,
            Key::LGui => 0x400000E3,
            Key::RCtrl => 0x400000E4,
            Key::RShift => 0x400000E5,
            Key::RAlt => 0x400000E6,
            Key::RGui => 0x400000E7,
            Key::Mode => 0x40000101,
            Key::AudioNext => 0x40000102,
            Key::AudioPrev => 0x40000103,
            Key::AudioStop => 0x40000104,
            Key::AudioPlay => 0x40000105,
            Key::AudioMute => 0x40000106,
            Key::MediaSelect => 0x40000107,
            Key::Www => 0x40000108,
            Key::Mail => 0x40000109,
            Key::Calculator => 0x4000010A,
            Key::Computer => 0x4000010B,
            Key::AcSearch => 0x4000010C,
            Key::AcHome => 0x4000010D,
            Key::AcBack => 0x4000010E,
            Key::AcForward => 0x4000010F,
            Key::AcStop => 0x40000110,
            Key::AcRefresh => 0x40000111,
            Key::AcBookmarks => 0x40000112,
            Key::BrightnessDown => 0x40000113,
            Key::BrightnessUp => 0x40000114,
            Key::DisplaySwitch => 0x40000115,
            Key::KbdIllumToggle => 0x40000116,
            Key::KbdIllumDown => 0x40000117,
            Key::KbdIllumUp => 0x40000118,
            Key::Eject => 0x40000119,
            Key::Sleep => 0x4000011A,
        }
    }
}

impl vstd::std_specs::convert::FromSpecImpl<Key> for u32 {
    open spec fn obeys_from_spec() -> bool {
        true
    }

    open spec fn from_spec(key: Key) -> u32 {
        key.spec_code() as u32
    }
}

} // verus!
