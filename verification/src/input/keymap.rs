//! Key identification: the set of keys the capture pipeline names, their
//! kernel input-event codes, display names for on-screen rendering, and the
//! modifier classification.

use vstd::prelude::*;

verus! {

/// A physical key, identified independently of any layout. The set covers
/// the keys the display tables name; anything else is dropped at conversion.
#[derive(Debug, Clone, Copy, PartialEq, Eq, Hash, Structural)]
pub enum Key {
    LeftCtrl,
    RightCtrl,
    LeftShift,
    RightShift,
    LeftAlt,
    RightAlt,
    LeftMeta,
    RightMeta,
    CapsLock,
    F1,
    F2,
    F3,
    F4,
    F5,
    F6,
    F7,
    F8,
    F9,
    F10,
    F11,
    F12,
    Esc,
    Tab,
    Backspace,
    Enter,
    Space,
    Insert,
    Delete,
    Home,
    End,
    PageUp,
    PageDown,
    Up,
    Down,
    Left,
    Right,
    Digit0,
    Digit1,
    Digit2,
    Digit3,
    Digit4,
    Digit5,
    Digit6,
    Digit7,
    Digit8,
    Digit9,
    A,
    B,
    C,
    D,
    E,
    F,
    G,
    H,
    I,
    J,
    K,
    L,
    M,
    N,
    O,
    P,
    Q,
    R,
    S,
    T,
    U,
    V,
    W,
    X,
    Y,
    Z,
    Minus,
    Equal,
    LeftBrace,
    RightBrace,
    Semicolon,
    Apostrophe,
    Grave,
    Backslash,
    Comma,
    Dot,
    Slash,
    NumLock,
    Kp0,
    Kp1,
    Kp2,
    Kp3,
    Kp4,
    Kp5,
    Kp6,
    Kp7,
    Kp8,
    Kp9,
    KpPlus,
    KpMinus,
    KpAsterisk,
    KpSlash,
    KpDot,
    KpEnter,
    Mute,
    VolumeDown,
    VolumeUp,
    PlayPause,
    StopCd,
    PreviousSong,
    NextSong,
    Print,
    ScrollLock,
    Pause,
    SysRq,
    Fn,
}

impl Key {
    /// The kernel input-event code of the key.
    pub open spec fn code_spec(self) -> u16 {
        match self {
            Key::LeftCtrl => 29,
            Key::RightCtrl => 97,
            Key::LeftShift => 42,
            Key::RightShift => 54,
            Key::LeftAlt => 56,
            Key::RightAlt => 100,
            Key::LeftMeta => 125,
            Key::RightMeta => 126,
            Key::CapsLock => 58,
            Key::F1 => 59,
            Key::F2 => 60,
            Key::F3 => 61,
            Key::F4 => 62,
            Key::F5 => 63,
            Key::F6 => 64,
            Key::F7 => 65,
            Key::F8 => 66,
            Key::F9 => 67,
            Key::F10 => 68,
            Key::F11 => 87,
            Key::F12 => 88,
            Key::Esc => 1,
            Key::Tab => 15,
            Key::Backspace => 14,
            Key::Enter => 28,
            Key::Space => 57,
            Key::Insert => 110,
            Key::Delete => 111,
            Key::Home => 102,
            Key::End => 107,
            Key::PageUp => 104,
            Key::PageDown => 109,
            Key::Up => 103,
            Key::Down => 108,
            Key::Left => 105,
            Key::Right => 106,
            Key::Digit0 => 11,
            Key::Digit1 => 2,
            Key::Digit2 => 3,
            Key::Digit3 => 4,
            Key::Digit4 => 5,
            Key::Digit5 => 6,
            Key::Digit6 => 7,
            Key::Digit7 => 8,
            Key::Digit8 => 9,
            Key::Digit9 => 10,
            Key::A => 30,
            Key::B => 48,
            Key::C => 46,
            Key::D => 32,
            Key::E => 18,
            Key::F => 33,
            Key::G => 34,
            Key::H => 35,
            Key::I => 23,
            Key::J => 36,
            Key::K => 37,
            Key::L => 38,
            Key::M => 50,
            Key::N => 49,
            Key::O => 24,
            Key::P => 25,
            Key::Q => 16,
            Key::R => 19,
            Key::S => 31,
            Key::T => 20,
            Key::U => 22,
            Key::V => 47,
            Key::W => 17,
            Key::X => 45,
            Key::Y => 21,
            Key::Z => 44,
            Key::Minus => 12,
            Key::Equal => 13,
            Key::LeftBrace => 26,
            Key::RightBrace => 27,
            Key::Semicolon => 39,
            Key::Apostrophe => 40,
            Key::Grave => 41,
            Key::Backslash => 43,
            Key::Comma => 51,
            Key::Dot => 52,
            Key::Slash => 53,
            Key::NumLock => 69,
            Key::Kp0 => 82,
            Key::Kp1 => 79,
            Key::Kp2 => 80,
            Key::Kp3 => 81,
            Key::Kp4 => 75,
            Key::Kp5 => 76,
            Key::Kp6 => 77,
            Key::Kp7 => 71,
            Key::Kp8 => 72,
            Key::Kp9 => 73,
            Key::KpPlus => 78,
            Key::KpMinus => 74,
            Key::KpAsterisk => 55,
            Key::KpSlash => 98,
            Key::KpDot => 83,
            Key::KpEnter => 96,
            Key::Mute => 113,
            Key::VolumeDown => 114,
            Key::VolumeUp => 115,
            Key::PlayPause => 164,
            Key::StopCd => 166,
            Key::PreviousSong => 165,
            Key::NextSong => 163,
            Key::Print => 210,
            Key::ScrollLock => 70,
            Key::Pause => 119,
            Key::SysRq => 99,
            Key::Fn => 464,
        }
    }

    /// The kernel input-event code of the key.
    pub fn code(self) -> (r: u16)
        ensures
            r == self.code_spec(),
    {
        match self {
            Key::LeftCtrl => 29,
            Key::RightCtrl => 97,
            Key::LeftShift => 42,
            Key::RightShift => 54,
            Key::LeftAlt => 56,
            Key::RightAlt => 100,
            Key::LeftMeta => 125,
            Key::RightMeta => 126,
            Key::CapsLock => 58,
            Key::F1 => 59,
            Key::F2 => 60,
            Key::F3 => 61,
            Key::F4 => 62,
            Key::F5 => 63,
            Key::F6 => 64,
            Key::F7 => 65,
            Key::F8 => 66,
            Key::F9 => 67,
            Key::F10 => 68,
            Key::F11 => 87,
            Key::F12 => 88,
            Key::Esc => 1,
            Key::Tab => 15,
            Key::Backspace => 14,
            Key::Enter => 28,
            Key::Space => 57,
            Key::Insert => 110,
            Key::Delete => 111,
            Key::Home => 102,
            Key::End => 107,
            Key::PageUp => 104,
            Key::PageDown => 109,
            Key::Up => 103,
            Key::Down => 108,
            Key::Left => 105,
            Key::Right => 106,
            Key::Digit0 => 11,
            Key::Digit1 => 2,
            Key::Digit2 => 3,
            Key::Digit3 => 4,
            Key::Digit4 => 5,
            Key::Digit5 => 6,
            Key::Digit6 => 7,
            Key::Digit7 => 8,
            Key::Digit8 => 9,
            Key::Digit9 => 10,
            Key::A => 30,
            Key::B => 48,
            Key::C => 46,
            Key::D => 32,
            Key::E => 18,
            Key::F => 33,
            Key::G => 34,
            Key::H => 35,
            Key::I => 23,
            Key::J => 36,
            Key::K => 37,
            Key::L => 38,
            Key::M => 50,
            Key::N => 49,
            Key::O => 24,
            Key::P => 25,
            Key::Q => 16,
            Key::R => 19,
            Key::S => 31,
            Key::T => 20,
            Key::U => 22,
            Key::V => 47,
            Key::W => 17,
            Key::X => 45,
            Key::Y => 21,
            Key::Z => 44,
            Key::Minus => 12,
            Key::Equal => 13,
            Key::LeftBrace => 26,
            Key::RightBrace => 27,
            Key::Semicolon => 39,
            Key::Apostrophe => 40,
            Key::Grave => 41,
            Key::Backslash => 43,
            Key::Comma => 51,
            Key::Dot => 52,
            Key::Slash => 53,
            Key::NumLock => 69,
            Key::Kp0 => 82,
            Key::Kp1 => 79,
            Key::Kp2 => 80,
            Key::Kp3 => 81,
            Key::Kp4 => 75,
            Key::Kp5 => 76,
            Key::Kp6 => 77,
            Key::Kp7 => 71,
            Key::Kp8 => 72,
            Key::Kp9 => 73,
            Key::KpPlus => 78,
            Key::KpMinus => 74,
            Key::KpAsterisk => 55,
            Key::KpSlash => 98,
            Key::KpDot => 83,
            Key::KpEnter => 96,
            Key::Mute => 113,
            Key::VolumeDown => 114,
            Key::VolumeUp => 115,
            Key::PlayPause => 164,
            Key::StopCd => 166,
            Key::PreviousSong => 165,
            Key::NextSong => 163,
            Key::Print => 210,
            Key::ScrollLock => 70,
            Key::Pause => 119,
            Key::SysRq => 99,
            Key::Fn => 464,
        }
    }

    /// The key a kernel input-event code names, if the library tracks it.
    pub fn from_code(c: u16) -> (r: Option<Key>)
        ensures
            r matches Some(k) ==> k.code_spec() == c,
            r is None ==> (forall|k: Key| #[trigger] k.code_spec() != c),
    {
        let r = match c {
            29 => Some(Key::LeftCtrl),
            97 => Some(Key::RightCtrl),
            42 => Some(Key::LeftShift),
            54 => Some(Key::RightShift),
            56 => Some(Key::LeftAlt),
            100 => Some(Key::RightAlt),
            125 => Some(Key::LeftMeta),
            126 => Some(Key::RightMeta),
            58 => Some(Key::CapsLock),
            59 => Some(Key::F1),
            60 => Some(Key::F2),
            61 => Some(Key::F3),
            62 => Some(Key::F4),
            63 => Some(Key::F5),
            64 => Some(Key::F6),
            65 => Some(Key::F7),
            66 => Some(Key::F8),
            67 => Some(Key::F9),
            68 => Some(Key::F10),
            87 => Some(Key::F11),
            88 => Some(Key::F12),
            1 => Some(Key::Esc),
            15 => Some(Key::Tab),
            14 => Some(Key::Backspace),
            28 => Some(Key::Enter),
            57 => Some(Key::Space),
            110 => Some(Key::Insert),
            111 => Some(Key::Delete),
            102 => Some(Key::Home),
            107 => Some(Key::End),
            104 => Some(Key::PageUp),
            109 => Some(Key::PageDown),
            103 => Some(Key::Up),
            108 => Some(Key::Down),
            105 => Some(Key::Left),
            106 => Some(Key::Right),
            11 => Some(Key::Digit0),
            2 => Some(Key::Digit1),
            3 => Some(Key::Digit2),
            4 => Some(Key::Digit3),
            5 => Some(Key::Digit4),
            6 => Some(Key::Digit5),
            7 => Some(Key::Digit6),
            8 => Some(Key::Digit7),
            9 => Some(Key::Digit8),
            10 => Some(Key::Digit9),
            30 => Some(Key::A),
            48 => Some(Key::B),
            46 => Some(Key::C),
            32 => Some(Key::D),
            18 => Some(Key::E),
            33 => Some(Key::F),
            34 => Some(Key::G),
            35 => Some(Key::H),
            23 => Some(Key::I),
            36 => Some(Key::J),
            37 => Some(Key::K),
            38 => Some(Key::L),
            50 => Some(Key::M),
            49 => Some(Key::N),
            24 => Some(Key::O),
            25 => Some(Key::P),
            16 => Some(Key::Q),
            19 => Some(Key::R),
            31 => Some(Key::S),
            20 => Some(Key::T),
            22 => Some(Key::U),
            47 => Some(Key::V),
            17 => Some(Key::W),
            45 => Some(Key::X),
            21 => Some(Key::Y),
            44 => Some(Key::Z),
            12 => Some(Key::Minus),
            13 => Some(Key::Equal),
            26 => Some(Key::LeftBrace),
            27 => Some(Key::RightBrace),
            39 => Some(Key::Semicolon),
            40 => Some(Key::Apostrophe),
            41 => Some(Key::Grave),
            43 => Some(Key::Backslash),
            51 => Some(Key::Comma),
            52 => Some(Key::Dot),
            53 => Some(Key::Slash),
            69 => Some(Key::NumLock),
            82 => Some(Key::Kp0),
            79 => Some(Key::Kp1),
            80 => Some(Key::Kp2),
            81 => Some(Key::Kp3),
            75 => Some(Key::Kp4),
            76 => Some(Key::Kp5),
            77 => Some(Key::Kp6),
            71 => Some(Key::Kp7),
            72 => Some(Key::Kp8),
            73 => Some(Key::Kp9),
            78 => Some(Key::KpPlus),
            74 => Some(Key::KpMinus),
            55 => Some(Key::KpAsterisk),
            98 => Some(Key::KpSlash),
            83 => Some(Key::KpDot),
            96 => Some(Key::KpEnter),
            113 => Some(Key::Mute),
            114 => Some(Key::VolumeDown),
            115 => Some(Key::VolumeUp),
            164 => Some(Key::PlayPause),
            166 => Some(Key::StopCd),
            165 => Some(Key::PreviousSong),
            163 => Some(Key::NextSong),
            210 => Some(Key::Print),
            70 => Some(Key::ScrollLock),
            119 => Some(Key::Pause),
            99 => Some(Key::SysRq),
            464 => Some(Key::Fn),
            _ => None,
        };
        r
    }
}

/// The display text for a key.
pub open spec fn key_name_spec(k: Key) -> Seq<char> {
    match k {
        Key::LeftCtrl => "󰘴"@,
        Key::RightCtrl => "󰘴"@,
        Key::LeftShift => "󰘶"@,
        Key::RightShift => "󰘶"@,
        Key::LeftAlt => "󰘵"@,
        Key::RightAlt => "󰘵"@,
        Key::LeftMeta => "󰖳"@,
        Key::RightMeta => "󰖳"@,
        Key::CapsLock => "󰪛"@,
        Key::F1 => "F1"@,
        Key::F2 => "F2"@,
        Key::F3 => "F3"@,
        Key::F4 => "F4"@,
        Key::F5 => "F5"@,
        Key::F6 => "F6"@,
        Key::F7 => "F7"@,
        Key::F8 => "F8"@,
        Key::F9 => "F9"@,
        Key::F10 => "F10"@,
        Key::F11 => "F11"@,
        Key::F12 => "F12"@,
        Key::Esc => "󱊷"@,
        Key::Tab => "󰌒"@,
        Key::Backspace => "󰭜"@,
        Key::Enter => "󰌑"@,
        Key::Space => "󱁐"@,
        Key::Insert => "󰎂"@,
        Key::Delete => "󰹾"@,
        Key::Home => "󰋜"@,
        Key::End => "󰟀"@,
        Key::PageUp => "󰞕"@,
        Key::PageDown => "󰞒"@,
        Key::Up => "󰁝"@,
        Key::Down => "󰁅"@,
        Key::Left => "󰁍"@,
        Key::Right => "󰁔"@,
        Key::Digit0 => "0"@,
        Key::Digit1 => "1"@,
        Key::Digit2 => "2"@,
        Key::Digit3 => "3"@,
        Key::Digit4 => "4"@,
        Key::Digit5 => "5"@,
        Key::Digit6 => "6"@,
        Key::Digit7 => "7"@,
        Key::Digit8 => "8"@,
        Key::Digit9 => "9"@,
        Key::A => "A"@,
        Key::B => "B"@,
        Key::C => "C"@,
        Key::D => "D"@,
        Key::E => "E"@,
        Key::F => "F"@,
        Key::G => "G"@,
        Key::H => "H"@,
        Key::I => "I"@,
        Key::J => "J"@,
        Key::K => "K"@,
        Key::L => "L"@,
        Key::M => "M"@,
        Key::N => "N"@,
        Key::O => "O"@,
        Key::P => "P"@,
        Key::Q => "Q"@,
        Key::R => "R"@,
        Key::S => "S"@,
        Key::T => "T"@,
        Key::U => "U"@,
        Key::V => "V"@,
        Key::W => "W"@,
        Key::X => "X"@,
        Key::Y => "Y"@,
        Key::Z => "Z"@,
        Key::Minus => "-"@,
        Key::Equal => "="@,
        Key::LeftBrace => "["@,
        Key::RightBrace => "]"@,
        Key::Semicolon => ";"@,
        Key::Apostrophe => "'"@,
        Key::Grave => "`"@,
        Key::Backslash => "\\"@,
        Key::Comma => ","@,
        Key::Dot => "."@,
        Key::Slash => "/"@,
        Key::NumLock => "NumLock"@,
        Key::Kp0 => "Num0"@,
        Key::Kp1 => "Num1"@,
        Key::Kp2 => "Num2"@,
        Key::Kp3 => "Num3"@,
        Key::Kp4 => "Num4"@,
        Key::Kp5 => "Num5"@,
        Key::Kp6 => "Num6"@,
        Key::Kp7 => "Num7"@,
        Key::Kp8 => "Num8"@,
        Key::Kp9 => "Num9"@,
        Key::KpPlus => "Num+"@,
        Key::KpMinus => "Num-"@,
        Key::KpAsterisk => "Num*"@,
        Key::KpSlash => "Num/"@,
        Key::KpDot => "Num."@,
        Key::KpEnter => "NumEnter"@,
        Key::Mute => "Mute"@,
        Key::VolumeDown => "Vol-"@,
        Key::VolumeUp => "Vol+"@,
        Key::PlayPause => "Play/Pause"@,
        Key::StopCd => "Stop"@,
        Key::PreviousSong => "Prev"@,
        Key::NextSong => "Next"@,
        Key::Print => "Print"@,
        Key::ScrollLock => "ScrollLock"@,
        Key::Pause => "Pause"@,
        Key::SysRq => "SysRq"@,
        Key::Fn => "Fn"@,
    }
}

/// The display text for a key, as rendered in the keystroke overlay.
pub fn key_to_display_name(k: Key) -> (r: String)
    ensures
        r@ == key_name_spec(k),
{
    let s: &str = match k {
        Key::LeftCtrl => "󰘴",
        Key::RightCtrl => "󰘴",
        Key::LeftShift => "󰘶",
        Key::RightShift => "󰘶",
        Key::LeftAlt => "󰘵",
        Key::RightAlt => "󰘵",
        Key::LeftMeta => "󰖳",
        Key::RightMeta => "󰖳",
        Key::CapsLock => "󰪛",
        Key::F1 => "F1",
        Key::F2 => "F2",
        Key::F3 => "F3",
        Key::F4 => "F4",
        Key::F5 => "F5",
        Key::F6 => "F6",
        Key::F7 => "F7",
        Key::F8 => "F8",
        Key::F9 => "F9",
        Key::F10 => "F10",
        Key::F11 => "F11",
        Key::F12 => "F12",
        Key::Esc => "󱊷",
        Key::Tab => "󰌒",
        Key::Backspace => "󰭜",
        Key::Enter => "󰌑",
        Key::Space => "󱁐",
        Key::Insert => "󰎂",
        Key::Delete => "󰹾",
        Key::Home => "󰋜",
        Key::End => "󰟀",
        Key::PageUp => "󰞕",
        Key::PageDown => "󰞒",
        Key::Up => "󰁝",
        Key::Down => "󰁅",
        Key::Left => "󰁍",
        Key::Right => "󰁔",
        Key::Digit0 => "0",
        Key::Digit1 => "1",
        Key::Digit2 => "2",
        Key::Digit3 => "3",
        Key::Digit4 => "4",
        Key::Digit5 => "5",
        Key::Digit6 => "6",
        Key::Digit7 => "7",
        Key::Digit8 => "8",
        Key::Digit9 => "9",
        Key::A => "A",
        Key::B => "B",
        Key::C => "C",
        Key::D => "D",
        Key::E => "E",
        Key::F => "F",
        Key::G => "G",
        Key::H => "H",
        Key::I => "I",
        Key::J => "J",
        Key::K => "K",
        Key::L => "L",
        Key::M => "M",
        Key::N => "N",
        Key::O => "O",
        Key::P => "P",
        Key::Q => "Q",
        Key::R => "R",
        Key::S => "S",
        Key::T => "T",
        Key::U => "U",
        Key::V => "V",
        Key::W => "W",
        Key::X => "X",
        Key::Y => "Y",
        Key::Z => "Z",
        Key::Minus => "-",
        Key::Equal => "=",
        Key::LeftBrace => "[",
        Key::RightBrace => "]",
        Key::Semicolon => ";",
        Key::Apostrophe => "'",
        Key::Grave => "`",
        Key::Backslash => "\\",
        Key::Comma => ",",
        Key::Dot => ".",
        Key::Slash => "/",
        Key::NumLock => "NumLock",
        Key::Kp0 => "Num0",
        Key::Kp1 => "Num1",
        Key::Kp2 => "Num2",
        Key::Kp3 => "Num3",
        Key::Kp4 => "Num4",
        Key::Kp5 => "Num5",
        Key::Kp6 => "Num6",
        Key::Kp7 => "Num7",
        Key::Kp8 => "Num8",
        Key::Kp9 => "Num9",
        Key::KpPlus => "Num+",
        Key::KpMinus => "Num-",
        Key::KpAsterisk => "Num*",
        Key::KpSlash => "Num/",
        Key::KpDot => "Num.",
        Key::KpEnter => "NumEnter",
        Key::Mute => "Mute",
        Key::VolumeDown => "Vol-",
        Key::VolumeUp => "Vol+",
        Key::PlayPause => "Play/Pause",
        Key::StopCd => "Stop",
        Key::PreviousSong => "Prev",
        Key::NextSong => "Next",
        Key::Print => "Print",
        Key::ScrollLock => "ScrollLock",
        Key::Pause => "Pause",
        Key::SysRq => "SysRq",
        Key::Fn => "Fn",
    };
    s.to_owned()
}

/// The modifier keys: both hands of ctrl, shift, alt and the logo key.
pub open spec fn is_modifier_spec(k: Key) -> bool {
    ||| k is LeftCtrl
    ||| k is RightCtrl
    ||| k is LeftShift
    ||| k is RightShift
    ||| k is LeftAlt
    ||| k is RightAlt
    ||| k is LeftMeta
    ||| k is RightMeta
}

/// Whether the key is a modifier.
pub fn is_modifier(k: Key) -> (r: bool)
    ensures
        r == is_modifier_spec(k),
{
    matches!(
        k,
        Key::LeftCtrl | Key::RightCtrl | Key::LeftShift | Key::RightShift | Key::LeftAlt
            | Key::RightAlt | Key::LeftMeta | Key::RightMeta,
    )
}

/// Whether the key is a logo ("super") key, either hand.
pub fn is_super_key(k: Key) -> (r: bool)
    ensures
        r == (k is LeftMeta || k is RightMeta),
{
    matches!(k, Key::LeftMeta | Key::RightMeta)
}

/// The left-hand instance that stands for a modifier of either hand.
pub open spec fn normalize_modifier_spec(k: Key) -> Key {
    match k {
        Key::RightCtrl => Key::LeftCtrl,
        Key::RightShift => Key::LeftShift,
        Key::RightAlt => Key::LeftAlt,
        Key::RightMeta => Key::LeftMeta,
        _ => k,
    }
}

/// Map a right-hand modifier to its left-hand twin; other keys pass through.
pub fn normalize_modifier(k: Key) -> (r: Key)
    ensures
        r == normalize_modifier_spec(k),
{
    match k {
        Key::RightCtrl => Key::LeftCtrl,
        Key::RightShift => Key::LeftShift,
        Key::RightAlt => Key::LeftAlt,
        Key::RightMeta => Key::LeftMeta,
        _ => k,
    }
}

/// A key event prepared for display: the key, its display text, and whether
/// this is a press or an auto-repeat.
#[derive(Debug, Clone)]
pub struct KeyDisplay {
    pub key: Key,
    pub display_name: String,
    pub pressed: bool,
    pub is_repeat: bool,
}

impl KeyDisplay {
    /// A display entry for a press or release.
    pub fn new(key: Key, pressed: bool) -> (r: Self)
        ensures
            r.key == key,
            r.display_name@ == key_name_spec(key),
            r.pressed == pressed,
            !r.is_repeat,
    {
        let display_name = key_to_display_name(key);
        Self { key, display_name, pressed, is_repeat: false }
    }

    /// A display entry for an auto-repeated press.
    pub fn new_repeat(key: Key) -> (r: Self)
        ensures
            r.key == key,
            r.display_name@ == key_name_spec(key),
            r.pressed,
            r.is_repeat,
    {
        let display_name = key_to_display_name(key);
        Self { key, display_name, pressed: true, is_repeat: true }
    }
}

} // verus!
