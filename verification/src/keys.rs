//! The keys of a keyboard, named by their place on a standard layout.

use vstd::prelude::*;

verus! {

/// A key, identified by where it sits rather than by what it types. A key
/// that has no name here is `Unknown` with the code that the platform gave.
#[derive(Clone, Copy, Debug, PartialEq, Eq, Hash, Structural)]
pub enum Key {
    Alt,
    AltGr,
    Backspace,
    CapsLock,
    ControlLeft,
    ControlRight,
    Delete,
    DownArrow,
    End,
    Escape,
    F1,
    F10,
    F11,
    F12,
    F2,
    F3,
    F4,
    F5,
    F6,
    F7,
    F8,
    F9,
    Home,
    LeftArrow,
    MetaLeft,
    MetaRight,
    PageDown,
    PageUp,
    Return,
    RightArrow,
    ShiftLeft,
    ShiftRight,
    Space,
    Tab,
    UpArrow,
    PrintScreen,
    ScrollLock,
    Pause,
    NumLock,
    BackQuote,
    Num1,
    Num2,
    Num3,
    Num4,
    Num5,
    Num6,
    Num7,
    Num8,
    Num9,
    Num0,
    Minus,
    Equal,
    KeyQ,
    KeyW,
    KeyE,
    KeyR,
    KeyT,
    KeyY,
    KeyU,
    KeyI,
    KeyO,
    KeyP,
    LeftBracket,
    RightBracket,
    KeyA,
    KeyS,
    KeyD,
    KeyF,
    KeyG,
    KeyH,
    KeyJ,
    KeyK,
    KeyL,
    SemiColon,
    Quote,
    BackSlash,
    IntlBackslash,
    KeyZ,
    KeyX,
    KeyC,
    KeyV,
    KeyB,
    KeyN,
    KeyM,
    Comma,
    Dot,
    Slash,
    Insert,
    KpReturn,
    KpMinus,
    KpPlus,
    KpMultiply,
    KpDivide,
    Kp0,
    Kp1,
    Kp2,
    Kp3,
    Kp4,
    Kp5,
    Kp6,
    Kp7,
    Kp8,
    Kp9,
    KpDelete,
    Function,
    Unknown(u32),
}

/// The number of keys that have a name.
pub const NAMED_KEYS: u64 = 105;

impl Key {
    /// A number that tells every key from every other: a named key has its
    /// place in the list of names, an unnamed one has its platform code
    /// behind the last of them.
    pub open spec fn code_of(self) -> int {
        match self {
            Key::Alt => 0,
            Key::AltGr => 1,
            Key::Backspace => 2,
            Key::CapsLock => 3,
            Key::ControlLeft => 4,
            Key::ControlRight => 5,
            Key::Delete => 6,
            Key::DownArrow => 7,
            Key::End => 8,
            Key::Escape => 9,
            Key::F1 => 10,
            Key::F10 => 11,
            Key::F11 => 12,
            Key::F12 => 13,
            Key::F2 => 14,
            Key::F3 => 15,
            Key::F4 => 16,
            Key::F5 => 17,
            Key::F6 => 18,
            Key::F7 => 19,
            Key::F8 => 20,
            Key::F9 => 21,
            Key::Home => 22,
            Key::LeftArrow => 23,
            Key::MetaLeft => 24,
            Key::MetaRight => 25,
            Key::PageDown => 26,
            Key::PageUp => 27,
            Key::Return => 28,
            Key::RightArrow => 29,
            Key::ShiftLeft => 30,
            Key::ShiftRight => 31,
            Key::Space => 32,
            Key::Tab => 33,
            Key::UpArrow => 34,
            Key::PrintScreen => 35,
            Key::ScrollLock => 36,
            Key::Pause => 37,
            Key::NumLock => 38,
            Key::BackQuote => 39,
            Key::Num1 => 40,
            Key::Num2 => 41,
            Key::Num3 => 42,
            Key::Num4 => 43,
            Key::Num5 => 44,
            Key::Num6 => 45,
            Key::Num7 => 46,
            Key::Num8 => 47,
            Key::Num9 => 48,
            Key::Num0 => 49,
            Key::Minus => 50,
            Key::Equal => 51,
            Key::KeyQ => 52,
            Key::KeyW => 53,
            Key::KeyE => 54,
            Key::KeyR => 55,
            Key::KeyT => 56,
            Key::KeyY => 57,
            Key::KeyU => 58,
            Key::KeyI => 59,
            Key::KeyO => 60,
            Key::KeyP => 61,
            Key::LeftBracket => 62,
            Key::RightBracket => 63,
            Key::KeyA => 64,
            Key::KeyS => 65,
            Key::KeyD => 66,
            Key::KeyF => 67,
            Key::KeyG => 68,
            Key::KeyH => 69,
            Key::KeyJ => 70,
            Key::KeyK => 71,
            Key::KeyL => 72,
            Key::SemiColon => 73,
            Key::Quote => 74,
            Key::BackSlash => 75,
            Key::IntlBackslash => 76,
            Key::KeyZ => 77,
            Key::KeyX => 78,
            Key::KeyC => 79,
            Key::KeyV => 80,
            Key::KeyB => 81,
            Key::KeyN => 82,
            Key::KeyM => 83,
            Key::Comma => 84,
            Key::Dot => 85,
            Key::Slash => 86,
            Key::Insert => 87,
            Key::KpReturn => 88,
            Key::KpMinus => 89,
            Key::KpPlus => 90,
            Key::KpMultiply => 91,
            Key::KpDivide => 92,
            Key::Kp0 => 93,
            Key::Kp1 => 94,
            Key::Kp2 => 95,
            Key::Kp3 => 96,
            Key::Kp4 => 97,
            Key::Kp5 => 98,
            Key::Kp6 => 99,
            Key::Kp7 => 100,
            Key::Kp8 => 101,
            Key::Kp9 => 102,
            Key::KpDelete => 103,
            Key::Function => 104,
            Key::Unknown(code) => NAMED_KEYS + code,
        }
    }

    /// The number of the key.
    pub fn code(self) -> (code: u64)
        ensures
            code == self.code_of(),
    {
        match self {
            Key::Alt => 0,
            Key::AltGr => 1,
            Key::Backspace => 2,
            Key::CapsLock => 3,
            Key::ControlLeft => 4,
            Key::ControlRight => 5,
            Key::Delete => 6,
            Key::DownArrow => 7,
            Key::End => 8,
            Key::Escape => 9,
            Key::F1 => 10,
            Key::F10 => 11,
            Key::F11 => 12,
            Key::F12 => 13,
            Key::F2 => 14,
            Key::F3 => 15,
            Key::F4 => 16,
            Key::F5 => 17,
            Key::F6 => 18,
            Key::F7 => 19,
            Key::F8 => 20,
            Key::F9 => 21,
            Key::Home => 22,
            Key::LeftArrow => 23,
            Key::MetaLeft => 24,
            Key::MetaRight => 25,
            Key::PageDown => 26,
            Key::PageUp => 27,
            Key::Return => 28,
            Key::RightArrow => 29,
            Key::ShiftLeft => 30,
            Key::ShiftRight => 31,
            Key::Space => 32,
            Key::Tab => 33,
            Key::UpArrow => 34,
            Key::PrintScreen => 35,
            Key::ScrollLock => 36,
            Key::Pause => 37,
            Key::NumLock => 38,
            Key::BackQuote => 39,
            Key::Num1 => 40,
            Key::Num2 => 41,
            Key::Num3 => 42,
            Key::Num4 => 43,
            Key::Num5 => 44,
            Key::Num6 => 45,
            Key::Num7 => 46,
            Key::Num8 => 47,
            Key::Num9 => 48,
            Key::Num0 => 49,
            Key::Minus => 50,
            Key::Equal => 51,
            Key::KeyQ => 52,
            Key::KeyW => 53,
            Key::KeyE => 54,
            Key::KeyR => 55,
            Key::KeyT => 56,
            Key::KeyY => 57,
            Key::KeyU => 58,
            Key::KeyI => 59,
            Key::KeyO => 60,
            Key::KeyP => 61,
            Key::LeftBracket => 62,
            Key::RightBracket => 63,
            Key::KeyA => 64,
            Key::KeyS => 65,
            Key::KeyD => 66,
            Key::KeyF => 67,
            Key::KeyG => 68,
            Key::KeyH => 69,
            Key::KeyJ => 70,
            Key::KeyK => 71,
            Key::KeyL => 72,
            Key::SemiColon => 73,
            Key::Quote => 74,
            Key::BackSlash => 75,
            Key::IntlBackslash => 76,
            Key::KeyZ => 77,
            Key::KeyX => 78,
            Key::KeyC => 79,
            Key::KeyV => 80,
            Key::KeyB => 81,
            Key::KeyN => 82,
            Key::KeyM => 83,
            Key::Comma => 84,
            Key::Dot => 85,
            Key::Slash => 86,
            Key::Insert => 87,
            Key::KpReturn => 88,
            Key::KpMinus => 89,
            Key::KpPlus => 90,
            Key::KpMultiply => 91,
            Key::KpDivide => 92,
            Key::Kp0 => 93,
            Key::Kp1 => 94,
            Key::Kp2 => 95,
            Key::Kp3 => 96,
            Key::Kp4 => 97,
            Key::Kp5 => 98,
            Key::Kp6 => 99,
            Key::Kp7 => 100,
            Key::Kp8 => 101,
            Key::Kp9 => 102,
            Key::KpDelete => 103,
            Key::Function => 104,
            Key::Unknown(code) => NAMED_KEYS + code as u64,
        }
    }
}

/// The key of a number: the inverse of `Key::code_of`.
pub open spec fn key_of_code(code: int) -> Key {
    if code == 0 {
        Key::Alt
    }     else if code == 1 {
        Key::AltGr
    }     else if code == 2 {
        Key::Backspace
    }     else if code == 3 {
        Key::CapsLock
    }     else if code == 4 {
        Key::ControlLeft
    }     else if code == 5 {
        Key::ControlRight
    }     else if code == 6 {
        Key::Delete
    }     else if code == 7 {
        Key::DownArrow
    }     else if code == 8 {
        Key::End
    }     else if code == 9 {
        Key::Escape
    }     else if code == 10 {
        Key::F1
    }     else if code == 11 {
        Key::F10
    }     else if code == 12 {
        Key::F11
    }     else if code == 13 {
        Key::F12
    }     else if code == 14 {
        Key::F2
    }     else if code == 15 {
        Key::F3
    }     else if code == 16 {
        Key::F4
    }     else if code == 17 {
        Key::F5
    }     else if code == 18 {
        Key::F6
    }     else if code == 19 {
        Key::F7
    }     else if code == 20 {
        Key::F8
    }     else if code == 21 {
        Key::F9
    }     else if code == 22 {
        Key::Home
    }     else if code == 23 {
        Key::LeftArrow
    }     else if code == 24 {
        Key::MetaLeft
    }     else if code == 25 {
        Key::MetaRight
    }     else if code == 26 {
        Key::PageDown
    }     else if code == 27 {
        Key::PageUp
    }     else if code == 28 {
        Key::Return
    }     else if code == 29 {
        Key::RightArrow
    }     else if code == 30 {
        Key::ShiftLeft
    }     else if code == 31 {
        Key::ShiftRight
    }     else if code == 32 {
        Key::Space
    }     else if code == 33 {
        Key::Tab
    }     else if code == 34 {
        Key::UpArrow
    }     else if code == 35 {
        Key::PrintScreen
    }     else if code == 36 {
        Key::ScrollLock
    }     else if code == 37 {
        Key::Pause
    }     else if code == 38 {
        Key::NumLock
    }     else if code == 39 {
        Key::BackQuote
    }     else if code == 40 {
        Key::Num1
    }     else if code == 41 {
        Key::Num2
    }     else if code == 42 {
        Key::Num3
    }     else if code == 43 {
        Key::Num4
    }     else if code == 44 {
        Key::Num5
    }     else if code == 45 {
        Key::Num6
    }     else if code == 46 {
        Key::Num7
    }     else if code == 47 {
        Key::Num8
    }     else if code == 48 {
        Key::Num9
    }     else if code == 49 {
        Key::Num0
    }     else if code == 50 {
        Key::Minus
    }     else if code == 51 {
        Key::Equal
    }     else if code == 52 {
        Key::KeyQ
    }     else if code == 53 {
        Key::KeyW
    }     else if code == 54 {
        Key::KeyE
    }     else if code == 55 {
        Key::KeyR
    }     else if code == 56 {
        Key::KeyT
    }     else if code == 57 {
        Key::KeyY
    }     else if code == 58 {
        Key::KeyU
    }     else if code == 59 {
        Key::KeyI
    }     else if code == 60 {
        Key::KeyO
    }     else if code == 61 {
        Key::KeyP
    }     else if code == 62 {
        Key::LeftBracket
    }     else if code == 63 {
        Key::RightBracket
    }     else if code == 64 {
        Key::KeyA
    }     else if code == 65 {
        Key::KeyS
    }     else if code == 66 {
        Key::KeyD
    }     else if code == 67 {
        Key::KeyF
    }     else if code == 68 {
        Key::KeyG
    }     else if code == 69 {
        Key::KeyH
    }     else if code == 70 {
        Key::KeyJ
    }     else if code == 71 {
        Key::KeyK
    }     else if code == 72 {
        Key::KeyL
    }     else if code == 73 {
        Key::SemiColon
    }     else if code == 74 {
        Key::Quote
    }     else if code == 75 {
        Key::BackSlash
    }     else if code == 76 {
        Key::IntlBackslash
    }     else if code == 77 {
        Key::KeyZ
    }     else if code == 78 {
        Key::KeyX
    }     else if code == 79 {
        Key::KeyC
    }     else if code == 80 {
        Key::KeyV
    }     else if code == 81 {
        Key::KeyB
    }     else if code == 82 {
        Key::KeyN
    }     else if code == 83 {
        Key::KeyM
    }     else if code == 84 {
        Key::Comma
    }     else if code == 85 {
        Key::Dot
    }     else if code == 86 {
        Key::Slash
    }     else if code == 87 {
        Key::Insert
    }     else if code == 88 {
        Key::KpReturn
    }     else if code == 89 {
        Key::KpMinus
    }     else if code == 90 {
        Key::KpPlus
    }     else if code == 91 {
        Key::KpMultiply
    }     else if code == 92 {
        Key::KpDivide
    }     else if code == 93 {
        Key::Kp0
    }     else if code == 94 {
        Key::Kp1
    }     else if code == 95 {
        Key::Kp2
    }     else if code == 96 {
        Key::Kp3
    }     else if code == 97 {
        Key::Kp4
    }     else if code == 98 {
        Key::Kp5
    }     else if code == 99 {
        Key::Kp6
    }     else if code == 100 {
        Key::Kp7
    }     else if code == 101 {
        Key::Kp8
    }     else if code == 102 {
        Key::Kp9
    }     else if code == 103 {
        Key::KpDelete
    }     else if code == 104 {
        Key::Function
    } else {
        Key::Unknown((code - NAMED_KEYS) as u32)
    }
}

/// The key of a number, where the number is that of a key: numbers beyond
/// those of the unnamed keys belong to none.
pub fn key_with_code(code: u64) -> (key: Option<Key>)
    ensures
        key is Some <==> code <= NAMED_KEYS + u32::MAX,
        key matches Some(found) ==> found == key_of_code(code as int) && found.code_of() == code,
{
    if code >= NAMED_KEYS {
        if code - NAMED_KEYS <= u32::MAX as u64 {
            Some(Key::Unknown((code - NAMED_KEYS) as u32))
        } else {
            None
        }
    } else {
        Some(named_key(code))
    }
}

fn named_key(code: u64) -> (key: Key)
    requires
        code < NAMED_KEYS,
    ensures
        key == key_of_code(code as int),
        key.code_of() == code,
{
    match code {
        0 => Key::Alt,
        1 => Key::AltGr,
        2 => Key::Backspace,
        3 => Key::CapsLock,
        4 => Key::ControlLeft,
        5 => Key::ControlRight,
        6 => Key::Delete,
        7 => Key::DownArrow,
        8 => Key::End,
        9 => Key::Escape,
        10 => Key::F1,
        11 => Key::F10,
        12 => Key::F11,
        13 => Key::F12,
        14 => Key::F2,
        15 => Key::F3,
        16 => Key::F4,
        17 => Key::F5,
        18 => Key::F6,
        19 => Key::F7,
        20 => Key::F8,
        21 => Key::F9,
        22 => Key::Home,
        23 => Key::LeftArrow,
        24 => Key::MetaLeft,
        25 => Key::MetaRight,
        26 => Key::PageDown,
        27 => Key::PageUp,
        28 => Key::Return,
        29 => Key::RightArrow,
        30 => Key::ShiftLeft,
        31 => Key::ShiftRight,
        32 => Key::Space,
        33 => Key::Tab,
        34 => Key::UpArrow,
        35 => Key::PrintScreen,
        36 => Key::ScrollLock,
        37 => Key::Pause,
        38 => Key::NumLock,
        39 => Key::BackQuote,
        40 => Key::Num1,
        41 => Key::Num2,
        42 => Key::Num3,
        43 => Key::Num4,
        44 => Key::Num5,
        45 => Key::Num6,
        46 => Key::Num7,
        47 => Key::Num8,
        48 => Key::Num9,
        49 => Key::Num0,
        50 => Key::Minus,
        51 => Key::Equal,
        52 => Key::KeyQ,
        53 => Key::KeyW,
        54 => Key::KeyE,
        55 => Key::KeyR,
        56 => Key::KeyT,
        57 => Key::KeyY,
        58 => Key::KeyU,
        59 => Key::KeyI,
        60 => Key::KeyO,
        61 => Key::KeyP,
        62 => Key::LeftBracket,
        63 => Key::RightBracket,
        64 => Key::KeyA,
        65 => Key::KeyS,
        66 => Key::KeyD,
        67 => Key::KeyF,
        68 => Key::KeyG,
        69 => Key::KeyH,
        70 => Key::KeyJ,
        71 => Key::KeyK,
        72 => Key::KeyL,
        73 => Key::SemiColon,
        74 => Key::Quote,
        75 => Key::BackSlash,
        76 => Key::IntlBackslash,
        77 => Key::KeyZ,
        78 => Key::KeyX,
        79 => Key::KeyC,
        80 => Key::KeyV,
        81 => Key::KeyB,
        82 => Key::KeyN,
        83 => Key::KeyM,
        84 => Key::Comma,
        85 => Key::Dot,
        86 => Key::Slash,
        87 => Key::Insert,
        88 => Key::KpReturn,
        89 => Key::KpMinus,
        90 => Key::KpPlus,
        91 => Key::KpMultiply,
        92 => Key::KpDivide,
        93 => Key::Kp0,
        94 => Key::Kp1,
        95 => Key::Kp2,
        96 => Key::Kp3,
        97 => Key::Kp4,
        98 => Key::Kp5,
        99 => Key::Kp6,
        100 => Key::Kp7,
        101 => Key::Kp8,
        102 => Key::Kp9,
        103 => Key::KpDelete,
        _ => Key::Function,
    }
}

/// A key is found again from its number.
pub proof fn lemma_code_round_trip(key: Key)
    ensures
        key_of_code(key.code_of()) == key,
        0 <= key.code_of() <= u64::MAX,
{
}

/// Two keys with the same number are the same key.
pub proof fn lemma_code_is_injective(first: Key, second: Key)
    requires
        first.code_of() == second.code_of(),
    ensures
        first == second,
{
    lemma_code_round_trip(first);
    lemma_code_round_trip(second);
}

/// What happened to a key.
#[derive(Clone, Copy, Debug, PartialEq, Eq, Structural)]
pub enum Transition {
    Pressed,
    Released,
}

/// One event of the keyboard: a key and what happened to it.
#[derive(Clone, Copy, Debug, PartialEq, Eq, Structural)]
pub struct KeyEvent {
    pub key: Key,
    pub transition: Transition,
}

} // verus!
