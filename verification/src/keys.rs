//! Logical keys and the bidirectional table to the platform's virtual-key
//! codes.
//!
//! A `Key` names a key position independently of the platform; raw codes
//! that the table does not know are carried losslessly in `Key::Unknown`, so
//! the mapping from a code to a key is total.

use vstd::prelude::*;

verus! {

/// A platform-independent key identity, as used by listener registration.
#[derive(Clone, Copy, Debug, PartialEq, Eq, Structural)]
pub enum Key {
    Alt,
    AltGr,
    Backspace,
    CapsLock,
    ControlLeft,
    ControlRight,
    Delete,
    DownArrow,
    End,
    Escape,
    F1,
    F2,
    F3,
    F4,
    F5,
    F6,
    F7,
    F8,
    F9,
    F10,
    F11,
    F12,
    Home,
    LeftArrow,
    MetaLeft,
    MetaRight,
    PageDown,
    PageUp,
    Return,
    RightArrow,
    ShiftLeft,
    ShiftRight,
    Space,
    Tab,
    UpArrow,
    PrintScreen,
    ScrollLock,
    Pause,
    NumLock,
    BackQuote,
    Num0,
    Num1,
    Num2,
    Num3,
    Num4,
    Num5,
    Num6,
    Num7,
    Num8,
    Num9,
    Minus,
    Equal,
    KeyQ,
    KeyW,
    KeyE,
    KeyR,
    KeyT,
    KeyY,
    KeyU,
    KeyI,
    KeyO,
    KeyP,
    LeftBracket,
    RightBracket,
    KeyA,
    KeyS,
    KeyD,
    KeyF,
    KeyG,
    KeyH,
    KeyJ,
    KeyK,
    KeyL,
    SemiColon,
    Quote,
    BackSlash,
    IntlBackslash,
    KeyZ,
    KeyX,
    KeyC,
    KeyV,
    KeyB,
    KeyN,
    KeyM,
    Comma,
    Dot,
    Slash,
    Insert,
    KpReturn,
    KpMinus,
    KpPlus,
    KpMultiply,
    KpDivide,
    Kp0,
    Kp1,
    Kp2,
    Kp3,
    Kp4,
    Kp5,
    Kp6,
    Kp7,
    Kp8,
    Kp9,
    KpDelete,
    Function,
    /// A raw virtual-key code outside the table, kept as it came.
    Unknown(u32),
}

/// Whether `key` is one of the physical modifier keys (either side of
/// Ctrl/Shift/Meta, plus Alt and AltGr) that consumers filter chord
/// definitions with.
pub open spec fn spec_is_modifier_key(key: Key) -> bool {
    ||| key is ControlLeft
    ||| key is ControlRight
    ||| key is Alt
    ||| key is AltGr
    ||| key is ShiftLeft
    ||| key is ShiftRight
    ||| key is MetaRight
    ||| key is MetaLeft
}

/// Pure classification of physical modifier keys, both sides of each.
pub fn is_modifier_key(key: Key) -> (r: bool)
    ensures
        r == spec_is_modifier_key(key),
{
    match key {
        Key::ControlLeft
        | Key::ControlRight
        | Key::Alt
        | Key::AltGr
        | Key::ShiftLeft
        | Key::ShiftRight
        | Key::MetaRight
        | Key::MetaLeft => true,
        _ => false,
    }
}

pub open spec fn spec_key_code(key: Key) -> Option<u32> {
    match key {
        Key::Alt => Some(164u32),
        Key::AltGr => Some(165u32),
        Key::Backspace => Some(8u32),
        Key::CapsLock => Some(20u32),
        Key::ControlLeft => Some(162u32),
        Key::ControlRight => Some(163u32),
        Key::Delete => Some(46u32),
        Key::DownArrow => Some(40u32),
        Key::End => Some(35u32),
        Key::Escape => Some(27u32),
        Key::F1 => Some(112u32),
        Key::F2 => Some(113u32),
        Key::F3 => Some(114u32),
        Key::F4 => Some(115u32),
        Key::F5 => Some(116u32),
        Key::F6 => Some(117u32),
        Key::F7 => Some(118u32),
        Key::F8 => Some(119u32),
        Key::F9 => Some(120u32),
        Key::F10 => Some(121u32),
        Key::F11 => Some(122u32),
        Key::F12 => Some(123u32),
        Key::Home => Some(36u32),
        Key::LeftArrow => Some(37u32),
        Key::MetaLeft => Some(91u32),
        Key::PageDown => Some(34u32),
        Key::PageUp => Some(33u32),
        Key::Return => Some(13u32),
        Key::RightArrow => Some(39u32),
        Key::ShiftLeft => Some(160u32),
        Key::ShiftRight => Some(161u32),
        Key::Space => Some(32u32),
        Key::Tab => Some(9u32),
        Key::UpArrow => Some(38u32),
        Key::PrintScreen => Some(44u32),
        Key::ScrollLock => Some(145u32),
        Key::Pause => Some(19u32),
        Key::NumLock => Some(144u32),
        Key::BackQuote => Some(192u32),
        Key::Num1 => Some(49u32),
        Key::Num2 => Some(50u32),
        Key::Num3 => Some(51u32),
        Key::Num4 => Some(52u32),
        Key::Num5 => Some(53u32),
        Key::Num6 => Some(54u32),
        Key::Num7 => Some(55u32),
        Key::Num8 => Some(56u32),
        Key::Num9 => Some(57u32),
        Key::Num0 => Some(48u32),
        Key::Minus => Some(189u32),
        Key::Equal => Some(187u32),
        Key::KeyQ => Some(81u32),
        Key::KeyW => Some(87u32),
        Key::KeyE => Some(69u32),
        Key::KeyR => Some(82u32),
        Key::KeyT => Some(84u32),
        Key::KeyY => Some(89u32),
        Key::KeyU => Some(85u32),
        Key::KeyI => Some(73u32),
        Key::KeyO => Some(79u32),
        Key::KeyP => Some(80u32),
        Key::LeftBracket => Some(219u32),
        Key::RightBracket => Some(221u32),
        Key::KeyA => Some(65u32),
        Key::KeyS => Some(83u32),
        Key::KeyD => Some(68u32),
        Key::KeyF => Some(70u32),
        Key::KeyG => Some(71u32),
        Key::KeyH => Some(72u32),
        Key::KeyJ => Some(74u32),
        Key::KeyK => Some(75u32),
        Key::KeyL => Some(76u32),
        Key::SemiColon => Some(186u32),
        Key::Quote => Some(222u32),
        Key::BackSlash => Some(220u32),
        Key::IntlBackslash => Some(226u32),
        Key::KeyZ => Some(90u32),
        Key::KeyX => Some(88u32),
        Key::KeyC => Some(67u32),
        Key::KeyV => Some(86u32),
        Key::KeyB => Some(66u32),
        Key::KeyN => Some(78u32),
        Key::KeyM => Some(77u32),
        Key::Comma => Some(188u32),
        Key::Dot => Some(190u32),
        Key::Slash => Some(191u32),
        Key::Insert => Some(45u32),
        Key::KpMinus => Some(109u32),
        Key::KpPlus => Some(107u32),
        Key::KpMultiply => Some(106u32),
        Key::KpDivide => Some(111u32),
        Key::Kp0 => Some(96u32),
        Key::Kp1 => Some(97u32),
        Key::Kp2 => Some(98u32),
        Key::Kp3 => Some(99u32),
        Key::Kp4 => Some(100u32),
        Key::Kp5 => Some(101u32),
        Key::Kp6 => Some(102u32),
        Key::Kp7 => Some(103u32),
        Key::Kp8 => Some(104u32),
        Key::Kp9 => Some(105u32),
        Key::KpDelete => Some(110u32),
        Key::MetaRight | Key::KpReturn | Key::Function => None,
        Key::Unknown(code) => Some(code),
    }
}

/// Maps a logical key to the platform virtual-key code the table
/// assigns it. `MetaRight`, `KpReturn` and `Function` have no code in the
/// table; every other key, `Unknown` included, has exactly one.
pub fn key_to_code(key: Key) -> (r: Option<u32>)
    ensures
        r == spec_key_code(key),
{
    match key {
        Key::Alt => Some(164),
        Key::AltGr => Some(165),
        Key::Backspace => Some(8),
        Key::CapsLock => Some(20),
        Key::ControlLeft => Some(162),
        Key::ControlRight => Some(163),
        Key::Delete => Some(46),
        Key::DownArrow => Some(40),
        Key::End => Some(35),
        Key::Escape => Some(27),
        Key::F1 => Some(112),
        Key::F2 => Some(113),
        Key::F3 => Some(114),
        Key::F4 => Some(115),
        Key::F5 => Some(116),
        Key::F6 => Some(117),
        Key::F7 => Some(118),
        Key::F8 => Some(119),
        Key::F9 => Some(120),
        Key::F10 => Some(121),
        Key::F11 => Some(122),
        Key::F12 => Some(123),
        Key::Home => Some(36),
        Key::LeftArrow => Some(37),
        Key::MetaLeft => Some(91),
        Key::PageDown => Some(34),
        Key::PageUp => Some(33),
        Key::Return => Some(13),
        Key::RightArrow => Some(39),
        Key::ShiftLeft => Some(160),
        Key::ShiftRight => Some(161),
        Key::Space => Some(32),
        Key::Tab => Some(9),
        Key::UpArrow => Some(38),
        Key::PrintScreen => Some(44),
        Key::ScrollLock => Some(145),
        Key::Pause => Some(19),
        Key::NumLock => Some(144),
        Key::BackQuote => Some(192),
        Key::Num1 => Some(49),
        Key::Num2 => Some(50),
        Key::Num3 => Some(51),
        Key::Num4 => Some(52),
        Key::Num5 => Some(53),
        Key::Num6 => Some(54),
        Key::Num7 => Some(55),
        Key::Num8 => Some(56),
        Key::Num9 => Some(57),
        Key::Num0 => Some(48),
        Key::Minus => Some(189),
        Key::Equal => Some(187),
        Key::KeyQ => Some(81),
        Key::KeyW => Some(87),
        Key::KeyE => Some(69),
        Key::KeyR => Some(82),
        Key::KeyT => Some(84),
        Key::KeyY => Some(89),
        Key::KeyU => Some(85),
        Key::KeyI => Some(73),
        Key::KeyO => Some(79),
        Key::KeyP => Some(80),
        Key::LeftBracket => Some(219),
        Key::RightBracket => Some(221),
        Key::KeyA => Some(65),
        Key::KeyS => Some(83),
        Key::KeyD => Some(68),
        Key::KeyF => Some(70),
        Key::KeyG => Some(71),
        Key::KeyH => Some(72),
        Key::KeyJ => Some(74),
        Key::KeyK => Some(75),
        Key::KeyL => Some(76),
        Key::SemiColon => Some(186),
        Key::Quote => Some(222),
        Key::BackSlash => Some(220),
        Key::IntlBackslash => Some(226),
        Key::KeyZ => Some(90),
        Key::KeyX => Some(88),
        Key::KeyC => Some(67),
        Key::KeyV => Some(86),
        Key::KeyB => Some(66),
        Key::KeyN => Some(78),
        Key::KeyM => Some(77),
        Key::Comma => Some(188),
        Key::Dot => Some(190),
        Key::Slash => Some(191),
        Key::Insert => Some(45),
        Key::KpMinus => Some(109),
        Key::KpPlus => Some(107),
        Key::KpMultiply => Some(106),
        Key::KpDivide => Some(111),
        Key::Kp0 => Some(96),
        Key::Kp1 => Some(97),
        Key::Kp2 => Some(98),
        Key::Kp3 => Some(99),
        Key::Kp4 => Some(100),
        Key::Kp5 => Some(101),
        Key::Kp6 => Some(102),
        Key::Kp7 => Some(103),
        Key::Kp8 => Some(104),
        Key::Kp9 => Some(105),
        Key::KpDelete => Some(110),
        Key::MetaRight | Key::KpReturn | Key::Function => None,
        Key::Unknown(code) => Some(code),
    }
}

pub open spec fn spec_key_of_code(code: u32) -> Key {
    if code == 164 {
        Key::Alt
    } else if code == 165 {
        Key::AltGr
    } else if code == 8 {
        Key::Backspace
    } else if code == 20 {
        Key::CapsLock
    } else if code == 162 {
        Key::ControlLeft
    } else if code == 163 {
        Key::ControlRight
    } else if code == 46 {
        Key::Delete
    } else if code == 40 {
        Key::DownArrow
    } else if code == 35 {
        Key::End
    } else if code == 27 {
        Key::Escape
    } else if code == 112 {
        Key::F1
    } else if code == 113 {
        Key::F2
    } else if code == 114 {
        Key::F3
    } else if code == 115 {
        Key::F4
    } else if code == 116 {
        Key::F5
    } else if code == 117 {
        Key::F6
    } else if code == 118 {
        Key::F7
    } else if code == 119 {
        Key::F8
    } else if code == 120 {
        Key::F9
    } else if code == 121 {
        Key::F10
    } else if code == 122 {
        Key::F11
    } else if code == 123 {
        Key::F12
    } else if code == 36 {
        Key::Home
    } else if code == 37 {
        Key::LeftArrow
    } else if code == 91 {
        Key::MetaLeft
    } else if code == 34 {
        Key::PageDown
    } else if code == 33 {
        Key::PageUp
    } else if code == 13 {
        Key::Return
    } else if code == 39 {
        Key::RightArrow
    } else if code == 160 {
        Key::ShiftLeft
    } else if code == 161 {
        Key::ShiftRight
    } else if code == 32 {
        Key::Space
    } else if code == 9 {
        Key::Tab
    } else if code == 38 {
        Key::UpArrow
    } else if code == 44 {
        Key::PrintScreen
    } else if code == 145 {
        Key::ScrollLock
    } else if code == 19 {
        Key::Pause
    } else if code == 144 {
        Key::NumLock
    } else if code == 192 {
        Key::BackQuote
    } else if code == 49 {
        Key::Num1
    } else if code == 50 {
        Key::Num2
    } else if code == 51 {
        Key::Num3
    } else if code == 52 {
        Key::Num4
    } else if code == 53 {
        Key::Num5
    } else if code == 54 {
        Key::Num6
    } else if code == 55 {
        Key::Num7
    } else if code == 56 {
        Key::Num8
    } else if code == 57 {
        Key::Num9
    } else if code == 48 {
        Key::Num0
    } else if code == 189 {
        Key::Minus
    } else if code == 187 {
        Key::Equal
    } else if code == 81 {
        Key::KeyQ
    } else if code == 87 {
        Key::KeyW
    } else if code == 69 {
        Key::KeyE
    } else if code == 82 {
        Key::KeyR
    } else if code == 84 {
        Key::KeyT
    } else if code == 89 {
        Key::KeyY
    } else if code == 85 {
        Key::KeyU
    } else if code == 73 {
        Key::KeyI
    } else if code == 79 {
        Key::KeyO
    } else if code == 80 {
        Key::KeyP
    } else if code == 219 {
        Key::LeftBracket
    } else if code == 221 {
        Key::RightBracket
    } else if code == 65 {
        Key::KeyA
    } else if code == 83 {
        Key::KeyS
    } else if code == 68 {
        Key::KeyD
    } else if code == 70 {
        Key::KeyF
    } else if code == 71 {
        Key::KeyG
    } else if code == 72 {
        Key::KeyH
    } else if code == 74 {
        Key::KeyJ
    } else if code == 75 {
        Key::KeyK
    } else if code == 76 {
        Key::KeyL
    } else if code == 186 {
        Key::SemiColon
    } else if code == 222 {
        Key::Quote
    } else if code == 220 {
        Key::BackSlash
    } else if code == 226 {
        Key::IntlBackslash
    } else if code == 90 {
        Key::KeyZ
    } else if code == 88 {
        Key::KeyX
    } else if code == 67 {
        Key::KeyC
    } else if code == 86 {
        Key::KeyV
    } else if code == 66 {
        Key::KeyB
    } else if code == 78 {
        Key::KeyN
    } else if code == 77 {
        Key::KeyM
    } else if code == 188 {
        Key::Comma
    } else if code == 190 {
        Key::Dot
    } else if code == 191 {
        Key::Slash
    } else if code == 45 {
        Key::Insert
    } else if code == 109 {
        Key::KpMinus
    } else if code == 107 {
        Key::KpPlus
    } else if code == 106 {
        Key::KpMultiply
    } else if code == 111 {
        Key::KpDivide
    } else if code == 96 {
        Key::Kp0
    } else if code == 97 {
        Key::Kp1
    } else if code == 98 {
        Key::Kp2
    } else if code == 99 {
        Key::Kp3
    } else if code == 100 {
        Key::Kp4
    } else if code == 101 {
        Key::Kp5
    } else if code == 102 {
        Key::Kp6
    } else if code == 103 {
        Key::Kp7
    } else if code == 104 {
        Key::Kp8
    } else if code == 105 {
        Key::Kp9
    } else if code == 110 {
        Key::KpDelete
    } else {
        Key::Unknown(code)
    }
}

/// Maps a raw virtual-key code to its logical key. The mapping is total:
/// a code outside the table comes back wrapped in `Key::Unknown`.
pub fn code_to_key(code: u32) -> (r: Key)
    ensures
        r == spec_key_of_code(code),
{
    if code == 164 {
        Key::Alt
    } else if code == 165 {
        Key::AltGr
    } else if code == 8 {
        Key::Backspace
    } else if code == 20 {
        Key::CapsLock
    } else if code == 162 {
        Key::ControlLeft
    } else if code == 163 {
        Key::ControlRight
    } else if code == 46 {
        Key::Delete
    } else if code == 40 {
        Key::DownArrow
    } else if code == 35 {
        Key::End
    } else if code == 27 {
        Key::Escape
    } else if code == 112 {
        Key::F1
    } else if code == 113 {
        Key::F2
    } else if code == 114 {
        Key::F3
    } else if code == 115 {
        Key::F4
    } else if code == 116 {
        Key::F5
    } else if code == 117 {
        Key::F6
    } else if code == 118 {
        Key::F7
    } else if code == 119 {
        Key::F8
    } else if code == 120 {
        Key::F9
    } else if code == 121 {
        Key::F10
    } else if code == 122 {
        Key::F11
    } else if code == 123 {
        Key::F12
    } else if code == 36 {
        Key::Home
    } else if code == 37 {
        Key::LeftArrow
    } else if code == 91 {
        Key::MetaLeft
    } else if code == 34 {
        Key::PageDown
    } else if code == 33 {
        Key::PageUp
    } else if code == 13 {
        Key::Return
    } else if code == 39 {
        Key::RightArrow
    } else if code == 160 {
        Key::ShiftLeft
    } else if code == 161 {
        Key::ShiftRight
    } else if code == 32 {
        Key::Space
    } else if code == 9 {
        Key::Tab
    } else if code == 38 {
        Key::UpArrow
    } else if code == 44 {
        Key::PrintScreen
    } else if code == 145 {
        Key::ScrollLock
    } else if code == 19 {
        Key::Pause
    } else if code == 144 {
        Key::NumLock
    } else if code == 192 {
        Key::BackQuote
    } else if code == 49 {
        Key::Num1
    } else if code == 50 {
        Key::Num2
    } else if code == 51 {
        Key::Num3
    } else if code == 52 {
        Key::Num4
    } else if code == 53 {
        Key::Num5
    } else if code == 54 {
        Key::Num6
    } else if code == 55 {
        Key::Num7
    } else if code == 56 {
        Key::Num8
    } else if code == 57 {
        Key::Num9
    } else if code == 48 {
        Key::Num0
    } else if code == 189 {
        Key::Minus
    } else if code == 187 {
        Key::Equal
    } else if code == 81 {
        Key::KeyQ
    } else if code == 87 {
        Key::KeyW
    } else if code == 69 {
        Key::KeyE
    } else if code == 82 {
        Key::KeyR
    } else if code == 84 {
        Key::KeyT
    } else if code == 89 {
        Key::KeyY
    } else if code == 85 {
        Key::KeyU
    } else if code == 73 {
        Key::KeyI
    } else if code == 79 {
        Key::KeyO
    } else if code == 80 {
        Key::KeyP
    } else if code == 219 {
        Key::LeftBracket
    } else if code == 221 {
        Key::RightBracket
    } else if code == 65 {
        Key::KeyA
    } else if code == 83 {
        Key::KeyS
    } else if code == 68 {
        Key::KeyD
    } else if code == 70 {
        Key::KeyF
    } else if code == 71 {
        Key::KeyG
    } else if code == 72 {
        Key::KeyH
    } else if code == 74 {
        Key::KeyJ
    } else if code == 75 {
        Key::KeyK
    } else if code == 76 {
        Key::KeyL
    } else if code == 186 {
        Key::SemiColon
    } else if code == 222 {
        Key::Quote
    } else if code == 220 {
        Key::BackSlash
    } else if code == 226 {
        Key::IntlBackslash
    } else if code == 90 {
        Key::KeyZ
    } else if code == 88 {
        Key::KeyX
    } else if code == 67 {
        Key::KeyC
    } else if code == 86 {
        Key::KeyV
    } else if code == 66 {
        Key::KeyB
    } else if code == 78 {
        Key::KeyN
    } else if code == 77 {
        Key::KeyM
    } else if code == 188 {
        Key::Comma
    } else if code == 190 {
        Key::Dot
    } else if code == 191 {
        Key::Slash
    } else if code == 45 {
        Key::Insert
    } else if code == 109 {
        Key::KpMinus
    } else if code == 107 {
        Key::KpPlus
    } else if code == 106 {
        Key::KpMultiply
    } else if code == 111 {
        Key::KpDivide
    } else if code == 96 {
        Key::Kp0
    } else if code == 97 {
        Key::Kp1
    } else if code == 98 {
        Key::Kp2
    } else if code == 99 {
        Key::Kp3
    } else if code == 100 {
        Key::Kp4
    } else if code == 101 {
        Key::Kp5
    } else if code == 102 {
        Key::Kp6
    } else if code == 103 {
        Key::Kp7
    } else if code == 104 {
        Key::Kp8
    } else if code == 105 {
        Key::Kp9
    } else if code == 110 {
        Key::KpDelete
    } else {
        Key::Unknown(code)
    }
}

/// Law: mapping any raw code to its logical key and back yields the
/// same code, so no key information is lost at the hook boundary.
pub proof fn lemma_code_key_round_trip(code: u32)
    ensures
        spec_key_code(spec_key_of_code(code)) == Some(code),
{
}

/// Law: the table is injective on named keys. A named key that has a code
/// is the only key the table assigns that code, so mapping it to a
/// code and back yields the key again.
pub proof fn lemma_key_code_round_trip(key: Key)
    requires
        spec_key_code(key) is Some,
        !(key is Unknown),
    ensures
        spec_key_of_code(spec_key_code(key)->0) == key,
{
}

} // verus!
