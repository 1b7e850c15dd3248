use crate::config::hero::Key;
use vstd::prelude::*;

verus! {

/// The key that stands for an untranslatable code.
pub open spec fn unmapped_key() -> Key {
    Key::Character('\0')
}

/// The logical key of a virtual-key code: named keys, the function keys, the
/// digits, and the letters as lower-case characters; any other code maps to
/// the character zero.
pub open spec fn key_of_code(vk: u32) -> Key {
    if vk == 0x1B {
        Key::Escape
    } else if vk == 0x09 {
        Key::Tab
    } else if vk == 0x14 {
        Key::CapsLock
    } else if vk == 0x10 {
        Key::Shift
    } else if vk == 0x11 {
        Key::Control
    } else if vk == 0x12 {
        Key::Alt
    } else if vk == 0x20 {
        Key::Space
    } else if vk == 0x0D {
        Key::Enter
    } else if 0x70 <= vk <= 0x7B {
        function_key(vk - 0x70)
    } else if 0x30 <= vk <= 0x39 {
        Key::Character((vk as u8) as char)
    } else if 0x41 <= vk <= 0x5A {
        Key::Character(((vk + 0x20) as u8) as char)
    } else {
        unmapped_key()
    }
}

/// The function key `F(n + 1)`, for `n` below twelve.
pub open spec fn function_key(n: int) -> Key {
    if n == 0 {
        Key::F1
    } else if n == 1 {
        Key::F2
    } else if n == 2 {
        Key::F3
    } else if n == 3 {
        Key::F4
    } else if n == 4 {
        Key::F5
    } else if n == 5 {
        Key::F6
    } else if n == 6 {
        Key::F7
    } else if n == 7 {
        Key::F8
    } else if n == 8 {
        Key::F9
    } else if n == 9 {
        Key::F10
    } else if n == 10 {
        Key::F11
    } else {
        Key::F12
    }
}

/// Translates a virtual-key code into a logical key.
pub fn virtual_key_to_key(vk: u32) -> (r: Key)
    ensures
        r == key_of_code(vk),
{
    match vk {
        0x1B => Key::Escape,
        0x09 => Key::Tab,
        0x14 => Key::CapsLock,
        0x10 => Key::Shift,
        0x11 => Key::Control,
        0x12 => Key::Alt,
        0x20 => Key::Space,
        0x0D => Key::Enter,
        0x70 => Key::F1,
        0x71 => Key::F2,
        0x72 => Key::F3,
        0x73 => Key::F4,
        0x74 => Key::F5,
        0x75 => Key::F6,
        0x76 => Key::F7,
        0x77 => Key::F8,
        0x78 => Key::F9,
        0x79 => Key::F10,
        0x7A => Key::F11,
        0x7B => Key::F12,
        0x30..=0x39 => Key::Character((vk as u8) as char),
        0x41..=0x5A => Key::Character(((vk + 0x20) as u8) as char),
        _ => Key::Character('\0'),
    }
}

} // verus!
