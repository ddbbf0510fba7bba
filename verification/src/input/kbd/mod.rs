//! Key codes, their flags and the characters they type.
pub mod keyboard;

use vstd::prelude::*;

verus! {

/// A key, by its place on the keyboard: the row in bits 5..8 and the
/// column in bits 0..5.
#[derive(Debug, Clone, Copy, PartialEq, Eq, Structural, Hash, PartialOrd, Ord)]
pub struct KeyCode(pub u8);

impl KeyCode {
    pub const ESCAPE: u8 = 0x00;
    pub const F1: u8 = 0x01;
    pub const F2: u8 = 0x02;
    pub const F3: u8 = 0x03;
    pub const F4: u8 = 0x04;
    pub const F5: u8 = 0x05;
    pub const F6: u8 = 0x06;
    pub const F7: u8 = 0x07;
    pub const F8: u8 = 0x08;
    pub const F9: u8 = 0x09;
    pub const F10: u8 = 0x0A;
    pub const F11: u8 = 0x0B;
    pub const F12: u8 = 0x0C;
    pub const PRINT_SCREEN: u8 = 0x0D;
    pub const SCROLL_LOCK: u8 = 0x0E;
    pub const PAUSE: u8 = 0x0F;
    pub const GRAVE: u8 = 0x20;
    pub const KEY_1: u8 = 0x21;
    pub const KEY_2: u8 = 0x22;
    pub const KEY_3: u8 = 0x23;
    pub const KEY_4: u8 = 0x24;
    pub const KEY_5: u8 = 0x25;
    pub const KEY_6: u8 = 0x26;
    pub const KEY_7: u8 = 0x27;
    pub const KEY_8: u8 = 0x28;
    pub const KEY_9: u8 = 0x29;
    pub const KEY_0: u8 = 0x2A;
    pub const MINUS: u8 = 0x2B;
    pub const EQUALS: u8 = 0x2C;
    pub const BACKSPACE: u8 = 0x2D;
    pub const INSERT: u8 = 0x2E;
    pub const HOME: u8 = 0x2F;
    pub const PAGE_UP: u8 = 0x30;
    pub const NUMPAD_LOCK: u8 = 0x31;
    pub const NUMPAD_DIVIDE: u8 = 0x32;
    pub const NUMPAD_MULTI: u8 = 0x33;
    pub const NUMPAD_SUB: u8 = 0x34;
    pub const TAB: u8 = 0x40;
    pub const Q: u8 = 0x41;
    pub const W: u8 = 0x42;
    pub const E: u8 = 0x43;
    pub const R: u8 = 0x44;
    pub const T: u8 = 0x45;
    pub const Y: u8 = 0x46;
    pub const U: u8 = 0x47;
    pub const I: u8 = 0x48;
    pub const O: u8 = 0x49;
    pub const P: u8 = 0x4A;
    pub const LEFT_BRACKET: u8 = 0x4B;
    pub const RIGHT_BRACKET: u8 = 0x4C;
    pub const BACKSLASH: u8 = 0x4D;
    pub const DELETE: u8 = 0x4E;
    pub const END: u8 = 0x4F;
    pub const PAGE_DOWN: u8 = 0x50;
    pub const NUMPAD_7: u8 = 0x51;
    pub const NUMPAD_8: u8 = 0x52;
    pub const NUMPAD_9: u8 = 0x53;
    pub const NUMPAD_ADD: u8 = 0x54;
    pub const CAPS_LOCK: u8 = 0x60;
    pub const A: u8 = 0x61;
    pub const S: u8 = 0x62;
    pub const D: u8 = 0x63;
    pub const F: u8 = 0x64;
    pub const G: u8 = 0x65;
    pub const H: u8 = 0x66;
    pub const J: u8 = 0x67;
    pub const K: u8 = 0x68;
    pub const L: u8 = 0x69;
    pub const SEMICOLON: u8 = 0x6A;
    pub const APOSTROPHE: u8 = 0x6B;
    pub const ENTER: u8 = 0x6C;
    pub const NUMPAD_4: u8 = 0x71;
    pub const NUMPAD_5: u8 = 0x72;
    pub const NUMPAD_6: u8 = 0x73;
    pub const LEFT_SHIFT: u8 = 0x80;
    pub const Z: u8 = 0x81;
    pub const X: u8 = 0x82;
    pub const C: u8 = 0x83;
    pub const V: u8 = 0x84;
    pub const B: u8 = 0x85;
    pub const N: u8 = 0x86;
    pub const M: u8 = 0x87;
    pub const COMMA: u8 = 0x88;
    pub const DOT: u8 = 0x89;
    pub const SLASH: u8 = 0x8A;
    pub const RIGHT_SHIFT: u8 = 0x8B;
    pub const ARROW_UP: u8 = 0x8F;
    pub const NUMPAD_1: u8 = 0x91;
    pub const NUMPAD_2: u8 = 0x92;
    pub const NUMPAD_3: u8 = 0x93;
    pub const NUMPAD_ENTER: u8 = 0x94;
    pub const LEFT_CONTROL: u8 = 0xA0;
    pub const LEFT_SUPER: u8 = 0xA1;
    pub const LEFT_ALT: u8 = 0xA2;
    pub const SPACE: u8 = 0xA3;
    pub const RIGHT_ALT: u8 = 0xA4;
    pub const RIGHT_SUPER: u8 = 0xA5;
    pub const MENU: u8 = 0xA6;
    pub const RIGHT_CONTROL: u8 = 0xA7;
    pub const ARROW_LEFT: u8 = 0xAE;
    pub const ARROW_DOWN: u8 = 0xAF;
    pub const ARROW_RIGHT: u8 = 0xB0;
    pub const NUMPAD_0: u8 = 0xB1;
    pub const NUMPAD_DECIMAL: u8 = 0xB2;

    /// The key at `row` (three bits) and `col` (five bits).
    pub fn new(row: u8, col: u8) -> (r: Self)
        ensures
            r.0 == ((row & 7) << 5u8) | (col & 31),
    {
        Self(((row & 0b111) << 5) | (col & 0b11111))
    }

    pub fn row(self) -> (r: u8)
        ensures
            r == self.0 >> 5u8,
    {
        self.0 >> 5
    }

    pub fn col(self) -> (r: u8)
        ensures
            r == self.0 & 31,
    {
        self.0 & 0b11111
    }

    pub fn is_letter(self) -> (r: bool)
        ensures
            r == (key_flags_spec(self.0) & 1 != 0),
    {
        (key_flags(self.0) & FLAG_LETTER) != 0
    }

    pub fn is_modifier(self) -> (r: bool)
        ensures
            r == (key_flags_spec(self.0) & 2 != 0),
    {
        (key_flags(self.0) & FLAG_MODIFIER) != 0
    }

    pub fn is_numpad(self) -> (r: bool)
        ensures
            r == (key_flags_spec(self.0) & 4 != 0),
    {
        (key_flags(self.0) & FLAG_NUMPAD) != 0
    }

    pub fn is_lock(self) -> (r: bool)
        ensures
            r == (key_flags_spec(self.0) & 8 != 0),
    {
        (key_flags(self.0) & FLAG_LOCK) != 0
    }
}

/// A key made of a row and a column gives them back, cut to their widths.
pub proof fn law_keycode_row_col(row: u8, col: u8)
    ensures
        (((row & 7) << 5u8) | (col & 31)) >> 5u8 == row & 7,
        (((row & 7) << 5u8) | (col & 31)) & 31 == col & 31,
{
    assert((((row & 7) << 5u8) | (col & 31)) >> 5u8 == row & 7 && (((row & 7) << 5u8) | (col
        & 31)) & 31 == col & 31) by (bit_vector);
}

pub const FLAG_NONE: u8 = 0;
pub const FLAG_LETTER: u8 = 1;
pub const FLAG_MODIFIER: u8 = 2;
pub const FLAG_NUMPAD: u8 = 4;
pub const FLAG_LOCK: u8 = 8;

/// The flags of the key with code `code`: letter, modifier, numpad, lock.
pub open spec fn key_flags_spec(code: u8) -> u8 {
    match code {
        0x0E => 8u8,
        0x31 => 12u8,
        0x32 => 4u8,
        0x33 => 4u8,
        0x34 => 4u8,
        0x41 => 1u8,
        0x42 => 1u8,
        0x43 => 1u8,
        0x44 => 1u8,
        0x45 => 1u8,
        0x46 => 1u8,
        0x47 => 1u8,
        0x48 => 1u8,
        0x49 => 1u8,
        0x4A => 1u8,
        0x51 => 4u8,
        0x52 => 4u8,
        0x53 => 4u8,
        0x54 => 4u8,
        0x60 => 8u8,
        0x61 => 1u8,
        0x62 => 1u8,
        0x63 => 1u8,
        0x64 => 1u8,
        0x65 => 1u8,
        0x66 => 1u8,
        0x67 => 1u8,
        0x68 => 1u8,
        0x69 => 1u8,
        0x71 => 4u8,
        0x72 => 4u8,
        0x73 => 4u8,
        0x80 => 2u8,
        0x81 => 1u8,
        0x82 => 1u8,
        0x83 => 1u8,
        0x84 => 1u8,
        0x85 => 1u8,
        0x86 => 1u8,
        0x87 => 1u8,
        0x8B => 2u8,
        0x91 => 4u8,
        0x92 => 4u8,
        0x93 => 4u8,
        0x94 => 4u8,
        0xA0 => 2u8,
        0xA1 => 2u8,
        0xA2 => 2u8,
        0xA4 => 2u8,
        0xA5 => 2u8,
        0xA7 => 2u8,
        0xB1 => 4u8,
        0xB2 => 4u8,
        _ => 0u8,
    }
}

/// The flags of the key with code `code`.
pub fn key_flags(code: u8) -> (r: u8)
    ensures
        r == key_flags_spec(code),
{
    match code {
        0x0E => 8,
        0x31 => 12,
        0x32 => 4,
        0x33 => 4,
        0x34 => 4,
        0x41 => 1,
        0x42 => 1,
        0x43 => 1,
        0x44 => 1,
        0x45 => 1,
        0x46 => 1,
        0x47 => 1,
        0x48 => 1,
        0x49 => 1,
        0x4A => 1,
        0x51 => 4,
        0x52 => 4,
        0x53 => 4,
        0x54 => 4,
        0x60 => 8,
        0x61 => 1,
        0x62 => 1,
        0x63 => 1,
        0x64 => 1,
        0x65 => 1,
        0x66 => 1,
        0x67 => 1,
        0x68 => 1,
        0x69 => 1,
        0x71 => 4,
        0x72 => 4,
        0x73 => 4,
        0x80 => 2,
        0x81 => 1,
        0x82 => 1,
        0x83 => 1,
        0x84 => 1,
        0x85 => 1,
        0x86 => 1,
        0x87 => 1,
        0x8B => 2,
        0x91 => 4,
        0x92 => 4,
        0x93 => 4,
        0x94 => 4,
        0xA0 => 2,
        0xA1 => 2,
        0xA2 => 2,
        0xA4 => 2,
        0xA5 => 2,
        0xA7 => 2,
        0xB1 => 4,
        0xB2 => 4,
        _ => 0,
    }
}

/// The character a key types without shift; `'\0'` for none.
pub open spec fn unshifted_char(code: u8) -> char {
    match code {
        0x20 => '`',
        0x21 => '1',
        0x22 => '2',
        0x23 => '3',
        0x24 => '4',
        0x25 => '5',
        0x26 => '6',
        0x27 => '7',
        0x28 => '8',
        0x29 => '9',
        0x2A => '0',
        0x2B => '-',
        0x2C => '=',
        0x32 => '/',
        0x33 => '*',
        0x34 => '-',
        0x40 => '\t',
        0x41 => 'q',
        0x42 => 'w',
        0x43 => 'e',
        0x44 => 'r',
        0x45 => 't',
        0x46 => 'y',
        0x47 => 'u',
        0x48 => 'i',
        0x49 => 'o',
        0x4A => 'p',
        0x4B => '[',
        0x4C => ']',
        0x4D => '\\',
        0x51 => '7',
        0x52 => '8',
        0x53 => '9',
        0x54 => '+',
        0x61 => 'a',
        0x62 => 's',
        0x63 => 'd',
        0x64 => 'f',
        0x65 => 'g',
        0x66 => 'h',
        0x67 => 'j',
        0x68 => 'k',
        0x69 => 'l',
        0x6A => ';',
        0x6B => '\'',
        0x6C => '\n',
        0x71 => '4',
        0x72 => '5',
        0x73 => '6',
        0x81 => 'z',
        0x82 => 'x',
        0x83 => 'c',
        0x84 => 'v',
        0x85 => 'b',
        0x86 => 'n',
        0x87 => 'm',
        0x88 => ',',
        0x89 => '.',
        0x8A => '/',
        0x91 => '1',
        0x92 => '2',
        0x93 => '3',
        0x94 => '\n',
        0xA3 => ' ',
        0xB1 => '0',
        0xB2 => '.',
        _ => '\0',
    }
}

/// The character a key types with shift; `'\0'` for none.
pub open spec fn shifted_char(code: u8) -> char {
    match code {
        0x20 => '~',
        0x21 => '!',
        0x22 => '@',
        0x23 => '#',
        0x24 => '$',
        0x25 => '%',
        0x26 => '^',
        0x27 => '&',
        0x28 => '*',
        0x29 => '(',
        0x2A => ')',
        0x2B => '_',
        0x2C => '+',
        0x32 => '/',
        0x33 => '*',
        0x34 => '-',
        0x40 => '\t',
        0x41 => 'Q',
        0x42 => 'W',
        0x43 => 'E',
        0x44 => 'R',
        0x45 => 'T',
        0x46 => 'Y',
        0x47 => 'U',
        0x48 => 'I',
        0x49 => 'O',
        0x4A => 'P',
        0x4B => '{',
        0x4C => '}',
        0x4D => '|',
        0x51 => '7',
        0x52 => '8',
        0x53 => '9',
        0x54 => '+',
        0x61 => 'A',
        0x62 => 'S',
        0x63 => 'D',
        0x64 => 'F',
        0x65 => 'G',
        0x66 => 'H',
        0x67 => 'J',
        0x68 => 'K',
        0x69 => 'L',
        0x6A => ':',
        0x6B => '"',
        0x6C => '\n',
        0x71 => '4',
        0x72 => '5',
        0x73 => '6',
        0x81 => 'Z',
        0x82 => 'X',
        0x83 => 'C',
        0x84 => 'V',
        0x85 => 'B',
        0x86 => 'N',
        0x87 => 'M',
        0x88 => '<',
        0x89 => '>',
        0x8A => '?',
        0x91 => '1',
        0x92 => '2',
        0x93 => '3',
        0x94 => '\n',
        0xA3 => ' ',
        0xB1 => '0',
        0xB2 => '.',
        _ => '\0',
    }
}

/// The character a key types without shift; `'\0'` for none.
pub fn keycode_to_char_unshifted(code: u8) -> (r: char)
    ensures
        r == unshifted_char(code),
{
    match code {
        0x20 => '`',
        0x21 => '1',
        0x22 => '2',
        0x23 => '3',
        0x24 => '4',
        0x25 => '5',
        0x26 => '6',
        0x27 => '7',
        0x28 => '8',
        0x29 => '9',
        0x2A => '0',
        0x2B => '-',
        0x2C => '=',
        0x32 => '/',
        0x33 => '*',
        0x34 => '-',
        0x40 => '\t',
        0x41 => 'q',
        0x42 => 'w',
        0x43 => 'e',
        0x44 => 'r',
        0x45 => 't',
        0x46 => 'y',
        0x47 => 'u',
        0x48 => 'i',
        0x49 => 'o',
        0x4A => 'p',
        0x4B => '[',
        0x4C => ']',
        0x4D => '\\',
        0x51 => '7',
        0x52 => '8',
        0x53 => '9',
        0x54 => '+',
        0x61 => 'a',
        0x62 => 's',
        0x63 => 'd',
        0x64 => 'f',
        0x65 => 'g',
        0x66 => 'h',
        0x67 => 'j',
        0x68 => 'k',
        0x69 => 'l',
        0x6A => ';',
        0x6B => '\'',
        0x6C => '\n',
        0x71 => '4',
        0x72 => '5',
        0x73 => '6',
        0x81 => 'z',
        0x82 => 'x',
        0x83 => 'c',
        0x84 => 'v',
        0x85 => 'b',
        0x86 => 'n',
        0x87 => 'm',
        0x88 => ',',
        0x89 => '.',
        0x8A => '/',
        0x91 => '1',
        0x92 => '2',
        0x93 => '3',
        0x94 => '\n',
        0xA3 => ' ',
        0xB1 => '0',
        0xB2 => '.',
        _ => '\0',
    }
}

/// The character a key types with shift; `'\0'` for none.
pub fn keycode_to_char_shifted(code: u8) -> (r: char)
    ensures
        r == shifted_char(code),
{
    match code {
        0x20 => '~',
        0x21 => '!',
        0x22 => '@',
        0x23 => '#',
        0x24 => '$',
        0x25 => '%',
        0x26 => '^',
        0x27 => '&',
        0x28 => '*',
        0x29 => '(',
        0x2A => ')',
        0x2B => '_',
        0x2C => '+',
        0x32 => '/',
        0x33 => '*',
        0x34 => '-',
        0x40 => '\t',
        0x41 => 'Q',
        0x42 => 'W',
        0x43 => 'E',
        0x44 => 'R',
        0x45 => 'T',
        0x46 => 'Y',
        0x47 => 'U',
        0x48 => 'I',
        0x49 => 'O',
        0x4A => 'P',
        0x4B => '{',
        0x4C => '}',
        0x4D => '|',
        0x51 => '7',
        0x52 => '8',
        0x53 => '9',
        0x54 => '+',
        0x61 => 'A',
        0x62 => 'S',
        0x63 => 'D',
        0x64 => 'F',
        0x65 => 'G',
        0x66 => 'H',
        0x67 => 'J',
        0x68 => 'K',
        0x69 => 'L',
        0x6A => ':',
        0x6B => '"',
        0x6C => '\n',
        0x71 => '4',
        0x72 => '5',
        0x73 => '6',
        0x81 => 'Z',
        0x82 => 'X',
        0x83 => 'C',
        0x84 => 'V',
        0x85 => 'B',
        0x86 => 'N',
        0x87 => 'M',
        0x88 => '<',
        0x89 => '>',
        0x8A => '?',
        0x91 => '1',
        0x92 => '2',
        0x93 => '3',
        0x94 => '\n',
        0xA3 => ' ',
        0xB1 => '0',
        0xB2 => '.',
        _ => '\0',
    }
}

/// The character that `key` types: shifted when shift is held, for letters
/// when exactly one of shift and caps lock is on; `None` for a key that
/// types nothing.
pub open spec fn key_char(key: u8, shift: bool, caps: bool) -> Option<char> {
    let letter = key_flags_spec(key) & 1 != 0;
    let shifted = if letter {
        shift != caps
    } else {
        shift
    };
    let ch = if shifted {
        shifted_char(key)
    } else {
        unshifted_char(key)
    };
    if ch == '\0' {
        None
    } else {
        Some(ch)
    }
}

pub fn keycode_to_char(key: KeyCode, is_shift_pressed: bool, is_caps_lock_pressed: bool) -> (r:
    Option<char>)
    ensures
        r == key_char(key.0, is_shift_pressed, is_caps_lock_pressed),
{
    let ch = if !is_caps_lock_pressed && !is_shift_pressed {
        keycode_to_char_unshifted(key.0)
    } else if is_caps_lock_pressed && !is_shift_pressed {
        if key.is_letter() {
            keycode_to_char_shifted(key.0)
        } else {
            keycode_to_char_unshifted(key.0)
        }
    } else if !is_caps_lock_pressed && is_shift_pressed {
        keycode_to_char_shifted(key.0)
    } else {
        if key.is_letter() {
            keycode_to_char_unshifted(key.0)
        } else {
            keycode_to_char_shifted(key.0)
        }
    };
    if ch == '\0' {
        None
    } else {
        Some(ch)
    }
}

/// Caps lock changes only what letters type.
pub proof fn law_caps_lock_only_affects_letters(key: u8, shift: bool)
    requires
        key_flags_spec(key) & 1 == 0,
    ensures
        key_char(key, shift, true) == key_char(key, shift, false),
{
}

/// For a letter, caps lock and shift cancel out: holding both types what
/// holding neither does, and either alone types the same.
pub proof fn law_letters_depend_on_shift_xor_caps(key: u8, shift: bool, caps: bool)
    requires
        key_flags_spec(key) & 1 != 0,
    ensures
        key_char(key, shift, caps) == key_char(key, !shift, !caps),
{
}

} // verus!
