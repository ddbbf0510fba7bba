//! USB HID boot keyboards: the report's modifier byte and key slots, and
//! the key events that a change of report gives.
use vstd::prelude::*;
use crate::input::kbd::KeyCode;
use crate::input::kbd::keyboard::{KeyAction, KeyEvent};
use crate::usb::hid::hid_core::{interrupt_in_request, listen_request, HidDriver, HidEvent, RawHidReport};
use crate::usb::usb_transfers::UsbTransferRequest;

verus! {

/// Usage IDs of the keyboard page.
pub struct UsbHidKeys;

impl UsbHidKeys {
    pub const KEY_NONE: u8 = 0x00;
    pub const KEY_ERR_OVF: u8 = 0x01;
    pub const KEY_A: u8 = 0x04;
    pub const KEY_B: u8 = 0x05;
    pub const KEY_C: u8 = 0x06;
    pub const KEY_D: u8 = 0x07;
    pub const KEY_E: u8 = 0x08;
    pub const KEY_F: u8 = 0x09;
    pub const KEY_G: u8 = 0x0a;
    pub const KEY_H: u8 = 0x0b;
    pub const KEY_I: u8 = 0x0c;
    pub const KEY_J: u8 = 0x0d;
    pub const KEY_K: u8 = 0x0e;
    pub const KEY_L: u8 = 0x0f;
    pub const KEY_M: u8 = 0x10;
    pub const KEY_N: u8 = 0x11;
    pub const KEY_O: u8 = 0x12;
    pub const KEY_P: u8 = 0x13;
    pub const KEY_Q: u8 = 0x14;
    pub const KEY_R: u8 = 0x15;
    pub const KEY_S: u8 = 0x16;
    pub const KEY_T: u8 = 0x17;
    pub const KEY_U: u8 = 0x18;
    pub const KEY_V: u8 = 0x19;
    pub const KEY_W: u8 = 0x1a;
    pub const KEY_X: u8 = 0x1b;
    pub const KEY_Y: u8 = 0x1c;
    pub const KEY_Z: u8 = 0x1d;
    pub const KEY_1: u8 = 0x1e;
    pub const KEY_2: u8 = 0x1f;
    pub const KEY_3: u8 = 0x20;
    pub const KEY_4: u8 = 0x21;
    pub const KEY_5: u8 = 0x22;
    pub const KEY_6: u8 = 0x23;
    pub const KEY_7: u8 = 0x24;
    pub const KEY_8: u8 = 0x25;
    pub const KEY_9: u8 = 0x26;
    pub const KEY_0: u8 = 0x27;
    pub const KEY_ENTER: u8 = 0x28;
    pub const KEY_ESC: u8 = 0x29;
    pub const KEY_BACKSPACE: u8 = 0x2a;
    pub const KEY_TAB: u8 = 0x2b;
    pub const KEY_SPACE: u8 = 0x2c;
    pub const KEY_MINUS: u8 = 0x2d;
    pub const KEY_EQUAL: u8 = 0x2e;
    pub const KEY_LEFTBRACE: u8 = 0x2f;
    pub const KEY_RIGHTBRACE: u8 = 0x30;
    pub const KEY_BACKSLASH: u8 = 0x31;
    pub const KEY_SEMICOLON: u8 = 0x33;
    pub const KEY_APOSTROPHE: u8 = 0x34;
    pub const KEY_GRAVE: u8 = 0x35;
    pub const KEY_COMMA: u8 = 0x36;
    pub const KEY_DOT: u8 = 0x37;
    pub const KEY_SLASH: u8 = 0x38;
    pub const KEY_CAPSLOCK: u8 = 0x39;
    pub const KEY_F1: u8 = 0x3a;
    pub const KEY_F2: u8 = 0x3b;
    pub const KEY_F3: u8 = 0x3c;
    pub const KEY_F4: u8 = 0x3d;
    pub const KEY_F5: u8 = 0x3e;
    pub const KEY_F6: u8 = 0x3f;
    pub const KEY_F7: u8 = 0x40;
    pub const KEY_F8: u8 = 0x41;
    pub const KEY_F9: u8 = 0x42;
    pub const KEY_F10: u8 = 0x43;
    pub const KEY_F11: u8 = 0x44;
    pub const KEY_F12: u8 = 0x45;
    pub const KEY_RIGHT: u8 = 0x4f;
    pub const KEY_LEFT: u8 = 0x50;
    pub const KEY_DOWN: u8 = 0x51;
    pub const KEY_UP: u8 = 0x52;
    pub const KEY_NUMLOCK: u8 = 0x53;
    pub const KEY_KPSLASH: u8 = 0x54;
    pub const KEY_KPASTERISK: u8 = 0x55;
    pub const KEY_KPMINUS: u8 = 0x56;
    pub const KEY_KPPLUS: u8 = 0x57;
    pub const KEY_KPENTER: u8 = 0x58;
    pub const KEY_KP1: u8 = 0x59;
    pub const KEY_KP2: u8 = 0x5a;
    pub const KEY_KP3: u8 = 0x5b;
    pub const KEY_KP4: u8 = 0x5c;
    pub const KEY_KP5: u8 = 0x5d;
    pub const KEY_KP6: u8 = 0x5e;
    pub const KEY_KP7: u8 = 0x5f;
    pub const KEY_KP8: u8 = 0x60;
    pub const KEY_KP9: u8 = 0x61;
    pub const KEY_KP0: u8 = 0x62;
    pub const KEY_KPDOT: u8 = 0x63;
}

/// The key that a usage ID stands for, by key code.
pub open spec fn hid_keycode(hid_code: u8) -> Option<u8> {
    match hid_code {
        0x04 => Some(0x61u8),
        0x05 => Some(0x85u8),
        0x06 => Some(0x83u8),
        0x07 => Some(0x63u8),
        0x08 => Some(0x43u8),
        0x09 => Some(0x64u8),
        0x0a => Some(0x65u8),
        0x0b => Some(0x66u8),
        0x0c => Some(0x48u8),
        0x0d => Some(0x67u8),
        0x0e => Some(0x68u8),
        0x0f => Some(0x69u8),
        0x10 => Some(0x87u8),
        0x11 => Some(0x86u8),
        0x12 => Some(0x49u8),
        0x13 => Some(0x4Au8),
        0x14 => Some(0x41u8),
        0x15 => Some(0x44u8),
        0x16 => Some(0x62u8),
        0x17 => Some(0x45u8),
        0x18 => Some(0x47u8),
        0x19 => Some(0x84u8),
        0x1a => Some(0x42u8),
        0x1b => Some(0x82u8),
        0x1c => Some(0x46u8),
        0x1d => Some(0x81u8),
        0x1e => Some(0x21u8),
        0x1f => Some(0x22u8),
        0x20 => Some(0x23u8),
        0x21 => Some(0x24u8),
        0x22 => Some(0x25u8),
        0x23 => Some(0x26u8),
        0x24 => Some(0x27u8),
        0x25 => Some(0x28u8),
        0x26 => Some(0x29u8),
        0x27 => Some(0x2Au8),
        0x28 => Some(0x6Cu8),
        0x29 => Some(0x00u8),
        0x2a => Some(0x2Du8),
        0x2b => Some(0x40u8),
        0x2c => Some(0xA3u8),
        0x2d => Some(0x2Bu8),
        0x2e => Some(0x2Cu8),
        0x2f => Some(0x4Bu8),
        0x30 => Some(0x4Cu8),
        0x31 => Some(0x4Du8),
        0x33 => Some(0x6Au8),
        0x34 => Some(0x6Bu8),
        0x35 => Some(0x20u8),
        0x36 => Some(0x88u8),
        0x37 => Some(0x89u8),
        0x38 => Some(0x8Au8),
        0x39 => Some(0x60u8),
        0x3a => Some(0x01u8),
        0x3b => Some(0x02u8),
        0x3c => Some(0x03u8),
        0x3d => Some(0x04u8),
        0x3e => Some(0x05u8),
        0x3f => Some(0x06u8),
        0x40 => Some(0x07u8),
        0x41 => Some(0x08u8),
        0x42 => Some(0x09u8),
        0x43 => Some(0x0Au8),
        0x44 => Some(0x0Bu8),
        0x45 => Some(0x0Cu8),
        0x4f => Some(0xB0u8),
        0x50 => Some(0xAEu8),
        0x51 => Some(0xAFu8),
        0x52 => Some(0x8Fu8),
        0x53 => Some(0x31u8),
        0x54 => Some(0x32u8),
        0x55 => Some(0x33u8),
        0x56 => Some(0x34u8),
        0x57 => Some(0x54u8),
        0x58 => Some(0x94u8),
        0x59 => Some(0x91u8),
        0x5a => Some(0x92u8),
        0x5b => Some(0x93u8),
        0x5c => Some(0x71u8),
        0x5d => Some(0x72u8),
        0x5e => Some(0x73u8),
        0x5f => Some(0x51u8),
        0x60 => Some(0x52u8),
        0x61 => Some(0x53u8),
        0x62 => Some(0xB1u8),
        0x63 => Some(0xB2u8),
        _ => None,
    }
}

/// The key that a usage ID stands for; `None` for the usages that the
/// kernel does not map.
pub fn hid_to_keycode(hid_code: u8) -> (r: Option<KeyCode>)
    ensures
        match r {
            Some(k) => hid_keycode(hid_code) == Some(k.0),
            None => hid_keycode(hid_code) is None,
        },
{
    match hid_code {
        0x04 => Some(KeyCode(KeyCode::A)),
        0x05 => Some(KeyCode(KeyCode::B)),
        0x06 => Some(KeyCode(KeyCode::C)),
        0x07 => Some(KeyCode(KeyCode::D)),
        0x08 => Some(KeyCode(KeyCode::E)),
        0x09 => Some(KeyCode(KeyCode::F)),
        0x0a => Some(KeyCode(KeyCode::G)),
        0x0b => Some(KeyCode(KeyCode::H)),
        0x0c => Some(KeyCode(KeyCode::I)),
        0x0d => Some(KeyCode(KeyCode::J)),
        0x0e => Some(KeyCode(KeyCode::K)),
        0x0f => Some(KeyCode(KeyCode::L)),
        0x10 => Some(KeyCode(KeyCode::M)),
        0x11 => Some(KeyCode(KeyCode::N)),
        0x12 => Some(KeyCode(KeyCode::O)),
        0x13 => Some(KeyCode(KeyCode::P)),
        0x14 => Some(KeyCode(KeyCode::Q)),
        0x15 => Some(KeyCode(KeyCode::R)),
        0x16 => Some(KeyCode(KeyCode::S)),
        0x17 => Some(KeyCode(KeyCode::T)),
        0x18 => Some(KeyCode(KeyCode::U)),
        0x19 => Some(KeyCode(KeyCode::V)),
        0x1a => Some(KeyCode(KeyCode::W)),
        0x1b => Some(KeyCode(KeyCode::X)),
        0x1c => Some(KeyCode(KeyCode::Y)),
        0x1d => Some(KeyCode(KeyCode::Z)),
        0x1e => Some(KeyCode(KeyCode::KEY_1)),
        0x1f => Some(KeyCode(KeyCode::KEY_2)),
        0x20 => Some(KeyCode(KeyCode::KEY_3)),
        0x21 => Some(KeyCode(KeyCode::KEY_4)),
        0x22 => Some(KeyCode(KeyCode::KEY_5)),
        0x23 => Some(KeyCode(KeyCode::KEY_6)),
        0x24 => Some(KeyCode(KeyCode::KEY_7)),
        0x25 => Some(KeyCode(KeyCode::KEY_8)),
        0x26 => Some(KeyCode(KeyCode::KEY_9)),
        0x27 => Some(KeyCode(KeyCode::KEY_0)),
        0x28 => Some(KeyCode(KeyCode::ENTER)),
        0x29 => Some(KeyCode(KeyCode::ESCAPE)),
        0x2a => Some(KeyCode(KeyCode::BACKSPACE)),
        0x2b => Some(KeyCode(KeyCode::TAB)),
        0x2c => Some(KeyCode(KeyCode::SPACE)),
        0x2d => Some(KeyCode(KeyCode::MINUS)),
        0x2e => Some(KeyCode(KeyCode::EQUALS)),
        0x2f => Some(KeyCode(KeyCode::LEFT_BRACKET)),
        0x30 => Some(KeyCode(KeyCode::RIGHT_BRACKET)),
        0x31 => Some(KeyCode(KeyCode::BACKSLASH)),
        0x33 => Some(KeyCode(KeyCode::SEMICOLON)),
        0x34 => Some(KeyCode(KeyCode::APOSTROPHE)),
        0x35 => Some(KeyCode(KeyCode::GRAVE)),
        0x36 => Some(KeyCode(KeyCode::COMMA)),
        0x37 => Some(KeyCode(KeyCode::DOT)),
        0x38 => Some(KeyCode(KeyCode::SLASH)),
        0x39 => Some(KeyCode(KeyCode::CAPS_LOCK)),
        0x3a => Some(KeyCode(KeyCode::F1)),
        0x3b => Some(KeyCode(KeyCode::F2)),
        0x3c => Some(KeyCode(KeyCode::F3)),
        0x3d => Some(KeyCode(KeyCode::F4)),
        0x3e => Some(KeyCode(KeyCode::F5)),
        0x3f => Some(KeyCode(KeyCode::F6)),
        0x40 => Some(KeyCode(KeyCode::F7)),
        0x41 => Some(KeyCode(KeyCode::F8)),
        0x42 => Some(KeyCode(KeyCode::F9)),
        0x43 => Some(KeyCode(KeyCode::F10)),
        0x44 => Some(KeyCode(KeyCode::F11)),
        0x45 => Some(KeyCode(KeyCode::F12)),
        0x4f => Some(KeyCode(KeyCode::ARROW_RIGHT)),
        0x50 => Some(KeyCode(KeyCode::ARROW_LEFT)),
        0x51 => Some(KeyCode(KeyCode::ARROW_DOWN)),
        0x52 => Some(KeyCode(KeyCode::ARROW_UP)),
        0x53 => Some(KeyCode(KeyCode::NUMPAD_LOCK)),
        0x54 => Some(KeyCode(KeyCode::NUMPAD_DIVIDE)),
        0x55 => Some(KeyCode(KeyCode::NUMPAD_MULTI)),
        0x56 => Some(KeyCode(KeyCode::NUMPAD_SUB)),
        0x57 => Some(KeyCode(KeyCode::NUMPAD_ADD)),
        0x58 => Some(KeyCode(KeyCode::NUMPAD_ENTER)),
        0x59 => Some(KeyCode(KeyCode::NUMPAD_1)),
        0x5a => Some(KeyCode(KeyCode::NUMPAD_2)),
        0x5b => Some(KeyCode(KeyCode::NUMPAD_3)),
        0x5c => Some(KeyCode(KeyCode::NUMPAD_4)),
        0x5d => Some(KeyCode(KeyCode::NUMPAD_5)),
        0x5e => Some(KeyCode(KeyCode::NUMPAD_6)),
        0x5f => Some(KeyCode(KeyCode::NUMPAD_7)),
        0x60 => Some(KeyCode(KeyCode::NUMPAD_8)),
        0x61 => Some(KeyCode(KeyCode::NUMPAD_9)),
        0x62 => Some(KeyCode(KeyCode::NUMPAD_0)),
        0x63 => Some(KeyCode(KeyCode::NUMPAD_DECIMAL)),
        _ => None,
    }
}

/// The bit of the modifier byte, and the key, of modifier `i` (0..8).
pub open spec fn modifier_mapping(i: int) -> (u8, u8) {
    if i == 0 {
        (0x01u8, 0xA0u8)
    } else if i == 1 {
        (0x02u8, 0x80u8)
    } else if i == 2 {
        (0x04u8, 0xA2u8)
    } else if i == 3 {
        (0x08u8, 0xA1u8)
    } else if i == 4 {
        (0x10u8, 0xA7u8)
    } else if i == 5 {
        (0x20u8, 0x8Bu8)
    } else if i == 6 {
        (0x40u8, 0xA4u8)
    } else if i == 7 {
        (0x80u8, 0xA5u8)
    } else {
        (0u8, 0u8)
    }
}

/// The bit of the modifier byte, and the key, of modifier `i`.
pub fn modifier_mapping_at(i: usize) -> (r: (u8, KeyCode))
    requires
        i < 8,
    ensures
        (r.0, r.1.0) == modifier_mapping(i as int),
{
    match i {
        0 => (0x01, KeyCode(KeyCode::LEFT_CONTROL)),
        1 => (0x02, KeyCode(KeyCode::LEFT_SHIFT)),
        2 => (0x04, KeyCode(KeyCode::LEFT_ALT)),
        3 => (0x08, KeyCode(KeyCode::LEFT_SUPER)),
        4 => (0x10, KeyCode(KeyCode::RIGHT_CONTROL)),
        5 => (0x20, KeyCode(KeyCode::RIGHT_SHIFT)),
        6 => (0x40, KeyCode(KeyCode::RIGHT_ALT)),
        7 => (0x80, KeyCode(KeyCode::RIGHT_SUPER)),
        _ => (0x80, KeyCode(KeyCode::RIGHT_SUPER)),
    }
}

/// The key event of modifier `i` where its bit changed from `old` to `new`.
pub open spec fn modifier_events(old: u8, new: u8, k: int) -> Seq<KeyEvent>
    decreases k,
{
    if k <= 0 {
        Seq::empty()
    } else {
        let before = modifier_events(old, new, k - 1);
        let (mask, code) = modifier_mapping(k - 1);
        if (new ^ old) & mask != 0 {
            before.push(
                KeyEvent {
                    key_code: KeyCode(code),
                    key_action: if new & mask != 0 {
                        KeyAction::Pressed
                    } else {
                        KeyAction::Released
                    },
                    is_modifier: true,
                },
            )
        } else {
            before
        }
    }
}

/// Events with `action` for the first `k` bytes of `keys` that are not
/// zero, do not occur in `others`, and stand for a mapped key.
pub open spec fn slot_events(keys: Seq<u8>, others: Seq<u8>, k: int, action: KeyAction) -> Seq<
    KeyEvent,
>
    decreases k,
{
    if k <= 0 {
        Seq::empty()
    } else {
        let before = slot_events(keys, others, k - 1, action);
        let key = keys[k - 1];
        if key != 0 && !others.contains(key) && hid_keycode(key) is Some {
            before.push(
                KeyEvent {
                    key_code: KeyCode(hid_keycode(key)->0),
                    key_action: action,
                    is_modifier: false,
                },
            )
        } else {
            before
        }
    }
}

/// The events that a report `new` gives after the report `old`: the
/// modifiers that changed, in bit order; then the bytes of `new` not in
/// `old`, pressed; then the bytes of `old` not in `new`, released.
pub open spec fn report_events(old: Seq<u8>, new: Seq<u8>) -> Seq<KeyEvent> {
    modifier_events(old[0], new[0], 8) + slot_events(new, old, new.len() as int, KeyAction::Pressed)
        + slot_events(old, new, old.len() as int, KeyAction::Released)
}

/// The key event that modifier `i` gives when its bit changed and now
/// reads `now_set`.
pub open spec fn modifier_change_event(i: int, now_set: bool) -> KeyEvent {
    KeyEvent {
        key_code: KeyCode(modifier_mapping(i).1),
        key_action: if now_set {
            KeyAction::Pressed
        } else {
            KeyAction::Released
        },
        is_modifier: true,
    }
}

proof fn lemma_modifier_events_has(old_mods: u8, new_mods: u8, k: int, i: int)
    requires
        0 <= i < k <= 8,
        (new_mods ^ old_mods) & modifier_mapping(i).0 != 0,
    ensures
        exists|j: int|
            0 <= j < modifier_events(old_mods, new_mods, k).len() && #[trigger] modifier_events(
                old_mods,
                new_mods,
                k,
            )[j] == modifier_change_event(i, new_mods & modifier_mapping(i).0 != 0),
    decreases k,
{
    let before = modifier_events(old_mods, new_mods, k - 1);
    let ev = modifier_change_event(i, new_mods & modifier_mapping(i).0 != 0);
    if i == k - 1 {
        assert(modifier_events(old_mods, new_mods, k) == before.push(ev));
        assert(modifier_events(old_mods, new_mods, k)[before.len() as int] == ev);
    } else {
        lemma_modifier_events_has(old_mods, new_mods, k - 1, i);
        let j = choose|j: int| 0 <= j < before.len() && #[trigger] before[j] == ev;
        let (mask, code) = modifier_mapping(k - 1);
        if (new_mods ^ old_mods) & mask != 0 {
            assert(modifier_events(old_mods, new_mods, k)[j] == before[j]);
        }
        assert(modifier_events(old_mods, new_mods, k)[j] == ev);
    }
}

/// Every modifier whose bit differs between the previous report and the new
/// one gives one of the report's events: its key, as a modifier, pressed
/// when its bit is set in the new report and released when it is clear.
pub proof fn law_changed_modifier_reported(old_report: Seq<u8>, new_report: Seq<u8>, i: int)
    requires
        old_report.len() == 8,
        new_report.len() == 8,
        0 <= i < 8,
        (new_report[0] ^ old_report[0]) & modifier_mapping(i).0 != 0,
    ensures
        exists|j: int|
            0 <= j < report_events(old_report, new_report).len() && #[trigger] report_events(
                old_report,
                new_report,
            )[j] == modifier_change_event(i, new_report[0] & modifier_mapping(i).0 != 0),
{
    let me = modifier_events(old_report[0], new_report[0], 8);
    let ev = modifier_change_event(i, new_report[0] & modifier_mapping(i).0 != 0);
    lemma_modifier_events_has(old_report[0], new_report[0], 8, i);
    let j = choose|j: int| 0 <= j < me.len() && #[trigger] me[j] == ev;
    assert(report_events(old_report, new_report)[j] == me[j]);
}

/// Modifier `i`'s bit in the modifier byte, and its key: left control,
/// shift, alt and super in bits 0 to 3, then the right ones in bits 4 to 7.
pub proof fn law_modifier_layout(i: int)
    requires
        0 <= i < 8,
    ensures
        i == 0 ==> modifier_mapping(i) == (0x01u8, KeyCode::LEFT_CONTROL),
        i == 1 ==> modifier_mapping(i) == (0x02u8, KeyCode::LEFT_SHIFT),
        i == 2 ==> modifier_mapping(i) == (0x04u8, KeyCode::LEFT_ALT),
        i == 3 ==> modifier_mapping(i) == (0x08u8, KeyCode::LEFT_SUPER),
        i == 4 ==> modifier_mapping(i) == (0x10u8, KeyCode::RIGHT_CONTROL),
        i == 5 ==> modifier_mapping(i) == (0x20u8, KeyCode::RIGHT_SHIFT),
        i == 6 ==> modifier_mapping(i) == (0x40u8, KeyCode::RIGHT_ALT),
        i == 7 ==> modifier_mapping(i) == (0x80u8, KeyCode::RIGHT_SUPER),
{
}

/// Whether `b` occurs in `s`.
pub fn slice_contains(s: &[u8], b: u8) -> (r: bool)
    ensures
        r == s@.contains(b),
{
    let mut i: usize = 0;
    while i < s.len()
        invariant
            i <= s@.len(),
            forall|j: int| 0 <= j < i ==> s@[j] != b,
        decreases s@.len() - i,
    {
        if s[i] == b {
            assert(s@[i as int] == b);
            return true;
        }
        i = i + 1;
    }
    false
}

/// Appends the events with `action` for the bytes of `keys` that are not
/// zero, do not occur in `others` and stand for a mapped key.
fn push_slot_events(events: &mut Vec<KeyEvent>, keys: &[u8], others: &[u8], action: KeyAction)
    ensures
        final(events)@ == old(events)@ + slot_events(keys@, others@, keys@.len() as int, action),
{
    let ghost start = events@;
    let mut i: usize = 0;
    while i < keys.len()
        invariant
            i <= keys@.len(),
            events@ == start + slot_events(keys@, others@, i as int, action),
        decreases keys@.len() - i,
    {
        let key = keys[i];
        if key != 0 && !slice_contains(others, key) {
            match hid_to_keycode(key) {
                Some(key_code) => {
                    events.push(KeyEvent::new(key_code, action, false));
                },
                None => {},
            }
        }
        assert(events@ =~= start + slot_events(keys@, others@, i + 1, action));
        i = i + 1;
    }
}

/// A boot protocol keyboard: its interrupt IN endpoint, the request it
/// listens with once it listens, and the last report it sent.
pub struct HidKeyboard {
    pub in_endpoint_address: u8,
    pub pending_request: Option<UsbTransferRequest>,
    pub previous_key_state: [u8; 8],
}

impl HidKeyboard {
    pub fn new(in_endpoint_address: u8) -> (r: Self)
        ensures
            r.in_endpoint_address == in_endpoint_address,
            r.pending_request is None,
            r.previous_key_state@ == seq![0u8, 0u8, 0u8, 0u8, 0u8, 0u8, 0u8, 0u8],
    {
        let r = Self { in_endpoint_address, pending_request: None, previous_key_state: [0;8] };
        assert(r.previous_key_state@ =~= seq![0u8, 0u8, 0u8, 0u8, 0u8, 0u8, 0u8, 0u8]);
        r
    }

    /// The key events of `report` against the previous report, which it
    /// then replaces; an empty report is skipped. A boot report has eight
    /// bytes.
    pub fn report_key_events(&mut self, report: &[u8]) -> (r: Vec<KeyEvent>)
        requires
            report@.len() == 0 || report@.len() == 8,
        ensures
            report@.len() == 0 ==> r@.len() == 0 && *final(self) == *old(self),
            report@.len() == 8 ==> r@ == report_events(old(self).previous_key_state@, report@)
                && final(self).previous_key_state@ == report@ && final(self).in_endpoint_address
                == old(self).in_endpoint_address && final(self).pending_request == old(self).pending_request,
    {
        let mut events: Vec<KeyEvent> = Vec::new();
        if report.len() == 0 {
            return events;
        }
        let old_keys = self.previous_key_state;
        let changed_modifiers = report[0] ^ old_keys[0];
        let mut i: usize = 0;
        while i < 8
            invariant
                i <= 8,
                report@.len() == 8,
                changed_modifiers == report@[0] ^ old_keys@[0],
                events@ == modifier_events(old_keys@[0], report@[0], i as int),
            decreases 8 - i,
        {
            let (mask, key_code) = modifier_mapping_at(i);
            if (changed_modifiers & mask) != 0 {
                let action = if (report[0] & mask) != 0 {
                    KeyAction::Pressed
                } else {
                    KeyAction::Released
                };
                events.push(KeyEvent::new(key_code, action, true));
            }
            i = i + 1;
        }
        push_slot_events(&mut events, report, old_keys.as_slice(), KeyAction::Pressed);
        push_slot_events(&mut events, old_keys.as_slice(), report, KeyAction::Released);
        let new_state = [
            report[0], report[1], report[2], report[3], report[4], report[5], report[6], report[7],
        ];
        assert(new_state@ =~= report@);
        self.previous_key_state = new_state;
        events
    }
}

/// The events of a keyboard report, as HID events.
pub open spec fn keyboard_hid_events(previous: Seq<u8>, report: Seq<u8>) -> Seq<HidEvent> {
    if report.len() == 0 {
        Seq::empty()
    } else {
        report_events(previous, report).map_values(|e: KeyEvent| HidEvent::Key(e))
    }
}

impl HidDriver for HidKeyboard {
    open spec fn accepts_report(&self, data: Seq<u8>) -> bool {
        data.len() == 0 || data.len() == 8
    }

    open spec fn report_events_of(&self, data: Seq<u8>) -> Seq<HidEvent> {
        keyboard_hid_events(self.previous_key_state@, data)
    }

    open spec fn after_report(&self, after: &Self, data: Seq<u8>) -> bool {
        if data.len() == 0 {
            *after == *self
        } else {
            &&& after.previous_key_state@ == data
            &&& after.in_endpoint_address == self.in_endpoint_address
            &&& after.pending_request == self.pending_request
        }
    }

    open spec fn in_endpoint(&self) -> u8 {
        self.in_endpoint_address
    }

    open spec fn listen_length(&self) -> usize {
        8
    }

    open spec fn after_listening(&self, after: &Self, request: UsbTransferRequest) -> bool {
        *after == (HidKeyboard { pending_request: Some(request), ..*self })
    }

    /// Sends the key events of a boot report: what changed since the last
    /// one, which it replaces; an empty report is skipped.
    fn handle_hid_report(&mut self, report: RawHidReport) -> (r: Vec<HidEvent>) {
        let keys = self.report_key_events(report.data);
        let mut events: Vec<HidEvent> = Vec::new();
        let mut i: usize = 0;
        while i < keys.len()
            invariant
                i <= keys@.len(),
                events@ == keys@.subrange(0, i as int).map_values(|e: KeyEvent| HidEvent::Key(e)),
            decreases keys@.len() - i,
        {
            events.push(HidEvent::Key(keys[i]));
            assert(keys@.subrange(0, i + 1) =~= keys@.subrange(0, i as int).push(keys@[i as int]));
            i = i + 1;
        }
        assert(keys@.subrange(0, keys@.len() as int) =~= keys@);
        assert(report.data@.len() == 0 ==> events@ =~= Seq::<HidEvent>::empty());
        events
    }

    /// Listens on the interrupt IN endpoint with an 8-byte buffer at
    /// `dma_buffer`, remembering the request.
    fn start_listening(&mut self, hardware_id: u8, dma_buffer: u64) -> (r: UsbTransferRequest) {
        let request = listen_request(hardware_id, self.in_endpoint_address, dma_buffer, 8);
        self.pending_request = Some(request);
        request
    }
}

} // verus!
