//! Key events and the keyboard state that they drive: the modifiers held
//! down, caps lock, and the character that a key press types.
use vstd::prelude::*;
use std::collections::BTreeMap;
use crate::input::kbd::{KeyCode, key_char, keycode_to_char, shifted_char, unshifted_char};

verus! {

#[derive(Copy, Clone, PartialEq, Eq, Structural, Debug)]
pub enum KeyAction {
    Pressed,
    Released,
}

/// A key going down or up; `is_modifier` marks the modifier keys, which
/// are tracked rather than typed.
#[derive(Copy, Clone, PartialEq, Eq, Structural, Debug)]
pub struct KeyEvent {
    pub key_code: KeyCode,
    pub key_action: KeyAction,
    pub is_modifier: bool,
}

impl KeyEvent {
    pub fn new(key_code: KeyCode, key_action: KeyAction, is_modifier: bool) -> (r: KeyEvent)
        ensures
            r == (KeyEvent { key_code, key_action, is_modifier }),
    {
        KeyEvent { key_code, key_action, is_modifier }
    }
}

/// Which of the tracked modifier and lock keys are on, by key code.
pub struct GlobalKeyboard {
    pub active_modifiers: BTreeMap<u8, bool>,
}

/// The keys that the keyboard tracks, all off at start.
pub open spec fn initial_modifiers() -> Map<u8, bool> {
    map![
        KeyCode::CAPS_LOCK => false,
        KeyCode::LEFT_SHIFT => false,
        KeyCode::LEFT_CONTROL => false,
        KeyCode::LEFT_SUPER => false,
        KeyCode::LEFT_ALT => false,
        KeyCode::RIGHT_ALT => false,
        KeyCode::RIGHT_SUPER => false,
        KeyCode::RIGHT_CONTROL => false,
        KeyCode::RIGHT_SHIFT => false,
        KeyCode::NUMPAD_ENTER => false,
        KeyCode::NUMPAD_LOCK => false,
    ]
}

/// Whether the tracked key `k` is on in `m`; an untracked key is off.
pub open spec fn is_on(m: Map<u8, bool>, k: u8) -> bool {
    m.contains_key(k) && m[k]
}

/// The tracked keys after a press: caps lock toggles, a tracked modifier
/// goes on, anything else changes nothing.
pub open spec fn after_press(m: Map<u8, bool>, ev: KeyEvent) -> Map<u8, bool> {
    let k = ev.key_code.0;
    if k == KeyCode::CAPS_LOCK {
        if m.contains_key(k) {
            m.insert(k, !m[k])
        } else {
            m
        }
    } else if ev.is_modifier && m.contains_key(k) {
        m.insert(k, true)
    } else {
        m
    }
}

/// What a press types: nothing for caps lock and the modifiers, else the
/// key's character under the current shift and caps lock, or `?` for a
/// key that types nothing.
pub open spec fn press_output(m: Map<u8, bool>, ev: KeyEvent) -> Option<char> {
    let k = ev.key_code.0;
    if k == KeyCode::CAPS_LOCK || ev.is_modifier {
        None
    } else {
        let shift = is_on(m, KeyCode::LEFT_SHIFT) || is_on(m, KeyCode::RIGHT_SHIFT);
        match key_char(k, shift, is_on(m, KeyCode::CAPS_LOCK)) {
            Some(c) => Some(c),
            None => Some('?'),
        }
    }
}

/// The tracked keys after a release: a tracked modifier goes off.
pub open spec fn after_release(m: Map<u8, bool>, ev: KeyEvent) -> Map<u8, bool> {
    let k = ev.key_code.0;
    if ev.is_modifier && m.contains_key(k) {
        m.insert(k, false)
    } else {
        m
    }
}

impl View for GlobalKeyboard {
    type V = Map<u8, bool>;

    open spec fn view(&self) -> Map<u8, bool> {
        self.active_modifiers@
    }
}

impl GlobalKeyboard {
    /// A keyboard with every tracked key off.
    pub fn init() -> (r: GlobalKeyboard)
        ensures
            r@ == initial_modifiers(),
    {
        broadcast use vstd::laws_cmp::group_laws_cmp;
        broadcast use vstd::std_specs::btree::group_btree_axioms;

        let mut active_modifiers: BTreeMap<u8, bool> = BTreeMap::new();
        active_modifiers.insert(KeyCode::CAPS_LOCK, false);
        active_modifiers.insert(KeyCode::LEFT_SHIFT, false);
        active_modifiers.insert(KeyCode::LEFT_CONTROL, false);
        active_modifiers.insert(KeyCode::LEFT_SUPER, false);
        active_modifiers.insert(KeyCode::LEFT_ALT, false);
        active_modifiers.insert(KeyCode::RIGHT_ALT, false);
        active_modifiers.insert(KeyCode::RIGHT_SUPER, false);
        active_modifiers.insert(KeyCode::RIGHT_CONTROL, false);
        active_modifiers.insert(KeyCode::RIGHT_SHIFT, false);
        active_modifiers.insert(KeyCode::NUMPAD_ENTER, false);
        active_modifiers.insert(KeyCode::NUMPAD_LOCK, false);
        assert(active_modifiers@ =~= initial_modifiers());
        GlobalKeyboard { active_modifiers }
    }

    fn is_active(&self, k: u8) -> (r: bool)
        ensures
            r == is_on(self@, k),
    {
        broadcast use vstd::laws_cmp::group_laws_cmp;
        broadcast use vstd::std_specs::btree::group_btree_axioms;

        match self.active_modifiers.get(&k) {
            Some(b) => *b,
            None => false,
        }
    }

    /// Handles a key going down; gives the character that it types.
    pub fn handle_key_press(&mut self, key_event: KeyEvent) -> (r: Option<char>)
        ensures
            final(self)@ == after_press(old(self)@, key_event),
            r == press_output(old(self)@, key_event),
    {
        broadcast use vstd::laws_cmp::group_laws_cmp;
        broadcast use vstd::std_specs::btree::group_btree_axioms;

        let k = key_event.key_code.0;
        if k == KeyCode::CAPS_LOCK {
            if self.active_modifiers.contains_key(&k) {
                let on = self.is_active(k);
                self.active_modifiers.insert(k, !on);
            }
            return None;
        }
        if key_event.is_modifier {
            if self.active_modifiers.contains_key(&k) {
                self.active_modifiers.insert(k, true);
            }
            return None;
        }
        let is_caps_on = self.is_active(KeyCode::CAPS_LOCK);
        let is_left_shift_on = self.is_active(KeyCode::LEFT_SHIFT);
        let is_right_shift_on = self.is_active(KeyCode::RIGHT_SHIFT);
        let ch = match keycode_to_char(key_event.key_code, is_left_shift_on || is_right_shift_on, is_caps_on) {
            Some(c) => c,
            None => '?',
        };
        Some(ch)
    }

    /// Handles a key going up.
    pub fn handle_key_release(&mut self, key_event: KeyEvent)
        ensures
            final(self)@ == after_release(old(self)@, key_event),
    {
        broadcast use vstd::laws_cmp::group_laws_cmp;
        broadcast use vstd::std_specs::btree::group_btree_axioms;

        let k = key_event.key_code.0;
        if key_event.is_modifier {
            if self.active_modifiers.contains_key(&k) {
                self.active_modifiers.insert(k, false);
            }
        }
    }

    /// Handles a key event; gives the character that a press types.
    pub fn handle_key_event(&mut self, key_event: KeyEvent) -> (r: Option<char>)
        ensures
            key_event.key_action == KeyAction::Pressed ==> final(self)@ == after_press(
                old(self)@,
                key_event,
            ) && r == press_output(old(self)@, key_event),
            key_event.key_action == KeyAction::Released ==> final(self)@ == after_release(
                old(self)@,
                key_event,
            ) && r is None,
    {
        if key_event.key_action == KeyAction::Pressed {
            self.handle_key_press(key_event)
        } else {
            self.handle_key_release(key_event);
            None
        }
    }
}

/// Pressing caps lock twice leaves the keyboard as it was.
pub proof fn law_caps_lock_press_twice(m: Map<u8, bool>, ev: KeyEvent)
    requires
        ev.key_code.0 == KeyCode::CAPS_LOCK,
    ensures
        after_press(after_press(m, ev), ev) == m,
{
    if m.contains_key(KeyCode::CAPS_LOCK) {
        assert(after_press(after_press(m, ev), ev) =~= m);
    }
}

/// Pressing and then releasing a tracked modifier leaves it off, and every
/// other key as it was.
pub proof fn law_modifier_press_release(m: Map<u8, bool>, ev: KeyEvent)
    requires
        ev.is_modifier,
        ev.key_code.0 != KeyCode::CAPS_LOCK,
        m.contains_key(ev.key_code.0),
    ensures
        after_release(after_press(m, ev), ev) == m.insert(ev.key_code.0, false),
{
    assert(after_release(after_press(m, ev), ev) =~= m.insert(ev.key_code.0, false));
}

/// With either shift key on and caps lock off, a key that is neither caps
/// lock nor a modifier types its shifted character: a letter its capital,
/// whichever of the two shift keys is held.
pub proof fn law_either_shift_types_shifted(m: Map<u8, bool>, ev: KeyEvent)
    requires
        !ev.is_modifier,
        ev.key_code.0 != KeyCode::CAPS_LOCK,
        is_on(m, KeyCode::LEFT_SHIFT) || is_on(m, KeyCode::RIGHT_SHIFT),
        !is_on(m, KeyCode::CAPS_LOCK),
        shifted_char(ev.key_code.0) != '\0',
    ensures
        press_output(m, ev) == Some(shifted_char(ev.key_code.0)),
{
}

/// With no shift key on and caps lock off, such a key types its unshifted
/// character.
pub proof fn law_no_shift_types_unshifted(m: Map<u8, bool>, ev: KeyEvent)
    requires
        !ev.is_modifier,
        ev.key_code.0 != KeyCode::CAPS_LOCK,
        !is_on(m, KeyCode::LEFT_SHIFT) && !is_on(m, KeyCode::RIGHT_SHIFT),
        !is_on(m, KeyCode::CAPS_LOCK),
        unshifted_char(ev.key_code.0) != '\0',
    ensures
        press_output(m, ev) == Some(unshifted_char(ev.key_code.0)),
{
}

} // verus!
