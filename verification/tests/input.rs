use kernel_drivers::input::kbd::keyboard::{GlobalKeyboard, KeyAction, KeyEvent};
use kernel_drivers::input::kbd::{keycode_to_char, KeyCode};
use kernel_drivers::input::mouse::mouse::{GlobalMouse, MouseButton, MouseButtonAction, MouseEvent};
use kernel_drivers::input::mouse::{draw_cursor, mouse_pointer_pixel};
use kernel_drivers::usb::hid::hid_keyboard::{hid_to_keycode, HidKeyboard};
use kernel_drivers::usb::hid::hid_mouse::HidMouse;

fn press(k: u8, modifier: bool) -> KeyEvent {
    KeyEvent::new(KeyCode(k), KeyAction::Pressed, modifier)
}

fn release(k: u8, modifier: bool) -> KeyEvent {
    KeyEvent::new(KeyCode(k), KeyAction::Released, modifier)
}

#[test]
fn keycode_row_and_column() {
    let k = KeyCode::new(3, 1);
    assert_eq!(k.0, KeyCode::A);
    assert_eq!(k.row(), 3);
    assert_eq!(k.col(), 1);
    assert!(k.is_letter());
    assert!(KeyCode(KeyCode::LEFT_SHIFT).is_modifier());
    assert!(KeyCode(KeyCode::CAPS_LOCK).is_lock());
    assert!(!KeyCode(KeyCode::A).is_modifier());
}

#[test]
fn characters_with_shift_and_caps() {
    assert_eq!(keycode_to_char(KeyCode(KeyCode::A), false, false), Some('a'));
    assert_eq!(keycode_to_char(KeyCode(KeyCode::A), true, false), Some('A'));
    assert_eq!(keycode_to_char(KeyCode(KeyCode::A), false, true), Some('A'));
    assert_eq!(keycode_to_char(KeyCode(KeyCode::A), true, true), Some('a'));
    let one = KeyCode::new(1, 1);
    assert_eq!(keycode_to_char(one, false, false), Some('1'));
    assert_eq!(keycode_to_char(one, true, false), Some('!'));
    assert_eq!(keycode_to_char(one, false, true), Some('1'));
    assert_eq!(keycode_to_char(one, true, true), Some('!'));
    assert_eq!(keycode_to_char(KeyCode(KeyCode::ESCAPE), false, false), None);
}

#[test]
fn keyboard_types_with_the_held_modifiers() {
    let mut kb = GlobalKeyboard::init();
    assert_eq!(kb.handle_key_event(press(KeyCode::A, false)), Some('a'));
    assert_eq!(kb.handle_key_event(press(KeyCode::LEFT_SHIFT, true)), None);
    assert_eq!(kb.handle_key_event(press(KeyCode::A, false)), Some('A'));
    assert_eq!(kb.handle_key_event(release(KeyCode::LEFT_SHIFT, true)), None);
    assert_eq!(kb.handle_key_event(press(KeyCode::A, false)), Some('a'));
    // an untyped key gives the placeholder
    assert_eq!(kb.handle_key_event(press(KeyCode::ESCAPE, false)), Some('?'));
}

#[test]
fn caps_lock_toggles_on_each_press() {
    let mut kb = GlobalKeyboard::init();
    // caps lock comes as an ordinary key: a press toggles it, a release leaves it
    kb.handle_key_event(press(KeyCode::CAPS_LOCK, false));
    kb.handle_key_event(release(KeyCode::CAPS_LOCK, false));
    assert_eq!(kb.handle_key_event(press(KeyCode::Q, false)), Some('Q'));
    kb.handle_key_event(press(KeyCode::CAPS_LOCK, false));
    assert_eq!(kb.handle_key_event(press(KeyCode::Q, false)), Some('q'));
}

#[test]
fn mouse_moves_within_the_screen() {
    let mut m = GlobalMouse::init(640, 480);
    assert_eq!((m.x_pos, m.y_pos), (320, 240));
    assert!(m.handle_mouse_event(MouseEvent::new_move(1000, -1000), 640, 480));
    assert_eq!((m.x_pos, m.y_pos), (639, 0));
    assert!(m.handle_mouse_event(MouseEvent::new_move(-5, 7), 640, 480));
    assert_eq!((m.x_pos, m.y_pos), (634, 7));
    assert!(!m.handle_mouse_event(MouseEvent::new_click(MouseButton::Right, MouseButtonAction::Pressed), 640, 480));
    assert_eq!(m.pressed_buttons, vec![false, true, false, false, false]);
    m.handle_mouse_event(MouseEvent::new_click(MouseButton::Right, MouseButtonAction::Released), 640, 480);
    assert_eq!(m.pressed_buttons, vec![false; 5]);
}

#[test]
fn cursor_pixels() {
    // the tip of the arrow is drawn, the far corner is transparent
    assert_ne!(mouse_pointer_pixel(0, 0), 0);
    assert_eq!(mouse_pointer_pixel(15, 0), 0);
    // a cursor wholly off screen draws nothing
    assert!(draw_cursor(1000, 1000, 640, 480, 640 * 4, 32).is_none());
    let writes = draw_cursor(0, 0, 640, 480, 640 * 4, 32).unwrap();
    assert!(!writes.is_empty());
    assert!(writes.iter().all(|(off, _)| *off < 640 * 4 * 16));
    assert!(writes.iter().any(|(off, _)| *off == 0));
}

#[test]
fn hid_keyboard_reports_become_key_events() {
    assert!(hid_to_keycode(0x04).unwrap() == KeyCode(KeyCode::A));
    assert!(hid_to_keycode(0x00).is_none());
    let mut kb = HidKeyboard::new(0x81);
    // left shift and 'a' go down
    let ev = kb.report_key_events(&[0x02, 0, 0x04, 0, 0, 0, 0, 0]);
    assert!(ev.contains(&KeyEvent::new(KeyCode(KeyCode::LEFT_SHIFT), KeyAction::Pressed, true)));
    assert!(ev.contains(&KeyEvent::new(KeyCode(KeyCode::A), KeyAction::Pressed, false)));
    assert_eq!(kb.previous_key_state, [0x02, 0, 0x04, 0, 0, 0, 0, 0]);
    // 'a' goes up, shift stays down
    let ev = kb.report_key_events(&[0x02, 0, 0, 0, 0, 0, 0, 0]);
    assert!(ev.contains(&KeyEvent::new(KeyCode(KeyCode::A), KeyAction::Released, false)));
    assert!(!ev.iter().any(|e| e.key_code == KeyCode(KeyCode::LEFT_SHIFT)));
    // an empty report changes nothing
    assert!(kb.report_key_events(&[]).is_empty());
    assert_eq!(kb.previous_key_state, [0x02, 0, 0, 0, 0, 0, 0, 0]);
}

#[test]
fn hid_mouse_reports_become_mouse_events() {
    let m = HidMouse::new(0x82);
    let ev = m.report_mouse_events(&[0x01, 3, 4, 0xFF]);
    assert_eq!(ev.len(), 3);
    assert_eq!((ev[0].move_x, ev[0].move_y), (3, 4));
    assert!(ev[1].mouse_button == Some(MouseButton::Left));
    assert!(ev[1].mouse_button_action == Some(MouseButtonAction::Pressed));
    assert_eq!(ev[2].scroll, -1);
    // a move along one axis only is not reported
    assert!(m.report_mouse_events(&[0, 5, 0]).is_empty());
    assert!(m.report_mouse_events(&[0, 5]).is_empty());
}
