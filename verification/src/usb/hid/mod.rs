pub mod hid_core;
pub mod hid_keyboard;
pub mod hid_mouse;
