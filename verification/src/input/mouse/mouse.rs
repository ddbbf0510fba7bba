//! Mouse events and the mouse state that they drive: the buttons held and
//! the pointer position, kept on screen.
use vstd::prelude::*;

verus! {

#[derive(Copy, Clone, PartialEq, Eq, Structural, Debug)]
pub enum MouseButtonAction {
    Pressed,
    Released,
}

#[derive(Copy, Clone, PartialEq, Eq, Structural, Debug)]
pub enum MouseButton {
    Left,
    Right,
    Middle,
    SideBack,
    SideFront,
}

/// Index of each button in the button state.
pub open spec fn button_index(b: MouseButton) -> int {
    match b {
        MouseButton::Left => 0,
        MouseButton::Right => 1,
        MouseButton::Middle => 2,
        MouseButton::SideBack => 3,
        MouseButton::SideFront => 4,
    }
}

fn button_slot(b: MouseButton) -> (r: usize)
    ensures
        r == button_index(b),
{
    match b {
        MouseButton::Left => 0,
        MouseButton::Right => 1,
        MouseButton::Middle => 2,
        MouseButton::SideBack => 3,
        MouseButton::SideFront => 4,
    }
}

/// A movement, a button going down or up, or a turn of the wheel.
#[derive(Copy, Clone, PartialEq, Eq, Structural, Debug)]
pub struct MouseEvent {
    pub move_x: isize,
    pub move_y: isize,
    pub mouse_button: Option<MouseButton>,
    pub mouse_button_action: Option<MouseButtonAction>,
    pub scroll: isize,
}

impl MouseEvent {
    pub fn new_click(mouse_button: MouseButton, mouse_button_action: MouseButtonAction) -> (r: Self)
        ensures
            r == (MouseEvent {
                move_x: 0,
                move_y: 0,
                mouse_button: Some(mouse_button),
                mouse_button_action: Some(mouse_button_action),
                scroll: 0,
            }),
    {
        Self {
            move_x: 0,
            move_y: 0,
            mouse_button: Some(mouse_button),
            mouse_button_action: Some(mouse_button_action),
            scroll: 0,
        }
    }

    pub fn new_move(move_x: isize, move_y: isize) -> (r: Self)
        ensures
            r == (MouseEvent {
                move_x,
                move_y,
                mouse_button: None,
                mouse_button_action: None,
                scroll: 0,
            }),
    {
        Self { move_x, move_y, mouse_button: None, mouse_button_action: None, scroll: 0 }
    }

    pub fn new_scroll(scroll: isize) -> (r: Self)
        ensures
            r == (MouseEvent {
                move_x: 0,
                move_y: 0,
                mouse_button: None,
                mouse_button_action: None,
                scroll,
            }),
    {
        Self { move_x: 0, move_y: 0, mouse_button: None, mouse_button_action: None, scroll }
    }
}

/// The buttons held (by button index) and the pointer position.
pub struct GlobalMouse {
    pub pressed_buttons: Vec<bool>,
    pub x_pos: isize,
    pub y_pos: isize,
}

/// `v` clamped to `lo..=hi`.
pub open spec fn clamp_spec(v: int, lo: int, hi: int) -> int {
    if v < lo {
        lo
    } else if v > hi {
        hi
    } else {
        v
    }
}

/// The button state after `event`.
pub open spec fn buttons_after(pressed: Seq<bool>, event: MouseEvent) -> Seq<bool> {
    match (event.mouse_button, event.mouse_button_action) {
        (Some(b), Some(a)) => pressed.update(button_index(b), a == MouseButtonAction::Pressed),
        _ => pressed,
    }
}

impl GlobalMouse {
    /// No button held, the pointer in the middle of a `fb_width` by
    /// `fb_height` screen.
    pub fn init(fb_width: usize, fb_height: usize) -> (r: GlobalMouse)
        requires
            fb_width <= isize::MAX,
            fb_height <= isize::MAX,
        ensures
            r.pressed_buttons@ == seq![false, false, false, false, false],
            r.x_pos == fb_width / 2,
            r.y_pos == fb_height / 2,
    {
        let pressed_buttons = vec![false, false, false, false, false];
        GlobalMouse {
            pressed_buttons,
            x_pos: (fb_width / 2) as isize,
            y_pos: (fb_height / 2) as isize,
        }
    }

    /// Takes `event` into the state: a button goes down or up, and a
    /// movement moves the pointer, kept within the screen. Returns whether
    /// the pointer moved, in which case the cursor is to be drawn again.
    pub fn handle_mouse_event(&mut self, event: MouseEvent, fb_width: usize, fb_height: usize) -> (r:
        bool)
        requires
            old(self).pressed_buttons@.len() == 5,
            (event.move_x != 0 || event.move_y != 0) ==> {
                &&& 1 <= fb_width <= isize::MAX
                &&& 1 <= fb_height <= isize::MAX
                &&& isize::MIN <= old(self).x_pos + event.move_x <= isize::MAX
                &&& isize::MIN <= old(self).y_pos + event.move_y <= isize::MAX
            },
        ensures
            final(self).pressed_buttons@ == buttons_after(old(self).pressed_buttons@, event),
            r == (event.move_x != 0 || event.move_y != 0),
            r ==> final(self).x_pos == clamp_spec(old(self).x_pos + event.move_x, 0, fb_width - 1),
            r ==> final(self).y_pos == clamp_spec(old(self).y_pos + event.move_y, 0, fb_height - 1),
            !r ==> final(self).x_pos == old(self).x_pos && final(self).y_pos == old(self).y_pos,
    {
        match (event.mouse_button, event.mouse_button_action) {
            (Some(btn), Some(action)) => {
                let slot = button_slot(btn);
                if action == MouseButtonAction::Pressed {
                    self.pressed_buttons.set(slot, true);
                } else {
                    self.pressed_buttons.set(slot, false);
                }
            },
            _ => {},
        }
        if event.move_x == 0 && event.move_y == 0 {
            return false;
        }
        let new_x = self.x_pos + event.move_x;
        let max_x = fb_width as isize - 1;
        self.x_pos = if new_x < 0 {
            0
        } else if new_x > max_x {
            max_x
        } else {
            new_x
        };
        let new_y = self.y_pos + event.move_y;
        let max_y = fb_height as isize - 1;
        self.y_pos = if new_y < 0 {
            0
        } else if new_y > max_y {
            max_y
        } else {
            new_y
        };
        true
    }
}

/// After any movement the pointer is on the screen.
pub proof fn law_pointer_stays_on_screen(x: int, dx: int, w: int)
    requires
        w >= 1,
    ensures
        0 <= clamp_spec(x + dx, 0, w - 1) < w,
{
}

} // verus!
