//! USB HID boot mice: the report's button byte, movement and wheel, and the
//! mouse events they give.
use vstd::prelude::*;
use crate::input::mouse::mouse::{MouseButton, MouseButtonAction, MouseEvent};
use crate::usb::hid::hid_core::{interrupt_in_request, listen_request, HidDriver, HidEvent, RawHidReport};
use crate::usb::usb_transfers::UsbTransferRequest;

verus! {

/// The bit of the button byte, and the button, of mapping `i` (0..5).
pub open spec fn button_mapping(i: int) -> (u8, MouseButton) {
    if i == 0 {
        (0x01u8, MouseButton::Left)
    } else if i == 1 {
        (0x02u8, MouseButton::Right)
    } else if i == 2 {
        (0x04u8, MouseButton::Middle)
    } else if i == 3 {
        (0x08u8, MouseButton::SideBack)
    } else {
        (0x10u8, MouseButton::SideFront)
    }
}

/// The bit of the button byte, and the button, of mapping `i`.
pub fn button_mapping_at(i: usize) -> (r: (u8, MouseButton))
    requires
        i < 5,
    ensures
        r == button_mapping(i as int),
{
    match i {
        0 => (0x01, MouseButton::Left),
        1 => (0x02, MouseButton::Right),
        2 => (0x04, MouseButton::Middle),
        3 => (0x08, MouseButton::SideBack),
        _ => (0x10, MouseButton::SideFront),
    }
}

/// Click events for the first `k` buttons whose bit differs between `old`
/// and `new`.
pub open spec fn button_events(old: u8, new: u8, k: int) -> Seq<MouseEvent>
    decreases k,
{
    if k <= 0 {
        Seq::empty()
    } else {
        let before = button_events(old, new, k - 1);
        let (mask, button) = button_mapping(k - 1);
        if (new ^ old) & mask != 0 {
            before.push(
                MouseEvent {
                    move_x: 0,
                    move_y: 0,
                    mouse_button: Some(button),
                    mouse_button_action: Some(
                        if new & mask != 0 {
                            MouseButtonAction::Pressed
                        } else {
                            MouseButtonAction::Released
                        },
                    ),
                    scroll: 0,
                },
            )
        } else {
            before
        }
    }
}

/// The events of a report: a movement where both deltas are nonzero, the
/// buttons that changed, and a wheel turn where the fourth byte is nonzero.
/// Reports of fewer than three bytes give none.
pub open spec fn mouse_report_events(previous_buttons: u8, data: Seq<u8>) -> Seq<MouseEvent> {
    if data.len() < 3 {
        Seq::empty()
    } else {
        let mv = if data[1] != 0 && data[2] != 0 {
            seq![
                MouseEvent {
                    move_x: (data[1] as i8) as isize,
                    move_y: (data[2] as i8) as isize,
                    mouse_button: None,
                    mouse_button_action: None,
                    scroll: 0,
                },
            ]
        } else {
            Seq::empty()
        };
        let sc = if data.len() >= 4 && (data[3] as i8) != 0 {
            seq![
                MouseEvent {
                    move_x: 0,
                    move_y: 0,
                    mouse_button: None,
                    mouse_button_action: None,
                    scroll: (data[3] as i8) as isize,
                },
            ]
        } else {
            Seq::empty()
        };
        mv + button_events(previous_buttons, data[0], 5) + sc
    }
}

/// A boot protocol mouse: its interrupt IN endpoint, the request it listens
/// with once it listens, the button byte that reports are compared against,
/// and its position.
pub struct HidMouse {
    pub in_endpoint_address: u8,
    pub pending_request: Option<UsbTransferRequest>,
    pub previous_button_state: u8,
    pub x_pos: isize,
    pub y_pos: isize,
}

impl HidMouse {
    pub fn new(in_endpoint_address: u8) -> (r: Self)
        ensures
            r == (HidMouse { in_endpoint_address, pending_request: None, previous_button_state: 0, x_pos: 0, y_pos: 0 }),
    {
        Self { in_endpoint_address, pending_request: None, x_pos: 0, y_pos: 0, previous_button_state: 0 }
    }

    /// The mouse events of a report. The button byte that reports are
    /// compared against is left as it is.
    pub fn report_mouse_events(&self, data: &[u8]) -> (r: Vec<MouseEvent>)
        ensures
            r@ == mouse_report_events(self.previous_button_state, data@),
    {
        let mut events: Vec<MouseEvent> = Vec::new();
        if data.len() < 3 {
            return events;
        }
        if data[1] != 0 && data[2] != 0 {
            let x_raw = (data[1] as i8) as isize;
            let y_raw = (data[2] as i8) as isize;
            assert(x_raw & 0x80 != 1 && y_raw & 0x80 != 1) by (bit_vector);
            let sign_x: isize = if x_raw & 0x80 == 1 {
                -1
            } else {
                1
            };
            let sign_y: isize = if y_raw & 0x80 == 1 {
                -1
            } else {
                1
            };
            let move_x = x_raw * sign_x;
            let move_y = y_raw * sign_y;
            events.push(MouseEvent::new_move(move_x, move_y));
        }
        let ghost after_move = events@;
        let new_buttons = data[0];
        let old_buttons = self.previous_button_state;
        let changed_buttons = new_buttons ^ old_buttons;
        let mut i: usize = 0;
        while i < 5
            invariant
                i <= 5,
                changed_buttons == data@[0] ^ old_buttons,
                new_buttons == data@[0],
                old_buttons == self.previous_button_state,
                events@ == after_move + button_events(old_buttons, new_buttons, i as int),
            decreases 5 - i,
        {
            let (mask, mouse_button) = button_mapping_at(i);
            if (changed_buttons & mask) != 0 {
                let action = if (new_buttons & mask) != 0 {
                    MouseButtonAction::Pressed
                } else {
                    MouseButtonAction::Released
                };
                events.push(MouseEvent::new_click(mouse_button, action));
            }
            assert(events@ =~= after_move + button_events(old_buttons, new_buttons, i + 1));
            i = i + 1;
        }
        let mut scroll_delta: isize = 0;
        if data.len() >= 4 {
            scroll_delta = (data[3] as i8) as isize;
        }
        if scroll_delta != 0 {
            events.push(MouseEvent::new_scroll(scroll_delta));
        }
        events
    }
}

impl HidDriver for HidMouse {
    open spec fn accepts_report(&self, data: Seq<u8>) -> bool {
        true
    }

    open spec fn report_events_of(&self, data: Seq<u8>) -> Seq<HidEvent> {
        mouse_report_events(self.previous_button_state, data).map_values(|e: MouseEvent| HidEvent::Mouse(e))
    }

    open spec fn after_report(&self, after: &Self, data: Seq<u8>) -> bool {
        *after == *self
    }

    open spec fn in_endpoint(&self) -> u8 {
        self.in_endpoint_address
    }

    open spec fn listen_length(&self) -> usize {
        4
    }

    open spec fn after_listening(&self, after: &Self, request: UsbTransferRequest) -> bool {
        *after == (HidMouse { pending_request: Some(request), ..*self })
    }

    /// Sends the mouse events of a report; the button byte that reports are
    /// compared against stays as it is.
    fn handle_hid_report(&mut self, report: RawHidReport) -> (r: Vec<HidEvent>) {
        let moves = self.report_mouse_events(report.data);
        let mut events: Vec<HidEvent> = Vec::new();
        let mut i: usize = 0;
        while i < moves.len()
            invariant
                i <= moves@.len(),
                events@ == moves@.subrange(0, i as int).map_values(|e: MouseEvent| HidEvent::Mouse(e)),
            decreases moves@.len() - i,
        {
            events.push(HidEvent::Mouse(moves[i]));
            assert(moves@.subrange(0, i + 1) =~= moves@.subrange(0, i as int).push(moves@[i as int]));
            i = i + 1;
        }
        assert(moves@.subrange(0, moves@.len() as int) =~= moves@);
        events
    }

    /// Listens on the interrupt IN endpoint with a 4-byte buffer at
    /// `dma_buffer`: boot mice send 3 bytes, some a fourth with the wheel.
    fn start_listening(&mut self, hardware_id: u8, dma_buffer: u64) -> (r: UsbTransferRequest) {
        let request = listen_request(hardware_id, self.in_endpoint_address, dma_buffer, 4);
        self.pending_request = Some(request);
        request
    }
}

} // verus!
