//! Transfer Request Blocks: the 16-byte records exchanged with the xHC on the
//! command, event and transfer rings, and typed views of each kind of TRB.
use vstd::prelude::*;
use crate::bits::{
    bits_test32, bits_update32, field_get32, field_get64, field_place32, field_place64, field_set32,
    get_field32, get_field64, has_bits32, place_field32, place_field64, set_bits32, set_field32,
};
use crate::usb::usb_transfers::{setup_packet_bytes, UsbSetupPacket};

verus! {

/// Completion codes reported in bits 24..=31 of the status dword of event TRBs.
pub struct TrbCompletionCode;

impl TrbCompletionCode {
    pub const INVALID: u8 = 0;
    pub const SUCCESS: u8 = 1;
    pub const DATA_BUFFER_ERROR: u8 = 2;
    pub const BABBLE_DETECTED_ERROR: u8 = 3;
    pub const USB_TRANSACTION_ERROR: u8 = 4;
    pub const TRB_ERROR: u8 = 5;
    pub const STALL_ERROR: u8 = 6;
    pub const RESOURCE_ERROR: u8 = 7;
    pub const BANDWIDTH_ERROR: u8 = 8;
    pub const NO_SLOTS_AVAILABLE_ERROR: u8 = 9;
    pub const INVALID_STREAM_TYPE_ERROR: u8 = 10;
    pub const SLOT_NOT_ENABLED_ERROR: u8 = 11;
    pub const ENDPOINT_NOT_ENABLED_ERROR: u8 = 12;
    pub const SHORT_PACKET: u8 = 13;
    pub const RING_UNDERRUN: u8 = 14;
    pub const RING_OVERRUN: u8 = 15;
    pub const VF_EVENT_RING_FULL_ERROR: u8 = 16;
    pub const PARAMETER_ERROR: u8 = 17;
    pub const BANDWIDTH_OVERRUN_ERROR: u8 = 18;
    pub const CONTEXT_STATE_ERROR: u8 = 19;
    pub const NO_PING_RESPONSE_ERROR: u8 = 20;
    pub const EVENT_RING_FULL_ERROR: u8 = 21;
    pub const INCOMPATIBLE_DEVICE_ERROR: u8 = 22;
    pub const MISSED_SERVICE_ERROR: u8 = 23;
    pub const COMMAND_RING_STOPPED: u8 = 24;
    pub const COMMAND_ABORTED: u8 = 25;
    pub const STOPPED: u8 = 26;
    pub const STOPPED_LENGTH_INVALID: u8 = 27;
    pub const STOPPED_SHORT_PACKET: u8 = 28;
    pub const MAX_EXIT_LATENCY_TOO_LARGE_ERROR: u8 = 29;
    pub const ISOCH_BUFFER_OVERRUN: u8 = 31;
    pub const EVENT_LOST_ERROR: u8 = 32;
    pub const UNDEFINED_ERROR: u8 = 33;
    pub const INVALID_STREAM_ID_ERROR: u8 = 34;
    pub const SECONDARY_BANDWIDTH_ERROR: u8 = 35;
    pub const SPLIT_TRANSACTION_ERROR: u8 = 36;
}

/// A raw TRB: a 64-bit parameter, a status dword and a control dword.
#[derive(Clone, Copy, Debug)]
pub struct Trb {
    /// Pointer or immediate value.
    pub parameter: u64,
    /// Length, residual and similar fields.
    pub status: u32,
    /// Type, cycle bit and flags.
    pub control: u32,
}

/// The TRB type field of a control dword (bits 10..=15).
pub open spec fn trb_type_of(control: u32) -> u8 {
    get_field32(control, 0xFC00, 10) as u8
}

/// Whether the cycle bit (bit 0) of a control dword is set.
pub open spec fn cycle_of(control: u32) -> bool {
    has_bits32(control, 0x1)
}

impl Trb {
    pub const TRB_RESERVED0: u8 = 0;
    pub const TRB_NORMAL: u8 = 1;
    pub const TRB_SETUP_STAGE: u8 = 2;
    pub const TRB_DATA_STAGE: u8 = 3;
    pub const TRB_STATUS_STAGE: u8 = 4;
    pub const TRB_ISOCH: u8 = 5;
    pub const TRB_LINK: u8 = 6;
    pub const TRB_EVENT_DATA: u8 = 7;
    pub const TRB_NO_OP: u8 = 8;
    pub const TRB_ENABLE_SLOT_COMMAND: u8 = 9;
    pub const TRB_DISABLE_SLOT_COMMAND: u8 = 10;
    pub const TRB_ADDRESS_DEVICE_COMMAND: u8 = 11;
    pub const TRB_CONFIGURE_ENDPOINT_COMMAND: u8 = 12;
    pub const TRB_EVALUATE_CONTEXT_COMMAND: u8 = 13;
    pub const TRB_RESET_ENDPOINT: u8 = 14;
    pub const TRB_STOP_ENDPOINT_COMMAND: u8 = 15;
    pub const TRB_SET_DEQUEUE_PTR: u8 = 16;
    pub const TRB_RESET_DEVICE: u8 = 17;
    pub const TRB_FORCE_EVENT: u8 = 18;
    pub const TRB_NEGOTIATE_BW: u8 = 19;
    pub const TRB_SET_LTV: u8 = 20;
    pub const TRB_GET_PORT_BW: u8 = 21;
    pub const TRB_FORCE_HEADER: u8 = 22;
    pub const TRB_NO_OP_CMD: u8 = 23;
    pub const TRB_GET_EXT_PROP: u8 = 24;
    pub const TRB_SET_EXT_PROP: u8 = 25;
    pub const TRB_TRANSFER_EVENT: u8 = 32;
    pub const TRB_COMMAND_COMPLETION_EVENT: u8 = 33;
    pub const TRB_PORT_STATUS_CHANGE_EVENT: u8 = 34;
    pub const TRB_BW_REQUEST_EVENT: u8 = 35;
    pub const TRB_DOORBELL_EVENT: u8 = 36;
    pub const TRB_HOST_CONTROLLER_EVENT: u8 = 37;
    pub const TRB_DEVICE_NOTIFICATION_EVENT: u8 = 38;
    pub const TRB_MFINDEX_WRAP_EVENT: u8 = 39;

    /// An all-zero TRB.
    pub fn new() -> (r: Self)
        ensures
            r.parameter == 0 && r.status == 0 && r.control == 0,
    {
        Self { parameter: 0, status: 0, control: 0 }
    }

    /// A TRB made of the three given words.
    pub fn new_raw(parameter: u64, status: u32, control: u32) -> (r: Self)
        ensures
            r.parameter == parameter && r.status == status && r.control == control,
    {
        Self { parameter, status, control }
    }

    pub fn parameter(&self) -> (r: u64)
        ensures
            r == self.parameter,
    {
        self.parameter
    }

    pub fn set_parameter(&mut self, value: u64)
        ensures
            *final(self) == (Trb { parameter: value, ..*old(self) }),
    {
        self.parameter = value;
    }

    /// Transfer length, bits 0..=16 of the status dword.
    pub fn length(&self) -> (r: u32)
        ensures
            r == get_field32(self.status, 0x1FFFF, 0),
    {
        field_get32(self.status, 0x1FFFF, 0)
    }

    /// Writes the transfer length, cut to 17 bits.
    pub fn set_length(&mut self, len: u32)
        ensures
            final(self).status == set_field32(old(self).status, 0x1FFFF, 0, len),
            final(self).parameter == old(self).parameter,
            final(self).control == old(self).control,
    {
        self.status = field_set32(self.status, 0x1FFFF, 0, len);
    }

    /// The cycle bit (bit 0 of the control dword).
    pub fn cycle(&self) -> (r: bool)
        ensures
            r == has_bits32(self.control, 0x1),
    {
        bits_test32(self.control, 0x1)
    }

    /// The cycle bit as a number, 0 or 1.
    pub fn cycle_val(&self) -> (r: u32)
        ensures
            r == get_field32(self.control, 0x1, 0),
    {
        field_get32(self.control, 0x1, 0)
    }

    /// Sets or clears the cycle bit.
    pub fn set_cycle(&mut self, cycle: bool)
        ensures
            final(self).control == set_bits32(old(self).control, 0x1, cycle),
            final(self).parameter == old(self).parameter,
            final(self).status == old(self).status,
    {
        self.control = bits_update32(self.control, 0x1, cycle);
    }

    /// Sets or clears the toggle cycle bit (bit 1 of the control dword).
    pub fn set_toggle_cycle(&mut self, toggle: bool)
        ensures
            final(self).control == set_bits32(old(self).control, 0x2, toggle),
            final(self).parameter == old(self).parameter,
            final(self).status == old(self).status,
    {
        self.control = bits_update32(self.control, 0x2, toggle);
    }

    /// The chain bit (bit 4 of the control dword).
    pub fn chain(&self) -> (r: bool)
        ensures
            r == has_bits32(self.control, 0x10),
    {
        bits_test32(self.control, 0x10)
    }

    /// Sets or clears the chain bit.
    pub fn set_chain(&mut self, chain: bool)
        ensures
            final(self).control == set_bits32(old(self).control, 0x10, chain),
            final(self).parameter == old(self).parameter,
            final(self).status == old(self).status,
    {
        self.control = bits_update32(self.control, 0x10, chain);
    }

    /// The evaluate next TRB bit (bit 1 of the control dword).
    pub fn ent(&self) -> (r: bool)
        ensures
            r == has_bits32(self.control, 0x2),
    {
        bits_test32(self.control, 0x2)
    }

    /// Sets or clears the evaluate next TRB bit.
    pub fn set_ent(&mut self, ent: bool)
        ensures
            final(self).control == set_bits32(old(self).control, 0x2, ent),
            final(self).parameter == old(self).parameter,
            final(self).status == old(self).status,
    {
        self.control = bits_update32(self.control, 0x2, ent);
    }

    /// The interrupt on completion bit (bit 5 of the control dword).
    pub fn ioc(&self) -> (r: bool)
        ensures
            r == has_bits32(self.control, 0x20),
    {
        bits_test32(self.control, 0x20)
    }

    /// Sets or clears the interrupt on completion bit.
    pub fn set_ioc(&mut self, ioc: bool)
        ensures
            final(self).control == set_bits32(old(self).control, 0x20, ioc),
            final(self).parameter == old(self).parameter,
            final(self).status == old(self).status,
    {
        self.control = bits_update32(self.control, 0x20, ioc);
    }

    /// The direction bit (bit 16 of the control dword).
    pub fn direction(&self) -> (r: u8)
        ensures
            r == get_field32(self.control, 0x10000, 16) as u8,
    {
        field_get32(self.control, 0x10000, 16) as u8
    }

    /// Writes the direction bit from the lowest bit of `direction`.
    pub fn set_direction(&mut self, direction: u8)
        ensures
            final(self).control == set_field32(old(self).control, 0x10000, 16, direction as u32),
            final(self).parameter == old(self).parameter,
            final(self).status == old(self).status,
    {
        self.control = field_set32(self.control, 0x10000, 16, direction as u32);
    }

    /// Interrupter target, bits 22..=31 of the status dword.
    pub fn interrupter_target(&self) -> (r: u16)
        ensures
            r == get_field32(self.status, 0xFFC00000, 22) as u16,
    {
        field_get32(self.status, 0xFFC00000, 22) as u16
    }

    /// Writes the interrupter target, cut to 10 bits.
    pub fn set_interrupter_target(&mut self, target: u16)
        ensures
            final(self).status == set_field32(old(self).status, 0xFFC00000, 22, target as u32),
            final(self).parameter == old(self).parameter,
            final(self).control == old(self).control,
    {
        self.status = field_set32(self.status, 0xFFC00000, 22, target as u32);
    }

    /// Slot id, bits 24..=31 of the control dword.
    pub fn slot_id(&self) -> (r: u8)
        ensures
            r == get_field32(self.control, 0xFF000000, 24) as u8,
    {
        field_get32(self.control, 0xFF000000, 24) as u8
    }

    /// Writes the slot id.
    pub fn set_slot_id(&mut self, slot_id: u8)
        ensures
            final(self).control == place_field32(old(self).control, 0xFF000000, 24, slot_id as u32),
            final(self).parameter == old(self).parameter,
            final(self).status == old(self).status,
    {
        self.control = field_place32(self.control, 0xFF000000, 24, slot_id as u32);
    }

    /// TRB type, bits 10..=15 of the control dword.
    pub fn trb_type(&self) -> (r: u8)
        ensures
            r == get_field32(self.control, 0xFC00, 10) as u8,
    {
        field_get32(self.control, 0xFC00, 10) as u8
    }

    /// Clears the TRB type field and ors in `ty << 10`; a type above 63 spills into bits 16 and 17.
    pub fn set_trb_type(&mut self, ty: u8)
        ensures
            final(self).control == place_field32(old(self).control, 0xFC00, 10, ty as u32),
            final(self).parameter == old(self).parameter,
            final(self).status == old(self).status,
    {
        self.control = field_place32(self.control, 0xFC00, 10, ty as u32);
    }

    /// Whether the TRB type is one of the event TRB types (32..=63).
    pub fn is_event_trb(&self) -> (r: bool)
        ensures
            r == (32 <= trb_type_of(self.control) <= 63),
    {
        let t = self.trb_type();
        t >= 32 && t <= 63
    }

    /// Whether the TRB type is one of the command TRB types (9..=31).
    pub fn is_command_trb(&self) -> (r: bool)
        ensures
            r == (9 <= trb_type_of(self.control) <= 31),
    {
        let t = self.trb_type();
        t >= 9 && t <= 31
    }

    /// Whether the TRB type is one of the transfer TRB types (1..=8).
    pub fn is_transfer_trb(&self) -> (r: bool)
        ensures
            r == (1 <= trb_type_of(self.control) <= 8),
    {
        let t = self.trb_type();
        t >= 1 && t <= 8
    }

    /// Whether the TRB is a setup, data or status stage TRB.
    pub fn is_control_transfer_trb(&self) -> (r: bool)
        ensures
            r == (trb_type_of(self.control) == 2 || trb_type_of(self.control) == 3
                || trb_type_of(self.control) == 4),
    {
        let t = self.trb_type();
        t == 2 || t == 3 || t == 4
    }

    /// Whether the TRB is a link TRB.
    pub fn is_link_trb(&self) -> (r: bool)
        ensures
            r == (trb_type_of(self.control) == 6),
    {
        self.trb_type() == 6
    }

    pub fn control(&self) -> (r: u32)
        ensures
            r == self.control,
    {
        self.control
    }

    pub fn set_control(&mut self, value: u32)
        ensures
            *final(self) == (Trb { control: value, ..*old(self) }),
    {
        self.control = value;
    }

    pub fn status(&self) -> (r: u32)
        ensures
            r == self.status,
    {
        self.status
    }

    pub fn set_status(&mut self, value: u32)
        ensures
            *final(self) == (Trb { status: value, ..*old(self) }),
    {
        self.status = value;
    }

    /// Views the TRB as a port status change event, if it has that type.
    pub fn try_as_port_status_change_event(&self) -> (r: Result<PortStatusChangeEventTrb, TrbParseError>)
        ensures
            typed_view(*self, Trb::TRB_PORT_STATUS_CHANGE_EVENT, r),
    {
        PortStatusChangeEventTrb::new(*self)
    }

    /// Views the TRB as a command completion event, if it has that type.
    pub fn try_as_command_completion_event(&self) -> (r: Result<CommandCompletionEventTrb, TrbParseError>)
        ensures
            typed_view(*self, Trb::TRB_COMMAND_COMPLETION_EVENT, r),
    {
        CommandCompletionEventTrb::new(*self)
    }

    /// Views the TRB as a transfer event, if it has that type.
    pub fn try_as_transfer_event(&self) -> (r: Result<TransferEventTrb, TrbParseError>)
        ensures
            typed_view(*self, Trb::TRB_TRANSFER_EVENT, r),
    {
        TransferEventTrb::new(*self)
    }
}

/// Why a raw TRB could not be viewed as a given kind of TRB.
#[derive(Clone, Copy, Debug, PartialEq, Eq)]
pub enum TrbParseError {
    UnexpectedType { expected: u8, actual: u8 },
}

/// The outcome of viewing `raw` as a TRB of type `expected`: the same TRB when its
/// type field says `expected`, else the error naming both types.
pub open spec fn typed_view<T: View<V = Trb>>(raw: Trb, expected: u8, r: Result<T, TrbParseError>) -> bool {
    match r {
        Ok(t) => trb_type_of(raw.control) == expected && t@ == raw,
        Err(e) => trb_type_of(raw.control) != expected && e == (TrbParseError::UnexpectedType {
            expected,
            actual: trb_type_of(raw.control),
        }),
    }
}

/// Access shared by the typed TRB views.
pub trait TrbTrait {
    const TRB_TYPE: u8;

    spec fn spec_raw(&self) -> Trb;

    fn raw(&self) -> (r: &Trb)
        ensures
            *r == self.spec_raw(),
    ;

    fn read_trb_type(&self) -> (r: u8)
        ensures
            r == trb_type_of(self.spec_raw().control),
    {
        self.raw().trb_type()
    }

    fn read_cycle(&self) -> (r: bool)
        ensures
            r == cycle_of(self.spec_raw().control),
    {
        self.raw().cycle()
    }

    /// The completion code, bits 24..=31 of the status dword.
    fn read_completion_code(&self) -> (r: u8)
        ensures
            r == get_field32(self.spec_raw().status, 0xFF000000, 24) as u8,
    {
        field_get32(self.raw().status(), 0xFF000000, 24) as u8
    }

    fn has_expected_type(&self) -> (r: bool)
        ensures
            r == (trb_type_of(self.spec_raw().control) == Self::TRB_TYPE),
    {
        self.read_trb_type() == Self::TRB_TYPE
    }
}

/// A port status change event.
#[derive(Clone, Copy, Debug)]
pub struct PortStatusChangeEventTrb {
    raw: Trb,
}

impl View for PortStatusChangeEventTrb {
    type V = Trb;

    closed spec fn view(&self) -> Trb {
        self.raw
    }
}

impl PortStatusChangeEventTrb {
    /// Views `raw` as this kind of TRB; fails when its type field says otherwise.
    pub fn new(raw: Trb) -> (r: Result<Self, TrbParseError>)
        ensures
            typed_view(raw, Trb::TRB_PORT_STATUS_CHANGE_EVENT, r),
    {
        let actual = raw.trb_type();
        if actual != Trb::TRB_PORT_STATUS_CHANGE_EVENT {
            return Err(TrbParseError::UnexpectedType { expected: Trb::TRB_PORT_STATUS_CHANGE_EVENT, actual });
        }
        Ok(Self { raw: raw })
    }

    /// The port id, bits 24..=31 of the parameter.
    pub fn port_id(&self) -> (r: u8)
        ensures
            r == get_field64(self@.parameter, 0xFF000000, 24) as u8,
    {
        field_get64(self.raw.parameter(), 0xFF000000, 24) as u8
    }
}

impl TrbTrait for PortStatusChangeEventTrb {
    const TRB_TYPE: u8 = Trb::TRB_PORT_STATUS_CHANGE_EVENT;

    open spec fn spec_raw(&self) -> Trb {
        self@
    }

    fn raw(&self) -> (r: &Trb) {
        &self.raw
    }
}

/// An enable slot command.
#[derive(Clone, Copy, Debug)]
pub struct EnableSlotCommandTrb {
    raw: Trb,
}

impl View for EnableSlotCommandTrb {
    type V = Trb;

    closed spec fn view(&self) -> Trb {
        self.raw
    }
}

impl EnableSlotCommandTrb {
    /// Views `raw` as this kind of TRB; fails when its type field says otherwise.
    pub fn from_raw(raw: Trb) -> (r: Result<Self, TrbParseError>)
        ensures
            typed_view(raw, Trb::TRB_ENABLE_SLOT_COMMAND, r),
    {
        let actual = raw.trb_type();
        if actual != Trb::TRB_ENABLE_SLOT_COMMAND {
            return Err(TrbParseError::UnexpectedType { expected: Trb::TRB_ENABLE_SLOT_COMMAND, actual });
        }
        Ok(Self { raw: raw })
    }

    /// An enable slot command for the given slot type.
    pub fn new_command(slot_type: u8) -> (r: Self)
        ensures
            r@ == (Trb {
                parameter: 0,
                status: 0,
                control: set_field32(place_field32(0, 0xFC00, 10, 9), 0x1F0000, 16, slot_type as u32),
            }),
    {
        let mut raw = Trb::new();
        raw.set_trb_type(Trb::TRB_ENABLE_SLOT_COMMAND);
        let mut command = Self { raw };
        command.set_slot_type(slot_type);
        command
    }

    /// Slot type, bits 16..=20 of the control dword.
    pub fn slot_type(&self) -> (r: u8)
        ensures
            r == get_field32(self@.control, 0x1F0000, 16) as u8,
    {
        field_get32(self.raw.control, 0x1F0000, 16) as u8
    }

    /// Writes the slot type, cut to 5 bits.
    pub fn set_slot_type(&mut self, slot_type: u8)
        ensures
            final(self)@.control == set_field32(old(self)@.control, 0x1F0000, 16, slot_type as u32),
            final(self)@.parameter == old(self)@.parameter,
            final(self)@.status == old(self)@.status,
    {
        self.raw.control = field_set32(self.raw.control, 0x1F0000, 16, slot_type as u32);
    }

}

impl TrbTrait for EnableSlotCommandTrb {
    const TRB_TYPE: u8 = Trb::TRB_ENABLE_SLOT_COMMAND;

    open spec fn spec_raw(&self) -> Trb {
        self@
    }

    fn raw(&self) -> (r: &Trb) {
        &self.raw
    }
}

/// A command completion event.
#[derive(Clone, Copy, Debug)]
pub struct CommandCompletionEventTrb {
    raw: Trb,
}

impl View for CommandCompletionEventTrb {
    type V = Trb;

    closed spec fn view(&self) -> Trb {
        self.raw
    }
}

impl CommandCompletionEventTrb {
    /// Views `raw` as this kind of TRB; fails when its type field says otherwise.
    pub fn new(raw: Trb) -> (r: Result<Self, TrbParseError>)
        ensures
            typed_view(raw, Trb::TRB_COMMAND_COMPLETION_EVENT, r),
    {
        let actual = raw.trb_type();
        if actual != Trb::TRB_COMMAND_COMPLETION_EVENT {
            return Err(TrbParseError::UnexpectedType { expected: Trb::TRB_COMMAND_COMPLETION_EVENT, actual });
        }
        Ok(Self { raw: raw })
    }

    /// Address of the command TRB this event completes (parameter without its low 4 bits).
    pub fn command_trb_pointer(&self) -> (r: u64)
        ensures
            r == self@.parameter & !0xFu64,
    {
        self.raw.parameter() & !0xF
    }

    /// Command completion parameter, bits 0..=23 of the status dword.
    pub fn command_completion_parameter(&self) -> (r: u32)
        ensures
            r == get_field32(self@.status, 0xFFFFFF, 0),
    {
        field_get32(self.raw.status, 0xFFFFFF, 0)
    }

    /// Completion code, bits 24..=31 of the status dword.
    pub fn completion_code(&self) -> (r: u8)
        ensures
            r == get_field32(self@.status, 0xFF000000, 24) as u8,
    {
        field_get32(self.raw.status, 0xFF000000, 24) as u8
    }

    /// Virtual function id, bits 16..=23 of the control dword.
    pub fn vf_id(&self) -> (r: u8)
        ensures
            r == get_field32(self@.control, 0xFF0000, 16) as u8,
    {
        field_get32(self.raw.control, 0xFF0000, 16) as u8
    }

    /// Slot id, bits 24..=31 of the control dword.
    pub fn slot_id(&self) -> (r: u8)
        ensures
            r == get_field32(self@.control, 0xFF000000, 24) as u8,
    {
        self.raw.slot_id()
    }

    /// The cycle bit.
    pub fn cycle(&self) -> (r: bool)
        ensures
            r == cycle_of(self@.control),
    {
        self.raw.cycle()
    }

}

impl TrbTrait for CommandCompletionEventTrb {
    const TRB_TYPE: u8 = Trb::TRB_COMMAND_COMPLETION_EVENT;

    open spec fn spec_raw(&self) -> Trb {
        self@
    }

    fn raw(&self) -> (r: &Trb) {
        &self.raw
    }
}

/// An address device command.
#[derive(Clone, Copy, Debug)]
pub struct AddressDeviceCommandTrb {
    raw: Trb,
}

impl View for AddressDeviceCommandTrb {
    type V = Trb;

    closed spec fn view(&self) -> Trb {
        self.raw
    }
}

impl AddressDeviceCommandTrb {
    /// An all-zero address device command.
    pub fn new() -> (r: Self)
        ensures
            r@ == (Trb { parameter: 0, status: 0, control: place_field32(0, 0xFC00, 10, 11 as u32) }),
    {
        let mut raw = Trb::new();
        raw.set_trb_type(11);
        Self { raw }
    }

    /// Views `raw` as this kind of TRB; fails when its type field says otherwise.
    pub fn from_raw(raw: Trb) -> (r: Result<Self, TrbParseError>)
        ensures
            typed_view(raw, 11, r),
    {
        let actual = raw.trb_type();
        if actual != 11 {
            return Err(TrbParseError::UnexpectedType { expected: 11, actual });
        }
        Ok(Self { raw: raw })
    }

    /// Input context pointer (parameter without its low 4 bits).
    pub fn input_context_pointer(&self) -> (r: u64)
        ensures
            r == self@.parameter & !0xFu64,
    {
        self.raw.parameter() & !0xF
    }

    /// Writes the input context pointer, dropping its low 4 bits.
    pub fn set_input_context_pointer(&mut self, ptr: u64)
        ensures
            final(self)@ == (Trb { parameter: ptr & !0xFu64, ..old(self)@ }),
    {
        self.raw.set_parameter(ptr & !0xF);
    }

    /// The block set address request bit (bit 9 of the control dword).
    pub fn bsr(&self) -> (r: bool)
        ensures
            r == has_bits32(self@.control, 0x200),
    {
        bits_test32(self.raw.control, 0x200)
    }

    /// Sets or clears the block set address request bit.
    pub fn set_bsr(&mut self, bsr: bool)
        ensures
            final(self)@.control == set_bits32(old(self)@.control, 0x200, bsr),
            final(self)@.parameter == old(self)@.parameter,
            final(self)@.status == old(self)@.status,
    {
        self.raw.control = bits_update32(self.raw.control, 0x200, bsr);
    }

    /// Slot id, bits 24..=31 of the control dword.
    pub fn slot_id(&self) -> (r: u8)
        ensures
            r == get_field32(self@.control, 0xFF000000, 24) as u8,
    {
        self.raw.slot_id()
    }

    /// Writes the slot id.
    pub fn set_slot_id(&mut self, slot_id: u8)
        ensures
            final(self)@.control == place_field32(old(self)@.control, 0xFF000000, 24, slot_id as u32),
            final(self)@.parameter == old(self)@.parameter,
            final(self)@.status == old(self)@.status,
    {
        self.raw.set_slot_id(slot_id);
    }

    /// The cycle bit.
    pub fn cycle(&self) -> (r: bool)
        ensures
            r == cycle_of(self@.control),
    {
        self.raw.cycle()
    }

    /// Sets or clears the cycle bit.
    pub fn set_cycle(&mut self, cycle: bool)
        ensures
            final(self)@.control == set_bits32(old(self)@.control, 0x1, cycle),
            final(self)@.parameter == old(self)@.parameter,
            final(self)@.status == old(self)@.status,
    {
        self.raw.set_cycle(cycle);
    }

}

impl TrbTrait for AddressDeviceCommandTrb {
    const TRB_TYPE: u8 = 11;

    open spec fn spec_raw(&self) -> Trb {
        self@
    }

    fn raw(&self) -> (r: &Trb) {
        &self.raw
    }
}

/// A transfer event.
pub struct TransferEventTrb {
    trb: Trb,
}

impl View for TransferEventTrb {
    type V = Trb;

    closed spec fn view(&self) -> Trb {
        self.trb
    }
}

impl TransferEventTrb {
    /// Views `raw` as this kind of TRB; fails when its type field says otherwise.
    pub fn new(raw: Trb) -> (r: Result<Self, TrbParseError>)
        ensures
            typed_view(raw, Trb::TRB_TRANSFER_EVENT, r),
    {
        let actual = raw.trb_type();
        if actual != Trb::TRB_TRANSFER_EVENT {
            return Err(TrbParseError::UnexpectedType { expected: Trb::TRB_TRANSFER_EVENT, actual });
        }
        Ok(Self { trb: raw })
    }

    /// Views any TRB as a transfer event, without checking its type.
    pub fn from_trb(trb: Trb) -> (r: Self)
        ensures
            r@ == trb,
    {
        Self { trb }
    }

    /// The underlying TRB.
    pub fn raw(&self) -> (r: &Trb)
        ensures
            *r == self@,
    {
        &self.trb
    }

    /// Writes the pointer to the TRB this event reports on.
    pub fn set_trb_pointer(&mut self, pointer: u64)
        ensures
            final(self)@.parameter == pointer,
            final(self)@.status == old(self)@.status,
            final(self)@.control == old(self)@.control,
    {
        self.trb.set_parameter(pointer);
    }

    /// Pointer to the TRB this event reports on.
    pub fn trb_pointer(&self) -> (r: u64)
        ensures
            r == self@.parameter,
    {
        self.trb.parameter()
    }

    /// Writes the transfer length, cut to 24 bits.
    pub fn set_transfer_length(&mut self, length: u32)
        ensures
            final(self)@.status == set_field32(old(self)@.status, 0xFFFFFF, 0, length),
            final(self)@.parameter == old(self)@.parameter,
            final(self)@.control == old(self)@.control,
    {
        self.trb.status = field_set32(self.trb.status, 0xFFFFFF, 0, length);
    }

    /// Transfer length, bits 0..=23 of the status dword.
    pub fn transfer_length(&self) -> (r: u32)
        ensures
            r == get_field32(self@.status, 0xFFFFFF, 0),
    {
        field_get32(self.trb.status, 0xFFFFFF, 0)
    }

    /// Writes the completion code.
    pub fn set_completion_code(&mut self, code: u8)
        ensures
            final(self)@.status == place_field32(old(self)@.status, 0xFF000000, 24, code as u32),
            final(self)@.parameter == old(self)@.parameter,
            final(self)@.control == old(self)@.control,
    {
        self.trb.status = field_place32(self.trb.status, 0xFF000000, 24, code as u32);
    }

    /// Completion code, bits 24..=31 of the status dword.
    pub fn completion_code(&self) -> (r: u8)
        ensures
            r == get_field32(self@.status, 0xFF000000, 24) as u8,
    {
        field_get32(self.trb.status, 0xFF000000, 24) as u8
    }

    /// Sets or clears the cycle bit.
    pub fn set_cycle(&mut self, cycle: bool)
        ensures
            final(self)@.control == set_bits32(old(self)@.control, 0x1, cycle),
            final(self)@.parameter == old(self)@.parameter,
            final(self)@.status == old(self)@.status,
    {
        self.trb.set_cycle(cycle);
    }

    /// The cycle bit.
    pub fn cycle(&self) -> (r: bool)
        ensures
            r == cycle_of(self@.control),
    {
        self.trb.cycle()
    }

    /// Sets or clears the event data bit (bit 2 of the control dword).
    pub fn set_ed(&mut self, ed: bool)
        ensures
            final(self)@.control == set_bits32(old(self)@.control, 0x4, ed),
            final(self)@.parameter == old(self)@.parameter,
            final(self)@.status == old(self)@.status,
    {
        self.trb.control = bits_update32(self.trb.control, 0x4, ed);
    }

    /// The event data bit.
    pub fn ed(&self) -> (r: bool)
        ensures
            r == has_bits32(self@.control, 0x4),
    {
        bits_test32(self.trb.control, 0x4)
    }

    /// Writes the endpoint id, cut to 5 bits.
    pub fn set_endpoint_id(&mut self, ep_id: u8)
        ensures
            final(self)@.control == set_field32(old(self)@.control, 0x1F0000, 16, ep_id as u32),
            final(self)@.parameter == old(self)@.parameter,
            final(self)@.status == old(self)@.status,
    {
        self.trb.control = field_set32(self.trb.control, 0x1F0000, 16, ep_id as u32);
    }

    /// Endpoint id, bits 16..=20 of the control dword.
    pub fn endpoint_id(&self) -> (r: u8)
        ensures
            r == get_field32(self@.control, 0x1F0000, 16) as u8,
    {
        field_get32(self.trb.control, 0x1F0000, 16) as u8
    }

    /// Writes the slot id.
    pub fn set_slot_id(&mut self, slot_id: u8)
        ensures
            final(self)@.control == place_field32(old(self)@.control, 0xFF000000, 24, slot_id as u32),
            final(self)@.parameter == old(self)@.parameter,
            final(self)@.status == old(self)@.status,
    {
        self.trb.set_slot_id(slot_id);
    }

    /// Slot id, bits 24..=31 of the control dword.
    pub fn slot_id(&self) -> (r: u8)
        ensures
            r == get_field32(self@.control, 0xFF000000, 24) as u8,
    {
        self.trb.slot_id()
    }

}

/// The status stage of a control transfer.
pub struct StatusStageTrb {
    trb: Trb,
}

impl View for StatusStageTrb {
    type V = Trb;

    closed spec fn view(&self) -> Trb {
        self.trb
    }
}

impl StatusStageTrb {
    /// An all-zero status stage TRB.
    pub fn new() -> (r: Self)
        ensures
            r@ == (Trb { parameter: 0, status: 0, control: place_field32(0, 0xFC00, 10, Trb::TRB_STATUS_STAGE as u32) }),
    {
        let mut trb = Trb::new();
        trb.set_trb_type(Trb::TRB_STATUS_STAGE);
        Self { trb }
    }

    /// The underlying TRB.
    pub fn raw(&self) -> (r: &Trb)
        ensures
            *r == self@,
    {
        &self.trb
    }

    /// Writes the interrupter target, cut to 10 bits.
    pub fn set_interrupter_target(&mut self, target: u16)
        ensures
            final(self)@.status == set_field32(old(self)@.status, 0xFFC00000, 22, target as u32),
            final(self)@.parameter == old(self)@.parameter,
            final(self)@.control == old(self)@.control,
    {
        self.trb.set_interrupter_target(target);
    }

    /// Interrupter target, bits 22..=31 of the status dword.
    pub fn interrupter_target(&self) -> (r: u16)
        ensures
            r == get_field32(self@.status, 0xFFC00000, 22) as u16,
    {
        self.trb.interrupter_target()
    }

    /// Sets or clears the cycle bit.
    pub fn set_cycle(&mut self, cycle: bool)
        ensures
            final(self)@.control == set_bits32(old(self)@.control, 0x1, cycle),
            final(self)@.parameter == old(self)@.parameter,
            final(self)@.status == old(self)@.status,
    {
        self.trb.set_cycle(cycle);
    }

    /// The cycle bit.
    pub fn cycle(&self) -> (r: bool)
        ensures
            r == cycle_of(self@.control),
    {
        self.trb.cycle()
    }

    /// Sets or clears the evaluate next TRB bit.
    pub fn set_ent(&mut self, ent: bool)
        ensures
            final(self)@.control == set_bits32(old(self)@.control, 0x2, ent),
            final(self)@.parameter == old(self)@.parameter,
            final(self)@.status == old(self)@.status,
    {
        self.trb.set_ent(ent);
    }

    /// The evaluate next TRB bit.
    pub fn ent(&self) -> (r: bool)
        ensures
            r == has_bits32(self@.control, 0x2),
    {
        self.trb.ent()
    }

    /// Sets or clears the chain bit.
    pub fn set_chain(&mut self, chain: bool)
        ensures
            final(self)@.control == set_bits32(old(self)@.control, 0x10, chain),
            final(self)@.parameter == old(self)@.parameter,
            final(self)@.status == old(self)@.status,
    {
        self.trb.set_chain(chain);
    }

    /// The chain bit.
    pub fn chain(&self) -> (r: bool)
        ensures
            r == has_bits32(self@.control, 0x10),
    {
        self.trb.chain()
    }

    /// Sets or clears the interrupt on completion bit.
    pub fn set_ioc(&mut self, ioc: bool)
        ensures
            final(self)@.control == set_bits32(old(self)@.control, 0x20, ioc),
            final(self)@.parameter == old(self)@.parameter,
            final(self)@.status == old(self)@.status,
    {
        self.trb.set_ioc(ioc);
    }

    /// The interrupt on completion bit.
    pub fn ioc(&self) -> (r: bool)
        ensures
            r == has_bits32(self@.control, 0x20),
    {
        self.trb.ioc()
    }

    /// Writes the direction bit from the lowest bit of `direction`.
    pub fn set_direction(&mut self, direction: u8)
        ensures
            final(self)@.control == set_field32(old(self)@.control, 0x10000, 16, direction as u32),
            final(self)@.parameter == old(self)@.parameter,
            final(self)@.status == old(self)@.status,
    {
        self.trb.set_direction(direction);
    }

    /// The direction bit.
    pub fn direction(&self) -> (r: u8)
        ensures
            r == get_field32(self@.control, 0x10000, 16) as u8,
    {
        self.trb.direction()
    }

}

/// The data stage of a control transfer.
pub struct DataStageTrb {
    trb: Trb,
}

impl View for DataStageTrb {
    type V = Trb;

    closed spec fn view(&self) -> Trb {
        self.trb
    }
}

impl DataStageTrb {
    /// An all-zero data stage TRB.
    pub fn new() -> (r: Self)
        ensures
            r@ == (Trb { parameter: 0, status: 0, control: place_field32(0, 0xFC00, 10, Trb::TRB_DATA_STAGE as u32) }),
    {
        let mut trb = Trb::new();
        trb.set_trb_type(Trb::TRB_DATA_STAGE);
        Self { trb }
    }

    /// The underlying TRB.
    pub fn raw(&self) -> (r: &Trb)
        ensures
            *r == self@,
    {
        &self.trb
    }

    /// Writes the data buffer address.
    pub fn set_data_buffer(&mut self, buffer_ptr: u64)
        ensures
            final(self)@.parameter == buffer_ptr,
            final(self)@.status == old(self)@.status,
            final(self)@.control == old(self)@.control,
    {
        self.trb.set_parameter(buffer_ptr);
    }

    /// The data buffer address.
    pub fn data_buffer(&self) -> (r: u64)
        ensures
            r == self@.parameter,
    {
        self.trb.parameter()
    }

    /// Writes the transfer length, cut to 17 bits.
    pub fn set_transfer_length(&mut self, length: u32)
        ensures
            final(self)@.status == set_field32(old(self)@.status, 0x1FFFF, 0, length),
            final(self)@.parameter == old(self)@.parameter,
            final(self)@.control == old(self)@.control,
    {
        self.trb.set_length(length);
    }

    /// Transfer length, bits 0..=16 of the status dword.
    pub fn transfer_length(&self) -> (r: u32)
        ensures
            r == get_field32(self@.status, 0x1FFFF, 0),
    {
        self.trb.length()
    }

    /// Writes the TD size, cut to 5 bits.
    pub fn set_td_size(&mut self, size: u8)
        ensures
            final(self)@.status == set_field32(old(self)@.status, 0x3E0000, 17, size as u32),
            final(self)@.parameter == old(self)@.parameter,
            final(self)@.control == old(self)@.control,
    {
        self.trb.status = field_set32(self.trb.status, 0x3E0000, 17, size as u32);
    }

    /// TD size, bits 17..=21 of the status dword.
    pub fn td_size(&self) -> (r: u8)
        ensures
            r == get_field32(self@.status, 0x3E0000, 17) as u8,
    {
        field_get32(self.trb.status, 0x3E0000, 17) as u8
    }

    /// Writes the interrupter target, cut to 10 bits.
    pub fn set_interrupter_target(&mut self, target: u16)
        ensures
            final(self)@.status == set_field32(old(self)@.status, 0xFFC00000, 22, target as u32),
            final(self)@.parameter == old(self)@.parameter,
            final(self)@.control == old(self)@.control,
    {
        self.trb.set_interrupter_target(target);
    }

    /// Interrupter target, bits 22..=31 of the status dword.
    pub fn interrupter_target(&self) -> (r: u16)
        ensures
            r == get_field32(self@.status, 0xFFC00000, 22) as u16,
    {
        self.trb.interrupter_target()
    }

    /// Sets or clears the cycle bit.
    pub fn set_cycle(&mut self, cycle: bool)
        ensures
            final(self)@.control == set_bits32(old(self)@.control, 0x1, cycle),
            final(self)@.parameter == old(self)@.parameter,
            final(self)@.status == old(self)@.status,
    {
        self.trb.set_cycle(cycle);
    }

    /// The cycle bit.
    pub fn cycle(&self) -> (r: bool)
        ensures
            r == cycle_of(self@.control),
    {
        self.trb.cycle()
    }

    /// Sets or clears the evaluate next TRB bit.
    pub fn set_ent(&mut self, ent: bool)
        ensures
            final(self)@.control == set_bits32(old(self)@.control, 0x2, ent),
            final(self)@.parameter == old(self)@.parameter,
            final(self)@.status == old(self)@.status,
    {
        self.trb.set_ent(ent);
    }

    /// The evaluate next TRB bit.
    pub fn ent(&self) -> (r: bool)
        ensures
            r == has_bits32(self@.control, 0x2),
    {
        self.trb.ent()
    }

    /// Sets or clears the interrupt on short packet bit (bit 2 of the control dword).
    pub fn set_isp(&mut self, isp: bool)
        ensures
            final(self)@.control == set_bits32(old(self)@.control, 0x4, isp),
            final(self)@.parameter == old(self)@.parameter,
            final(self)@.status == old(self)@.status,
    {
        self.trb.control = bits_update32(self.trb.control, 0x4, isp);
    }

    /// The interrupt on short packet bit.
    pub fn isp(&self) -> (r: bool)
        ensures
            r == has_bits32(self@.control, 0x4),
    {
        bits_test32(self.trb.control, 0x4)
    }

    /// Sets or clears the no snoop bit (bit 3 of the control dword).
    pub fn set_ns(&mut self, ns: bool)
        ensures
            final(self)@.control == set_bits32(old(self)@.control, 0x8, ns),
            final(self)@.parameter == old(self)@.parameter,
            final(self)@.status == old(self)@.status,
    {
        self.trb.control = bits_update32(self.trb.control, 0x8, ns);
    }

    /// The no snoop bit.
    pub fn ns(&self) -> (r: bool)
        ensures
            r == has_bits32(self@.control, 0x8),
    {
        bits_test32(self.trb.control, 0x8)
    }

    /// Sets or clears the chain bit.
    pub fn set_chain(&mut self, chain: bool)
        ensures
            final(self)@.control == set_bits32(old(self)@.control, 0x10, chain),
            final(self)@.parameter == old(self)@.parameter,
            final(self)@.status == old(self)@.status,
    {
        self.trb.set_chain(chain);
    }

    /// The chain bit.
    pub fn chain(&self) -> (r: bool)
        ensures
            r == has_bits32(self@.control, 0x10),
    {
        self.trb.chain()
    }

    /// Sets or clears the interrupt on completion bit.
    pub fn set_ioc(&mut self, ioc: bool)
        ensures
            final(self)@.control == set_bits32(old(self)@.control, 0x20, ioc),
            final(self)@.parameter == old(self)@.parameter,
            final(self)@.status == old(self)@.status,
    {
        self.trb.set_ioc(ioc);
    }

    /// The interrupt on completion bit.
    pub fn ioc(&self) -> (r: bool)
        ensures
            r == has_bits32(self@.control, 0x20),
    {
        self.trb.ioc()
    }

    /// Sets or clears the immediate data bit (bit 6 of the control dword).
    pub fn set_idt(&mut self, idt: bool)
        ensures
            final(self)@.control == set_bits32(old(self)@.control, 0x40, idt),
            final(self)@.parameter == old(self)@.parameter,
            final(self)@.status == old(self)@.status,
    {
        self.trb.control = bits_update32(self.trb.control, 0x40, idt);
    }

    /// The immediate data bit.
    pub fn idt(&self) -> (r: bool)
        ensures
            r == has_bits32(self@.control, 0x40),
    {
        bits_test32(self.trb.control, 0x40)
    }

    /// Writes the direction bit from the lowest bit of `direction`.
    pub fn set_direction(&mut self, direction: u8)
        ensures
            final(self)@.control == set_field32(old(self)@.control, 0x10000, 16, direction as u32),
            final(self)@.parameter == old(self)@.parameter,
            final(self)@.status == old(self)@.status,
    {
        self.trb.set_direction(direction);
    }

    /// The direction bit.
    pub fn direction(&self) -> (r: u8)
        ensures
            r == get_field32(self@.control, 0x10000, 16) as u8,
    {
        self.trb.direction()
    }

}

/// A disable slot command.
#[derive(Clone, Copy, Debug)]
pub struct DisableSlotCommandTrb {
    raw: Trb,
}

impl View for DisableSlotCommandTrb {
    type V = Trb;

    closed spec fn view(&self) -> Trb {
        self.raw
    }
}

impl DisableSlotCommandTrb {
    /// A disable slot command for the given slot.
    pub fn new(slot_id: u8) -> (r: Self)
        ensures
            r@ == (Trb {
                parameter: 0,
                status: 0,
                control: place_field32(place_field32(0, 0xFC00, 10, 10), 0xFF000000, 24, slot_id as u32),
            }),
    {
        let mut raw = Trb::new();
        raw.set_trb_type(Trb::TRB_DISABLE_SLOT_COMMAND);
        let mut command = Self { raw };
        command.set_slot_id(slot_id);
        command
    }

    /// Views `raw` as this kind of TRB; fails when its type field says otherwise.
    pub fn from_raw(raw: Trb) -> (r: Result<Self, TrbParseError>)
        ensures
            typed_view(raw, Trb::TRB_DISABLE_SLOT_COMMAND, r),
    {
        let actual = raw.trb_type();
        if actual != Trb::TRB_DISABLE_SLOT_COMMAND {
            return Err(TrbParseError::UnexpectedType { expected: Trb::TRB_DISABLE_SLOT_COMMAND, actual });
        }
        Ok(Self { raw: raw })
    }

    /// Slot id, bits 24..=31 of the control dword.
    pub fn slot_id(&self) -> (r: u8)
        ensures
            r == get_field32(self@.control, 0xFF000000, 24) as u8,
    {
        self.raw.slot_id()
    }

    /// Writes the slot id.
    pub fn set_slot_id(&mut self, slot_id: u8)
        ensures
            final(self)@.control == place_field32(old(self)@.control, 0xFF000000, 24, slot_id as u32),
            final(self)@.parameter == old(self)@.parameter,
            final(self)@.status == old(self)@.status,
    {
        self.raw.set_slot_id(slot_id);
    }

    /// The cycle bit.
    pub fn cycle(&self) -> (r: bool)
        ensures
            r == cycle_of(self@.control),
    {
        self.raw.cycle()
    }

    /// Sets or clears the cycle bit.
    pub fn set_cycle(&mut self, cycle: bool)
        ensures
            final(self)@.control == set_bits32(old(self)@.control, 0x1, cycle),
            final(self)@.parameter == old(self)@.parameter,
            final(self)@.status == old(self)@.status,
    {
        self.raw.set_cycle(cycle);
    }

}

impl TrbTrait for DisableSlotCommandTrb {
    const TRB_TYPE: u8 = Trb::TRB_DISABLE_SLOT_COMMAND;

    open spec fn spec_raw(&self) -> Trb {
        self@
    }

    fn raw(&self) -> (r: &Trb) {
        &self.raw
    }
}

/// Transfer type of a setup stage (bits 16..=17 of its control dword).
#[derive(Debug, Clone, Copy, PartialEq, Eq)]
pub enum SetupTransferType {
    NoDataStage,
    OutDataStage,
    InDataStage,
}

/// The number a transfer type is written as: 0, 2 or 3.
pub open spec fn setup_transfer_type_value(t: SetupTransferType) -> u32 {
    match t {
        SetupTransferType::NoDataStage => 0,
        SetupTransferType::OutDataStage => 2,
        SetupTransferType::InDataStage => 3,
    }
}

impl SetupTransferType {
    /// The number this transfer type is written as.
    pub fn as_u32(self) -> (r: u32)
        ensures
            r == setup_transfer_type_value(self),
    {
        match self {
            SetupTransferType::NoDataStage => 0,
            SetupTransferType::OutDataStage => 2,
            SetupTransferType::InDataStage => 3,
        }
    }
}

/// The setup stage of a control transfer.
#[derive(Clone, Copy, Debug)]
pub struct SetupStageTrb {
    raw: Trb,
}

impl View for SetupStageTrb {
    type V = Trb;

    closed spec fn view(&self) -> Trb {
        self.raw
    }
}

impl SetupStageTrb {
    /// A setup stage TRB with a transfer length of 8 and the immediate data bit set.
    pub fn new() -> (r: Self)
        ensures
            r@ == (Trb {
                parameter: 0,
                status: set_field32(0, 0x1FFFF, 0, 8),
                control: set_bits32(place_field32(0, 0xFC00, 10, 2), 0x40, true),
            }),
    {
        let mut raw = Trb::new();
        raw.set_trb_type(Trb::TRB_SETUP_STAGE);
        let mut command = Self { raw };
        command.set_transfer_length(8);
        command.set_idt(true);
        command
    }

    /// Views `raw` as this kind of TRB; fails when its type field says otherwise.
    pub fn from_raw(raw: Trb) -> (r: Result<Self, TrbParseError>)
        ensures
            typed_view(raw, Trb::TRB_SETUP_STAGE, r),
    {
        let actual = raw.trb_type();
        if actual != Trb::TRB_SETUP_STAGE {
            return Err(TrbParseError::UnexpectedType { expected: Trb::TRB_SETUP_STAGE, actual });
        }
        Ok(Self { raw: raw })
    }

    /// bmRequestType, bits 0..=7 of the parameter.
    pub fn bm_request_type(&self) -> (r: u8)
        ensures
            r == get_field64(self@.parameter, 0xFF, 0) as u8,
    {
        field_get64(self.raw.parameter(), 0xFF, 0) as u8
    }

    /// Writes bm_request_type.
    pub fn set_bm_request_type(&mut self, val: u8)
        ensures
            final(self)@ == (Trb { parameter: place_field64(old(self)@.parameter, 0xFF, 0, val as u64), ..old(self)@ }),
    {
        let param = field_place64(self.raw.parameter(), 0xFF, 0, val as u64);
        self.raw.set_parameter(param);
    }

    /// bRequest, bits 8..=15 of the parameter.
    pub fn b_request(&self) -> (r: u8)
        ensures
            r == get_field64(self@.parameter, 0xFF00, 8) as u8,
    {
        field_get64(self.raw.parameter(), 0xFF00, 8) as u8
    }

    /// Writes b_request.
    pub fn set_b_request(&mut self, val: u8)
        ensures
            final(self)@ == (Trb { parameter: place_field64(old(self)@.parameter, 0xFF00, 8, val as u64), ..old(self)@ }),
    {
        let param = field_place64(self.raw.parameter(), 0xFF00, 8, val as u64);
        self.raw.set_parameter(param);
    }

    /// wValue, bits 16..=31 of the parameter.
    pub fn w_value(&self) -> (r: u16)
        ensures
            r == get_field64(self@.parameter, 0xFFFF0000, 16) as u16,
    {
        field_get64(self.raw.parameter(), 0xFFFF0000, 16) as u16
    }

    /// Writes w_value.
    pub fn set_w_value(&mut self, val: u16)
        ensures
            final(self)@ == (Trb { parameter: place_field64(old(self)@.parameter, 0xFFFF0000, 16, val as u64), ..old(self)@ }),
    {
        let param = field_place64(self.raw.parameter(), 0xFFFF0000, 16, val as u64);
        self.raw.set_parameter(param);
    }

    /// wIndex, bits 32..=47 of the parameter.
    pub fn w_index(&self) -> (r: u16)
        ensures
            r == get_field64(self@.parameter, 0xFFFF00000000, 32) as u16,
    {
        field_get64(self.raw.parameter(), 0xFFFF00000000, 32) as u16
    }

    /// Writes w_index.
    pub fn set_w_index(&mut self, val: u16)
        ensures
            final(self)@ == (Trb { parameter: place_field64(old(self)@.parameter, 0xFFFF00000000, 32, val as u64), ..old(self)@ }),
    {
        let param = field_place64(self.raw.parameter(), 0xFFFF00000000, 32, val as u64);
        self.raw.set_parameter(param);
    }

    /// wLength, bits 48..=63 of the parameter.
    pub fn w_length(&self) -> (r: u16)
        ensures
            r == get_field64(self@.parameter, 0xFFFF000000000000, 48) as u16,
    {
        field_get64(self.raw.parameter(), 0xFFFF000000000000, 48) as u16
    }

    /// Writes w_length.
    pub fn set_w_length(&mut self, val: u16)
        ensures
            final(self)@ == (Trb { parameter: place_field64(old(self)@.parameter, 0xFFFF000000000000, 48, val as u64), ..old(self)@ }),
    {
        let param = field_place64(self.raw.parameter(), 0xFFFF000000000000, 48, val as u64);
        self.raw.set_parameter(param);
    }

    /// Transfer length, bits 0..=16 of the status dword.
    pub fn transfer_length(&self) -> (r: u32)
        ensures
            r == get_field32(self@.status, 0x1FFFF, 0),
    {
        self.raw.length()
    }

    /// Writes the transfer length, cut to 17 bits.
    pub fn set_transfer_length(&mut self, val: u32)
        ensures
            final(self)@.status == set_field32(old(self)@.status, 0x1FFFF, 0, val),
            final(self)@.parameter == old(self)@.parameter,
            final(self)@.control == old(self)@.control,
    {
        self.raw.set_length(val);
    }

    /// Interrupter target, bits 22..=31 of the status dword.
    pub fn interrupter_target(&self) -> (r: u16)
        ensures
            r == get_field32(self@.status, 0xFFC00000, 22) as u16,
    {
        self.raw.interrupter_target()
    }

    /// Writes the interrupter target, cut to 10 bits.
    pub fn set_interrupter_target(&mut self, val: u16)
        ensures
            final(self)@.status == set_field32(old(self)@.status, 0xFFC00000, 22, val as u32),
            final(self)@.parameter == old(self)@.parameter,
            final(self)@.control == old(self)@.control,
    {
        self.raw.set_interrupter_target(val);
    }

    /// The immediate data bit (bit 6 of the control dword).
    pub fn idt(&self) -> (r: bool)
        ensures
            r == has_bits32(self@.control, 0x40),
    {
        bits_test32(self.raw.control, 0x40)
    }

    /// Sets or clears the immediate data bit.
    pub fn set_idt(&mut self, idt: bool)
        ensures
            final(self)@.control == set_bits32(old(self)@.control, 0x40, idt),
            final(self)@.parameter == old(self)@.parameter,
            final(self)@.status == old(self)@.status,
    {
        self.raw.control = bits_update32(self.raw.control, 0x40, idt);
    }

    /// The transfer type; the reserved value 1 reads as no data stage.
    pub fn trt(&self) -> (r: SetupTransferType)
        ensures
            r == (if get_field32(self@.control, 0x30000, 16) == 2 {
                SetupTransferType::OutDataStage
            } else if get_field32(self@.control, 0x30000, 16) == 3 {
                SetupTransferType::InDataStage
            } else {
                SetupTransferType::NoDataStage
            }),
    {
        let val = field_get32(self.raw.control(), 0x30000, 16);
        if val == 2 {
            SetupTransferType::OutDataStage
        } else if val == 3 {
            SetupTransferType::InDataStage
        } else {
            SetupTransferType::NoDataStage
        }
    }

    /// Writes the transfer type.
    pub fn set_trt(&mut self, trt: SetupTransferType)
        ensures
            final(self)@ == (Trb { control: place_field32(old(self)@.control, 0x30000, 16, setup_transfer_type_value(trt)), ..old(self)@ }),
    {
        let control = field_place32(self.raw.control(), 0x30000, 16, trt.as_u32());
        self.raw.set_control(control);
    }

    /// The cycle bit.
    pub fn cycle(&self) -> (r: bool)
        ensures
            r == cycle_of(self@.control),
    {
        self.raw.cycle()
    }

    /// Sets or clears the cycle bit.
    pub fn set_cycle(&mut self, cycle: bool)
        ensures
            final(self)@.control == set_bits32(old(self)@.control, 0x1, cycle),
            final(self)@.parameter == old(self)@.parameter,
            final(self)@.status == old(self)@.status,
    {
        self.raw.set_cycle(cycle);
    }

    /// The interrupt on completion bit.
    pub fn ioc(&self) -> (r: bool)
        ensures
            r == has_bits32(self@.control, 0x20),
    {
        self.raw.ioc()
    }

    /// Sets or clears the interrupt on completion bit.
    pub fn set_ioc(&mut self, ioc: bool)
        ensures
            final(self)@.control == set_bits32(old(self)@.control, 0x20, ioc),
            final(self)@.parameter == old(self)@.parameter,
            final(self)@.status == old(self)@.status,
    {
        self.raw.set_ioc(ioc);
    }

}

impl TrbTrait for SetupStageTrb {
    const TRB_TYPE: u8 = Trb::TRB_SETUP_STAGE;

    open spec fn spec_raw(&self) -> Trb {
        self@
    }

    fn raw(&self) -> (r: &Trb) {
        &self.raw
    }
}

/// The eight bytes of `x`, lowest first, as `u64::to_le_bytes` gives them.
pub open spec fn le_bytes64(x: u64) -> Seq<u8> {
    seq![
        (x % 0x100) as u8,
        ((x / 0x100) % 0x100) as u8,
        ((x / 0x1_0000) % 0x100) as u8,
        ((x / 0x100_0000) % 0x100) as u8,
        ((x / 0x1_0000_0000) % 0x100) as u8,
        ((x / 0x100_0000_0000) % 0x100) as u8,
        ((x / 0x1_0000_0000_0000) % 0x100) as u8,
        ((x / 0x100_0000_0000_0000) % 0x100) as u8,
    ]
}

/// The parameter of a setup stage TRB whose parameter was `x`, after
/// `set_bm_request_type`, `set_b_request`, `set_w_value`, `set_w_index` and
/// `set_w_length` wrote the fields of `p` in that order.
pub open spec fn setup_parameter(x: u64, p: UsbSetupPacket) -> u64 {
    place_field64(
        place_field64(
            place_field64(
                place_field64(place_field64(x, 0xFF, 0, p.bm_request_type as u64), 0xFF00, 8, p.b_request as u64),
                0xFFFF0000,
                16,
                p.w_value as u64,
            ),
            0xFFFF00000000,
            32,
            p.w_index as u64,
        ),
        0xFFFF000000000000,
        48,
        p.w_length as u64,
    )
}

proof fn lemma_setup_parameter_bits(x: u64, a: u8, b: u8, v: u16, i: u16, l: u16, y: u64)
    by (bit_vector)
    requires
        y == place_field64(
            place_field64(
                place_field64(
                    place_field64(place_field64(x, 0xFF, 0, a as u64), 0xFF00, 8, b as u64),
                    0xFFFF0000,
                    16,
                    v as u64,
                ),
                0xFFFF00000000,
                32,
                i as u64,
            ),
            0xFFFF000000000000,
            48,
            l as u64,
        ),
    ensures
        y % 0x100 == a as u64,
        (y / 0x100) % 0x100 == b as u64,
        (y / 0x1_0000) % 0x100 == v as u64 % 0x100,
        (y / 0x100_0000) % 0x100 == v as u64 / 0x100,
        (y / 0x1_0000_0000) % 0x100 == i as u64 % 0x100,
        (y / 0x100_0000_0000) % 0x100 == i as u64 / 0x100,
        (y / 0x1_0000_0000_0000) % 0x100 == l as u64 % 0x100,
        (y / 0x100_0000_0000_0000) % 0x100 == l as u64 / 0x100,
        get_field64(y, 0xFF, 0) as u8 == a,
        get_field64(y, 0xFF00, 8) as u8 == b,
        get_field64(y, 0xFFFF0000, 16) as u16 == v,
        get_field64(y, 0xFFFF00000000, 32) as u16 == i,
        get_field64(y, 0xFFFF000000000000, 48) as u16 == l,
{
}

/// Writing the five fields of a setup packet into a setup stage TRB, in
/// order, leaves the packet's wire bytes in the TRB's parameter, lowest byte
/// first, whatever the parameter held before; and each getter gives its
/// field back.
pub proof fn law_setup_stage_packet(x: u64, p: UsbSetupPacket)
    ensures
        le_bytes64(setup_parameter(x, p)) == setup_packet_bytes(p),
        get_field64(setup_parameter(x, p), 0xFF, 0) as u8 == p.bm_request_type,
        get_field64(setup_parameter(x, p), 0xFF00, 8) as u8 == p.b_request,
        get_field64(setup_parameter(x, p), 0xFFFF0000, 16) as u16 == p.w_value,
        get_field64(setup_parameter(x, p), 0xFFFF00000000, 32) as u16 == p.w_index,
        get_field64(setup_parameter(x, p), 0xFFFF000000000000, 48) as u16 == p.w_length,
{
    let y = setup_parameter(x, p);
    lemma_setup_parameter_bits(x, p.bm_request_type, p.b_request, p.w_value, p.w_index, p.w_length, y);
    assert(le_bytes64(y) =~= setup_packet_bytes(p));
}

/// A setup stage TRB filled from a setup packet: `t1` to `t5` are what
/// `set_bm_request_type`, `set_b_request`, `set_w_value`, `set_w_index` and
/// `set_w_length` make of `t0`, `t1`, .. `t4` with the fields of `p`, as
/// their contracts give them. Then the little-endian bytes of `t5`'s
/// parameter are the bytes `p.as_bytes()` returns, each getter of `t5` reads
/// its field of `p` back, and the status and control dwords are `t0`'s.
pub proof fn law_setup_stage_trb_holds_packet(
    t0: SetupStageTrb,
    t1: SetupStageTrb,
    t2: SetupStageTrb,
    t3: SetupStageTrb,
    t4: SetupStageTrb,
    t5: SetupStageTrb,
    p: UsbSetupPacket,
)
    requires
        t1@ == (Trb { parameter: place_field64(t0@.parameter, 0xFF, 0, p.bm_request_type as u64), ..t0@ }),
        t2@ == (Trb { parameter: place_field64(t1@.parameter, 0xFF00, 8, p.b_request as u64), ..t1@ }),
        t3@ == (Trb { parameter: place_field64(t2@.parameter, 0xFFFF0000, 16, p.w_value as u64), ..t2@ }),
        t4@ == (Trb { parameter: place_field64(t3@.parameter, 0xFFFF00000000, 32, p.w_index as u64), ..t3@ }),
        t5@ == (Trb { parameter: place_field64(t4@.parameter, 0xFFFF000000000000, 48, p.w_length as u64), ..t4@ }),
    ensures
        le_bytes64(t5.spec_raw().parameter) == setup_packet_bytes(p),
        get_field64(t5@.parameter, 0xFF, 0) as u8 == p.bm_request_type,
        get_field64(t5@.parameter, 0xFF00, 8) as u8 == p.b_request,
        get_field64(t5@.parameter, 0xFFFF0000, 16) as u16 == p.w_value,
        get_field64(t5@.parameter, 0xFFFF00000000, 32) as u16 == p.w_index,
        get_field64(t5@.parameter, 0xFFFF000000000000, 48) as u16 == p.w_length,
        t5@.status == t0@.status,
        t5@.control == t0@.control,
{
    law_setup_stage_packet(t0@.parameter, p);
    assert(t5@.parameter == setup_parameter(t0@.parameter, p));
}

/// An evaluate context command.
#[derive(Clone, Copy, Debug)]
pub struct EvaluateContextCmdTrb {
    raw: Trb,
}

impl View for EvaluateContextCmdTrb {
    type V = Trb;

    closed spec fn view(&self) -> Trb {
        self.raw
    }
}

impl EvaluateContextCmdTrb {
    pub const TRB_TYPE: u8 = 13;

    /// An all-zero evaluate context command.
    pub fn new() -> (r: Self)
        ensures
            r@ == (Trb { parameter: 0, status: 0, control: place_field32(0, 0xFC00, 10, 13 as u32) }),
    {
        let mut raw = Trb::new();
        raw.set_trb_type(13);
        Self { raw }
    }

    /// Views `raw` as this kind of TRB; fails when its type field says otherwise.
    pub fn from_raw(raw: Trb) -> (r: Result<Self, TrbParseError>)
        ensures
            typed_view(raw, 13, r),
    {
        let actual = raw.trb_type();
        if actual != 13 {
            return Err(TrbParseError::UnexpectedType { expected: 13, actual });
        }
        Ok(Self { raw: raw })
    }

    /// Input context pointer (parameter without its low 4 bits).
    pub fn input_context_pointer(&self) -> (r: u64)
        ensures
            r == self@.parameter & !0xFu64,
    {
        self.raw.parameter() & !0xF
    }

    /// Writes the input context pointer, dropping its low 4 bits.
    pub fn set_input_context_pointer(&mut self, ptr: u64)
        ensures
            final(self)@ == (Trb { parameter: ptr & !0xFu64, ..old(self)@ }),
    {
        self.raw.set_parameter(ptr & !0xF);
    }

    /// Slot id, bits 24..=31 of the control dword.
    pub fn slot_id(&self) -> (r: u8)
        ensures
            r == get_field32(self@.control, 0xFF000000, 24) as u8,
    {
        field_get32(self.raw.control, 0xFF000000, 24) as u8
    }

    /// Writes the slot id.
    pub fn set_slot_id(&mut self, slot_id: u8)
        ensures
            final(self)@.control == place_field32(old(self)@.control, 0xFF000000, 24, slot_id as u32),
            final(self)@.parameter == old(self)@.parameter,
            final(self)@.status == old(self)@.status,
    {
        self.raw.control = field_place32(self.raw.control, 0xFF000000, 24, slot_id as u32);
    }

    /// The cycle bit.
    pub fn cycle(&self) -> (r: bool)
        ensures
            r == cycle_of(self@.control),
    {
        self.raw.cycle()
    }

    /// Sets or clears the cycle bit.
    pub fn set_cycle(&mut self, cycle: bool)
        ensures
            final(self)@.control == set_bits32(old(self)@.control, 0x1, cycle),
            final(self)@.parameter == old(self)@.parameter,
            final(self)@.status == old(self)@.status,
    {
        self.raw.set_cycle(cycle);
    }

}

impl TrbTrait for EvaluateContextCmdTrb {
    const TRB_TYPE: u8 = 13;

    open spec fn spec_raw(&self) -> Trb {
        self@
    }

    fn raw(&self) -> (r: &Trb) {
        &self.raw
    }
}

/// A normal transfer TRB.
#[derive(Clone, Copy, Debug)]
pub struct NormalTrb {
    raw: Trb,
}

impl View for NormalTrb {
    type V = Trb;

    closed spec fn view(&self) -> Trb {
        self.raw
    }
}

impl NormalTrb {
    /// An all-zero normal TRB.
    pub fn new() -> (r: Self)
        ensures
            r@ == (Trb { parameter: 0, status: 0, control: place_field32(0, 0xFC00, 10, Trb::TRB_NORMAL as u32) }),
    {
        let mut raw = Trb::new();
        raw.set_trb_type(Trb::TRB_NORMAL);
        Self { raw }
    }

    /// Views `raw` as this kind of TRB; fails when its type field says otherwise.
    pub fn from_raw(raw: Trb) -> (r: Result<Self, TrbParseError>)
        ensures
            typed_view(raw, Trb::TRB_NORMAL, r),
    {
        let actual = raw.trb_type();
        if actual != Trb::TRB_NORMAL {
            return Err(TrbParseError::UnexpectedType { expected: Trb::TRB_NORMAL, actual });
        }
        Ok(Self { raw: raw })
    }

    /// The data buffer address.
    pub fn data_buffer(&self) -> (r: u64)
        ensures
            r == self@.parameter,
    {
        self.raw.parameter()
    }

    /// Writes the data buffer address.
    pub fn set_data_buffer(&mut self, val: u64)
        ensures
            final(self)@.parameter == val,
            final(self)@.status == old(self)@.status,
            final(self)@.control == old(self)@.control,
    {
        self.raw.set_parameter(val);
    }

    /// Transfer length, bits 0..=16 of the status dword.
    pub fn transfer_length(&self) -> (r: u32)
        ensures
            r == get_field32(self@.status, 0x1FFFF, 0),
    {
        self.raw.length()
    }

    /// Writes the transfer length, cut to 17 bits.
    pub fn set_transfer_length(&mut self, val: u32)
        ensures
            final(self)@.status == set_field32(old(self)@.status, 0x1FFFF, 0, val),
            final(self)@.parameter == old(self)@.parameter,
            final(self)@.control == old(self)@.control,
    {
        self.raw.set_length(val);
    }

    /// Interrupter target, bits 22..=31 of the status dword.
    pub fn interrupter_target(&self) -> (r: u16)
        ensures
            r == get_field32(self@.status, 0xFFC00000, 22) as u16,
    {
        self.raw.interrupter_target()
    }

    /// Writes the interrupter target, cut to 10 bits.
    pub fn set_interrupter_target(&mut self, val: u16)
        ensures
            final(self)@.status == set_field32(old(self)@.status, 0xFFC00000, 22, val as u32),
            final(self)@.parameter == old(self)@.parameter,
            final(self)@.control == old(self)@.control,
    {
        self.raw.set_interrupter_target(val);
    }

    /// The evaluate next TRB bit (bit 1) of the control dword.
    pub fn ent(&self) -> (r: bool)
        ensures
            r == has_bits32(self@.control, 0x2),
    {
        bits_test32(self.raw.control, 0x2)
    }

    /// Sets or clears the evaluate next TRB bit (bit 1).
    pub fn set_ent(&mut self, ent: bool)
        ensures
            final(self)@.control == set_bits32(old(self)@.control, 0x2, ent),
            final(self)@.parameter == old(self)@.parameter,
            final(self)@.status == old(self)@.status,
    {
        self.raw.control = bits_update32(self.raw.control, 0x2, ent);
    }

    /// The interrupt on short packet bit (bit 2) of the control dword.
    pub fn isp(&self) -> (r: bool)
        ensures
            r == has_bits32(self@.control, 0x4),
    {
        bits_test32(self.raw.control, 0x4)
    }

    /// Sets or clears the interrupt on short packet bit (bit 2).
    pub fn set_interrupt_on_short_packet(&mut self, isp: bool)
        ensures
            final(self)@.control == set_bits32(old(self)@.control, 0x4, isp),
            final(self)@.parameter == old(self)@.parameter,
            final(self)@.status == old(self)@.status,
    {
        self.raw.control = bits_update32(self.raw.control, 0x4, isp);
    }

    /// The no snoop bit (bit 3) of the control dword.
    pub fn ns(&self) -> (r: bool)
        ensures
            r == has_bits32(self@.control, 0x8),
    {
        bits_test32(self.raw.control, 0x8)
    }

    /// Sets or clears the no snoop bit (bit 3).
    pub fn set_ns(&mut self, ns: bool)
        ensures
            final(self)@.control == set_bits32(old(self)@.control, 0x8, ns),
            final(self)@.parameter == old(self)@.parameter,
            final(self)@.status == old(self)@.status,
    {
        self.raw.control = bits_update32(self.raw.control, 0x8, ns);
    }

    /// The chain bit (bit 4) of the control dword.
    pub fn chain(&self) -> (r: bool)
        ensures
            r == has_bits32(self@.control, 0x10),
    {
        bits_test32(self.raw.control, 0x10)
    }

    /// Sets or clears the chain bit (bit 4).
    pub fn set_chain(&mut self, chain: bool)
        ensures
            final(self)@.control == set_bits32(old(self)@.control, 0x10, chain),
            final(self)@.parameter == old(self)@.parameter,
            final(self)@.status == old(self)@.status,
    {
        self.raw.control = bits_update32(self.raw.control, 0x10, chain);
    }

    /// The block event interrupt bit (bit 9) of the control dword.
    pub fn bei(&self) -> (r: bool)
        ensures
            r == has_bits32(self@.control, 0x200),
    {
        bits_test32(self.raw.control, 0x200)
    }

    /// Sets or clears the block event interrupt bit (bit 9).
    pub fn set_bei(&mut self, bei: bool)
        ensures
            final(self)@.control == set_bits32(old(self)@.control, 0x200, bei),
            final(self)@.parameter == old(self)@.parameter,
            final(self)@.status == old(self)@.status,
    {
        self.raw.control = bits_update32(self.raw.control, 0x200, bei);
    }

    /// The cycle bit.
    pub fn cycle(&self) -> (r: bool)
        ensures
            r == cycle_of(self@.control),
    {
        self.raw.cycle()
    }

    /// Sets or clears the cycle bit.
    pub fn set_cycle(&mut self, cycle: bool)
        ensures
            final(self)@.control == set_bits32(old(self)@.control, 0x1, cycle),
            final(self)@.parameter == old(self)@.parameter,
            final(self)@.status == old(self)@.status,
    {
        self.raw.set_cycle(cycle);
    }

    /// The interrupt on completion bit.
    pub fn ioc(&self) -> (r: bool)
        ensures
            r == has_bits32(self@.control, 0x20),
    {
        self.raw.ioc()
    }

    /// Sets or clears the interrupt on completion bit.
    pub fn set_interrupt_on_completion(&mut self, ioc: bool)
        ensures
            final(self)@.control == set_bits32(old(self)@.control, 0x20, ioc),
            final(self)@.parameter == old(self)@.parameter,
            final(self)@.status == old(self)@.status,
    {
        self.raw.set_ioc(ioc);
    }

}

impl TrbTrait for NormalTrb {
    const TRB_TYPE: u8 = Trb::TRB_NORMAL;

    open spec fn spec_raw(&self) -> Trb {
        self@
    }

    fn raw(&self) -> (r: &Trb) {
        &self.raw
    }
}

/// A stop endpoint command.
#[derive(Clone, Copy, Debug)]
pub struct StopEndpointCommandTrb {
    raw: Trb,
}

impl View for StopEndpointCommandTrb {
    type V = Trb;

    closed spec fn view(&self) -> Trb {
        self.raw
    }
}

impl StopEndpointCommandTrb {
    /// An all-zero stop endpoint command.
    pub fn new() -> (r: Self)
        ensures
            r@ == (Trb { parameter: 0, status: 0, control: place_field32(0, 0xFC00, 10, Trb::TRB_STOP_ENDPOINT_COMMAND as u32) }),
    {
        let mut raw = Trb::new();
        raw.set_trb_type(Trb::TRB_STOP_ENDPOINT_COMMAND);
        Self { raw }
    }

    /// Endpoint id, bits 16..=20 of the control dword.
    pub fn endpoint_id(&self) -> (r: u8)
        ensures
            r == get_field32(self@.control, 0x1F0000, 16) as u8,
    {
        field_get32(self.raw.control, 0x1F0000, 16) as u8
    }

    /// Clears the endpoint id field and ors in `id << 16`; an id above 31 spills into the suspend bit and the slot id.
    pub fn set_endpoint_id(&mut self, id: u8)
        ensures
            final(self)@.control == place_field32(old(self)@.control, 0x1F0000, 16, id as u32),
            final(self)@.parameter == old(self)@.parameter,
            final(self)@.status == old(self)@.status,
    {
        self.raw.control = field_place32(self.raw.control, 0x1F0000, 16, id as u32);
    }

    /// The suspend bit (bit 23 of the control dword).
    pub fn suspend(&self) -> (r: bool)
        ensures
            r == has_bits32(self@.control, 0x800000),
    {
        bits_test32(self.raw.control, 0x800000)
    }

    /// Sets or clears the suspend bit.
    pub fn set_suspend(&mut self, suspend: bool)
        ensures
            final(self)@.control == set_bits32(old(self)@.control, 0x800000, suspend),
            final(self)@.parameter == old(self)@.parameter,
            final(self)@.status == old(self)@.status,
    {
        self.raw.control = bits_update32(self.raw.control, 0x800000, suspend);
    }

    /// Slot id, bits 24..=31 of the control dword.
    pub fn slot_id(&self) -> (r: u8)
        ensures
            r == get_field32(self@.control, 0xFF000000, 24) as u8,
    {
        field_get32(self.raw.control, 0xFF000000, 24) as u8
    }

    /// Writes the slot id.
    pub fn set_slot_id(&mut self, id: u8)
        ensures
            final(self)@.control == place_field32(old(self)@.control, 0xFF000000, 24, id as u32),
            final(self)@.parameter == old(self)@.parameter,
            final(self)@.status == old(self)@.status,
    {
        self.raw.control = field_place32(self.raw.control, 0xFF000000, 24, id as u32);
    }

    /// The cycle bit.
    pub fn cycle(&self) -> (r: bool)
        ensures
            r == cycle_of(self@.control),
    {
        self.raw.cycle()
    }

    /// Sets or clears the cycle bit.
    pub fn set_cycle(&mut self, cycle: bool)
        ensures
            final(self)@.control == set_bits32(old(self)@.control, 0x1, cycle),
            final(self)@.parameter == old(self)@.parameter,
            final(self)@.status == old(self)@.status,
    {
        self.raw.set_cycle(cycle);
    }

}

/// Setting the endpoint id (below 32) of a stop endpoint command changes
/// that field alone: the suspend bit, the slot id, the cycle bit and the TRB
/// type stay as they were.
pub proof fn law_stop_endpoint_id_field(c: u32, id: u8)
    by (bit_vector)
    requires
        id < 32,
    ensures
        get_field32(place_field32(c, 0x1F0000, 16, id as u32), 0x1F0000, 16) as u8 == id,
        has_bits32(place_field32(c, 0x1F0000, 16, id as u32), 0x800000) == has_bits32(c, 0x800000),
        get_field32(place_field32(c, 0x1F0000, 16, id as u32), 0xFF000000, 24) == get_field32(
            c,
            0xFF000000,
            24,
        ),
        cycle_of(place_field32(c, 0x1F0000, 16, id as u32)) == cycle_of(c),
        trb_type_of(place_field32(c, 0x1F0000, 16, id as u32)) == trb_type_of(c),
{
}

impl TrbTrait for StopEndpointCommandTrb {
    const TRB_TYPE: u8 = Trb::TRB_STOP_ENDPOINT_COMMAND;

    open spec fn spec_raw(&self) -> Trb {
        self@
    }

    fn raw(&self) -> (r: &Trb) {
        &self.raw
    }
}

/// A configure endpoint command.
#[derive(Clone, Copy, Debug)]
pub struct ConfigureEndpointCommandTrb {
    raw: Trb,
}

impl View for ConfigureEndpointCommandTrb {
    type V = Trb;

    closed spec fn view(&self) -> Trb {
        self.raw
    }
}

impl ConfigureEndpointCommandTrb {
    /// An all-zero configure endpoint command.
    pub fn new() -> (r: Self)
        ensures
            r@ == (Trb { parameter: 0, status: 0, control: place_field32(0, 0xFC00, 10, Trb::TRB_CONFIGURE_ENDPOINT_COMMAND as u32) }),
    {
        let mut raw = Trb::new();
        raw.set_trb_type(Trb::TRB_CONFIGURE_ENDPOINT_COMMAND);
        Self { raw }
    }

    /// Input context pointer (parameter without its low 4 bits).
    pub fn input_context_pointer(&self) -> (r: u64)
        ensures
            r == self@.parameter & !0xFu64,
    {
        self.raw.parameter() & !0xF
    }

    /// Writes the input context pointer, dropping its low 4 bits.
    pub fn set_input_context_pointer(&mut self, ptr: u64)
        ensures
            final(self)@ == (Trb { parameter: ptr & !0xFu64, ..old(self)@ }),
    {
        self.raw.set_parameter(ptr & !0xF);
    }

    /// The deconfigure bit (bit 9 of the control dword).
    pub fn deconfigure(&self) -> (r: bool)
        ensures
            r == has_bits32(self@.control, 0x200),
    {
        bits_test32(self.raw.control, 0x200)
    }

    /// Sets or clears the deconfigure bit.
    pub fn set_deconfigure(&mut self, dc: bool)
        ensures
            final(self)@.control == set_bits32(old(self)@.control, 0x200, dc),
            final(self)@.parameter == old(self)@.parameter,
            final(self)@.status == old(self)@.status,
    {
        self.raw.control = bits_update32(self.raw.control, 0x200, dc);
    }

    /// Slot id, bits 24..=31 of the control dword.
    pub fn slot_id(&self) -> (r: u8)
        ensures
            r == get_field32(self@.control, 0xFF000000, 24) as u8,
    {
        field_get32(self.raw.control, 0xFF000000, 24) as u8
    }

    /// Writes the slot id.
    pub fn set_slot_id(&mut self, id: u8)
        ensures
            final(self)@.control == place_field32(old(self)@.control, 0xFF000000, 24, id as u32),
            final(self)@.parameter == old(self)@.parameter,
            final(self)@.status == old(self)@.status,
    {
        self.raw.control = field_place32(self.raw.control, 0xFF000000, 24, id as u32);
    }

    /// The cycle bit.
    pub fn cycle(&self) -> (r: bool)
        ensures
            r == cycle_of(self@.control),
    {
        self.raw.cycle()
    }

    /// Sets or clears the cycle bit.
    pub fn set_cycle(&mut self, cycle: bool)
        ensures
            final(self)@.control == set_bits32(old(self)@.control, 0x1, cycle),
            final(self)@.parameter == old(self)@.parameter,
            final(self)@.status == old(self)@.status,
    {
        self.raw.set_cycle(cycle);
    }

}

impl TrbTrait for ConfigureEndpointCommandTrb {
    const TRB_TYPE: u8 = Trb::TRB_CONFIGURE_ENDPOINT_COMMAND;

    open spec fn spec_raw(&self) -> Trb {
        self@
    }

    fn raw(&self) -> (r: &Trb) {
        &self.raw
    }
}

} // verus!
