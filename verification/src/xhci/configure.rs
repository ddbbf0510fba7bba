//! What the driver writes into the input context when it addresses a device
//! and when it configures the device's endpoints, and how it judges the
//! controller's answer to Address Device.
use vstd::prelude::*;
use crate::bits::{place_field32, set_bits32, set_field32};
use crate::usb::descriptors::EndpointDescriptor;
use crate::xhci::controller::xhci_endpoint_address_to_dci;
use crate::xhci::endpoint_context::EndpointContext;
use crate::xhci::slot_context::SlotContext;
use crate::xhci::trb::TrbCompletionCode;

verus! {

/// Port speed IDs of the PORTSC register.
pub const PORT_SPEED_FULL: u8 = 1;
pub const PORT_SPEED_LOW: u8 = 2;
pub const PORT_SPEED_HIGH: u8 = 3;
pub const PORT_SPEED_SUPER: u8 = 4;

/// Endpoint types of the endpoint context.
pub const EP_TYPE_CONTROL: u32 = 4;

/// The endpoint state of a running endpoint, and the slot states after
/// Address Device with and without BSR.
pub const EP_STATE_RUNNING: u32 = 1;
pub const SLOT_STATE_DEFAULT: u8 = 1;
pub const SLOT_STATE_ADDRESSED: u8 = 2;

/// The packet size the default control endpoint starts with at a port
/// speed: 8 at full and low speed, 64 at high speed, 512 at super speed,
/// and 8 for anything else.
pub fn ep0_max_packet_size_for_speed(port_speed: u8) -> (r: u32)
    ensures
        r == if port_speed == 3 {
            64u32
        } else if port_speed == 4 {
            512u32
        } else {
            8u32
        },
{
    match port_speed {
        PORT_SPEED_FULL => 8,
        PORT_SPEED_LOW => 8,
        PORT_SPEED_HIGH => 64,
        PORT_SPEED_SUPER => 512,
        _ => 8,
    }
}

/// The slot context of a device being addressed: on root hub port `port`
/// (route string 0), one context entry, at `port_speed`.
pub open spec fn address_slot_dwords(dword0: u32, dword1: u32, port: u8, port_speed: u8) -> (u32, u32) {
    (
        place_field32(
            place_field32(set_field32(dword0, 0xFFFFF, 0, 0), 0xF8000000, 27, 1),
            0xF00000,
            20,
            port_speed as u32,
        ),
        place_field32(dword1, 0xFF0000, 16, port as u32),
    )
}

/// Fills in the slot context for Address Device.
pub fn address_device_slot_context<const CZ: usize>(slot: &mut SlotContext<CZ>, port: u8, port_speed: u8)
    ensures
        (final(slot).dword0, final(slot).dword1) == address_slot_dwords(old(slot).dword0, old(slot).dword1, port, port_speed),
        final(slot).dword2 == old(slot).dword2,
        final(slot).dword3 == old(slot).dword3,
        final(slot).reserved == old(slot).reserved,
{
    slot.set_root_hub_port(port);
    slot.set_route_string(0);
    slot.set_context_entries(1);
    slot.set_speed(port_speed);
}

/// The default control endpoint's context for Address Device: a control
/// endpoint with the speed's packet size, no bursts, its ring at
/// `ring_phys` with dequeue cycle state 1, interval, streams and mult 0,
/// and three errors allowed.
pub open spec fn address_ep0_context<const CZ: usize>(ctx: EndpointContext<CZ>, port_speed: u8, ring_phys: u64) -> EndpointContext<CZ> {
    let mps: u32 = if port_speed == 3 {
        64
    } else if port_speed == 4 {
        512
    } else {
        8
    };
    EndpointContext {
        dword0: set_field32(
            set_field32(set_field32(ctx.dword0, 0xFF0000, 16, 0), 0x7C00, 10, 0),
            0x300,
            8,
            0,
        ),
        dword1: set_field32(
            set_field32(set_field32(set_field32(ctx.dword1, 0x38, 3, 4), 0xFFFF0000, 16, mps), 0xFF00, 8, 0),
            0x6,
            1,
            3,
        ),
        dword2: set_bits32((ctx.dword2 & 0xF) | ((ring_phys as u32) & !0xFu32), 0x1, true),
        dword3: (ring_phys >> 32u64) as u32,
        ..ctx
    }
}

/// Fills in the default control endpoint's context for Address Device.
pub fn address_device_ep0_context<const CZ: usize>(ep0: &mut EndpointContext<CZ>, port_speed: u8, ring_phys: u64)
    ensures
        *final(ep0) == address_ep0_context(*old(ep0), port_speed, ring_phys),
{
    let max_packet_size = ep0_max_packet_size_for_speed(port_speed);
    ep0.set_ep_type(EP_TYPE_CONTROL);
    ep0.set_max_packet_size(max_packet_size);
    ep0.set_max_burst(0);
    ep0.set_tr_dequeue_ptr(ring_phys);
    ep0.set_dcs(true);
    ep0.set_interval(0);
    ep0.set_max_pstreams(0);
    ep0.set_mult(0);
    ep0.set_cerr(3);
}

/// What the driver does with the completion of Address Device.
#[derive(Clone, Copy, Debug, PartialEq, Eq, Structural)]
pub enum AddressOutcome {
    /// It succeeded: check the contexts the controller wrote.
    Check,
    /// Leave the slot as it is.
    Ignore,
    /// Give the slot up.
    DisableSlot,
}

/// The step after Address Device completed with `completion_code`: success
/// goes on; a context state error and a slot that was not enabled are left
/// alone; a transaction error, where the device was likely removed, and
/// anything else give the slot up.
pub fn address_device_outcome(completion_code: u8) -> (r: AddressOutcome)
    ensures
        r == if completion_code == 1 {
            AddressOutcome::Check
        } else if completion_code == 19 || completion_code == 11 {
            AddressOutcome::Ignore
        } else {
            AddressOutcome::DisableSlot
        },
{
    if completion_code == TrbCompletionCode::SUCCESS {
        AddressOutcome::Check
    } else if completion_code == TrbCompletionCode::CONTEXT_STATE_ERROR {
        AddressOutcome::Ignore
    } else if completion_code == TrbCompletionCode::USB_TRANSACTION_ERROR {
        AddressOutcome::DisableSlot
    } else if completion_code == TrbCompletionCode::SLOT_NOT_ENABLED_ERROR {
        AddressOutcome::Ignore
    } else {
        AddressOutcome::DisableSlot
    }
}

/// Whether the output contexts after Address Device are what was asked
/// for: the default control endpoint running and, with BSR, the slot in
/// the default state at address 0, or else addressed at a nonzero address.
pub fn verify_addressed_device(ep0_state: u32, slot_state: u8, usb_address: u8, bsr: bool) -> (r: bool)
    ensures
        r == (ep0_state == EP_STATE_RUNNING && if bsr {
            slot_state == SLOT_STATE_DEFAULT && usb_address == 0
        } else {
            slot_state == SLOT_STATE_ADDRESSED && usb_address != 0
        }),
{
    if ep0_state != EP_STATE_RUNNING {
        return false;
    }
    if bsr {
        return slot_state == SLOT_STATE_DEFAULT && usb_address == 0;
    }
    slot_state == SLOT_STATE_ADDRESSED && usb_address != 0
}

/// The floor of the base-2 logarithm, 0 for 0 and 1.
pub open spec fn floor_log2(n: nat) -> nat
    decreases n,
{
    if n <= 1 {
        0
    } else {
        1 + floor_log2(n / 2)
    }
}

/// The floor of the base-2 logarithm of `v`.
fn log2_floor(v: u8) -> (r: u32)
    ensures
        r == floor_log2(v as nat),
        r <= 7,
{
    let mut rest: u8 = v;
    let mut r: u32 = 0;
    proof {
        lemma_floor_log2_u8(v);
    }
    while rest > 1
        invariant
            floor_log2(v as nat) == r + floor_log2(rest as nat),
            r + floor_log2(rest as nat) <= 7,
        decreases rest,
    {
        proof {
            lemma_floor_log2_u8(rest);
        }
        rest = rest / 2;
        r = r + 1;
    }
    r
}

/// The logarithm of a byte is at most 7.
proof fn lemma_floor_log2_u8(v: u8)
    ensures
        floor_log2(v as nat) <= 7,
{
    assert(floor_log2(v as nat) <= 7) by {
        reveal_with_fuel(floor_log2, 9);
    }
}

/// The xHCI interval of an endpoint whose descriptor gives `b_interval`:
/// at full and low speed, frames become microframes as the power of two,
/// plus 3, below `b_interval` (0 for 0); at other speeds the exponent is
/// `b_interval - 1`.
pub fn endpoint_interval(port_speed: u8, b_interval: u8) -> (r: u32)
    requires
        !(port_speed == 1 || port_speed == 2) ==> b_interval >= 1,
    ensures
        r == if port_speed == 1 || port_speed == 2 {
            if b_interval > 0 {
                (floor_log2(b_interval as nat) + 3) as u32
            } else {
                0u32
            }
        } else {
            (b_interval - 1) as u32
        },
{
    if port_speed == PORT_SPEED_LOW || port_speed == PORT_SPEED_FULL {
        if b_interval > 0 {
            log2_floor(b_interval) + 3
        } else {
            0
        }
    } else {
        (b_interval - 1) as u32
    }
}

/// The endpoint context type of an endpoint: isochronous 1, bulk 2 and
/// interrupt 3 for OUT, plus 4 for IN; `None` for a control endpoint.
pub fn endpoint_type(bm_attributes: u8, b_endpoint_address: u8) -> (r: Option<u32>)
    ensures
        r == if bm_attributes & 3 == 0 {
            None
        } else {
            Some(((bm_attributes & 3) + if b_endpoint_address & 0x80 != 0 { 4int } else { 0 }) as u32)
        },
{
    let transfer_type = bm_attributes & 0b11;
    let is_in = (b_endpoint_address & 0x80) != 0;
    assert(bm_attributes & 3 <= 3) by (bit_vector);
    match transfer_type {
        1 => Some(if is_in { 5 } else { 1 }),
        2 => Some(if is_in { 6 } else { 2 }),
        3 => Some(if is_in { 7 } else { 3 }),
        _ => None,
    }
}

/// The context of endpoint `ep` after its ring at `ring_phys` is
/// installed: TR dequeue pointer with cycle state 1, packet size (bits
/// 0..=10 of wMaxPacketSize) and interval; then, for a known type, the
/// type, errors allowed (none for isochronous, else 3), no bursts, the
/// average TRB length as wMaxPacketSize, and the transactions per
/// microframe field (bits 11..=12) as the max ESIT payload's low half.
pub open spec fn configured_endpoint_context<const CZ: usize>(
    ctx: EndpointContext<CZ>,
    ep: EndpointDescriptor,
    interval: u32,
    ep_type: Option<u32>,
    ring_phys: u64,
) -> EndpointContext<CZ> {
    let mps = (ep.w_max_packet_size & 0x7FF) as u32;
    let extra = ((ep.w_max_packet_size >> 11u16) & 0x3) as u32;
    let base = EndpointContext {
        dword0: set_field32(ctx.dword0, 0xFF0000, 16, interval),
        dword1: set_field32(ctx.dword1, 0xFFFF0000, 16, mps),
        dword2: set_bits32((ctx.dword2 & 0xF) | ((ring_phys as u32) & !0xFu32), 0x1, true),
        dword3: (ring_phys >> 32u64) as u32,
        ..ctx
    };
    match ep_type {
        None => base,
        Some(t) => {
            let cerr: u32 = if ep.bm_attributes & 3 == 1 { 0 } else { 3 };
            EndpointContext {
                dword1: set_field32(set_field32(set_field32(base.dword1, 0x6, 1, cerr), 0x38, 3, t), 0xFF00, 8, 0),
                dword4: set_field32(
                    set_field32(base.dword4, 0xFFFF, 0, ep.w_max_packet_size as u32),
                    0xFFFF0000,
                    16,
                    extra,
                ),
                ..base
            }
        },
    }
}

/// Fills in the context of endpoint `ep` of a device at `port_speed`, whose
/// new ring is at `ring_phys`; `false` where the endpoint's type is not
/// one an endpoint context takes, after the fields before the type.
pub fn configure_endpoint_context<const CZ: usize>(
    ctx: &mut EndpointContext<CZ>,
    ep: &EndpointDescriptor,
    port_speed: u8,
    ring_phys: u64,
) -> (r: bool)
    requires
        !(port_speed == 1 || port_speed == 2) ==> ep.b_interval >= 1,
    ensures
        r == (ep.bm_attributes & 3 != 0),
        *final(ctx) == configured_endpoint_context(
            *old(ctx),
            *ep,
            if port_speed == 1 || port_speed == 2 {
                if ep.b_interval > 0 {
                    (floor_log2(ep.b_interval as nat) + 3) as u32
                } else {
                    0u32
                }
            } else {
                (ep.b_interval - 1) as u32
            },
            if ep.bm_attributes & 3 == 0 {
                None
            } else {
                Some(((ep.bm_attributes & 3) + if ep.b_endpoint_address & 0x80 != 0 { 4int } else { 0 }) as u32)
            },
            ring_phys,
        ),
{
    ctx.set_tr_dequeue_ptr(ring_phys);
    ctx.set_dcs(true);
    let mps = (ep.w_max_packet_size & 0x7FF) as u32;
    let extra = ((ep.w_max_packet_size >> 11) & 0x3) as u32;
    ctx.set_max_packet_size(mps);
    let interval = endpoint_interval(port_speed, ep.b_interval);
    ctx.set_interval(interval);
    let ep_type = match endpoint_type(ep.bm_attributes, ep.b_endpoint_address) {
        Some(t) => t,
        None => return false,
    };
    let error_count: u32 = if (ep.bm_attributes & 0b11) == 0b01 { 0 } else { 3 };
    ctx.set_cerr(error_count);
    ctx.set_ep_type(ep_type);
    ctx.set_max_burst(0);
    ctx.set_avg_trb_len(ep.w_max_packet_size as u32);
    ctx.set_max_esit_payload_lo(extra);
    true
}

/// The device context index of endpoint address `a`.
pub open spec fn dci_of(a: u8) -> u8 {
    (if a & 0x0F == 0 {
        1
    } else {
        2 * (a & 0x0F) + if a & 0x80 != 0 { 1int } else { 0 }
    }) as u8
}

/// The highest context index among `initial` and those of the first `n`
/// endpoint addresses.
pub open spec fn max_dci_of(initial: u8, addresses: Seq<u8>, n: int) -> u8
    decreases n,
{
    if n <= 0 {
        initial
    } else {
        let m = max_dci_of(initial, addresses, n - 1);
        if dci_of(addresses[n - 1]) > m {
            dci_of(addresses[n - 1])
        } else {
            m
        }
    }
}

/// The add flags of the first `n` endpoint addresses' contexts.
pub open spec fn endpoint_add_flags(addresses: Seq<u8>, n: int) -> u32
    decreases n,
{
    if n <= 0 {
        0
    } else {
        endpoint_add_flags(addresses, n - 1) | (1u32 << dci_of(addresses[n - 1]))
    }
}

/// For Configure Endpoint over the endpoints with the given addresses, in
/// order: the slot context's new number of context entries, the highest of
/// the entries it had and the endpoints' context indices; and the input
/// control context's add flags, one per endpoint and the slot's.
pub fn endpoint_configuration_flags(context_entries: u8, endpoint_addresses: &[u8]) -> (r: (u8, u32))
    ensures
        r.0 == max_dci_of(context_entries, endpoint_addresses@, endpoint_addresses@.len() as int),
        r.1 == endpoint_add_flags(endpoint_addresses@, endpoint_addresses@.len() as int) | 1u32,
{
    let mut max_dci = context_entries;
    let mut flags: u32 = 0;
    let mut i: usize = 0;
    while i < endpoint_addresses.len()
        invariant
            i <= endpoint_addresses@.len(),
            max_dci == max_dci_of(context_entries, endpoint_addresses@, i as int),
            flags == endpoint_add_flags(endpoint_addresses@, i as int),
        decreases endpoint_addresses@.len() - i,
    {
        let dci = xhci_endpoint_address_to_dci(endpoint_addresses[i]);
        if dci > max_dci {
            max_dci = dci;
        }
        flags = flags | (1u32 << dci);
        i = i + 1;
    }
    (max_dci, flags | 1)
}

} // verus!
