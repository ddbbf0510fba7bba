//! What an xHCI controller's capability registers say about its layout,
//! and the register values and small decisions of bringing it up.
use vstd::prelude::*;
use crate::pci::pci_device::PciDeviceInitError;
use crate::phys::{canonical, virt_addr_add, virt_addr_new};
use crate::xhci::ext_cap::{XhciPortInfo, XhciPortProtocol};

verus! {

pub const CAP_REG_CAPLENGTH: u8 = 0x00;
pub const CAP_REG_HCSPARAMS1: u8 = 0x04;
pub const CAP_REG_HCSPARAMS2: u8 = 0x08;
pub const CAP_REG_HCCPARAMS1: u8 = 0x10;
pub const CAP_REG_DBOFF: u8 = 0x14;
pub const CAP_REG_RTSOFF: u8 = 0x18;
pub const OP_REG_USBCMD: u8 = 0x00;
pub const OP_REG_USBSTS: u8 = 0x04;
pub const OP_REG_CRCR: u8 = 0x18;
pub const OP_REG_DCBAAP: u8 = 0x30;
pub const OP_REG_CONFIG: u8 = 0x38;
pub const RT_IMAN: u8 = 0x20;
pub const RT_ERSTSZ: u8 = 0x28;
pub const RT_ERSTBA: u8 = 0x30;
pub const RT_ERDP: u8 = 0x38;
pub const XHCI_CONTROLLER_NOT_READY: u32 = 0x800;
pub const XHCI_STATUS_HALTED: u32 = 1;
pub const USB_CMD_RUN_STOP: u32 = 1;
pub const USB_CMD_HOST_CONTROLLER_RESET: u32 = 2;
pub const USB_CMD_INTERRUPTER_ENABLE: u32 = 4;
pub const INTERRUPTER_REGISTER_STRIDE: u64 = 0x20;
pub const INTERRUPTER_MANAGEMENT_ENABLE: u32 = 2;
pub const XHCI_INIT_TIMEOUT_MS: u64 = 1000;
pub const PRIMARY_INTERRUPTER: u8 = 0;
pub const TRANSFER_INTERRUPTER: u8 = 1;
pub const EP0_DCI: u8 = 1;
pub const COMMAND_RING_TRBS: usize = 256;
pub const TRB_BYTES: u64 = 16;
pub const XHCI_LEGACY_BIOS_OWNED: u32 = 0x1_0000;
pub const XHCI_LEGACY_OS_OWNED: u32 = 0x100_0000;
pub const XHCI_LEGACY_CTLSTS_CLEAR: u32 = 0xE000_0000;
pub const XHCI_LEGACY_HANDOFF_TIMEOUT_MS: u64 = 100;

/// The interrupt vectors of the controller's two MSI-X messages: command
/// and port events, and transfer events.
#[derive(Clone, Copy, Debug, PartialEq, Eq, Structural)]
pub enum XHCIInterruptIndex {
    MsiXCommandPortData,
    MsiXTransferEvents,
}

impl XHCIInterruptIndex {
    /// The vector, as the message data of its MSI-X table entry: 0x40 for
    /// command and port events, 0x41 for transfer events.
    pub fn value(&self) -> (r: u32)
        ensures
            r == match self {
                XHCIInterruptIndex::MsiXCommandPortData => 0x40u32,
                XHCIInterruptIndex::MsiXTransferEvents => 0x41u32,
            },
    {
        match self {
            XHCIInterruptIndex::MsiXCommandPortData => 0x40,
            XHCIInterruptIndex::MsiXTransferEvents => 0x41,
        }
    }
}

/// Which event ring an interrupter serves.
#[derive(Clone, Copy, Debug, PartialEq, Eq, Structural)]
pub enum XhciInterrupterKind {
    Primary,
    Transfer,
}

/// The controller's register blocks and sizes, as its capability registers
/// give them.
#[derive(Clone, Copy, Debug, PartialEq, Eq, Structural)]
pub struct XhciLayout {
    pub operational_base: u64,
    pub runtime_base: u64,
    pub doorbell_offset: u32,
    pub max_slots: u32,
    pub max_ports: usize,
    pub context_size: u32,
    pub first_ext_cap: Option<u64>,
}

/// Offset of interrupter `interrupter`'s registers in the runtime block.
pub fn runtime_interrupter_offset(interrupter: u8) -> (r: u64)
    ensures
        r == interrupter * INTERRUPTER_REGISTER_STRIDE,
{
    interrupter as u64 * INTERRUPTER_REGISTER_STRIDE
}

/// Address of the first extended capability: the dword offset in the upper
/// half of HCCPARAMS1, added to the capability base as a virtual address;
/// `None` where it is 0. The base is a virtual address, and the sum must be
/// one too (`x86_64::VirtAddr`'s `+` panics otherwise).
pub fn first_ext_cap_addr(cap_base: u64, hccparams1: u32) -> (r: Option<u64>)
    requires
        canonical(cap_base as int),
        hccparams1 >> 16u32 != 0 ==> canonical(cap_base + 4 * (hccparams1 >> 16u32)),
    ensures
        r == if hccparams1 >> 16u32 == 0 {
            None
        } else {
            Some((cap_base + 4 * (hccparams1 >> 16u32)) as u64)
        },
{
    let ext_cap_offset = (hccparams1 & 0xFFFF_0000) >> 16;
    assert((hccparams1 & 0xFFFF_0000) >> 16u32 == hccparams1 >> 16u32 && hccparams1 >> 16u32 <= 0xFFFF) by (bit_vector);
    if ext_cap_offset == 0 {
        None
    } else {
        Some(virt_addr_add(cap_base, (ext_cap_offset as u64) * 4))
    }
}

/// The runtime registers' address before it is aligned: the capability
/// base plus RTSOFF.
pub open spec fn runtime_sum(cap_base: u64, rtsoff: u32) -> int {
    cap_base + rtsoff
}

/// The controller's layout, from the capability base and the values of
/// CAPLENGTH, RTSOFF, HCSPARAMS1, HCCPARAMS1 and DBOFF: the operational
/// registers after the capability registers; the runtime registers at
/// RTSOFF, 32-byte aligned; the slot count in the low byte and the port
/// count in the high byte of HCSPARAMS1; 64-byte contexts where
/// HCCPARAMS1 bit 2 says so. The base and each address made from it are
/// virtual addresses, as `x86_64::VirtAddr` demands (it panics otherwise),
/// and the runtime sum does not overflow.
pub fn xhci_layout(cap_base: u64, caplength: u8, rtsoff: u32, hcsparams1: u32, hccparams1: u32, dboff: u32) -> (r: XhciLayout)
    requires
        canonical(cap_base as int),
        canonical(cap_base + caplength),
        runtime_sum(cap_base, rtsoff) <= u64::MAX,
        canonical((runtime_sum(cap_base, rtsoff) as u64 & !0x1Fu64) as int),
        hccparams1 >> 16u32 != 0 ==> canonical(cap_base + 4 * (hccparams1 >> 16u32)),
    ensures
        r.operational_base == cap_base + caplength,
        r.runtime_base == (runtime_sum(cap_base, rtsoff) as u64) & !0x1Fu64,
        r.doorbell_offset == dboff,
        r.max_slots == hcsparams1 & 0xFF,
        r.max_ports == hcsparams1 >> 24u32,
        r.context_size == if hccparams1 & 4 != 0 { 64u32 } else { 32u32 },
        r.first_ext_cap == if hccparams1 >> 16u32 == 0 {
            None
        } else {
            Some((cap_base + 4 * (hccparams1 >> 16u32)) as u64)
        },
{
    let max_ports_field = (hcsparams1 & 0xFF00_0000) >> 24;
    assert((hcsparams1 & 0xFF00_0000) >> 24u32 == hcsparams1 >> 24u32) by (bit_vector);
    let operational_base = virt_addr_add(cap_base, caplength as u64);
    let runtime_base = virt_addr_new((cap_base + rtsoff as u64) & !0x1F);
    XhciLayout {
        operational_base,
        runtime_base,
        doorbell_offset: dboff,
        max_slots: hcsparams1 & 0xFF,
        max_ports: max_ports_field as usize,
        context_size: if hccparams1 & 4 != 0 { 64 } else { 32 },
        first_ext_cap: first_ext_cap_addr(cap_base, hccparams1),
    }
}

/// Number of scratchpad buffers the controller asks for: HCSPARAMS2 bits
/// 21..26 above bits 27..32.
pub fn scratchpad_count(hcsparams2: u32) -> (r: u32)
    ensures
        r == (((hcsparams2 >> 21u32) & 0x1F) << 5u32) | ((hcsparams2 >> 27u32) & 0x1F),
        r < 1024,
{
    let hi = (hcsparams2 >> 21) & 0x1F;
    let lo = (hcsparams2 >> 27) & 0x1F;
    assert(((hi << 5u32) | lo) < 1024) by (bit_vector)
        requires
            hi == (hcsparams2 >> 21u32) & 0x1F,
            lo == (hcsparams2 >> 27u32) & 0x1F,
    ;
    (hi << 5) | lo
}

/// The CONFIG register with every slot enabled.
pub fn config_with_slots(config: u32, max_slots: u32) -> (r: u32)
    ensures
        r == config | max_slots,
{
    config | max_slots
}

/// The command ring control value: the ring's address with the reserved
/// low bits cleared, and the ring cycle state set.
pub fn command_ring_control(ring_phys: u64) -> (r: u64)
    ensures
        r == (ring_phys & !0x3Fu64) | 1,
{
    (ring_phys & !0x3F) | 1
}

/// The event ring dequeue pointer value for `ring_phys`.
pub fn event_ring_dequeue_pointer(ring_phys: u64) -> (r: u64)
    ensures
        r == ring_phys & !0xFu64,
{
    ring_phys & !0xF
}

/// USBCMD with the controller told to stop.
pub fn usbcmd_stop(usbcmd: u32) -> (r: u32)
    ensures
        r == usbcmd & !USB_CMD_RUN_STOP,
{
    usbcmd & !USB_CMD_RUN_STOP
}

/// USBCMD with a host controller reset asked for.
pub fn usbcmd_reset(usbcmd: u32) -> (r: u32)
    ensures
        r == usbcmd | USB_CMD_HOST_CONTROLLER_RESET,
{
    usbcmd | USB_CMD_HOST_CONTROLLER_RESET
}

/// USBCMD with interrupts on and the controller running.
pub fn usbcmd_start(usbcmd: u32) -> (r: u32)
    ensures
        r == usbcmd | USB_CMD_INTERRUPTER_ENABLE | USB_CMD_RUN_STOP,
{
    usbcmd | USB_CMD_INTERRUPTER_ENABLE | USB_CMD_RUN_STOP
}

/// Whether USBSTS shows the controller halted.
pub fn controller_halted(usbsts: u32) -> (r: bool)
    ensures
        r == (usbsts & XHCI_STATUS_HALTED != 0),
{
    usbsts & XHCI_STATUS_HALTED != 0
}

/// Whether USBSTS shows the controller ready for its registers.
pub fn controller_ready(usbsts: u32) -> (r: bool)
    ensures
        r == (usbsts & XHCI_CONTROLLER_NOT_READY == 0),
{
    usbsts & XHCI_CONTROLLER_NOT_READY == 0
}

/// Whether a wait begun at `start_ms` has run out of its `timeout_ms` at
/// `now_ms`, on a clock that wraps around.
pub fn wait_timed_out(start_ms: u64, now_ms: u64, timeout_ms: u64) -> (r: bool)
    ensures
        r == ((if now_ms >= start_ms {
            now_ms - start_ms
        } else {
            now_ms - start_ms + 0x1_0000_0000_0000_0000
        }) >= timeout_ms),
{
    now_ms.wrapping_sub(start_ms) >= timeout_ms
}

/// The value written to a doorbell: the endpoint's target in the low byte
/// and the stream in the high half.
pub fn doorbell_value(endpoint_id: u8, stream_id: u16) -> (r: u32)
    ensures
        r == (endpoint_id as u32) | ((stream_id as u32) << 16u32),
{
    (endpoint_id as u32) | ((stream_id as u32) << 16)
}

/// Offset of slot `slot_id`'s doorbell from the capability base.
pub fn doorbell_offset(dboff: u32, slot_id: u8) -> (r: u64)
    ensures
        r == dboff + 4 * slot_id,
{
    dboff as u64 + slot_id as u64 * 4
}

/// Whether a command completion's TRB address points into the command
/// ring at `base`: inside its TRBs and at the start of one.
pub fn command_ring_contains(base: u64, phys: u64) -> (r: bool)
    requires
        base + COMMAND_RING_TRBS * TRB_BYTES <= u64::MAX,
    ensures
        r == (base <= phys < base + COMMAND_RING_TRBS * TRB_BYTES && (phys - base) % 16 == 0),
{
    let end = base + (COMMAND_RING_TRBS as u64) * TRB_BYTES;
    phys >= base && phys < end && (phys - base) % TRB_BYTES == 0
}

/// Whether `port` names a root hub port: from 1 to the port count.
pub fn is_valid_port(max_ports: usize, port: u8) -> (r: bool)
    ensures
        r == (port != 0 && port <= max_ports),
{
    port != 0 && (port as usize) <= max_ports
}

/// What is known of `port`: its entry in `infos`, which lists the ports
/// from 1 on; `None` for a port that is not valid or not listed.
pub fn port_info(infos: &[XhciPortInfo], max_ports: usize, port: u8) -> (r: Option<XhciPortInfo>)
    ensures
        r == if port != 0 && port <= max_ports && port - 1 < infos@.len() {
            Some(infos@[port - 1])
        } else {
            None
        },
{
    if !is_valid_port(max_ports, port) {
        return None;
    }
    let i = (port - 1) as usize;
    if i < infos.len() {
        Some(infos[i])
    } else {
        None
    }
}

/// Whether a USB 3 root hub port is to be powered: a USB 3 port with an ID
/// whose power is off.
pub fn usb3_port_needs_power(info: XhciPortInfo, powered: bool) -> (r: bool)
    ensures
        r == (info.protocol == XhciPortProtocol::Usb3 && info.port_id != 0 && !powered),
{
    info.protocol == XhciPortProtocol::Usb3 && info.port_id != 0 && !powered
}

/// The interrupts a controller gets: MSI-X with a second interrupter for
/// transfers where it has the capability, else MSI; neither is an error.
#[derive(Clone, Copy, Debug, PartialEq, Eq, Structural)]
pub enum InterruptMode {
    Msix,
    Msi,
}

/// Walks the capability list of a configuration space `cfg` from `ptr`
/// for capability `id`, for at most `fuel` entries: `Some(found)` once the
/// walk ends (`found` is the capability's offset, or `None` at the end of
/// the list), `None` if it has not ended by then.
pub open spec fn capability_walk(cfg: Seq<u8>, ptr: u8, id: u8, fuel: nat) -> Option<Option<u8>>
    decreases fuel,
{
    if ptr == 0 {
        Some(None)
    } else if fuel == 0 || ptr as int + 1 >= cfg.len() {
        None
    } else if cfg[ptr as int] == id {
        Some(Some(ptr))
    } else {
        capability_walk(cfg, cfg[ptr as int + 1], id, (fuel - 1) as nat)
    }
}

/// Whether the configuration space lists capabilities (status bit 4).
pub open spec fn has_capability_list(cfg: Seq<u8>) -> bool {
    cfg[6] & 0x10 != 0
}

/// The offset of capability `id` in the configuration space `cfg`, found by
/// walking the list that starts at offset 0x34, if the status register says
/// there is one; `None` where it is not listed. The list must end: a list
/// that runs in a circle is walked forever, and one that points at the last
/// byte has no next pointer to read.
pub fn find_pci_capability(cfg: &[u8], capability_id: u8) -> (r: Option<u8>)
    requires
        cfg@.len() == 256,
        has_capability_list(cfg@) ==> exists|fuel: nat| capability_walk(cfg@, cfg@[0x34], capability_id, fuel) is Some,
    ensures
        !has_capability_list(cfg@) ==> r is None,
        has_capability_list(cfg@) ==> forall|fuel: nat| #[trigger] capability_walk(cfg@, cfg@[0x34], capability_id, fuel) is Some
            ==> capability_walk(cfg@, cfg@[0x34], capability_id, fuel) == Some(r),
{
    let lo = cfg[6];
    let hi = cfg[7];
    let status = (lo as u16) | ((hi as u16) << 8);
    assert(((lo as u16) | ((hi as u16) << 8u16)) & 0x10 == (lo & 0x10) as u16) by (bit_vector);
    if status & 0x10 == 0 {
        return None;
    }
    let ghost start = cfg@[0x34];
    let ghost total = choose|fuel: nat| capability_walk(cfg@, start, capability_id, fuel) is Some;
    let ghost result = capability_walk(cfg@, start, capability_id, total);
    let mut cap_ptr = cfg[0x34];
    let ghost mut fuel: nat = total;
    proof {
        lemma_capability_walk_fuel(cfg@, start, capability_id, total);
    }
    while cap_ptr != 0
        invariant
            cfg@.len() == 256,
            has_capability_list(cfg@),
            start == cfg@[0x34],
            capability_walk(cfg@, cap_ptr, capability_id, fuel) == result,
            result is Some,
            forall|f: nat| #[trigger] capability_walk(cfg@, start, capability_id, f) is Some
                ==> capability_walk(cfg@, start, capability_id, f) == result,
        decreases fuel,
    {
        if cap_ptr as usize + 1 >= cfg.len() {
            proof {
                assert(false);
            }
            return None;
        }
        if cfg[cap_ptr as usize] == capability_id {
            return Some(cap_ptr);
        }
        proof {
            fuel = (fuel - 1) as nat;
        }
        cap_ptr = cfg[cap_ptr as usize + 1];
    }
    None
}

/// A walk that ends gives the same answer with any more entries allowed.
proof fn lemma_capability_walk_more(cfg: Seq<u8>, ptr: u8, id: u8, fuel: nat, more: nat)
    requires
        capability_walk(cfg, ptr, id, fuel) is Some,
        fuel <= more,
    ensures
        capability_walk(cfg, ptr, id, more) == capability_walk(cfg, ptr, id, fuel),
    decreases fuel,
{
    if ptr != 0 && fuel > 0 && ptr as int + 1 < cfg.len() && cfg[ptr as int] != id {
        lemma_capability_walk_more(cfg, cfg[ptr as int + 1], id, (fuel - 1) as nat, (more - 1) as nat);
    }
}

/// Any two allowances under which the walk ends give the same answer.
proof fn lemma_capability_walk_fuel(cfg: Seq<u8>, ptr: u8, id: u8, fuel: nat)
    requires
        capability_walk(cfg, ptr, id, fuel) is Some,
    ensures
        forall|f: nat| #[trigger] capability_walk(cfg, ptr, id, f) is Some ==> capability_walk(cfg, ptr, id, f)
            == capability_walk(cfg, ptr, id, fuel),
{
    assert forall|f: nat| #[trigger] capability_walk(cfg, ptr, id, f) is Some implies capability_walk(cfg, ptr, id, f)
        == capability_walk(cfg, ptr, id, fuel) by {
        if f <= fuel {
            lemma_capability_walk_more(cfg, ptr, id, f, fuel);
        } else {
            lemma_capability_walk_more(cfg, ptr, id, fuel, f);
        }
    }
}

/// Whether the walk over the capability list of `cfg` that starts at offset
/// 0x34 ends within 256 steps: it reaches capability `capability_id` or a
/// null pointer before it has visited 256 entries, and no entry it visits
/// stands at the last byte. Where this holds, `find_pci_capability` may
/// walk the list.
pub fn capability_list_ends(cfg: &[u8], capability_id: u8) -> (r: bool)
    requires
        cfg@.len() == 256,
    ensures
        r == capability_walk(cfg@, cfg@[0x34], capability_id, 256) is Some,
        r ==> exists|fuel: nat| capability_walk(cfg@, cfg@[0x34], capability_id, fuel) is Some,
{
    let mut cap_ptr = cfg[0x34];
    let mut steps: usize = 256;
    let ghost start = cfg@[0x34];
    while cap_ptr != 0
        invariant
            cfg@.len() == 256,
            steps <= 256,
            start == cfg@[0x34],
            capability_walk(cfg@, start, capability_id, 256) == capability_walk(
                cfg@,
                cap_ptr,
                capability_id,
                steps as nat,
            ),
        decreases steps,
    {
        if steps == 0 || cap_ptr as usize + 1 >= cfg.len() {
            return false;
        }
        if cfg[cap_ptr as usize] == capability_id {
            return true;
        }
        let next = cfg[cap_ptr as usize + 1];
        cap_ptr = next;
        steps = steps - 1;
    }
    true
}

pub fn xhci_interrupt_mode(has_msix: bool, has_msi: bool) -> (r: Result<InterruptMode, PciDeviceInitError>)
    ensures
        r == if has_msix {
            Ok::<InterruptMode, PciDeviceInitError>(InterruptMode::Msix)
        } else if has_msi {
            Ok(InterruptMode::Msi)
        } else {
            Err(PciDeviceInitError::XhciMsiCapabilityNotFound)
        },
{
    if has_msix {
        Ok(InterruptMode::Msix)
    } else if has_msi {
        Ok(InterruptMode::Msi)
    } else {
        Err(PciDeviceInitError::XhciMsiCapabilityNotFound)
    }
}

/// The interrupter that transfer events go to: the second one where there
/// are two, else the primary.
pub fn transfer_interrupter_target(interrupters: usize) -> (r: u16)
    ensures
        r == if interrupters > 1 { 1u16 } else { 0u16 },
{
    if interrupters > 1 {
        TRANSFER_INTERRUPTER as u16
    } else {
        PRIMARY_INTERRUPTER as u16
    }
}

/// The device context index of an endpoint: 1 for endpoint 0, else twice
/// the endpoint number, plus one for IN.
pub fn xhci_endpoint_address_to_dci(b_endpoint_address: u8) -> (r: u8)
    ensures
        r == if b_endpoint_address & 0x0F == 0 {
            1
        } else {
            2 * (b_endpoint_address & 0x0F) + if b_endpoint_address & 0x80 != 0 { 1int } else { 0 }
        },
        r <= 31,
{
    let endpoint_num = b_endpoint_address & 0x0F;
    assert(b_endpoint_address & 0x0F <= 15) by (bit_vector);
    if endpoint_num == 0 {
        return EP0_DCI;
    }
    let is_in = (b_endpoint_address & 0x80) != 0;
    (endpoint_num * 2) + if is_in { 1 } else { 0 }
}

/// The control endpoint's packet size while it is unknown, by port speed:
/// 8 for full and low speed, 64 for high, 512 for super speed.
pub fn ep0_default_max_packet(port_speed: u8) -> (r: u32)
    ensures
        r == if port_speed == 3 {
            64u32
        } else if port_speed == 4 {
            512u32
        } else {
            8u32
        },
{
    match port_speed {
        1 => 8,
        2 => 8,
        3 => 64,
        4 => 512,
        _ => 8,
    }
}

/// The control endpoint's packet size that a device reports in its
/// descriptor, checked: 512 for a super speed device reporting 9 (2 to the
/// 9th), one of 8, 16, 32 and 64 for the others; `None` for anything else.
pub fn max_packet_size_0(port_speed: u8, reported: u8) -> (r: Option<u32>)
    ensures
        r == if port_speed == 4 {
            if reported == 9 { Some(512u32) } else { None }
        } else if reported == 8 || reported == 16 || reported == 32 || reported == 64 {
            Some(reported as u32)
        } else {
            None
        },
{
    if port_speed == 4 {
        return if reported == 9 { Some(512) } else { None };
    }
    if reported == 8 || reported == 16 || reported == 32 || reported == 64 {
        Some(reported as u32)
    } else {
        None
    }
}

/// What the legacy support capability's header asks of the handoff: `true`
/// where the firmware owns the controller, and the OS-owned flag is to be
/// set and the firmware waited for.
pub fn legacy_handoff_needed(header: u32) -> (r: bool)
    ensures
        r == (header & XHCI_LEGACY_BIOS_OWNED != 0),
{
    header & XHCI_LEGACY_BIOS_OWNED != 0
}

/// The legacy support header with the OS-owned flag set.
pub fn legacy_claim(header: u32) -> (r: u32)
    ensures
        r == header | XHCI_LEGACY_OS_OWNED,
{
    header | XHCI_LEGACY_OS_OWNED
}

} // verus!
