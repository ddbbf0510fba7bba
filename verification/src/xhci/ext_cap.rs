//! The xHCI extended capabilities that describe the root hub ports: which
//! protocol each port speaks and the fastest speed it announces.
use vstd::prelude::*;

verus! {

#[derive(Debug, Clone, Copy, PartialEq, Eq, Structural)]
pub enum XhciPortProtocol {
    Unknown,
    Usb2,
    Usb3,
    Usb4,
}

#[derive(Debug, Clone, Copy, PartialEq, Eq, Structural)]
pub enum XhciPortSpeed {
    Unknown,
    LowSpeed,
    FullSpeed,
    HighSpeed,
    SuperSpeed,
    SuperSpeedPlus,
    Usb4,
    VendorDefined,
}

/// A protocol speed ID dword, decoded.
#[derive(Debug, Clone, Copy, PartialEq, Eq, Structural)]
pub struct XhciProtocolSpeedId {
    pub psiv: u8,
    pub psie: u8,
    pub plt: u8,
    pub pfd: bool,
    pub lp: u8,
    pub psim: u16,
}

/// What the kernel knows of a root hub port.
#[derive(Debug, Clone, Copy, PartialEq, Eq, Structural)]
pub struct XhciPortInfo {
    pub port_id: u8,
    pub protocol: XhciPortProtocol,
    pub major: u8,
    pub minor: u8,
    pub slot_type: u8,
    pub protocol_defined: u16,
    pub speed: XhciPortSpeed,
    pub psiv: u8,
    pub raw_bps: Option<u64>,
    pub psi: Option<XhciProtocolSpeedId>,
}

/// A supported protocol capability, decoded.
#[derive(Debug, Clone, Copy, PartialEq, Eq, Structural)]
pub struct XhciSupportedProtocol {
    pub name: u32,
    pub major: u8,
    pub minor: u8,
    pub port_offset: u8,
    pub port_count: u8,
    pub psic: u8,
    pub protocol_defined: u16,
    pub slot_type: u8,
}

pub const XHCI_EXT_CAP_ID_SUPPORTED_PROTOCOL: u8 = 0x02;
/// "USB ", the name of the USB protocols.
pub const XHCI_PROTO_NAME_USB: u32 = 0x2042_5355;
/// A longer chain of extended capabilities is taken as corrupted.
pub const XHCI_EXT_CAP_CHAIN_LIMIT: usize = 256;

impl XhciPortInfo {
    /// A port that no capability describes.
    pub fn unknown() -> (r: Self)
        ensures
            r == (XhciPortInfo {
                port_id: 0,
                protocol: XhciPortProtocol::Unknown,
                major: 0,
                minor: 0,
                slot_type: 0,
                protocol_defined: 0,
                speed: XhciPortSpeed::Unknown,
                psiv: 0,
                raw_bps: None,
                psi: None,
            }),
    {
        Self {
            port_id: 0,
            protocol: XhciPortProtocol::Unknown,
            major: 0,
            minor: 0,
            slot_type: 0,
            protocol_defined: 0,
            speed: XhciPortSpeed::Unknown,
            psiv: 0,
            raw_bps: None,
            psi: None,
        }
    }
}

/// A PSI dword, decoded: value, exponent, type, full duplex, protocol
/// defined bits and mantissa.
pub open spec fn psi_of(raw: u32) -> XhciProtocolSpeedId {
    XhciProtocolSpeedId {
        psiv: (raw & 0xF) as u8,
        psie: ((raw & 0x30) >> 4u32) as u8,
        plt: ((raw & 0xC0) >> 6u32) as u8,
        pfd: raw & 0x100 != 0,
        lp: ((raw & 0xC000) >> 14u32) as u8,
        psim: ((raw & 0xFFFF0000) >> 16u32) as u16,
    }
}

/// The bit rate of a speed ID: the mantissa times the power of a thousand
/// that the exponent gives.
pub open spec fn psi_bps(p: XhciProtocolSpeedId) -> Option<u64> {
    if p.psie == 0 {
        Some(p.psim as u64)
    } else if p.psie == 1 {
        Some((p.psim * 1_000) as u64)
    } else if p.psie == 2 {
        Some((p.psim * 1_000_000) as u64)
    } else if p.psie == 3 {
        Some((p.psim * 1_000_000_000) as u64)
    } else {
        None
    }
}

impl XhciProtocolSpeedId {
    pub fn from_raw(raw: u32) -> (r: Self)
        ensures
            r == psi_of(raw),
    {
        Self {
            psiv: (raw & 0xF) as u8,
            psie: ((raw & 0x30) >> 4) as u8,
            plt: ((raw & 0xC0) >> 6) as u8,
            pfd: raw & 0x100 != 0,
            lp: ((raw & 0xC000) >> 14) as u8,
            psim: ((raw & 0xFFFF0000) >> 16) as u16,
        }
    }

    pub fn bits_per_second(&self) -> (r: Option<u64>)
        ensures
            r == psi_bps(*self),
    {
        let multiplier: u64 = match self.psie {
            0 => 1,
            1 => 1_000,
            2 => 1_000_000,
            3 => 1_000_000_000,
            _ => {
                return None;
            },
        };
        assert(self.psim * multiplier <= 0xFFFF * 1_000_000_000) by (nonlinear_arith)
            requires
                self.psim <= 0xFFFF,
                multiplier <= 1_000_000_000,
        ;
        Some(self.psim as u64 * multiplier)
    }
}

/// The speed that a speed ID value and bit rate stand for on a port of
/// `protocol`: the protocol's standard IDs first, then the bit rate.
pub open spec fn speed_of(protocol: XhciPortProtocol, psiv: u8, bps: Option<u64>) -> XhciPortSpeed {
    if protocol == XhciPortProtocol::Usb2 && psiv == 1 {
        XhciPortSpeed::FullSpeed
    } else if protocol == XhciPortProtocol::Usb2 && psiv == 2 {
        XhciPortSpeed::LowSpeed
    } else if protocol == XhciPortProtocol::Usb2 && psiv == 3 {
        XhciPortSpeed::HighSpeed
    } else if protocol == XhciPortProtocol::Usb3 && psiv == 4 {
        XhciPortSpeed::SuperSpeed
    } else if protocol == XhciPortProtocol::Usb4 {
        XhciPortSpeed::Usb4
    } else {
        match bps {
            Some(b) => if b >= 10_000_000_000 {
                XhciPortSpeed::SuperSpeedPlus
            } else if b >= 5_000_000_000 {
                XhciPortSpeed::SuperSpeed
            } else if b == 480_000_000 {
                XhciPortSpeed::HighSpeed
            } else if b == 12_000_000 {
                XhciPortSpeed::FullSpeed
            } else if b == 1_500_000 {
                XhciPortSpeed::LowSpeed
            } else {
                XhciPortSpeed::VendorDefined
            },
            None => XhciPortSpeed::Unknown,
        }
    }
}

pub fn classify_speed_id(protocol: XhciPortProtocol, psiv: u8, bits_per_second: Option<u64>) -> (r:
    XhciPortSpeed)
    ensures
        r == speed_of(protocol, psiv, bits_per_second),
{
    match (protocol, psiv) {
        (XhciPortProtocol::Usb2, 1) => XhciPortSpeed::FullSpeed,
        (XhciPortProtocol::Usb2, 2) => XhciPortSpeed::LowSpeed,
        (XhciPortProtocol::Usb2, 3) => XhciPortSpeed::HighSpeed,
        (XhciPortProtocol::Usb3, 4) => XhciPortSpeed::SuperSpeed,
        (XhciPortProtocol::Usb4, _) => XhciPortSpeed::Usb4,
        _ => match bits_per_second {
            Some(bps) => {
                if bps >= 10_000_000_000 {
                    XhciPortSpeed::SuperSpeedPlus
                } else if bps >= 5_000_000_000 {
                    XhciPortSpeed::SuperSpeed
                } else if bps == 480_000_000 {
                    XhciPortSpeed::HighSpeed
                } else if bps == 12_000_000 {
                    XhciPortSpeed::FullSpeed
                } else if bps == 1_500_000 {
                    XhciPortSpeed::LowSpeed
                } else {
                    XhciPortSpeed::VendorDefined
                }
            },
            None => XhciPortSpeed::Unknown,
        },
    }
}

/// The speed, speed ID value and bit rate assumed for a protocol whose
/// capability lists no speed IDs.
pub open spec fn default_speed_spec(protocol: XhciPortProtocol) -> (XhciPortSpeed, u8, Option<u64>) {
    match protocol {
        XhciPortProtocol::Usb2 => (XhciPortSpeed::HighSpeed, 3u8, Some(480_000_000u64)),
        XhciPortProtocol::Usb3 => (XhciPortSpeed::SuperSpeed, 4u8, Some(5_000_000_000u64)),
        XhciPortProtocol::Usb4 => (XhciPortSpeed::Usb4, 0u8, None),
        XhciPortProtocol::Unknown => (XhciPortSpeed::Unknown, 0u8, None),
    }
}

pub fn default_speed_for_protocol(protocol: XhciPortProtocol) -> (r: (XhciPortSpeed, u8, Option<u64>))
    ensures
        r == default_speed_spec(protocol),
{
    match protocol {
        XhciPortProtocol::Usb2 => (XhciPortSpeed::HighSpeed, 3, Some(480_000_000)),
        XhciPortProtocol::Usb3 => (XhciPortSpeed::SuperSpeed, 4, Some(5_000_000_000)),
        XhciPortProtocol::Usb4 => (XhciPortSpeed::Usb4, 0, None),
        XhciPortProtocol::Unknown => (XhciPortSpeed::Unknown, 0, None),
    }
}

/// The order in which speeds are preferred when bit rates tie.
pub open spec fn speed_rank_spec(speed: XhciPortSpeed) -> u8 {
    match speed {
        XhciPortSpeed::Unknown => 0,
        XhciPortSpeed::LowSpeed => 1,
        XhciPortSpeed::FullSpeed => 2,
        XhciPortSpeed::HighSpeed => 3,
        XhciPortSpeed::SuperSpeed => 4,
        XhciPortSpeed::SuperSpeedPlus => 5,
        XhciPortSpeed::Usb4 => 6,
        XhciPortSpeed::VendorDefined => 7,
    }
}

pub fn speed_rank(speed: XhciPortSpeed) -> (r: u8)
    ensures
        r == speed_rank_spec(speed),
{
    match speed {
        XhciPortSpeed::Unknown => 0,
        XhciPortSpeed::LowSpeed => 1,
        XhciPortSpeed::FullSpeed => 2,
        XhciPortSpeed::HighSpeed => 3,
        XhciPortSpeed::SuperSpeed => 4,
        XhciPortSpeed::SuperSpeedPlus => 5,
        XhciPortSpeed::Usb4 => 6,
        XhciPortSpeed::VendorDefined => 7,
    }
}

/// The order of optional bit rates: none below any rate.
pub open spec fn bps_greater(a: Option<u64>, b: Option<u64>) -> bool {
    match (a, b) {
        (Some(x), Some(y)) => x > y,
        (Some(_), None) => true,
        _ => false,
    }
}

fn bps_greater_exec(a: Option<u64>, b: Option<u64>) -> (r: bool)
    ensures
        r == bps_greater(a, b),
{
    match (a, b) {
        (Some(x), Some(y)) => x > y,
        (Some(_), None) => true,
        _ => false,
    }
}

/// The best of the first `k` speed IDs `psis` of a port of `protocol`: the
/// highest bit rate, ties going to the higher ranked speed, the first found
/// among equals.
pub open spec fn best_speed(protocol: XhciPortProtocol, psis: Seq<u32>, k: int) -> (
    XhciPortSpeed,
    u8,
    Option<u64>,
    Option<XhciProtocolSpeedId>,
)
    decreases k,
{
    if k <= 0 {
        (XhciPortSpeed::Unknown, 0u8, None, None)
    } else {
        let best = best_speed(protocol, psis, k - 1);
        let psi = psi_of(psis[k - 1]);
        let bps = psi_bps(psi);
        let speed = speed_of(protocol, psi.psiv, bps);
        if bps_greater(bps, best.2) || (bps == best.2 && speed_rank_spec(speed) > speed_rank_spec(
            best.0,
        )) {
            (speed, psi.psiv, bps, Some(psi))
        } else {
            best
        }
    }
}

/// The speed of a port of `protocol` whose capability lists the speed ID
/// dwords `psis`: the default of the protocol where there are none.
pub fn read_supported_protocol_speed(protocol: XhciPortProtocol, psis: &[u32]) -> (r: (
    XhciPortSpeed,
    u8,
    Option<u64>,
    Option<XhciProtocolSpeedId>,
))
    ensures
        psis@.len() == 0 ==> r == ({
            let d = default_speed_spec(protocol);
            (d.0, d.1, d.2, None::<XhciProtocolSpeedId>)
        }),
        psis@.len() > 0 ==> r == best_speed(protocol, psis@, psis@.len() as int),
{
    if psis.len() == 0 {
        let (speed, psiv, raw_bps) = default_speed_for_protocol(protocol);
        return (speed, psiv, raw_bps, None);
    }
    let mut best: (XhciPortSpeed, u8, Option<u64>, Option<XhciProtocolSpeedId>) = (
        XhciPortSpeed::Unknown,
        0,
        None,
        None,
    );
    let mut i: usize = 0;
    while i < psis.len()
        invariant
            i <= psis@.len(),
            best == best_speed(protocol, psis@, i as int),
        decreases psis@.len() - i,
    {
        let psi = XhciProtocolSpeedId::from_raw(psis[i]);
        let raw_bps = psi.bits_per_second();
        let speed = classify_speed_id(protocol, psi.psiv, raw_bps);
        if bps_greater_exec(raw_bps, best.2) || (raw_bps == best.2 && speed_rank(speed) > speed_rank(
            best.0,
        )) {
            best = (speed, psi.psiv, raw_bps, Some(psi));
        }
        i = i + 1;
    }
    best
}

/// The supported protocol capability held in its first four dwords.
pub open spec fn supported_protocol_of(header: u32, name: u32, ports: u32, slot: u32) -> XhciSupportedProtocol {
    XhciSupportedProtocol {
        name,
        major: ((header & 0xFF000000) >> 24u32) as u8,
        minor: ((header & 0xFF0000) >> 16u32) as u8,
        port_offset: (ports & 0xFF) as u8,
        port_count: ((ports & 0xFF00) >> 8u32) as u8,
        psic: ((ports & 0xF0000000) >> 28u32) as u8,
        protocol_defined: ((ports & 0xFFF0000) >> 16u32) as u16,
        slot_type: (slot & 0x1F) as u8,
    }
}

/// Decodes a supported protocol capability from its first four dwords.
pub fn read_supported_protocol_cap(header: u32, name: u32, ports: u32, slot: u32) -> (r: XhciSupportedProtocol)
    ensures
        r == supported_protocol_of(header, name, ports, slot),
{
    XhciSupportedProtocol {
        name,
        major: ((header & 0xFF000000) >> 24) as u8,
        minor: ((header & 0xFF0000) >> 16) as u8,
        port_offset: (ports & 0xFF) as u8,
        port_count: ((ports & 0xFF00) >> 8) as u8,
        psic: ((ports & 0xF0000000) >> 28) as u8,
        protocol_defined: ((ports & 0xFFF0000) >> 16) as u16,
        slot_type: (slot & 0x1F) as u8,
    }
}

/// The protocol of a supported protocol capability: by major revision,
/// for capabilities named "USB ".
pub fn classify_supported_protocol(cap: XhciSupportedProtocol) -> (r: XhciPortProtocol)
    ensures
        r == if cap.name != 0x2042_5355 {
            XhciPortProtocol::Unknown
        } else if cap.major == 2 {
            XhciPortProtocol::Usb2
        } else if cap.major == 3 {
            XhciPortProtocol::Usb3
        } else if cap.major == 4 {
            XhciPortProtocol::Usb4
        } else {
            XhciPortProtocol::Unknown
        },
{
    if cap.name != XHCI_PROTO_NAME_USB {
        return XhciPortProtocol::Unknown;
    }
    match cap.major {
        2 => XhciPortProtocol::Usb2,
        3 => XhciPortProtocol::Usb3,
        4 => XhciPortProtocol::Usb4,
        _ => XhciPortProtocol::Unknown,
    }
}

/// The ID of an extended capability, from its header dword.
pub fn ext_cap_id(header: u32) -> (r: u8)
    ensures
        r == (header & 0xFF) as u8,
{
    (header & 0xFF) as u8
}

/// The offset, in dwords, of the next extended capability; 0 ends the
/// chain.
pub fn ext_cap_next(header: u32) -> (r: u8)
    ensures
        r == ((header & 0xFF00) >> 8u32) as u8,
{
    ((header & 0xFF00) >> 8) as u8
}

/// The information of every port, before any capability is read: each
/// port unknown, with its ID (ports count from 1).
pub fn initial_port_info(max_ports: usize) -> (r: Vec<XhciPortInfo>)
    requires
        max_ports <= 256,
    ensures
        r@.len() == max_ports,
        forall|i: int|
            0 <= i < max_ports ==> #[trigger] r@[i] == (XhciPortInfo {
                port_id: (i + 1) as u8,
                ..XhciPortInfo {
                    port_id: 0,
                    protocol: XhciPortProtocol::Unknown,
                    major: 0,
                    minor: 0,
                    slot_type: 0,
                    protocol_defined: 0,
                    speed: XhciPortSpeed::Unknown,
                    psiv: 0,
                    raw_bps: None,
                    psi: None,
                }
            }),
{
    let mut r: Vec<XhciPortInfo> = Vec::new();
    let mut i: usize = 0;
    while i < max_ports
        invariant
            i <= max_ports <= 256,
            r@.len() == i,
            forall|k: int|
                0 <= k < i ==> #[trigger] r@[k] == (XhciPortInfo {
                    port_id: (k + 1) as u8,
                    ..XhciPortInfo {
                        port_id: 0,
                        protocol: XhciPortProtocol::Unknown,
                        major: 0,
                        minor: 0,
                        slot_type: 0,
                        protocol_defined: 0,
                        speed: XhciPortSpeed::Unknown,
                        psiv: 0,
                        raw_bps: None,
                        psi: None,
                    }
                }),
        decreases max_ports - i,
    {
        let mut info = XhciPortInfo::unknown();
        info.port_id = (i + 1) as u8;
        r.push(info);
        i = i + 1;
    }
    r
}

/// The information that a supported protocol capability `cap` gives each
/// port it covers.
pub open spec fn info_for(
    cap: XhciSupportedProtocol,
    protocol: XhciPortProtocol,
    port_id: u8,
    speed: (XhciPortSpeed, u8, Option<u64>, Option<XhciProtocolSpeedId>),
) -> XhciPortInfo {
    XhciPortInfo {
        port_id,
        protocol,
        major: cap.major,
        minor: cap.minor,
        slot_type: cap.slot_type,
        protocol_defined: cap.protocol_defined,
        speed: speed.0,
        psiv: speed.1,
        raw_bps: speed.2,
        psi: speed.3,
    }
}

/// The ports that `cap` covers: from its port offset, as many as its port
/// count says (stopping at 255).
pub open spec fn covers(cap: XhciSupportedProtocol, port_id: int) -> bool {
    let end = if cap.port_offset + cap.port_count > 255 {
        255
    } else {
        cap.port_offset + cap.port_count
    };
    cap.port_offset <= port_id < end && port_id != 0
}

/// Takes a supported protocol capability into the port information: every
/// port it covers gets its protocol, revision and speed, where `psis` are
/// its speed ID dwords.
pub fn apply_supported_protocol(port_info: &mut Vec<XhciPortInfo>, cap: XhciSupportedProtocol, psis: &[u32])
    requires
        old(port_info)@.len() <= 256,
    ensures
        final(port_info)@.len() == old(port_info)@.len(),
        forall|i: int|
            0 <= i < old(port_info)@.len() ==> #[trigger] final(port_info)@[i] == if covers(cap, i + 1) {
                info_for(
                    cap,
                    crate::xhci::ext_cap::classify_protocol_spec(cap),
                    (i + 1) as u8,
                    if psis@.len() == 0 {
                        let d = default_speed_spec(classify_protocol_spec(cap));
                        (d.0, d.1, d.2, None::<XhciProtocolSpeedId>)
                    } else {
                        best_speed(classify_protocol_spec(cap), psis@, psis@.len() as int)
                    },
                )
            } else {
                old(port_info)@[i]
            },
{
    let protocol = classify_supported_protocol(cap);
    let (speed, psiv, raw_bps, psi) = read_supported_protocol_speed(protocol, psis);
    let ghost sp = (speed, psiv, raw_bps, psi);
    let start = cap.port_offset;
    let end = cap.port_offset.saturating_add(cap.port_count);
    let ghost before = port_info@;
    let mut port_id = start;
    while port_id < end
        invariant
            start == cap.port_offset,
            end == (if cap.port_offset + cap.port_count > 255 {
                255
            } else {
                cap.port_offset + cap.port_count
            }),
            start <= port_id <= end || (start >= end && port_id == start),
            protocol == classify_protocol_spec(cap),
            sp == (speed, psiv, raw_bps, psi),
            port_info@.len() == before.len(),
            before.len() <= 256,
            forall|i: int|
                0 <= i < before.len() ==> #[trigger] port_info@[i] == if covers(cap, i + 1) && i + 1
                    < port_id {
                    info_for(cap, protocol, (i + 1) as u8, sp)
                } else {
                    before[i]
                },
        decreases end - port_id,
    {
        if port_id != 0 {
            let index = (port_id - 1) as usize;
            if index < port_info.len() {
                port_info.set(
                    index,
                    XhciPortInfo {
                        port_id,
                        protocol,
                        major: cap.major,
                        minor: cap.minor,
                        slot_type: cap.slot_type,
                        protocol_defined: cap.protocol_defined,
                        speed,
                        psiv,
                        raw_bps,
                        psi,
                    },
                );
            }
        }
        assert forall|i: int| 0 <= i < before.len() implies #[trigger] port_info@[i] == if covers(
            cap,
            i + 1,
        ) && i + 1 < port_id + 1 {
            info_for(cap, protocol, (i + 1) as u8, sp)
        } else {
            before[i]
        } by {
            if i + 1 == port_id {
                assert(covers(cap, i + 1));
            }
        }
        port_id = port_id + 1;
    }
}

/// The protocol of a supported protocol capability.
pub open spec fn classify_protocol_spec(cap: XhciSupportedProtocol) -> XhciPortProtocol {
    if cap.name != 0x2042_5355 {
        XhciPortProtocol::Unknown
    } else if cap.major == 2 {
        XhciPortProtocol::Usb2
    } else if cap.major == 3 {
        XhciPortProtocol::Usb3
    } else if cap.major == 4 {
        XhciPortProtocol::Usb4
    } else {
        XhciPortProtocol::Unknown
    }
}

} // verus!
