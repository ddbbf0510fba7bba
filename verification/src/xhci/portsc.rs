//! The port status and control register (PORTSC) of a root hub port: its
//! status bits, its link state and indicator, and the change bits that are
//! cleared by writing one.
use vstd::prelude::*;

verus! {

pub const CCS: u32 = 0x1;
pub const PED: u32 = 0x2;
pub const TM: u32 = 0x4;
pub const OCA: u32 = 0x8;
pub const PR: u32 = 0x10;
pub const PP: u32 = 0x200;
pub const LWS: u32 = 0x10000;
pub const CSC: u32 = 0x20000;
pub const PEC: u32 = 0x40000;
pub const WRC: u32 = 0x80000;
pub const OCC: u32 = 0x100000;
pub const PRC: u32 = 0x200000;
pub const PLC: u32 = 0x400000;
pub const CEC: u32 = 0x800000;
pub const CAS: u32 = 0x1000000;
pub const WCE: u32 = 0x2000000;
pub const WDE: u32 = 0x4000000;
pub const WOE: u32 = 0x8000000;
pub const DR: u32 = 0x40000000;
pub const WPR: u32 = 0x80000000;
pub const PLS_MASK: u32 = 0x1E0;
pub const PLS_SHIFT: u32 = 5;
pub const PORT_SPEED_MASK: u32 = 0x3C00;
pub const PORT_SPEED_SHIFT: u32 = 10;
pub const PIC_MASK: u32 = 0xC000;
pub const PIC_SHIFT: u32 = 14;
/// The change bits, which writing one clears.
pub const CHANGE_MASK: u32 = 0xFE0000;
/// The bits that keep their value when written back.
pub const STABLE_WRITE_MASK: u32 = 0xE00C3E0;

/// The port link state, bits 5..=8.
#[derive(Clone, Copy, Debug, PartialEq, Eq, Structural)]
pub enum PortLinkState {
    U0,
    U1,
    U2,
    U3,
    Disabled,
    RxDetect,
    Inactive,
    Polling,
    Recovery,
    HotReset,
    ComplianceMode,
    TestMode,
    Reserved12,
    Reserved13,
    Reserved14,
    Resume,
}

/// The four bits that stand for a link state.
pub open spec fn link_state_bits(s: PortLinkState) -> u8 {
    match s {
        PortLinkState::U0 => 0u8,
        PortLinkState::U1 => 1u8,
        PortLinkState::U2 => 2u8,
        PortLinkState::U3 => 3u8,
        PortLinkState::Disabled => 4u8,
        PortLinkState::RxDetect => 5u8,
        PortLinkState::Inactive => 6u8,
        PortLinkState::Polling => 7u8,
        PortLinkState::Recovery => 8u8,
        PortLinkState::HotReset => 9u8,
        PortLinkState::ComplianceMode => 10u8,
        PortLinkState::TestMode => 11u8,
        PortLinkState::Reserved12 => 12u8,
        PortLinkState::Reserved13 => 13u8,
        PortLinkState::Reserved14 => 14u8,
        PortLinkState::Resume => 15u8,
    }
}

/// The link state that the low four bits of `bits` stand for.
pub open spec fn link_state_of(bits: u8) -> PortLinkState {
    let b = bits & 0xF;
    if b == 0 {
        PortLinkState::U0
    }     else if b == 1 {
        PortLinkState::U1
    }     else if b == 2 {
        PortLinkState::U2
    }     else if b == 3 {
        PortLinkState::U3
    }     else if b == 4 {
        PortLinkState::Disabled
    }     else if b == 5 {
        PortLinkState::RxDetect
    }     else if b == 6 {
        PortLinkState::Inactive
    }     else if b == 7 {
        PortLinkState::Polling
    }     else if b == 8 {
        PortLinkState::Recovery
    }     else if b == 9 {
        PortLinkState::HotReset
    }     else if b == 10 {
        PortLinkState::ComplianceMode
    }     else if b == 11 {
        PortLinkState::TestMode
    }     else if b == 12 {
        PortLinkState::Reserved12
    }     else if b == 13 {
        PortLinkState::Reserved13
    }     else if b == 14 {
        PortLinkState::Reserved14
    } else {
        PortLinkState::Resume
    }
}

impl PortLinkState {
    pub fn from_bits(bits: u8) -> (r: Self)
        ensures
            r == link_state_of(bits),
    {
        match bits & 0xF {
            0 => Self::U0,
            1 => Self::U1,
            2 => Self::U2,
            3 => Self::U3,
            4 => Self::Disabled,
            5 => Self::RxDetect,
            6 => Self::Inactive,
            7 => Self::Polling,
            8 => Self::Recovery,
            9 => Self::HotReset,
            10 => Self::ComplianceMode,
            11 => Self::TestMode,
            12 => Self::Reserved12,
            13 => Self::Reserved13,
            14 => Self::Reserved14,
            _ => Self::Resume,
        }
    }

    pub fn bits(self) -> (r: u8)
        ensures
            r == link_state_bits(self),
    {
        match self {
            Self::U0 => 0,
            Self::U1 => 1,
            Self::U2 => 2,
            Self::U3 => 3,
            Self::Disabled => 4,
            Self::RxDetect => 5,
            Self::Inactive => 6,
            Self::Polling => 7,
            Self::Recovery => 8,
            Self::HotReset => 9,
            Self::ComplianceMode => 10,
            Self::TestMode => 11,
            Self::Reserved12 => 12,
            Self::Reserved13 => 13,
            Self::Reserved14 => 14,
            Self::Resume => 15,
        }
    }
}

/// The port indicator control, bits 14..=15.
#[derive(Clone, Copy, Debug, PartialEq, Eq, Structural)]
pub enum PortIndicator {
    Off,
    Amber,
    Green,
    Undefined,
}

/// The two bits that stand for an indicator state.
pub open spec fn indicator_bits(s: PortIndicator) -> u8 {
    match s {
        PortIndicator::Off => 0u8,
        PortIndicator::Amber => 1u8,
        PortIndicator::Green => 2u8,
        PortIndicator::Undefined => 3u8,
    }
}

/// The indicator state that the low two bits of `bits` stand for.
pub open spec fn indicator_of(bits: u8) -> PortIndicator {
    let b = bits & 0x3;
    if b == 0 {
        PortIndicator::Off
    } else if b == 1 {
        PortIndicator::Amber
    } else if b == 2 {
        PortIndicator::Green
    } else {
        PortIndicator::Undefined
    }
}

impl PortIndicator {
    pub fn from_bits(bits: u8) -> (r: Self)
        ensures
            r == indicator_of(bits),
    {
        match bits & 0x3 {
            0 => Self::Off,
            1 => Self::Amber,
            2 => Self::Green,
            _ => Self::Undefined,
        }
    }

    pub fn bits(self) -> (r: u8)
        ensures
            r == indicator_bits(self),
    {
        match self {
            Self::Off => 0,
            Self::Amber => 1,
            Self::Green => 2,
            Self::Undefined => 3,
        }
    }
}

/// A set of change bits.
#[derive(Clone, Copy, Debug, PartialEq, Eq, Structural)]
pub struct PortChange(pub u32);

impl PortChange {
    pub fn csc() -> (r: Self)
        ensures
            r.0 == CSC,
    {
        Self(CSC)
    }

    pub fn pec() -> (r: Self)
        ensures
            r.0 == PEC,
    {
        Self(PEC)
    }

    pub fn wrc() -> (r: Self)
        ensures
            r.0 == WRC,
    {
        Self(WRC)
    }

    pub fn occ() -> (r: Self)
        ensures
            r.0 == OCC,
    {
        Self(OCC)
    }

    pub fn prc() -> (r: Self)
        ensures
            r.0 == PRC,
    {
        Self(PRC)
    }

    pub fn plc() -> (r: Self)
        ensures
            r.0 == PLC,
    {
        Self(PLC)
    }

    pub fn cec() -> (r: Self)
        ensures
            r.0 == CEC,
    {
        Self(CEC)
    }

    /// Every change bit.
    pub fn all() -> (r: Self)
        ensures
            r.0 == CHANGE_MASK,
    {
        Self(CHANGE_MASK)
    }

    pub fn bits(self) -> (r: u32)
        ensures
            r == self.0,
    {
        self.0
    }

    pub fn union(self, other: Self) -> (r: Self)
        ensures
            r.0 == self.0 | other.0,
    {
        Self(self.0 | other.0)
    }
}

/// The value of a port's PORTSC register.
#[derive(Clone, Copy, Debug, PartialEq, Eq, Structural)]
pub struct PortStatusControl(pub u32);

/// Offset, from the operational registers, of port `port`'s PORTSC (ports
/// count from 1; port 0 is taken as port 1).
pub fn port_register_offset(port: u8) -> (r: u64)
    requires
        (if port > 0 {
            port - 1
        } else {
            0
        }) < 16,
    ensures
        r == 0x400 + 0x10 * (if port > 0 {
            port - 1
        } else {
            0
        }),
{
    let port_index = port.saturating_sub(1);
    0x400 + (port_index * 0x10) as u64
}

impl PortStatusControl {
    pub fn from_raw(raw: u32) -> (r: Self)
        ensures
            r.0 == raw,
    {
        Self(raw)
    }

    pub fn raw(self) -> (r: u32)
        ensures
            r == self.0,
    {
        self.0
    }

    /// A value to write back from a read `raw`: only the bits that keep
    /// their value, so that no change bit is cleared and no action started
    /// by accident.
    pub fn write_from_raw(raw: u32) -> (r: Self)
        ensures
            r.0 == raw & STABLE_WRITE_MASK,
    {
        Self(raw & STABLE_WRITE_MASK)
    }

    pub fn ccs_read(self) -> (r: bool)
        ensures
            r == (self.0 & CCS != 0),
    {
        self.0 & CCS != 0
    }

    pub fn ped_read(self) -> (r: bool)
        ensures
            r == (self.0 & PED != 0),
    {
        self.0 & PED != 0
    }

    pub fn tm_read(self) -> (r: bool)
        ensures
            r == (self.0 & TM != 0),
    {
        self.0 & TM != 0
    }

    pub fn oca_read(self) -> (r: bool)
        ensures
            r == (self.0 & OCA != 0),
    {
        self.0 & OCA != 0
    }

    pub fn pr_read(self) -> (r: bool)
        ensures
            r == (self.0 & PR != 0),
    {
        self.0 & PR != 0
    }

    pub fn pp_read(self) -> (r: bool)
        ensures
            r == (self.0 & PP != 0),
    {
        self.0 & PP != 0
    }

    pub fn lws_read(self) -> (r: bool)
        ensures
            r == (self.0 & LWS != 0),
    {
        self.0 & LWS != 0
    }

    pub fn csc_read(self) -> (r: bool)
        ensures
            r == (self.0 & CSC != 0),
    {
        self.0 & CSC != 0
    }

    pub fn pec_read(self) -> (r: bool)
        ensures
            r == (self.0 & PEC != 0),
    {
        self.0 & PEC != 0
    }

    pub fn wrc_read(self) -> (r: bool)
        ensures
            r == (self.0 & WRC != 0),
    {
        self.0 & WRC != 0
    }

    pub fn occ_read(self) -> (r: bool)
        ensures
            r == (self.0 & OCC != 0),
    {
        self.0 & OCC != 0
    }

    pub fn prc_read(self) -> (r: bool)
        ensures
            r == (self.0 & PRC != 0),
    {
        self.0 & PRC != 0
    }

    pub fn plc_read(self) -> (r: bool)
        ensures
            r == (self.0 & PLC != 0),
    {
        self.0 & PLC != 0
    }

    pub fn cec_read(self) -> (r: bool)
        ensures
            r == (self.0 & CEC != 0),
    {
        self.0 & CEC != 0
    }

    pub fn cas_read(self) -> (r: bool)
        ensures
            r == (self.0 & CAS != 0),
    {
        self.0 & CAS != 0
    }

    pub fn wce_read(self) -> (r: bool)
        ensures
            r == (self.0 & WCE != 0),
    {
        self.0 & WCE != 0
    }

    pub fn wde_read(self) -> (r: bool)
        ensures
            r == (self.0 & WDE != 0),
    {
        self.0 & WDE != 0
    }

    pub fn woe_read(self) -> (r: bool)
        ensures
            r == (self.0 & WOE != 0),
    {
        self.0 & WOE != 0
    }

    pub fn dr_read(self) -> (r: bool)
        ensures
            r == (self.0 & DR != 0),
    {
        self.0 & DR != 0
    }

    pub fn wpr_read(self) -> (r: bool)
        ensures
            r == (self.0 & WPR != 0),
    {
        self.0 & WPR != 0
    }

    pub fn lws_write(&mut self)
        ensures
            final(self).0 == old(self).0 | LWS,
    {
        self.0 = self.0 | LWS;
    }

    pub fn csc_write(&mut self)
        ensures
            final(self).0 == old(self).0 | CSC,
    {
        self.0 = self.0 | CSC;
    }

    pub fn pec_write(&mut self)
        ensures
            final(self).0 == old(self).0 | PEC,
    {
        self.0 = self.0 | PEC;
    }

    pub fn wrc_write(&mut self)
        ensures
            final(self).0 == old(self).0 | WRC,
    {
        self.0 = self.0 | WRC;
    }

    pub fn occ_write(&mut self)
        ensures
            final(self).0 == old(self).0 | OCC,
    {
        self.0 = self.0 | OCC;
    }

    pub fn prc_write(&mut self)
        ensures
            final(self).0 == old(self).0 | PRC,
    {
        self.0 = self.0 | PRC;
    }

    pub fn plc_write(&mut self)
        ensures
            final(self).0 == old(self).0 | PLC,
    {
        self.0 = self.0 | PLC;
    }

    pub fn cec_write(&mut self)
        ensures
            final(self).0 == old(self).0 | CEC,
    {
        self.0 = self.0 | CEC;
    }

    pub fn wpr_write(&mut self)
        ensures
            final(self).0 == old(self).0 | WPR,
    {
        self.0 = self.0 | WPR;
    }

    pub fn wce_write(&mut self, enabled: bool)
        ensures
            final(self).0 == if enabled {
                (old(self).0 & !WCE) | WCE
            } else {
                old(self).0 & !WCE
            },
    {
        self.write_bit(WCE, enabled);
    }

    pub fn wde_write(&mut self, enabled: bool)
        ensures
            final(self).0 == if enabled {
                (old(self).0 & !WDE) | WDE
            } else {
                old(self).0 & !WDE
            },
    {
        self.write_bit(WDE, enabled);
    }

    pub fn woe_write(&mut self, enabled: bool)
        ensures
            final(self).0 == if enabled {
                (old(self).0 & !WOE) | WOE
            } else {
                old(self).0 & !WOE
            },
    {
        self.write_bit(WOE, enabled);
    }

    /// Enables the port by writing PED, without asking for a reset.
    pub fn ped_write(&mut self)
        ensures
            final(self).0 == (old(self).0 | PED) & !PR,
    {
        self.0 = self.0 | PED;
        self.0 = self.0 & !PR;
    }

    /// Asks for a port reset, without disabling the port.
    pub fn pr_write(&mut self)
        ensures
            final(self).0 == (old(self).0 | PR) & !PED,
    {
        self.0 = self.0 | PR;
        self.0 = self.0 & !PED;
    }

    pub fn pls_read(self) -> (r: PortLinkState)
        ensures
            r == link_state_of(((self.0 & PLS_MASK) >> PLS_SHIFT) as u8),
    {
        PortLinkState::from_bits(((self.0 & PLS_MASK) >> PLS_SHIFT) as u8)
    }

    /// Writes the link state, with the link state write strobe.
    pub fn pls_write(&mut self, state: PortLinkState)
        ensures
            final(self).0 == (old(self).0 & !PLS_MASK) | ((link_state_bits(state) as u32) << PLS_SHIFT)
                | LWS,
    {
        self.0 = (self.0 & !PLS_MASK) | ((state.bits() as u32) << PLS_SHIFT) | LWS;
    }

    /// Powers the port on or off.
    pub fn pp_write(&mut self, powered: bool)
        ensures
            final(self).0 == if powered {
                (old(self).0 & !PP) | PP
            } else {
                old(self).0 & !PP
            },
    {
        self.0 = self.0 & !PP;
        if powered {
            self.0 = self.0 | PP;
        }
    }

    /// The port speed ID, bits 10..=13.
    pub fn ps_read(self) -> (r: u8)
        ensures
            r == ((self.0 & PORT_SPEED_MASK) >> PORT_SPEED_SHIFT) as u8,
    {
        ((self.0 & PORT_SPEED_MASK) >> PORT_SPEED_SHIFT) as u8
    }

    pub fn pic_read(self) -> (r: PortIndicator)
        ensures
            r == indicator_of(((self.0 & PIC_MASK) >> PIC_SHIFT) as u8),
    {
        PortIndicator::from_bits(((self.0 & PIC_MASK) >> PIC_SHIFT) as u8)
    }

    pub fn pic_write(&mut self, indicator: PortIndicator)
        ensures
            final(self).0 == (old(self).0 & !PIC_MASK) | ((indicator_bits(indicator) as u32)
                << PIC_SHIFT),
    {
        self.0 = (self.0 & !PIC_MASK) | ((indicator.bits() as u32) << PIC_SHIFT);
    }

    /// Whether any of the change bits of `change` is set.
    pub fn change_read(self, change: PortChange) -> (r: bool)
        ensures
            r == (self.0 & change.0 != 0),
    {
        self.0 & change.bits() != 0
    }

    /// Sets the change bits of `change`, which clears them once written;
    /// bits of `change` that are not change bits are ignored.
    pub fn change_write(&mut self, change: PortChange)
        ensures
            final(self).0 == old(self).0 | (change.0 & CHANGE_MASK),
    {
        self.0 = self.0 | (change.bits() & CHANGE_MASK);
    }

    /// Sets every change bit.
    pub fn change_all_write(&mut self)
        ensures
            final(self).0 == old(self).0 | (CHANGE_MASK & CHANGE_MASK),
    {
        self.change_write(PortChange::all());
    }

    fn write_bit(&mut self, bit: u32, enabled: bool)
        ensures
            final(self).0 == if enabled {
                (old(self).0 & !bit) | bit
            } else {
                old(self).0 & !bit
            },
    {
        self.0 = self.0 & !bit;
        if enabled {
            self.0 = self.0 | bit;
        }
    }
}

/// A value made for writing back holds no change bit and no action bit,
/// so that writing it clears no change and starts no reset.
pub proof fn law_write_from_raw_is_safe(raw: u32)
    ensures
        (raw & STABLE_WRITE_MASK) & CHANGE_MASK == 0,
        (raw & STABLE_WRITE_MASK) & (PED | PR | LWS | WPR) == 0,
{
    assert((raw & 0xE00C3E0u32) & 0xFE0000u32 == 0 && (raw & 0xE00C3E0u32) & (0x2u32 | 0x10u32 | 0x10000u32
        | 0x80000000u32) == 0) by (bit_vector);
}

/// A link state written to the register reads back as itself, and an
/// indicator state too.
pub proof fn law_link_state_and_indicator_roundtrip(x: u32, s: PortLinkState, i: PortIndicator)
    ensures
        link_state_of(
            ((((x & !PLS_MASK) | ((link_state_bits(s) as u32) << PLS_SHIFT) | LWS) & PLS_MASK)
                >> PLS_SHIFT) as u8,
        ) == s,
        indicator_of(
            ((((x & !PIC_MASK) | ((indicator_bits(i) as u32) << PIC_SHIFT)) & PIC_MASK)
                >> PIC_SHIFT) as u8,
        ) == i,
{
    let b = link_state_bits(s) as u32;
    let c = indicator_bits(i) as u32;
    assert(b < 16 && c < 4 ==> (((((x & !0x1E0u32) | (b << 5u32) | 0x10000u32) & 0x1E0u32)
        >> 5u32) as u8) & 0xF == b && (((((x & !0xC000u32) | (c << 14u32)) & 0xC000u32) >> 14u32)
        as u8) & 0x3 == c) by (bit_vector);
}

} // verus!
