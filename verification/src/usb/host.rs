//! Bringing up the older host controllers: the UHCI port sequence and the
//! EHCI legacy handoff and register reset.
use vstd::prelude::*;
use crate::pci::pci_bar::BarType;
use crate::pci::pci_device::PciDeviceInitError;

verus! {

pub const UHCI_USB_LEGACY_SUPPORT: u64 = 0xC0;
pub const UHCI_INTERRUPT_ENABLE_REG: u64 = 0x04;
pub const UHCI_FRNUM_REG: u64 = 0x06;
pub const UHCI_FRBASEADD: u64 = 0x08;
pub const UHCI_USB_CMD: u64 = 0x00;

/// A step of bringing up a UHCI controller through its I/O ports.
#[derive(Clone, Copy, Debug, PartialEq, Eq, Structural)]
pub enum UhciStep {
    OutB(u16, u8),
    OutW(u16, u16),
    OutL(u16, u32),
    SleepMs(u64),
}

/// The I/O port at `offset` from the BAR's base, cut to 16 bits.
pub fn io_port(base: u64, offset: u64) -> (r: u16)
    requires
        base + offset <= u64::MAX,
    ensures
        r == (base + offset) as u16,
{
    (base + offset) as u16
}

/// The steps that bring up a UHCI controller whose registers are at the
/// I/O base `io_base`, with `frame_list` as the frame list address: legacy
/// support and interrupts off, a global reset held for 10 ms, the frame
/// number cleared, the frame list set, and the controller run. Its BAR must
/// be an I/O BAR.
pub fn uhci_init_steps(bar_type: BarType, io_base: u64, frame_list: u32) -> (r: Result<Vec<UhciStep>, PciDeviceInitError>)
    requires
        io_base + 0xC0 <= u64::MAX,
    ensures
        bar_type != BarType::Io ==> r == Err::<Vec<UhciStep>, PciDeviceInitError>(PciDeviceInitError::InvalidBarType),
        bar_type == BarType::Io ==> (r matches Ok(v) && v@ == seq![
            UhciStep::OutW((io_base + 0xC0) as u16, 0x2000),
            UhciStep::OutW((io_base + 0x04) as u16, 0),
            UhciStep::OutB((io_base + 0x00) as u16, 0x06),
            UhciStep::SleepMs(10),
            UhciStep::OutB((io_base + 0x00) as u16, 0),
            UhciStep::OutW((io_base + 0x06) as u16, 0),
            UhciStep::OutL((io_base + 0x08) as u16, frame_list),
            UhciStep::OutB((io_base + 0x00) as u16, 0x81),
        ]),
{
    if bar_type != BarType::Io {
        return Err(PciDeviceInitError::InvalidBarType);
    }
    let mut v: Vec<UhciStep> = Vec::new();
    v.push(UhciStep::OutW(io_port(io_base, UHCI_USB_LEGACY_SUPPORT), 0x2000));
    v.push(UhciStep::OutW(io_port(io_base, UHCI_INTERRUPT_ENABLE_REG), 0x0000));
    v.push(UhciStep::OutB(io_port(io_base, UHCI_USB_CMD), 0b00000110));
    v.push(UhciStep::SleepMs(10));
    v.push(UhciStep::OutB(io_port(io_base, UHCI_USB_CMD), 0x00));
    v.push(UhciStep::OutW(io_port(io_base, UHCI_FRNUM_REG), 0x0000));
    v.push(UhciStep::OutL(io_port(io_base, UHCI_FRBASEADD), frame_list));
    v.push(UhciStep::OutB(io_port(io_base, UHCI_USB_CMD), 0b10000001));
    assert(v@ =~= seq![
        UhciStep::OutW((io_base + 0xC0) as u16, 0x2000),
        UhciStep::OutW((io_base + 0x04) as u16, 0),
        UhciStep::OutB((io_base + 0x00) as u16, 0x06),
        UhciStep::SleepMs(10),
        UhciStep::OutB((io_base + 0x00) as u16, 0),
        UhciStep::OutW((io_base + 0x06) as u16, 0),
        UhciStep::OutL((io_base + 0x08) as u16, frame_list),
        UhciStep::OutB((io_base + 0x00) as u16, 0x81),
    ]);
    Ok(v)
}

pub const EHCI_HCCPARAMS_REG: u64 = 0x08;
pub const EHCI_USBSTS_REG: u64 = 0x04;
pub const EHCI_USBINTR_REG: u64 = 0x08;
pub const EHCI_FRINDEX_REG: u64 = 0x0C;
pub const LEGSUP_HC_BIOS_OWNED: u32 = 0x1_0000;
pub const LEGSUP_HC_OS_OWNED: u32 = 0x100_0000;
/// How long the firmware is given to release the controller.
pub const EHCI_HANDOFF_TIMEOUT_MS: u64 = 50;

/// The EHCI controller's BAR must map memory.
pub fn ehci_check_bar(bar_type: BarType) -> (r: Result<(), PciDeviceInitError>)
    ensures
        r == if bar_type == BarType::Io {
            Err::<(), PciDeviceInitError>(PciDeviceInitError::InvalidBarType)
        } else {
            Ok(())
        },
{
    if bar_type == BarType::Io {
        Err(PciDeviceInitError::InvalidBarType)
    } else {
        Ok(())
    }
}

/// The configuration space offset of the extended capabilities (EECP,
/// HCCPARAMS bits 8..16); `None` where it is below 0x40, where no
/// capability can be.
pub fn ehci_eecp(hccparams: u32) -> (r: Option<u32>)
    ensures
        r == if (hccparams & 0xFF00) >> 8u32 >= 0x40 {
            Some((hccparams & 0xFF00) >> 8u32)
        } else {
            None
        },
{
    let eecp = (hccparams & 0xFF00) >> 8;
    if eecp >= 0x40 {
        Some(eecp)
    } else {
        None
    }
}

/// Whether the legacy support register shows the firmware owning the
/// controller.
pub fn ehci_bios_owned(legsup: u32) -> (r: bool)
    ensures
        r == (legsup & LEGSUP_HC_BIOS_OWNED != 0),
{
    legsup & LEGSUP_HC_BIOS_OWNED != 0
}

/// The legacy support register with the OS-owned semaphore set.
pub fn ehci_claim(legsup: u32) -> (r: u32)
    ensures
        r == legsup | LEGSUP_HC_OS_OWNED,
{
    legsup | LEGSUP_HC_OS_OWNED
}

/// Whether the handoff begun at `start_ms` is still waited for at
/// `now_ms`: within 50 ms.
pub fn ehci_handoff_waiting(start_ms: u64, now_ms: u64) -> (r: bool)
    requires
        now_ms >= start_ms,
    ensures
        r == (now_ms - start_ms <= EHCI_HANDOFF_TIMEOUT_MS),
{
    now_ms - start_ms <= EHCI_HANDOFF_TIMEOUT_MS
}

/// The register writes, as offsets from the operational base, that end the
/// EHCI bring-up: every status bit acknowledged, interrupts off, the frame
/// index cleared.
pub fn ehci_reset_writes() -> (r: Vec<(u64, u32)>)
    ensures
        r@ == seq![(EHCI_USBSTS_REG, 0x3Fu32), (EHCI_USBINTR_REG, 0u32), (EHCI_FRINDEX_REG, 0u32)],
{
    let mut v: Vec<(u64, u32)> = Vec::new();
    v.push((EHCI_USBSTS_REG, 0x3F));
    v.push((EHCI_USBINTR_REG, 0x00));
    v.push((EHCI_FRINDEX_REG, 0x00));
    assert(v@ =~= seq![(EHCI_USBSTS_REG, 0x3Fu32), (EHCI_USBINTR_REG, 0u32), (EHCI_FRINDEX_REG, 0u32)]);
    v
}

} // verus!
