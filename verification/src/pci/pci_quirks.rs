//! Chipset quirks: handing the ports that Intel chipsets share between their
//! EHCI and xHCI controllers over to xHCI.
use vstd::prelude::*;
use crate::pci::pci_device::PciDevice;
use crate::usb::PIF_EHCI_CONTROLLER;

verus! {

/// Routing of USB 2 ports to xHCI.
pub const USB_INTEL_XUSB2PR: u32 = 0xD0;
/// The USB 2 ports that can be routed to xHCI.
pub const USB_INTEL_USB2PRM: u32 = 0xD4;
/// SuperSpeed enable of the USB 3 ports.
pub const USB_INTEL_USB3_PSSEN: u32 = 0xD8;
/// The USB 3 ports whose SuperSpeed can be enabled.
pub const USB_INTEL_USB3PRM: u32 = 0xDC;
/// PCI vendor id of Sony.
pub const PCI_VENDOR_SONY: u16 = 0x104D;
/// Subsystem id of the Sony laptops whose ports cannot be switched.
pub const SONY_VAIO_T_SUBSYSTEM: u16 = 0x90A8;

/// Whether some device in `devices` is an EHCI controller.
pub open spec fn has_ehci_controller(devices: Seq<PciDevice>) -> bool {
    exists|i: int| 0 <= i < devices.len() && #[trigger] devices[i].spec_prog_info_byte() == PIF_EHCI_CONTROLLER
}

/// Whether the ports of an xHCI controller with the given subsystem ids are
/// to be switched from EHCI to xHCI: not on the Sony laptops that cannot
/// switch, and only where the system has an EHCI controller at all.
pub fn usb_intel_should_switch_ports(
    subsystem_vendor_id: u16,
    subsystem_device_id: u16,
    devices: &[PciDevice],
) -> (r: bool)
    ensures
        r == (!(subsystem_vendor_id == PCI_VENDOR_SONY && subsystem_device_id == SONY_VAIO_T_SUBSYSTEM)
            && has_ehci_controller(devices@)),
{
    if subsystem_vendor_id == PCI_VENDOR_SONY && subsystem_device_id == SONY_VAIO_T_SUBSYSTEM {
        return false;
    }
    let mut i: usize = 0;
    while i < devices.len()
        invariant
            i <= devices@.len(),
            !(subsystem_vendor_id == PCI_VENDOR_SONY && subsystem_device_id == SONY_VAIO_T_SUBSYSTEM),
            forall|k: int| 0 <= k < i ==> #[trigger] devices@[k].spec_prog_info_byte() != PIF_EHCI_CONTROLLER,
        decreases devices@.len() - i,
    {
        if devices[i].prog_info_byte() == PIF_EHCI_CONTROLLER {
            assert(devices@[i as int].spec_prog_info_byte() == PIF_EHCI_CONTROLLER);
            return true;
        }
        i = i + 1;
    }
    false
}

} // verus!
