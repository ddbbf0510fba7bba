//! Enumerating the PCI buses: which functions to probe, which devices to
//! keep, and the memory windows of the enhanced configuration mechanism.
use vstd::prelude::*;
use crate::acpi::tables::mcfg::McfgAllocation;
use crate::pci::pci_device::PciDevice;

verus! {

pub const CFG_HEADER_TYPE: u32 = 0x0E;
pub const CFG_VENDOR_ID: u32 = 0x00;
pub const CFG_DEVICE_ID: u32 = 0x02;
pub const CFG_CLASS_CODE: u32 = 0x0B;
pub const CFG_SUBCLASS: u32 = 0x0A;
pub const CFG_PROG_IF: u32 = 0x09;
/// The vendor ID that an empty slot reads back.
pub const INVALID_VENDOR_ID: u16 = 0xFFFF;
pub const CLASS_CODE_SERIAL_BUS_CONTROLLER: u8 = 0x0C;
pub const SUBCLASS_USB_CONTROLLER: u8 = 0x03;
/// Each bus of an enhanced configuration window takes one megabyte.
pub const PCI_MMIO_BYTES_PER_BUS: u64 = 0x10_0000;

/// Number of functions to probe on a device: all eight where the header
/// type's multi-function bit (7) is set, else only the first.
pub fn function_count(header_type: u8) -> (r: u32)
    ensures
        r == if header_type & 0x80 != 0 {
            8u32
        } else {
            1u32
        },
{
    if (header_type & 0x80) != 0 {
        8
    } else {
        1
    }
}

/// The device at `base_dev_id`, from the configuration registers read
/// there; `None` where the vendor ID shows an empty slot.
pub fn pci_check_device(
    base_dev_id: u32,
    vendor_id: u16,
    device_id: u16,
    class_code: u8,
    sub_class: u8,
    prog_info_byte: u8,
    header_type: u8,
) -> (r: Option<PciDevice>)
    ensures
        r is None <==> vendor_id == 0xFFFF,
        r matches Some(d) ==> {
            &&& d.spec_vendor_id() == vendor_id
            &&& d.spec_device_id() == device_id
            &&& d.spec_class_code() == class_code
            &&& d.spec_sub_class() == sub_class
            &&& d.spec_prog_info_byte() == prog_info_byte
            &&& d.spec_header_type() == header_type
            &&& d.spec_base_id() == base_dev_id
        },
{
    if vendor_id == INVALID_VENDOR_ID {
        return None;
    }
    Some(
        PciDevice::new(
            vendor_id,
            device_id,
            class_code,
            sub_class,
            prog_info_byte,
            header_type,
            base_dev_id,
        ),
    )
}

/// Whether a device is a USB host controller, which the USB stack takes.
pub fn is_usb_controller(device: &PciDevice) -> (r: bool)
    ensures
        r == (device.spec_class_code() == 0x0C && device.spec_sub_class() == 0x03),
{
    device.class_code() == CLASS_CODE_SERIAL_BUS_CONTROLLER && device.sub_class()
        == SUBCLASS_USB_CONTROLLER
}

/// Number of bytes that the window of `alloc` maps: one megabyte per bus.
pub fn mmio_window_size(alloc: &McfgAllocation) -> (r: u64)
    requires
        alloc.start_bus_number <= alloc.end_bus_number,
    ensures
        r == (alloc.end_bus_number - alloc.start_bus_number + 1) * 0x10_0000,
{
    let amount_of_buses = (alloc.end_bus_number - alloc.start_bus_number) as u64 + 1;
    amount_of_buses * PCI_MMIO_BYTES_PER_BUS
}

/// Whether the window's base address is aligned to a 4 KiB page, as it
/// must be to be mapped.
pub fn mmio_base_aligned(alloc: &McfgAllocation) -> (r: bool)
    ensures
        r == (alloc.base_address & 0xFFF == 0),
{
    alloc.base_address & 0xFFF == 0
}

} // verus!
