use kernel_drivers::acpi::tables::mcfg::McfgAllocation;
use kernel_drivers::pci::pci::{function_count, is_usb_controller, mmio_base_aligned, mmio_window_size, pci_check_device};
use kernel_drivers::pci::pci_bar::{BarInfo, BarType, PciBAR};
use kernel_drivers::pci::pci_device::{command_with_mmio_and_bus_master, PciDevice, PciDeviceInitError};
use kernel_drivers::pci::pci_io::{
    get_mmio_addr, legacy_data_port16, legacy_data_port8, legacy_reaches, pci_addr, pci_id_bus,
    pci_id_device, pci_id_function, PciMmioInfo,
};
use kernel_drivers::pci::pci_msi::{
    msi_message_address, msi_vector_count, msix_table_entries, MsiCapability, MsixCapability,
    MsixPBA, MsixTableEntry,
};
use kernel_drivers::pci::pci_quirks::usb_intel_should_switch_ports;

fn window_alloc(base: u64, start: u8, end: u8) -> McfgAllocation {
    McfgAllocation { base_address: base, pci_segment_group: 0, start_bus_number: start, end_bus_number: end, __reserved: 0 }
}

#[test]
fn configuration_addresses() {
    let id = PciDevice::get_pci_id(3, 17, 5);
    assert_eq!(id, (3 << 16) | (17 << 11) | (5 << 8));
    assert_eq!((pci_id_bus(id), pci_id_device(id), pci_id_function(id)), (3, 17, 5));
    assert_eq!(pci_addr(id, 0x47), 0x8000_0000 | id | 0x44);
    assert!(legacy_reaches(0xFF));
    assert!(!legacy_reaches(0x100));
    assert_eq!(legacy_data_port8(0x0E), 0xCFE);
    assert_eq!(legacy_data_port16(0x0E), 0xCFE);
    assert_eq!(legacy_data_port16(0x0D), 0xCFC);
}

#[test]
fn enhanced_configuration_window() {
    let windows = [
        PciMmioInfo { mcfg_alloc: window_alloc(0xE000_0000, 0, 7), virt_addr: 0xFFFF_8000_E000_0000 },
        PciMmioInfo { mcfg_alloc: window_alloc(0xF000_0000, 8, 15), virt_addr: 0xFFFF_8000_F000_0000 },
    ];
    let id = PciDevice::get_pci_id(9, 2, 1);
    // bus 9 lies one bus into the second window
    assert_eq!(get_mmio_addr(&windows, id, 0x10), Some(0xFFFF_8000_F000_0000 + 0x10_0000 + 2 * 0x8000 + 0x1000 + 0x10));
    assert_eq!(get_mmio_addr(&windows, PciDevice::get_pci_id(20, 0, 0), 0), None);
    assert_eq!(mmio_window_size(&window_alloc(0, 0, 255)), 256 * 0x10_0000);
    assert!(mmio_base_aligned(&window_alloc(0xE000_0000, 0, 0)));
    assert!(!mmio_base_aligned(&window_alloc(0xE000_0010, 0, 0)));
}

#[test]
fn device_discovery() {
    assert!(pci_check_device(0, 0xFFFF, 0, 0, 0, 0, 0).is_none());
    let d = pci_check_device(0x800, 0x8086, 0x1E31, 0x0C, 0x03, 0x30, 0x80).unwrap();
    assert_eq!((d.vendor_id(), d.device_id(), d.base_id()), (0x8086, 0x1E31, 0x800));
    assert!(is_usb_controller(&d));
    assert_eq!(function_count(d.header_type()), 8);
    assert_eq!(function_count(0x00), 1);
    assert_eq!(command_with_mmio_and_bus_master(0x0001), 0x0007);
}

#[test]
fn bar_decoding() {
    let mmio32 = PciBAR::get(BarInfo { address: 0xFEB0_0000, mask: 0xFFFF_0000 }, None);
    assert!(*mmio32.bar_type() == BarType::Mmio32);
    assert_eq!((mmio32.base_address(), mmio32.size()), (0xFEB0_0000, 0x1_0000));
    assert!(!mmio32.prefetchable());
    let mmio64 = PciBAR::get(
        BarInfo { address: 0xC000_000C, mask: 0xF000_000C },
        Some(BarInfo { address: 0x1, mask: 0xFFFF_FFFF }),
    );
    assert!(*mmio64.bar_type() == BarType::Mmio64);
    assert_eq!((mmio64.base_address(), mmio64.size()), (0x1_C000_0000, 0x1000_0000));
    assert!(mmio64.prefetchable());
    let io = PciBAR::get(BarInfo { address: 0xC001, mask: 0xFFFF_FFE1 }, None);
    assert!(*io.bar_type() == BarType::Io);
    assert_eq!((io.base_address(), io.size()), (0xC000, 0x20));
    assert_eq!(BarInfo::offset(2), 0x18);
}

fn msix_cap(message_control: u16) -> MsixCapability {
    MsixCapability { cap_id: 0x11, next: 0, message_control, table: 0x2003, pba: 0x3003 }
}

#[test]
fn msix_capability_fields() {
    let mut cap = msix_cap(0x0007);
    assert_eq!(cap.table_size(), 8);
    assert_eq!((cap.table_bir(), cap.table_offset()), (3, 0x2000));
    assert_eq!((cap.pba_bir(), cap.pba_offset()), (3, 0x3000));
    assert!(cap.check_vectors(8).is_ok());
    assert!(matches!(cap.check_vectors(9), Err(PciDeviceInitError::InsufficientMsixVectors)));
    cap.mask_all();
    assert_eq!(cap.message_control, 0x4007);
    cap.unmask_all();
    cap.enable();
    assert_eq!(cap.message_control, 0x8007);
    assert!(cap.enabled());
    let bytes = [0x11, 0x70, 0x07, 0x80, 0x03, 0x20, 0, 0, 0x03, 0x30, 0, 0];
    let read = MsixCapability::read_from(&bytes, 0);
    assert_eq!((read.next, read.message_control, read.table), (0x70, 0x8007, 0x2003));
}

#[test]
fn msix_table_and_pending_bits() {
    let addr = msi_message_address(Some(3));
    assert_eq!(addr, 0xFEE0_3000);
    assert_eq!(msi_message_address(None), 0xFEE0_0000);
    let entries = msix_table_entries(addr, &[0x30, 0x31]);
    assert_eq!(entries.len(), 2);
    assert_eq!((entries[1].msg_addr_low, entries[1].msg_addr_high, entries[1].msg_data), (0xFEE0_3000, 0, 0x31));
    let mut e: MsixTableEntry = entries[0];
    assert!(!e.is_masked());
    e.set_masked(true);
    assert!(e.is_masked());
    e.set_masked(false);
    assert!(!e.is_masked());
    let pba = MsixPBA::new(0x3000, 2);
    assert_eq!(pba.word_index(70), 1);
    assert!(pba.is_pending(0b100, 2));
    assert!(!pba.is_pending(0b100, 1));
}

#[test]
fn configure_msix_outcomes() {
    let dev = PciDevice::new_empty(0);
    let ok = dev.configure_msix(msix_cap(0x0003), 2, Some(vec![0x40, 0x41]), true, true, 0xFEE0_0000);
    assert_eq!(ok.masked_control, 0x4003);
    assert_eq!(ok.table_entries.len(), 2);
    let conf = ok.result.unwrap();
    assert_eq!(conf.capability.message_control, 0x8003);
    assert_eq!(conf.vectors, vec![0x40, 0x41]);
    assert_eq!((conf.pba.offset, conf.pba.vectors), (0x3000, 2));

    let too_many = dev.configure_msix(msix_cap(0x0000), 2, None, true, true, 0);
    assert!(matches!(too_many.result, Err(PciDeviceInitError::InsufficientMsixVectors)));
    assert!(too_many.table_entries.is_empty());
    let no_vectors = dev.configure_msix(msix_cap(0x0003), 2, None, true, true, 0);
    assert!(matches!(no_vectors.result, Err(PciDeviceInitError::InsufficientMsixVectors)));
    let bad_table = dev.configure_msix(msix_cap(0x0003), 1, Some(vec![1]), false, true, 0);
    assert!(matches!(bad_table.result, Err(PciDeviceInitError::InvalidBarType)));
    assert!(bad_table.table_entries.is_empty());
    let bad_pba = dev.configure_msix(msix_cap(0x0003), 1, Some(vec![1]), true, false, 0);
    assert!(matches!(bad_pba.result, Err(PciDeviceInitError::MsixPbaBarInvalid)));
    assert_eq!(bad_pba.table_entries.len(), 1);
}

#[test]
fn msi_vectors_and_setup() {
    let cap = MsiCapability {
        cap_id: 0x05,
        next: 0,
        message_control: 0x0086 | 0x0070,
        message_address_low: 0,
        message_address_high: 0,
        message_data: 0,
    };
    assert_eq!(cap.capable_vectors(), 8);
    assert!(cap.is_64_bit_capable());
    assert_eq!(cap.message_data_offset(), 0x0C);
    assert_eq!(msi_vector_count(&cap, 2), 2);
    assert_eq!(msi_vector_count(&cap, 20), 8);
    // reserved encodings are capped at 32 vectors
    let big = MsiCapability { message_control: 0x000E, ..cap };
    assert_eq!(big.capable_vectors(), 32);
    let dev = PciDevice::new_empty(0);
    let setup = dev.configure_msi(cap, 2, Some(vec![0x50, 0x51]), 0x1_FEE0_1000).result.unwrap();
    assert_eq!(setup.capability.message_address_low, 0xFEE0_1000);
    assert_eq!(setup.capability.message_address_high, 1);
    assert_eq!(setup.capability.message_data, 0x50);
    assert_eq!(setup.capability.message_control, 0x0087);
    assert!(matches!(dev.configure_msi(cap, 2, None, 0).result, Err(PciDeviceInitError::InsufficientMsiVectors)));
}

#[test]
fn intel_port_switch_quirk() {
    let xhci = PciDevice::new(0x8086, 0x1E31, 0x0C, 0x03, 0x30, 0, 0x100);
    let ehci = PciDevice::new(0x8086, 0x1E2D, 0x0C, 0x03, 0x20, 0, 0x200);
    assert!(usb_intel_should_switch_ports(0x1028, 0x0001, &[xhci, ehci]));
    assert!(!usb_intel_should_switch_ports(0x104D, 0x90A8, &[xhci, ehci]));
    assert!(!usb_intel_should_switch_ports(0x1028, 0x0001, &[xhci]));
}
