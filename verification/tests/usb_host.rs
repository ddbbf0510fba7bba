use kernel_drivers::pci::pci_bar::BarType;
use kernel_drivers::pci::pci_device::PciDeviceInitError;
use kernel_drivers::usb::host::{
    ehci_bios_owned, ehci_check_bar, ehci_claim, ehci_eecp, ehci_handoff_waiting,
    ehci_reset_writes, io_port, uhci_init_steps, UhciStep,
};
use kernel_drivers::usb::usb_core::{UsbCore, UsbDeviceRecord};
use kernel_drivers::usb::usb_transfers::UsbSetupPacket;

#[test]
fn uhci_steps_for_io_bar() {
    let steps = uhci_init_steps(BarType::Io, 0xC000, 0x0012_3000).unwrap();
    assert_eq!(
        steps,
        vec![
            UhciStep::OutW(0xC0C0, 0x2000),
            UhciStep::OutW(0xC004, 0),
            UhciStep::OutB(0xC000, 0x06),
            UhciStep::SleepMs(10),
            UhciStep::OutB(0xC000, 0),
            UhciStep::OutW(0xC006, 0),
            UhciStep::OutL(0xC008, 0x0012_3000),
            UhciStep::OutB(0xC000, 0x81),
        ]
    );
}

#[test]
fn uhci_refuses_memory_bar() {
    assert_eq!(
        uhci_init_steps(BarType::Mmio32, 0xC000, 0),
        Err(PciDeviceInitError::InvalidBarType)
    );
}

#[test]
fn io_port_truncates() {
    assert_eq!(io_port(0x1_0010, 4), 0x0014);
}

#[test]
fn ehci_bar_must_be_memory() {
    assert_eq!(ehci_check_bar(BarType::Io), Err(PciDeviceInitError::InvalidBarType));
    assert_eq!(ehci_check_bar(BarType::Mmio64), Ok(()));
}

#[test]
fn ehci_extended_capabilities() {
    assert_eq!(ehci_eecp(0x0000_6800), Some(0x68));
    assert_eq!(ehci_eecp(0x0000_2000), None);
    assert_eq!(ehci_eecp(0xFFFF_00FF), None);
}

#[test]
fn ehci_legacy_handoff() {
    assert!(ehci_bios_owned(0x0001_0001));
    assert!(!ehci_bios_owned(0x0100_0001));
    assert_eq!(ehci_claim(0x0001_0001), 0x0101_0001);
    assert!(ehci_handoff_waiting(100, 150));
    assert!(!ehci_handoff_waiting(100, 151));
}

#[test]
fn ehci_reset_sequence() {
    assert_eq!(ehci_reset_writes(), vec![(0x04, 0x3F), (0x08, 0), (0x0C, 0)]);
}

#[test]
fn usb_core_hands_out_rising_ids() {
    let mut core = UsbCore::new();
    let (a, setup) = core.add_device(3);
    let (b, _) = core.add_device(7);
    assert_eq!(a, UsbDeviceRecord { system_id: 1, hardware_id: 3 });
    assert_eq!(b, UsbDeviceRecord { system_id: 2, hardware_id: 7 });
    assert_eq!(core.devices.len(), 2);
    assert_eq!(core.next_system_id, 3);
    assert_eq!(setup, UsbSetupPacket::new(0x80, 0x06, 0x0100, 0, 18));
    assert_eq!(core.new_system_id(), 3);
    assert_eq!(core.next_system_id, 4);
}
