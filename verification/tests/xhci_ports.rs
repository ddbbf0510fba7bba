use kernel_drivers::xhci::controller::{
    command_ring_contains, command_ring_control, doorbell_offset, doorbell_value,
    ep0_default_max_packet, first_ext_cap_addr, max_packet_size_0, port_info, scratchpad_count,
    transfer_interrupter_target, usb3_port_needs_power, wait_timed_out,
    xhci_endpoint_address_to_dci, xhci_interrupt_mode, xhci_layout, InterruptMode, XHCIInterruptIndex,
};
use kernel_drivers::pci::pci_device::PciDeviceInitError;
use kernel_drivers::xhci::ext_cap::{XhciPortInfo, XhciPortProtocol};
use kernel_drivers::xhci::port_state::{may_send_set_configuration, PortAction, PortState, PortTable, ResumePhase};
use kernel_drivers::xhci::portsc::{PortLinkState, PortStatusControl};

const CCS: u32 = 0x1;
const PED: u32 = 0x2;
const CSC: u32 = 0x2_0000;
const PRC: u32 = 0x20_0000;
const U3: u32 = 3 << 5;

fn psc(bits: u32) -> PortStatusControl {
    PortStatusControl::from_raw(bits)
}

#[test]
fn attach_debounce_reset_and_slot() {
    let mut t = PortTable::new();
    // a device attaches
    let a = t.on_port_status_change(1, psc(CCS | CSC));
    assert_eq!(a, vec![PortAction::AckChanges, PortAction::ScheduleDebounce { generation: 0 }]);
    assert_eq!(t.state(1), PortState::Debounce { generation: 0 });
    // a stale debounce timer does nothing
    assert!(t.debounce_elapsed(1, 5, psc(CCS)).is_empty());
    // the debounce passes: the port is reset
    let a = t.debounce_elapsed(1, 0, psc(CCS));
    assert_eq!(a, vec![PortAction::ScheduleResetTimeout { attempt: 1 }, PortAction::IssueReset]);
    assert_eq!(t.state(1), PortState::ResetInProgress { attempts: 1 });
    // the reset completes with the link in U0: ask for a slot
    let a = t.on_port_status_change(1, psc(CCS | PED | PRC));
    assert_eq!(a, vec![PortAction::AckChanges, PortAction::SendEnableSlot]);
    assert_eq!(t.state(1), PortState::Enabled);
    // the slot comes
    let a = t.enable_slot_done(1, 4, 1);
    assert_eq!(a, vec![PortAction::AllocateDevice { slot_id: 4 }]);
    assert_eq!(t.slot(1), Some(4));
    assert!(t.allocation_still_wanted(1, 4));
    // a second slot is given back, the first stays
    assert_eq!(t.enable_slot_done(1, 7, 1), vec![PortAction::SendDisableSlot { slot_id: 7 }]);
    assert_eq!(t.slot(1), Some(4));
    // configuration
    t.begin_set_configuration(1);
    assert!(may_send_set_configuration(t.state(1)));
    t.control_transfer_done(1);
    assert_eq!(t.state(1), PortState::Configured);
    // other ports are untouched
    assert_eq!(t.state(2), PortState::Idle);
}

#[test]
fn detach_gives_the_slot_back() {
    let mut t = PortTable::new();
    t.on_port_status_change(3, psc(CCS | CSC));
    t.debounce_elapsed(3, 0, psc(CCS));
    t.on_port_status_change(3, psc(CCS | PED | PRC));
    t.enable_slot_done(3, 9, 1);
    let a = t.on_port_status_change(3, psc(CSC));
    assert_eq!(a, vec![PortAction::AckChanges, PortAction::SendDisableSlot { slot_id: 9 }]);
    assert_eq!(t.state(3), PortState::Idle);
    // the controller confirms: the slot is released
    assert!(t.disable_slot_done(3, 9, 1));
    assert_eq!(t.slot(3), None);
    // an unexpected completion code releases nothing
    assert!(!t.disable_slot_done(3, 9, 5));
}

#[test]
fn resets_are_retried_three_times() {
    let mut t = PortTable::new();
    t.on_port_status_change(1, psc(CCS | CSC));
    t.debounce_elapsed(1, 0, psc(CCS));
    assert_eq!(t.reset_timed_out(1, 1, psc(CCS)), vec![PortAction::ScheduleResetTimeout { attempt: 2 }, PortAction::IssueReset]);
    // a timer of an earlier attempt is ignored
    assert!(t.reset_timed_out(1, 1, psc(CCS)).is_empty());
    t.reset_timed_out(1, 2, psc(CCS));
    assert_eq!(t.state(1), PortState::ResetInProgress { attempts: 3 });
    assert!(t.reset_timed_out(1, 3, psc(CCS)).is_empty());
    assert_eq!(t.state(1), PortState::Idle);
    // a reset that ends without the port enabled is retried as well
    let mut u = PortTable::new();
    u.on_port_status_change(2, psc(CCS | CSC));
    u.debounce_elapsed(2, 0, psc(CCS));
    let a = u.on_port_status_change(2, psc(CCS | PRC));
    assert_eq!(a, vec![PortAction::AckChanges, PortAction::ScheduleResetTimeout { attempt: 2 }, PortAction::IssueReset]);
}

#[test]
fn a_sleeping_link_is_resumed_first() {
    let mut t = PortTable::new();
    t.on_port_status_change(5, psc(CCS | CSC));
    let a = t.debounce_elapsed(5, 0, psc(CCS | U3));
    assert_eq!(a, vec![PortAction::SetLinkState(PortLinkState::Resume), PortAction::ScheduleResumeToRExit]);
    let a = t.resume_elapsed(5, 1000);
    assert_eq!(a, vec![PortAction::SetLinkState(PortLinkState::U0), PortAction::ScheduleRExitPoll { start_ms: 1000 }]);
    assert_eq!(t.state(5), PortState::Resuming { phase: ResumePhase::RExit });
    // still leaving resume: poll again
    assert_eq!(t.rexit_poll(5, 1000, 1005, psc(CCS | (15 << 5))), vec![PortAction::ScheduleRExitPoll { start_ms: 1000 }]);
    // the link reached U0: reset
    assert_eq!(t.rexit_poll(5, 1000, 1006, psc(CCS)), vec![PortAction::ScheduleResetTimeout { attempt: 1 }, PortAction::IssueReset]);
    // a link that never leaves resume is given up after the timeout
    let mut u = PortTable::new();
    u.on_port_status_change(5, psc(CCS | CSC));
    u.debounce_elapsed(5, 0, psc(CCS | U3));
    u.resume_elapsed(5, 1000);
    assert!(u.rexit_poll(5, 1000, 1020, psc(CCS | (15 << 5))).is_empty());
    assert_eq!(u.state(5), PortState::Idle);
}

#[test]
fn startup_and_failures() {
    let mut t = PortTable::new();
    assert_eq!(t.init_port(1, true, true), vec![PortAction::AckChanges, PortAction::ScheduleDebounce { generation: 0 }]);
    assert!(t.init_port(2, true, false).is_empty());
    assert_eq!(t.state(2), PortState::Idle);
    t.enable_slot_send_failed(1);
    assert_eq!(t.state(1), PortState::Idle);
    // a failed Enable Slot on a port without a slot just idles it
    assert!(t.enable_slot_done(1, 0, 1).is_empty());
    assert!(t.disable_slot(1).is_empty());
}

#[test]
fn controller_layout_and_registers() {
    let l = xhci_layout(0xFFFF_8000_0000_0000, 0x20, 0x2010, 0x2000_0040, 0x0050_0004, 0x3000);
    assert_eq!(l.operational_base, 0xFFFF_8000_0000_0020);
    assert_eq!(l.runtime_base, 0xFFFF_8000_0000_2000);
    assert_eq!((l.max_slots, l.max_ports, l.context_size), (0x40, 0x20, 64));
    assert_eq!(l.first_ext_cap, Some(0xFFFF_8000_0000_0000 + 0x50 * 4));
    assert_eq!(first_ext_cap_addr(0x1000, 0x0000_0004), None);
    assert_eq!(first_ext_cap_addr(0x1000, 0x0010_0000), Some(0x1040));
    assert_eq!(scratchpad_count((1 << 21) | (3 << 27)), 32 + 3);
    assert_eq!(command_ring_control(0x1234_5678), 0x1234_5641);
    assert_eq!(doorbell_value(3, 2), 0x0002_0003);
    assert_eq!(doorbell_offset(0x3000, 5), 0x3014);
    assert!(command_ring_contains(0x10_0000, 0x10_0010));
    assert!(!command_ring_contains(0x10_0000, 0x10_0008));
    assert!(!command_ring_contains(0x10_0000, 0x10_1000));
    assert!(wait_timed_out(u64::MAX - 500, 600, 1000));
    assert!(!wait_timed_out(u64::MAX - 500, 400, 1000));
}

#[test]
fn endpoints_and_packet_sizes() {
    assert_eq!(xhci_endpoint_address_to_dci(0x00), 1);
    assert_eq!(xhci_endpoint_address_to_dci(0x81), 3);
    assert_eq!(xhci_endpoint_address_to_dci(0x02), 4);
    assert_eq!(ep0_default_max_packet(3), 64);
    assert_eq!(ep0_default_max_packet(4), 512);
    assert_eq!(ep0_default_max_packet(1), 8);
    assert_eq!(max_packet_size_0(4, 9), Some(512));
    assert_eq!(max_packet_size_0(4, 64), None);
    assert_eq!(max_packet_size_0(2, 64), Some(64));
    assert_eq!(max_packet_size_0(2, 12), None);
    assert_eq!(xhci_interrupt_mode(true, true).unwrap(), InterruptMode::Msix);
    assert_eq!(xhci_interrupt_mode(false, true).unwrap(), InterruptMode::Msi);
    assert!(matches!(xhci_interrupt_mode(false, false), Err(PciDeviceInitError::XhciMsiCapabilityNotFound)));
    assert_eq!(transfer_interrupter_target(2), 1);
    assert_eq!(transfer_interrupter_target(1), 0);
}

#[test]
fn root_hub_port_lookup() {
    let usb3 = XhciPortInfo { port_id: 2, protocol: XhciPortProtocol::Usb3, ..XhciPortInfo::unknown() };
    let infos = [XhciPortInfo::unknown(), usb3];
    assert_eq!(port_info(&infos, 4, 2), Some(usb3));
    assert_eq!(port_info(&infos, 4, 0), None);
    assert_eq!(port_info(&infos, 4, 3), None);
    assert_eq!(port_info(&infos, 1, 2), None);
    assert!(usb3_port_needs_power(usb3, false));
    assert!(!usb3_port_needs_power(usb3, true));
    assert!(!usb3_port_needs_power(XhciPortInfo::unknown(), false));
}

#[test]
fn xhci_interrupt_vectors() {
    assert_eq!(XHCIInterruptIndex::MsiXCommandPortData.value(), 0x40);
    assert_eq!(XHCIInterruptIndex::MsiXTransferEvents.value(), 0x41);
}
