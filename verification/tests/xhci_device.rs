use kernel_drivers::usb::usb_transfers::{
    UsbSetupPacket, UsbTransferDirection, UsbTransferRequest, UsbTransferStatus, UsbTransferType,
};
use kernel_drivers::xhci::device::{
    route_command_completion, route_event, CommandRoute, EventRoute,
    enqueue_control_request, enqueue_normal_transfer, max_packet_size_probe_outcome,
    route_transfer_event, transfer_status_of, ControlCompletion, ProbeOutcome, SubmitError,
    SubmitOutcome, TransferEventRoute, XhciDevice,
};
use kernel_drivers::xhci::controller::{capability_list_ends, find_pci_capability};
use kernel_drivers::xhci::trb::Trb;
use kernel_drivers::xhci::trb_ring::{Ring, RingError, TransferRing};

const RING_PHYS: u64 = 0x20_0000;

fn ring(n: usize) -> TransferRing {
    TransferRing::new(vec![Trb::new(); n], RING_PHYS)
}

fn device() -> XhciDevice {
    XhciDevice::new(ring(16), 3, 5)
}

#[test]
fn control_request_with_in_data_stage() {
    let mut r = ring(16);
    let status = enqueue_control_request(&mut r, 1, 0x80, 0x06, 18, 0x0100, 0, 0x5000);
    assert_eq!(status, RING_PHYS + 2 * 16);
    let t = r.ring();
    let setup = t.trb(0);
    assert_eq!(setup.trb_type(), 2);
    // bmRequestType, bRequest, wValue, wIndex, wLength packed into the parameter
    assert_eq!(setup.parameter, 0x0012_0000_0100_0680);
    assert_eq!(setup.status & 0x1FFFF, 8);
    assert_eq!((setup.control >> 16) & 3, 3); // IN data stage
    let data = t.trb(1);
    assert_eq!(data.trb_type(), 3);
    assert_eq!(data.parameter, 0x5000);
    assert_eq!(data.status & 0x1FFFF, 18);
    assert_eq!(data.direction(), 1);
    let st = t.trb(2);
    assert_eq!(st.trb_type(), 4);
    assert_eq!(st.direction(), 0);
    assert!(st.ioc());
    assert_eq!(st.status >> 22, 1);
    assert_eq!(t.enqueue_index(), 3);
}

#[test]
fn control_request_without_data_stage() {
    let mut r = ring(16);
    let status = enqueue_control_request(&mut r, 0, 0x00, 0x09, 0, 1, 0, 0);
    assert_eq!(status, RING_PHYS + 16);
    let t = r.ring();
    assert_eq!((t.trb(0).control >> 16) & 3, 0);
    assert_eq!(t.trb(1).trb_type(), 4);
    assert_eq!(t.trb(1).direction(), 1);
    assert_eq!(t.enqueue_index(), 2);
}

#[test]
fn normal_transfer_trb() {
    let mut r = ring(8);
    let phys = enqueue_normal_transfer(&mut r, 1, 0x9000, 8);
    assert_eq!(phys, RING_PHYS);
    let trb = r.ring().trb(0);
    assert_eq!(trb.trb_type(), 1);
    assert_eq!(trb.parameter, 0x9000);
    assert_eq!(trb.status & 0x1FFFF, 8);
    assert_eq!(trb.control & 0x34, 0x24); // IOC and ISP set, chain clear
}

#[test]
fn completion_codes() {
    assert_eq!(transfer_status_of(1), UsbTransferStatus::Completed);
    assert_eq!(transfer_status_of(13), UsbTransferStatus::Completed);
    assert_eq!(transfer_status_of(6), UsbTransferStatus::Stalled);
    assert_eq!(transfer_status_of(4), UsbTransferStatus::Error);
}

#[test]
fn transfer_event_routes() {
    assert_eq!(route_transfer_event(0x1000, 4), TransferEventRoute::Control);
    assert_eq!(route_transfer_event(0x1000, 1), TransferEventRoute::Data);
    assert_eq!(route_transfer_event(0x1000, 3), TransferEventRoute::Unhandled(3));
    assert_eq!(route_transfer_event(0, 4), TransferEventRoute::Unhandled(0));
}

#[test]
fn packet_size_probe() {
    assert_eq!(
        max_packet_size_probe_outcome(UsbTransferStatus::Stalled, Some(64), 3, 8),
        ProbeOutcome::DisableSlot
    );
    assert_eq!(
        max_packet_size_probe_outcome(UsbTransferStatus::Completed, Some(64), 3, 8),
        ProbeOutcome::EvaluateContext(64)
    );
    assert_eq!(
        max_packet_size_probe_outcome(UsbTransferStatus::Completed, Some(9), 4, 512),
        ProbeOutcome::Register
    );
    assert_eq!(
        max_packet_size_probe_outcome(UsbTransferStatus::Completed, Some(7), 3, 8),
        ProbeOutcome::Register
    );
    assert_eq!(
        max_packet_size_probe_outcome(UsbTransferStatus::Completed, None, 3, 8),
        ProbeOutcome::Register
    );
}

#[test]
fn pending_requests_by_trb() {
    let mut d = device();
    assert_eq!(d.port(), 3);
    assert_eq!(d.slot_id(), 5);
    d.insert_pending(0x300, 7);
    d.insert_pending(0x100, 8);
    d.insert_pending(0x200, 9);
    d.insert_pending(0x300, 10);
    assert_eq!(d.take_pending(0x400), None);
    assert_eq!(d.take_pending(0x300), Some(10));
    assert_eq!(d.take_pending(0x300), None);
    assert_eq!(d.pop_pending(), Some(8));
    assert_eq!(d.drain_pending(), vec![9]);
    assert_eq!(d.pop_pending(), None);
}

#[test]
fn drain_gives_lowest_trb_first() {
    let mut d = device();
    d.insert_pending(0x50, 1);
    d.insert_pending(0x10, 2);
    d.insert_pending(0x30, 3);
    assert_eq!(d.drain_pending(), vec![2, 3, 1]);
}

#[test]
fn control_completion_lookup() {
    let mut d = device();
    d.set_descriptor_probe(0x40);
    d.insert_pending(0x80, 11);
    assert_eq!(d.control_transfer_completed(0x80), ControlCompletion::Request(11));
    assert_eq!(d.control_transfer_completed(0x80), ControlCompletion::Unmatched);
    assert_eq!(d.control_transfer_completed(0x40), ControlCompletion::DescriptorProbe);
    assert!(!d.take_descriptor_probe(0x40));
}

#[test]
fn ep0_needs_buffer_for_data() {
    let mut d = device();
    assert_eq!(d.ep0_issue_request(0, 0x80, 6, 18, 0x100, 0, None), Err(RingError::Unsupported));
    assert_eq!(d.ep0_issue_request(0, 0x80, 6, 18, 0x100, 0, Some(0x7000)), Ok(RING_PHYS + 32));
    assert_eq!(d.issue_normal_transfer(0, 3, Some(0x7000), 8), Err(RingError::Unsupported));
    assert_eq!(d.issue_normal_transfer(0, 40, Some(0x7000), 8), Err(RingError::Unsupported));
    d.set_transfer_ring(3, ring(8));
    assert_eq!(d.issue_normal_transfer(0, 3, None, 8), Ok(RING_PHYS));
}

#[test]
fn submitting_requests() {
    let mut d = device();
    let get_desc = UsbTransferRequest {
        target_hardware_id: 5,
        endpoint_address: 0,
        transfer_direction: UsbTransferDirection::DeviceToHost,
        transfer_type: UsbTransferType::Control,
        setup_packet: Some(UsbSetupPacket::new(0x80, 6, 0x100, 0, 18)),
        dma_buffer: Some(0x6000),
        data_buffer_length: 18,
        status: UsbTransferStatus::Pending,
        bytes_transferred: 0,
    };
    assert_eq!(
        d.submit_request(1, &get_desc, 77),
        Ok(SubmitOutcome::Queued { dci: 1, trb: RING_PHYS + 32 })
    );
    assert_eq!(d.take_pending(RING_PHYS + 32), Some(77));

    let set_config = UsbTransferRequest::new_control(5, UsbSetupPacket::new(0, 9, 1, 0, 0));
    assert_eq!(d.submit_request(1, &set_config, 78), Ok(SubmitOutcome::PendingSetConfiguration));

    let mut no_setup = set_config;
    no_setup.setup_packet = None;
    assert_eq!(d.submit_request(1, &no_setup, 79), Err(SubmitError::MissingSetupPacket));
    assert_eq!(
        SubmitError::MissingSetupPacket.message(),
        "Cannot issue request - ep0 specified and no setup packet provided."
    );

    let interrupt_in = UsbTransferRequest::new_interrupt_in(5, 0x81, 0x8000, 8);
    assert_eq!(d.submit_request(1, &interrupt_in, 80), Err(SubmitError::EnqueueFailed));
    d.set_transfer_ring(3, ring(8));
    assert_eq!(
        d.submit_request(1, &interrupt_in, 80),
        Ok(SubmitOutcome::Queued { dci: 3, trb: RING_PHYS })
    );
    assert_eq!(d.pop_pending(), Some(80));
}

#[test]
fn request_completion_and_rearm() {
    let mut req = UsbTransferRequest::new_interrupt_in(2, 0x81, 0x8000, 8);
    assert_eq!(req.transfer_direction, UsbTransferDirection::HostToDevice);
    assert_eq!(req.transfer_type, UsbTransferType::Interrupt);
    req.complete(UsbTransferStatus::Completed, 3);
    assert_eq!(req.status, UsbTransferStatus::Completed);
    assert_eq!(req.bytes_transferred, 5);
    req.complete(UsbTransferStatus::Error, 12);
    assert_eq!(req.bytes_transferred, 0);
    req.rearm();
    assert_eq!(req.status, UsbTransferStatus::Pending);
    assert_eq!(req.bytes_transferred, 0);
}

fn config_space() -> Vec<u8> {
    let mut cfg = vec![0u8; 256];
    cfg[6] = 0x10; // capability list present
    cfg[0x34] = 0x50;
    cfg[0x50] = 0x05; // MSI
    cfg[0x51] = 0x70;
    cfg[0x70] = 0x11; // MSI-X
    cfg[0x71] = 0x00;
    cfg
}

#[test]
fn pci_capability_walk() {
    let cfg = config_space();
    assert!(capability_list_ends(&cfg, 0x11));
    assert_eq!(find_pci_capability(&cfg, 0x11), Some(0x70));
    assert_eq!(find_pci_capability(&cfg, 0x05), Some(0x50));
    assert_eq!(find_pci_capability(&cfg, 0x09), None);
    let mut no_list = cfg.clone();
    no_list[6] = 0;
    assert_eq!(find_pci_capability(&no_list, 0x11), None);
    let mut circle = cfg.clone();
    circle[0x71] = 0x50;
    assert!(!capability_list_ends(&circle, 0x09));
    assert!(capability_list_ends(&circle, 0x11));
}

#[test]
fn event_and_command_routes() {
    assert_eq!(route_event(34), EventRoute::PortStatusChange);
    assert_eq!(route_event(33), EventRoute::CommandCompletion);
    assert_eq!(route_event(32), EventRoute::Transfer);
    assert_eq!(route_event(37), EventRoute::Other(37));
    assert_eq!(route_command_completion(9), CommandRoute::EnableSlot);
    assert_eq!(route_command_completion(10), CommandRoute::DisableSlot);
    assert_eq!(route_command_completion(11), CommandRoute::AddressDevice);
    assert_eq!(route_command_completion(12), CommandRoute::ConfigureEndpoint);
    assert_eq!(route_command_completion(13), CommandRoute::EvaluateContext);
    assert_eq!(route_command_completion(15), CommandRoute::Unhandled(15));
    assert_eq!(route_command_completion(4), CommandRoute::NotACommand(4));
}

#[test]
fn set_configuration_after_endpoints_are_configured() {
    let setup = UsbSetupPacket::new(0x00, 0x09, 1, 0, 0);
    let mut d = device();
    d.insert_pending(0xC0, 42);
    assert_eq!(d.on_endpoint_configured(1, 5, 0xC0, true, setup), None);
    assert_eq!(d.on_endpoint_configured(1, 1, 0xC0, true, setup), Some(RING_PHYS + 16));
    assert_eq!(d.take_pending(0xC0), None);
    assert_eq!(d.take_pending(RING_PHYS + 16), Some(42));

    let mut e = device();
    e.insert_pending(0xC0, 43);
    assert_eq!(e.on_endpoint_configured(1, 1, 0xC0, false, setup), None);
    assert_eq!(e.pop_pending(), None);
}
