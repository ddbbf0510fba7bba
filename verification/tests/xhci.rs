use kernel_drivers::xhci::context::Dcbaa;
use kernel_drivers::xhci::endpoint_context::EndpointContext;
use kernel_drivers::xhci::ext_cap::{ext_cap_id, ext_cap_next, read_supported_protocol_cap, XhciProtocolSpeedId};
use kernel_drivers::xhci::input_context::InputControlContext;
use kernel_drivers::xhci::portsc::{port_register_offset, PortChange, PortStatusControl};
use kernel_drivers::xhci::slot_context::SlotContext;
use kernel_drivers::xhci::trb::{PortStatusChangeEventTrb, SetupStageTrb, StopEndpointCommandTrb, Trb, TrbTrait};
use kernel_drivers::usb::usb_transfers::UsbSetupPacket;
use kernel_drivers::xhci::trb_ring::{RingError, TrbRing, ERST};

fn ring(n: usize) -> TrbRing {
    TrbRing::new(vec![Trb::new(); n], 0x10_0000).unwrap()
}

#[test]
fn ring_ends_in_a_link_back_to_its_start() {
    let r = ring(4);
    assert_eq!(r.len(), 4);
    let link = r.trb(3);
    assert!(link.is_link_trb());
    assert_eq!(link.parameter, 0x10_0000);
    assert_eq!(r.head_phys(), 0x10_0000);
    assert_eq!(r.trb_phys(2), 0x10_0020);
}

#[test]
fn enqueue_until_full() {
    let mut r = ring(4);
    assert_eq!(r.enqueue(Trb::new(), true), Ok(0x10_0000));
    assert_eq!(r.enqueue(Trb::new(), true), Ok(0x10_0010));
    // the next slot is the link; wrapping would meet the dequeue index
    assert_eq!(r.enqueue(Trb::new(), true), Err(RingError::Full));
    assert_eq!(r.enqueue_index(), 2);
    // without the check the ring wraps and the cycle state flips
    assert_eq!(r.enqueue(Trb::new(), false), Ok(0x10_0020));
    assert_eq!(r.enqueue_index(), 0);
    assert!(!r.cycle_state());
    // the link TRB now carries the old cycle bit
    assert!(r.trb(3).cycle());
}

#[test]
fn enqueued_trbs_carry_the_producer_cycle_bit() {
    let mut r = ring(4);
    r.enqueue(Trb::new_raw(7, 8, 0), true).unwrap();
    let t = r.trb(0);
    assert_eq!((t.parameter, t.status), (7, 8));
    assert!(t.cycle());
    let got = r.dequeue().unwrap();
    assert_eq!(got.parameter, 7);
    assert_eq!(r.dequeue_index(), 1);
    assert!(matches!(r.dequeue(), Err(RingError::Empty)));
}

#[test]
fn event_ring_segment_table_entry() {
    let e = ERST::new(0x1_2345_6780, 64);
    assert_eq!((e.ring_addr_low(), e.ring_addr_high(), e.ring_segment_size()), (0x2345_6780, 1, 64));
}

#[test]
fn port_status_bits() {
    let mut p = PortStatusControl::from_raw(0x0000_0203 | (3 << 10) | 0x0002_0000);
    assert!(p.ccs_read() && p.ped_read() && p.pp_read() && p.csc_read());
    assert_eq!(p.ps_read(), 3);
    // a write-back must not clear change bits or disable the port by accident
    let w = PortStatusControl::write_from_raw(p.raw());
    assert!(!w.csc_read());
    assert!(!w.ped_read());
    assert!(w.pp_read());
    p.pr_write();
    assert!(p.pr_read());
    assert!(!p.ped_read());
    let all = PortChange::csc().union(PortChange::prc());
    assert_eq!(all.bits(), 0x0022_0000);
    assert_eq!(port_register_offset(1), 0x400);
    assert_eq!(port_register_offset(3), 0x420);
}

#[test]
fn slot_and_endpoint_context_fields() {
    let mut s = SlotContext::<4> { dword0: 0, dword1: 0, dword2: 0, dword3: 0, reserved: [0; 4] };
    s.set_route_string(0x12345);
    s.set_speed(4);
    s.set_context_entries(1);
    assert_eq!((s.get_route_string(), s.get_speed(), s.get_context_entries()), (0x12345, 4, 1));
    assert_eq!(s.dword0, 0x12345 | (4 << 20) | (1 << 27));
    let mut e = EndpointContext::<3> { dword0: 0, dword1: 0, dword2: 1, dword3: 0, dword4: 0, reserved: [0; 3] };
    e.set_tr_dequeue_ptr(0x1_0000_1230);
    assert_eq!(e.get_tr_dequeue_ptr(), 0x1_0000_1230);
    assert!(e.dcs());
    e.set_max_packet_size(512);
    assert_eq!(e.get_max_packet_size(), 512);
}

#[test]
fn input_control_flags() {
    let mut c = InputControlContext::new();
    c.add_context(0);
    c.add_context(1);
    c.drop_context(3);
    assert_eq!((c.add_flags, c.drop_flags), (0b11, 0b1000));
}

#[test]
fn device_context_base_address_array() {
    let mut d = Dcbaa::new();
    d.set_context(5, 0x20_0000);
    assert_eq!(d.get_context(5), 0x20_0000);
    assert_eq!(d.get_context(4), 0);
    d.clear_context(5);
    assert_eq!(d.get_context(5), 0);
}

#[test]
fn extended_capabilities() {
    assert_eq!(ext_cap_id(0x0000_0402), 2);
    assert_eq!(ext_cap_next(0x0000_0402), 4);
    let cap = read_supported_protocol_cap(0x0300_0002, 0x2042_5355, 0x0000_0401 | (2 << 28), 0);
    assert_eq!((cap.major, cap.name), (3, 0x2042_5355));
    let psi = XhciProtocolSpeedId::from_raw(0x0005_0034);
    assert_eq!(psi.psiv, 4);
    assert_eq!(psi.bits_per_second(), Some(5_000_000_000));
}

#[test]
fn setup_stage_parameter_holds_packet_bytes() {
    let p = UsbSetupPacket::new(0x80, 0x06, 0x0100, 0x0409, 0x0012);
    let mut t = SetupStageTrb::new();
    t.set_bm_request_type(p.bm_request_type);
    t.set_b_request(p.b_request);
    t.set_w_value(p.w_value);
    t.set_w_index(p.w_index);
    t.set_w_length(p.w_length);
    assert_eq!(t.raw().parameter().to_le_bytes(), p.as_bytes());
    assert_eq!((t.bm_request_type(), t.b_request(), t.w_value(), t.w_index(), t.w_length()), (0x80, 0x06, 0x0100, 0x0409, 0x0012));
}

#[test]
fn stop_endpoint_id_keeps_other_fields() {
    let mut t = StopEndpointCommandTrb::new();
    t.set_slot_id(7);
    t.set_suspend(true);
    t.set_cycle(true);
    t.set_endpoint_id(31);
    assert_eq!(t.endpoint_id(), 31);
    assert_eq!(t.slot_id(), 7);
    assert!(t.suspend());
    assert!(t.cycle());
    assert_eq!(t.read_trb_type(), Trb::TRB_STOP_ENDPOINT_COMMAND);
}

#[test]
fn port_status_change_event_copies_raw() {
    let mut raw = Trb::new();
    raw.set_trb_type(Trb::TRB_PORT_STATUS_CHANGE_EVENT);
    raw.set_parameter(0x0500_0000);
    let e = PortStatusChangeEventTrb::new(raw).unwrap();
    assert_eq!(e.port_id(), 5);
    assert_eq!(e.raw().parameter(), raw.parameter());
    assert_eq!(e.raw().control, raw.control);
    assert_eq!(e.read_trb_type(), Trb::TRB_PORT_STATUS_CHANGE_EVENT);
}
