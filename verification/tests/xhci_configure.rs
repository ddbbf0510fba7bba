use kernel_drivers::usb::descriptors::EndpointDescriptor;
use kernel_drivers::xhci::configure::{
    address_device_ep0_context, address_device_outcome, address_device_slot_context,
    configure_endpoint_context, endpoint_configuration_flags, endpoint_interval, endpoint_type,
    ep0_max_packet_size_for_speed, verify_addressed_device, AddressOutcome,
};
use kernel_drivers::xhci::endpoint_context::EndpointContext;
use kernel_drivers::xhci::slot_context::SlotContext;

fn ep_ctx() -> EndpointContext<3> {
    EndpointContext { dword0: 0, dword1: 0, dword2: 0, dword3: 0, dword4: 0, reserved: [0; 3] }
}

fn endpoint(address: u8, attributes: u8, max_packet: u16, interval: u8) -> EndpointDescriptor {
    EndpointDescriptor {
        b_length: 7,
        b_descriptor_type: 5,
        b_endpoint_address: address,
        bm_attributes: attributes,
        w_max_packet_size: max_packet,
        b_interval: interval,
    }
}

#[test]
fn ep0_packet_size_by_speed() {
    assert_eq!(ep0_max_packet_size_for_speed(1), 8);
    assert_eq!(ep0_max_packet_size_for_speed(2), 8);
    assert_eq!(ep0_max_packet_size_for_speed(3), 64);
    assert_eq!(ep0_max_packet_size_for_speed(4), 512);
    assert_eq!(ep0_max_packet_size_for_speed(9), 8);
}

#[test]
fn slot_context_for_address_device() {
    let mut slot: SlotContext<4> =
        SlotContext { dword0: 0xFFFFF, dword1: 0, dword2: 0, dword3: 0, reserved: [0; 4] };
    address_device_slot_context(&mut slot, 5, 3);
    assert_eq!(slot.get_route_string(), 0);
    assert_eq!(slot.get_root_hub_port(), 5);
    assert_eq!(slot.get_context_entries(), 1);
    assert_eq!(slot.get_speed(), 3);
}

#[test]
fn ep0_context_for_address_device() {
    let mut ctx = ep_ctx();
    address_device_ep0_context(&mut ctx, 4, 0x1_2345_6780);
    assert_eq!(ctx.get_ep_type(), 4);
    assert_eq!(ctx.get_max_packet_size(), 512);
    assert_eq!(ctx.get_max_burst(), 0);
    assert_eq!(ctx.get_tr_dequeue_ptr(), 0x1_2345_6780);
    assert!(ctx.dcs());
    assert_eq!(ctx.get_interval(), 0);
    assert_eq!(ctx.get_cerr(), 3);
}

#[test]
fn address_device_completions() {
    assert_eq!(address_device_outcome(1), AddressOutcome::Check);
    assert_eq!(address_device_outcome(19), AddressOutcome::Ignore);
    assert_eq!(address_device_outcome(11), AddressOutcome::Ignore);
    assert_eq!(address_device_outcome(4), AddressOutcome::DisableSlot);
    assert_eq!(address_device_outcome(5), AddressOutcome::DisableSlot);
}

#[test]
fn addressed_device_checks() {
    assert!(verify_addressed_device(1, 2, 7, false));
    assert!(!verify_addressed_device(1, 2, 0, false));
    assert!(!verify_addressed_device(0, 2, 7, false));
    assert!(verify_addressed_device(1, 1, 0, true));
    assert!(!verify_addressed_device(1, 2, 7, true));
}

#[test]
fn intervals() {
    assert_eq!(endpoint_interval(1, 10), 6); // 8 <= 10 < 16: 3 + 3
    assert_eq!(endpoint_interval(2, 1), 3);
    assert_eq!(endpoint_interval(1, 0), 0);
    assert_eq!(endpoint_interval(1, 255), 10);
    assert_eq!(endpoint_interval(3, 4), 3);
    assert_eq!(endpoint_interval(4, 1), 0);
}

#[test]
fn endpoint_types() {
    assert_eq!(endpoint_type(3, 0x81), Some(7));
    assert_eq!(endpoint_type(3, 0x01), Some(3));
    assert_eq!(endpoint_type(2, 0x82), Some(6));
    assert_eq!(endpoint_type(1, 0x02), Some(1));
    assert_eq!(endpoint_type(0, 0x80), None);
}

#[test]
fn interrupt_endpoint_context() {
    let mut ctx = ep_ctx();
    assert!(configure_endpoint_context(&mut ctx, &endpoint(0x81, 3, 0x0808, 10), 1, 0x4000));
    assert_eq!(ctx.get_tr_dequeue_ptr(), 0x4000);
    assert!(ctx.dcs());
    assert_eq!(ctx.get_max_packet_size(), 8);
    assert_eq!(ctx.get_interval(), 6);
    assert_eq!(ctx.get_ep_type(), 7);
    assert_eq!(ctx.get_cerr(), 3);
    assert_eq!(ctx.get_max_burst(), 0);
    assert_eq!(ctx.get_avg_trb_len(), 0x0808);
    assert_eq!(ctx.get_max_esit_payload_lo(), 1);
}

#[test]
fn isochronous_and_control_endpoints() {
    let mut iso = ep_ctx();
    assert!(configure_endpoint_context(&mut iso, &endpoint(0x83, 1, 64, 1), 3, 0x5000));
    assert_eq!(iso.get_cerr(), 0);
    assert_eq!(iso.get_ep_type(), 5);
    assert_eq!(iso.get_interval(), 0);
    let mut control = ep_ctx();
    assert!(!configure_endpoint_context(&mut control, &endpoint(0x00, 0, 64, 1), 3, 0x6000));
    assert_eq!(control.get_max_packet_size(), 64);
    assert_eq!(control.get_ep_type(), 0);
}

#[test]
fn configuration_flags() {
    assert_eq!(endpoint_configuration_flags(1, &[0x81, 0x02]), (4, (1 << 3) | (1 << 4) | 1));
    assert_eq!(endpoint_configuration_flags(5, &[0x81]), (5, (1 << 3) | 1));
    assert_eq!(endpoint_configuration_flags(1, &[]), (1, 1));
}
