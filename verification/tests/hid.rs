use kernel_drivers::input::kbd::keyboard::{KeyAction, KeyEvent};
use kernel_drivers::input::kbd::KeyCode;
use kernel_drivers::usb::descriptors::{EndpointDescriptor, InterfaceDescriptor, UsbInterfaceTree};
use kernel_drivers::usb::hid::hid_core::{
    find_in_endpoint_address, hid_on_set_idle_done, hid_on_set_protocol_done,
    hid_register_usb_device, hid_set_protocol, on_interrupt_in, HidCore, HidDriver, HidEvent,
    RawHidReport,
};
use kernel_drivers::usb::hid::hid_keyboard::HidKeyboard;
use kernel_drivers::usb::hid::hid_mouse::HidMouse;
use kernel_drivers::usb::usb_transfers::{
    UsbSetupPacket, UsbTransferDirection, UsbTransferRequest, UsbTransferStatus, UsbTransferType,
};

fn endpoint(address: u8, attributes: u8) -> EndpointDescriptor {
    EndpointDescriptor {
        b_length: 7,
        b_descriptor_type: 5,
        b_endpoint_address: address,
        bm_attributes: attributes,
        w_max_packet_size: 8,
        b_interval: 10,
    }
}

fn interface(number: u8, sub_class: u8, protocol: u8, endpoints: Vec<EndpointDescriptor>) -> UsbInterfaceTree {
    UsbInterfaceTree {
        interface: InterfaceDescriptor {
            b_length: 9,
            b_descriptor_type: 4,
            b_interface_number: number,
            b_alternate_setting: 0,
            b_num_endpoints: endpoints.len() as u8,
            b_interface_class: 3,
            b_interface_sub_class: sub_class,
            b_interface_protocol: protocol,
            i_interface: 0,
        },
        endpoints,
        other_descriptors: Vec::new(),
    }
}

#[test]
fn first_interrupt_in_endpoint_is_chosen() {
    let tree = interface(0, 1, 1, vec![endpoint(0x02, 3), endpoint(0x81, 2), endpoint(0x83, 3), endpoint(0x84, 3)]);
    assert_eq!(find_in_endpoint_address(&tree), Some(0x83));
    let none = interface(0, 1, 1, vec![endpoint(0x02, 3)]);
    assert_eq!(find_in_endpoint_address(&none), None);
}

#[test]
fn keyboard_driver_through_the_trait() {
    let mut kb = HidKeyboard::new(0x81);
    let ev = kb.handle_hid_report(RawHidReport { data: &[0, 0, 0x04, 0, 0, 0, 0, 0] });
    assert_eq!(ev, vec![HidEvent::Key(KeyEvent::new(KeyCode(KeyCode::A), KeyAction::Pressed, false))]);
    assert!(kb.handle_hid_report(RawHidReport { data: &[] }).is_empty());
    let req = kb.start_listening(4, 0x9000);
    assert_eq!(req.endpoint_address, 0x81);
    assert_eq!(req.data_buffer_length, 8);
    assert_eq!(req.transfer_direction, UsbTransferDirection::DeviceToHost);
    assert_eq!(req.transfer_type, UsbTransferType::Interrupt);
    assert_eq!(req.dma_buffer, Some(0x9000));
    assert_eq!(kb.pending_request, Some(req));
}

#[test]
fn mouse_driver_through_the_trait() {
    let mut m = HidMouse::new(0x82);
    let ev = m.handle_hid_report(RawHidReport { data: &[0x02, 0, 0] });
    assert_eq!(ev.len(), 1);
    match ev[0] {
        HidEvent::Mouse(e) => assert!(e.mouse_button.is_some()),
        HidEvent::Key(_) => panic!("a mouse reports no keys"),
    }
    assert_eq!(m.previous_button_state, 0);
    let req = m.start_listening(6, 0xA000);
    assert_eq!(req.data_buffer_length, 4);
    assert_eq!(req.target_hardware_id, 6);
    assert_eq!(m.pending_request, Some(req));
}

#[test]
fn registering_hid_interfaces() {
    let mut core = HidCore::new();
    let kbd = interface(2, 1, 1, vec![endpoint(0x81, 3)]);
    let req = hid_register_usb_device(&mut core, 10, 4, &kbd).unwrap();
    assert_eq!(req, hid_set_protocol(4, 2));
    assert_eq!(req.setup_packet, Some(UsbSetupPacket::new(0x21, 0x0B, 0, 2, 0)));
    assert!(core.contains(10));

    let mouse = interface(0, 1, 2, vec![endpoint(0x82, 3)]);
    assert!(hid_register_usb_device(&mut core, 11, 5, &mouse).is_some());
    assert!(!core.contains(11));

    let no_boot = interface(0, 0, 0, vec![endpoint(0x81, 3)]);
    assert_eq!(hid_register_usb_device(&mut core, 12, 6, &no_boot), None);
    let invalid = interface(0, 2, 1, vec![endpoint(0x81, 3)]);
    assert_eq!(hid_register_usb_device(&mut core, 13, 7, &invalid), None);
    let no_endpoint = interface(0, 1, 1, vec![endpoint(0x01, 3)]);
    assert_eq!(hid_register_usb_device(&mut core, 14, 8, &no_endpoint), None);
    assert!(!core.contains(14));
}

#[test]
fn boot_protocol_then_idle_then_listening() {
    let mut core = HidCore::new();
    let kbd = interface(1, 1, 1, vec![endpoint(0x81, 3)]);
    let mut set_protocol = hid_register_usb_device(&mut core, 20, 3, &kbd).unwrap();

    assert_eq!(hid_on_set_protocol_done(&set_protocol), None);
    set_protocol.complete(UsbTransferStatus::Completed, 0);
    let set_idle = hid_on_set_protocol_done(&set_protocol).unwrap();
    assert_eq!(set_idle.setup_packet, Some(UsbSetupPacket::new(0x21, 0x0A, 0, 1, 0)));
    assert_eq!(set_idle.target_hardware_id, 3);

    let listen = hid_on_set_idle_done(&mut core, 20, 3, 0x7000);
    assert_eq!(listen.endpoint_address, 0x81);
    assert_eq!(listen.data_buffer_length, 8);
    assert_eq!(listen.status, UsbTransferStatus::Pending);
}

#[test]
fn interrupt_in_is_rearmed() {
    let mut req = UsbTransferRequest::new_interrupt_in(3, 0x81, 0x7000, 8);
    req.complete(UsbTransferStatus::Completed, 0);
    assert_eq!(on_interrupt_in(&mut req), 8);
    assert_eq!(req.status, UsbTransferStatus::Pending);
    assert_eq!(req.bytes_transferred, 0);
}
