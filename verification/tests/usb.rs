use kernel_drivers::usb::descriptor_listing::{EndpointTransfer, ListingLine};
use kernel_drivers::usb::descriptors::{UsbConfigurationTree, UsbDeviceDescriptor};
use kernel_drivers::usb::hid::hid_core::{
    find_in_endpoint_address, hid_interface_kind, hid_set_idle_packet, hid_set_protocol_packet,
    HidInterfaceKind,
};
use kernel_drivers::usb::usb_transfers::UsbSetupPacket;
use kernel_drivers::usb::{
    usb_controller_bar_index, usb_controller_kind, UsbBmRequestType, UsbControllerKind, UsbId,
    WValue,
};

fn config_bytes() -> Vec<u8> {
    let mut d = Vec::new();
    // configuration 1 with one interface, 34 bytes in all
    d.extend_from_slice(&[9, 2, 34, 0, 1, 1, 0, 0xA0, 50]);
    // interface 0: HID, boot subclass, keyboard protocol, one endpoint
    d.extend_from_slice(&[9, 4, 0, 0, 1, 3, 1, 1, 0]);
    // HID class descriptor
    d.extend_from_slice(&[9, 0x21, 0x11, 0x01, 0, 1, 0x22, 63, 0]);
    // endpoint 0x81: interrupt IN, 8 bytes, every 10 frames
    d.extend_from_slice(&[7, 5, 0x81, 3, 8, 0, 10]);
    d
}

#[test]
fn configuration_tree() {
    let tree = UsbConfigurationTree::parse(&config_bytes()).unwrap();
    assert_eq!(tree.configuration.w_total_length, 34);
    assert_eq!(tree.configuration.b_configuration_value, 1);
    assert_eq!(tree.interfaces.len(), 1);
    let iface = &tree.interfaces[0];
    assert_eq!(iface.interface.b_interface_class, 3);
    assert_eq!(iface.endpoints.len(), 1);
    assert_eq!(iface.endpoints[0].b_endpoint_address, 0x81);
    assert_eq!(iface.other_descriptors, vec![vec![9, 0x21, 0x11, 0x01, 0, 1, 0x22, 63, 0]]);
    assert_eq!(find_in_endpoint_address(iface), Some(0x81));
    assert!(hid_interface_kind(iface.interface.b_interface_sub_class, iface.interface.b_interface_protocol) == HidInterfaceKind::BootKeyboard);
}

#[test]
fn no_configuration_no_tree() {
    assert!(UsbConfigurationTree::parse(&[]).is_none());
    // an interface without a configuration before it
    assert!(UsbConfigurationTree::parse(&[9, 4, 0, 0, 1, 3, 1, 1, 0]).is_none());
}

#[test]
fn out_endpoints_are_not_interrupt_in() {
    let mut bytes = config_bytes();
    let last = bytes.len() - 5;
    bytes[last] = 0x01; // endpoint address 0x01: OUT
    let tree = UsbConfigurationTree::parse(&bytes).unwrap();
    assert_eq!(find_in_endpoint_address(&tree.interfaces[0]), None);
}

#[test]
fn device_descriptor() {
    let bytes = [18, 1, 0x00, 0x02, 0, 0, 0, 64, 0x6D, 0x04, 0x2B, 0xC5, 0x00, 0x01, 1, 2, 0, 1];
    let d = UsbDeviceDescriptor::parse(&bytes).unwrap();
    assert_eq!((d.bcd_usb, d.id_vendor, d.id_product), (0x0200, 0x046D, 0xC52B));
    assert_eq!(d.b_max_packet_size0, 64);
    let id = d.usb_id();
    assert_eq!((id.vendor, id.product), (0x046D, 0xC52B));
    assert!(UsbDeviceDescriptor::parse(&bytes[..17]).is_none());
}

#[test]
fn vendor_names() {
    assert_eq!(UsbId::new(0x046D, 0).vendor_name(), "Logitech");
    assert_eq!(UsbId::new(0xFFFE, 0).vendor_name(), "Unknown Vendor");
}

#[test]
fn controller_kinds() {
    assert!(usb_controller_kind(0x30) == Some(UsbControllerKind::Xhci));
    assert!(usb_controller_kind(0x20) == Some(UsbControllerKind::Ehci));
    assert!(usb_controller_kind(0x55).is_none());
    assert_eq!(usb_controller_bar_index(UsbControllerKind::Ehci), Some(0));
    assert_eq!(usb_controller_bar_index(UsbControllerKind::Uhci), Some(4));
    assert_eq!(usb_controller_bar_index(UsbControllerKind::Xhci), None);
}

#[test]
fn setup_packets() {
    assert_eq!(UsbBmRequestType::new(0x80, 0x20, 0x01), 0xA1);
    assert_eq!(WValue::new(0x22, 0x01), 0x2201);
    let p = hid_set_protocol_packet(2);
    assert_eq!((p.bm_request_type, p.b_request, p.w_value, p.w_index, p.w_length), (0x21, 0x0B, 0, 2, 0));
    let idle = hid_set_idle_packet(1);
    assert_eq!((idle.bm_request_type, idle.b_request, idle.w_index), (0x21, 0x0A, 1));
    let raw = UsbSetupPacket::new(0x80, 6, 0x0100, 0, 18).as_bytes();
    assert_eq!(raw, [0x80, 6, 0x00, 0x01, 0, 0, 18, 0]);
}

#[test]
fn configuration_listing_lines() {
    let tree = UsbConfigurationTree::parse(&config_bytes()).unwrap();
    let lines = tree.listing();
    assert_eq!(
        lines,
        vec![
            ListingLine::Configuration { value: 1, power_ma: 100, interfaces: 1 },
            ListingLine::Interface { number: 0, alternate: 0, class: 3, sub_class: 1, protocol: 1 },
            ListingLine::ClassSpecific { descriptor_type: 0x21, length: 9 },
            ListingLine::Endpoint {
                number: 1,
                device_to_host: true,
                transfer: EndpointTransfer::Interrupt,
                max_packet: 8,
                interval: 10,
            },
        ]
    );
}

#[test]
fn configuration_listing_other_descriptors_and_out_endpoints() {
    let mut d = Vec::new();
    d.extend_from_slice(&[9, 2, 0, 0, 2, 3, 0, 0x80, 250]);
    // an interface association descriptor before the first interface
    d.extend_from_slice(&[8, 0x0B, 0, 2, 3, 0, 0, 0]);
    d.extend_from_slice(&[9, 4, 0, 0, 1, 8, 6, 0x50, 0]);
    // bulk OUT endpoint 2, 512 bytes
    d.extend_from_slice(&[7, 5, 0x02, 2, 0, 2, 0]);
    d.extend_from_slice(&[9, 4, 1, 1, 1, 1, 2, 0, 0]);
    // isochronous IN endpoint 3 and a control endpoint 4
    d.extend_from_slice(&[7, 5, 0x83, 0x0D, 0xC0, 0, 1]);
    d.extend_from_slice(&[7, 5, 0x04, 0, 64, 0, 0]);
    let tree = UsbConfigurationTree::parse(&d).unwrap();
    let lines = tree.listing();
    assert_eq!(lines.len(), 7);
    assert_eq!(lines[0], ListingLine::Configuration { value: 3, power_ma: 500, interfaces: 2 });
    assert_eq!(lines[1], ListingLine::OtherDescriptor { descriptor_type: 0x0B, length: 8 });
    assert_eq!(lines[2], ListingLine::Interface { number: 0, alternate: 0, class: 8, sub_class: 6, protocol: 0x50 });
    assert_eq!(
        lines[3],
        ListingLine::Endpoint { number: 2, device_to_host: false, transfer: EndpointTransfer::Bulk, max_packet: 512, interval: 0 }
    );
    assert_eq!(lines[4], ListingLine::Interface { number: 1, alternate: 1, class: 1, sub_class: 2, protocol: 0 });
    assert_eq!(
        lines[5],
        ListingLine::Endpoint { number: 3, device_to_host: true, transfer: EndpointTransfer::Isochronous, max_packet: 0xC0, interval: 1 }
    );
    assert_eq!(
        lines[6],
        ListingLine::Endpoint { number: 4, device_to_host: false, transfer: EndpointTransfer::Control, max_packet: 64, interval: 0 }
    );
}
