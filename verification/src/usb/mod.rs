//! USB: the controller kinds, device identities and the constants of
//! standard and class requests.
pub mod descriptor_listing;
pub mod descriptors;
pub mod hid;
pub mod host;
pub mod usb_core;
pub mod usb_transfers;

use vstd::prelude::*;

verus! {

pub const PIF_UHCI_CONTROLLER: u8 = 0x00;
pub const PIF_OHCI_CONTROLLER: u8 = 0x10;
pub const PIF_EHCI_CONTROLLER: u8 = 0x20;
pub const PIF_XHCI_CONTROLLER: u8 = 0x30;

/// The host controller interfaces that a USB controller's programming
/// interface byte names.
#[derive(PartialEq, Eq, Structural, Clone, Copy, Debug)]
pub enum UsbControllerKind {
    Uhci,
    Ohci,
    Ehci,
    Xhci,
}

/// The controller interface that `prog_if` names; `None` for any other
/// value, which the kernel does not handle.
pub fn usb_controller_kind(prog_if: u8) -> (r: Option<UsbControllerKind>)
    ensures
        r == if prog_if == 0x00 {
            Some(UsbControllerKind::Uhci)
        } else if prog_if == 0x10 {
            Some(UsbControllerKind::Ohci)
        } else if prog_if == 0x20 {
            Some(UsbControllerKind::Ehci)
        } else if prog_if == 0x30 {
            Some(UsbControllerKind::Xhci)
        } else {
            None
        },
{
    match prog_if {
        PIF_UHCI_CONTROLLER => Some(UsbControllerKind::Uhci),
        PIF_OHCI_CONTROLLER => Some(UsbControllerKind::Ohci),
        PIF_EHCI_CONTROLLER => Some(UsbControllerKind::Ehci),
        PIF_XHCI_CONTROLLER => Some(UsbControllerKind::Xhci),
        _ => None,
    }
}

/// The BAR that holds a controller's registers: 4 for UHCI, 0 for EHCI.
pub fn usb_controller_bar_index(kind: UsbControllerKind) -> (r: Option<u8>)
    ensures
        r == match kind {
            UsbControllerKind::Uhci => Some(4u8),
            UsbControllerKind::Ehci => Some(0u8),
            _ => None::<u8>,
        },
{
    match kind {
        UsbControllerKind::Uhci => Some(4),
        UsbControllerKind::Ehci => Some(0),
        _ => None,
    }
}

/// A device's vendor and product IDs.
#[derive(Debug, Clone, Copy, PartialEq, Eq, Structural)]
pub struct UsbId {
    pub vendor: u16,
    pub product: u16,
}

/// The name of vendor `v`.
pub open spec fn vendor_name_spec(v: u16) -> Seq<char> {
    if v == 0x0627 {
        "Adomax Technology"@
    }     else if v == 0x46F4 {
        "QEMU Virtual Device"@
    }     else if v == 0x80EE {
        "VirtualBox"@
    }     else if v == 0x0E0F {
        "VMware"@
    }     else if v == 0x045E {
        "Microsoft"@
    }     else if v == 0x046D {
        "Logitech"@
    }     else if v == 0x05AC {
        "Apple"@
    }     else if v == 0x1532 {
        "Razer USA"@
    }     else if v == 0x1B1C {
        "Corsair"@
    }     else if v == 0x1038 {
        "SteelSeries"@
    }     else if v == 0x1E7D {
        "Roccat"@
    }     else if v == 0x09DA {
        "A4Tech Co., Ltd"@
    }     else if v == 0x046A {
        "Cherry GmbH"@
    }     else if v == 0x0B05 {
        "ASUSTek"@
    }     else if v == 0x2516 {
        "Cooler Master"@
    }     else if v == 0x3434 {
        "Keychron"@
    }     else if v == 0x5986 {
        "Bison Electronics Inc."@
    }     else if v == 0x0C45 {
        "Sonix Technology Co., Ltd."@
    }     else if v == 0x413C {
        "Dell Computer Corp."@
    }     else if v == 0x03F0 {
        "Hewlett-Packard"@
    }     else if v == 0x17EF {
        "Lenovo"@
    }     else if v == 0x04F2 {
        "Chicony Electronics Co., Ltd."@
    }     else if v == 0x04CA {
        "Lite-On Technology Corp."@
    } else if v == 0x8086 || v == 0x8087 {
        "Intel Corporation"@
    } else {
        "Unknown Vendor"@
    }
}

/// The name of the product `p` of vendor `v`.
pub open spec fn product_name_spec(v: u16, p: u16) -> Seq<char> {
    if v == 0x46F4 && p == 0x0001 {
        "QEMU USB Keyboard"@
    }     else if v == 0x46F4 && p == 0x0002 {
        "QEMU USB Mouse"@
    }     else if v == 0x46F4 && p == 0x0003 {
        "QEMU USB Tablet"@
    }     else if v == 0x8087 && p == 0x07dc {
        "Bluetooth wireless interface"@
    }     else if v == 0x046D && p == 0xc33a {
        "G413 Gaming Keyboard"@
    }     else if v == 0x046D && p == 0xc34a {
        "G413 SE Gaming Keyboard"@
    }     else if v == 0x1532 && p == 0x006c {
        "Mamba Elite (Wired)"@
    }     else if v == 0x09DA && p == 0x3263 {
        "Bloody A60 Mouse"@
    }     else if v == 0x5986 && p == 0x0268 {
        "SunplusIT INC. Integrated Camera"@
    } else {
        "Unknown Device"@
    }
}

impl UsbId {
    pub const VID_ADOMAX: u16 = 0x0627;
    pub const VID_QEMU: u16 = 0x46F4;
    pub const VID_VIRTUALBOX: u16 = 0x80EE;
    pub const VID_VMWARE: u16 = 0x0E0F;
    pub const VID_MICROSOFT: u16 = 0x045E;
    pub const VID_LOGITECH: u16 = 0x046D;
    pub const VID_APPLE: u16 = 0x05AC;
    pub const VID_RAZER: u16 = 0x1532;
    pub const VID_CORSAIR: u16 = 0x1B1C;
    pub const VID_STEELSERIES: u16 = 0x1038;
    pub const VID_ROCCAT: u16 = 0x1E7D;
    pub const VID_A_FOUR_TECH: u16 = 0x09DA;
    pub const VID_CHERRY: u16 = 0x046A;
    pub const VID_ASUS: u16 = 0x0B05;
    pub const VID_COOLER_MASTER: u16 = 0x2516;
    pub const VID_KEYCHRON: u16 = 0x3434;
    pub const VID_BISON_ELECTRONICS: u16 = 0x5986;
    pub const VID_SONIX_TECHNOLOGY: u16 = 0x0C45;
    pub const VID_DELL: u16 = 0x413C;
    pub const VID_HP: u16 = 0x03F0;
    pub const VID_LENOVO: u16 = 0x17EF;
    pub const VID_CHICONY: u16 = 0x04F2;
    pub const VID_LITEON: u16 = 0x04CA;
    pub const VID_INTEL: u16 = 0x8086;
    pub const VID_INTEL_ALT: u16 = 0x8087;

    pub fn new(vendor: u16, product: u16) -> (r: Self)
        ensures
            r.vendor == vendor,
            r.product == product,
    {
        Self { vendor, product }
    }

    pub fn vendor_name(&self) -> (r: &'static str)
        ensures
            r@ == vendor_name_spec(self.vendor),
    {
        let v = self.vendor;
        if v == Self::VID_ADOMAX {
            "Adomax Technology"
        }         else if v == Self::VID_QEMU {
            "QEMU Virtual Device"
        }         else if v == Self::VID_VIRTUALBOX {
            "VirtualBox"
        }         else if v == Self::VID_VMWARE {
            "VMware"
        }         else if v == Self::VID_MICROSOFT {
            "Microsoft"
        }         else if v == Self::VID_LOGITECH {
            "Logitech"
        }         else if v == Self::VID_APPLE {
            "Apple"
        }         else if v == Self::VID_RAZER {
            "Razer USA"
        }         else if v == Self::VID_CORSAIR {
            "Corsair"
        }         else if v == Self::VID_STEELSERIES {
            "SteelSeries"
        }         else if v == Self::VID_ROCCAT {
            "Roccat"
        }         else if v == Self::VID_A_FOUR_TECH {
            "A4Tech Co., Ltd"
        }         else if v == Self::VID_CHERRY {
            "Cherry GmbH"
        }         else if v == Self::VID_ASUS {
            "ASUSTek"
        }         else if v == Self::VID_COOLER_MASTER {
            "Cooler Master"
        }         else if v == Self::VID_KEYCHRON {
            "Keychron"
        }         else if v == Self::VID_BISON_ELECTRONICS {
            "Bison Electronics Inc."
        }         else if v == Self::VID_SONIX_TECHNOLOGY {
            "Sonix Technology Co., Ltd."
        }         else if v == Self::VID_DELL {
            "Dell Computer Corp."
        }         else if v == Self::VID_HP {
            "Hewlett-Packard"
        }         else if v == Self::VID_LENOVO {
            "Lenovo"
        }         else if v == Self::VID_CHICONY {
            "Chicony Electronics Co., Ltd."
        }         else if v == Self::VID_LITEON {
            "Lite-On Technology Corp."
        } else if v == Self::VID_INTEL || v == Self::VID_INTEL_ALT {
            "Intel Corporation"
        } else {
            "Unknown Vendor"
        }
    }

    pub fn product_name(&self) -> (r: &'static str)
        ensures
            r@ == product_name_spec(self.vendor, self.product),
    {
        let v = self.vendor;
        let p = self.product;
        if v == 0x46F4 && p == 0x0001 {
            "QEMU USB Keyboard"
        }         else if v == 0x46F4 && p == 0x0002 {
            "QEMU USB Mouse"
        }         else if v == 0x46F4 && p == 0x0003 {
            "QEMU USB Tablet"
        }         else if v == 0x8087 && p == 0x07dc {
            "Bluetooth wireless interface"
        }         else if v == 0x046D && p == 0xc33a {
            "G413 Gaming Keyboard"
        }         else if v == 0x046D && p == 0xc34a {
            "G413 SE Gaming Keyboard"
        }         else if v == 0x1532 && p == 0x006c {
            "Mamba Elite (Wired)"
        }         else if v == 0x09DA && p == 0x3263 {
            "Bloody A60 Mouse"
        }         else if v == 0x5986 && p == 0x0268 {
            "SunplusIT INC. Integrated Camera"
        } else {
            "Unknown Device"
        }
    }
}

/// Codes of standard and HID class requests.
pub struct UsbBRequest;

impl UsbBRequest {
    pub const GET_STATUS: u8 = 0x00;
    pub const CLEAR_FEATURE: u8 = 0x01;
    pub const SET_FEATURE: u8 = 0x03;
    pub const SET_ADDRESS: u8 = 0x05;
    pub const GET_DESCRIPTOR: u8 = 0x06;
    pub const SET_DESCRIPTOR: u8 = 0x07;
    pub const GET_CONFIGURATION: u8 = 0x08;
    pub const SET_CONFIGURATION: u8 = 0x09;
    pub const GET_INTERFACE: u8 = 0x0A;
    pub const SET_INTERFACE: u8 = 0x0B;
    pub const SYNCH_FRAME: u8 = 0x0C;
    pub const HID_GET_REPORT: u8 = 0x01;
    pub const HID_GET_IDLE: u8 = 0x02;
    pub const HID_GET_PROTOCOL: u8 = 0x03;
    pub const HID_SET_REPORT: u8 = 0x09;
    pub const HID_SET_IDLE: u8 = 0x0A;
    pub const HID_SET_PROTOCOL: u8 = 0x0B;
}

/// The parts of a request's bmRequestType byte.
pub struct UsbBmRequestType;

impl UsbBmRequestType {
    pub const DIR_HOST_TO_DEVICE: u8 = 0x00;
    pub const DIR_DEVICE_TO_HOST: u8 = 0x80;
    pub const TYPE_STANDARD: u8 = 0x00;
    pub const TYPE_CLASS: u8 = 0x20;
    pub const TYPE_VENDOR: u8 = 0x40;
    pub const REC_DEVICE: u8 = 0x00;
    pub const REC_INTERFACE: u8 = 0x01;
    pub const REC_ENDPOINT: u8 = 0x02;
    pub const REC_OTHER: u8 = 0x03;

    /// The request type byte made of a direction, a type and a recipient.
    pub fn new(direction: u8, req_type: u8, recipient: u8) -> (r: u8)
        ensures
            r == direction | req_type | recipient,
    {
        direction | req_type | recipient
    }
}

/// Values of a request's wValue field.
pub struct WValue;

impl WValue {
    pub const DESC_DEVICE: u8 = 0x01;
    pub const DESC_CONFIGURATION: u8 = 0x02;
    pub const DESC_STRING: u8 = 0x03;
    pub const DESC_INTERFACE: u8 = 0x04;
    pub const DESC_ENDPOINT: u8 = 0x05;
    pub const DESC_DEVICE_QUALIFIER: u8 = 0x06;
    pub const DESC_OTHER_SPEED: u8 = 0x07;
    pub const DESC_HID: u8 = 0x21;
    pub const DESC_HID_REPORT: u8 = 0x22;
    pub const DESC_HID_PHYSICAL: u8 = 0x23;
    pub const HID_REPORT_INPUT: u8 = 0x01;
    pub const HID_REPORT_OUTPUT: u8 = 0x02;
    pub const HID_REPORT_FEATURE: u8 = 0x03;
    pub const INDEX_ZERO: u8 = 0x00;
    pub const FEATURE_ENDPOINT_HALT: u16 = 0x0000;
    pub const FEATURE_DEVICE_REMOTE_WAKEUP: u16 = 0x0001;
    pub const FEATURE_TEST_MODE: u16 = 0x0002;

    /// The 16-bit value with `high_byte` above `low_byte`.
    pub fn new(high_byte: u8, low_byte: u8) -> (r: u16)
        ensures
            r == high_byte * 256 + low_byte,
    {
        let h = high_byte as u16;
        let l = low_byte as u16;
        assert(h < 256 && l < 256 ==> (h << 8u16) | l == h * 256 + l) by (bit_vector);
        ((high_byte as u16) << 8) | (low_byte as u16)
    }
}

} // verus!
