//! The HID class: which interfaces the kernel drives, the interrupt IN
//! endpoint it listens on, and the requests that switch a device to the
//! boot protocol.
use vstd::prelude::*;
use crate::input::kbd::keyboard::KeyEvent;
use crate::input::mouse::mouse::MouseEvent;
use crate::keyed::{keys_unique, lemma_pairs_contains, lemma_pairs_update, lemma_pairs_value, pairs_map};
use crate::usb::descriptors::{EndpointDescriptor, UsbInterfaceTree};
use crate::usb::hid::hid_keyboard::HidKeyboard;
use crate::usb::hid::hid_mouse::HidMouse;
use crate::usb::usb_transfers::{
    UsbSetupPacket, UsbTransferDirection, UsbTransferRequest, UsbTransferStatus, UsbTransferType,
};

verus! {

pub const HID_SUBCLASS_NONE: u8 = 0x00;
pub const HID_SUBCLASS_BOOT: u8 = 0x01;
pub const HID_PROTOCOL_NONE: u8 = 0x00;
pub const HID_PROTOCOL_KEYBOARD: u8 = 0x01;
pub const HID_PROTOCOL_MOUSE: u8 = 0x02;

/// An endpoint is an interrupt IN endpoint: direction bit 7 set, transfer
/// type 3.
pub open spec fn is_interrupt_in(ep: EndpointDescriptor) -> bool {
    ep.b_endpoint_address & 0x80 != 0 && ep.bm_attributes & 3 == 3
}

/// The address of the first interrupt IN endpoint from index `i` on.
pub open spec fn first_interrupt_in_from(eps: Seq<EndpointDescriptor>, i: int) -> Option<u8>
    decreases eps.len() - i,
{
    if i < 0 || i >= eps.len() {
        None
    } else if is_interrupt_in(eps[i]) {
        Some(eps[i].b_endpoint_address)
    } else {
        first_interrupt_in_from(eps, i + 1)
    }
}

/// The address of the first interrupt IN endpoint.
pub open spec fn first_interrupt_in(eps: Seq<EndpointDescriptor>) -> Option<u8> {
    first_interrupt_in_from(eps, 0)
}

/// The address of the interface's first interrupt IN endpoint.
pub fn find_in_endpoint_address(interface_tree: &UsbInterfaceTree) -> (r: Option<u8>)
    ensures
        r == first_interrupt_in(interface_tree.endpoints@),
        match r {
            Some(a) => exists|k: int|
                0 <= k < interface_tree.endpoints@.len() && is_interrupt_in(
                    #[trigger] interface_tree.endpoints@[k],
                ) && (forall|j: int|
                    0 <= j < k ==> !is_interrupt_in(interface_tree.endpoints@[j])) && a
                    == interface_tree.endpoints@[k].b_endpoint_address,
            None => forall|j: int|
                0 <= j < interface_tree.endpoints@.len() ==> !is_interrupt_in(
                    interface_tree.endpoints@[j],
                ),
        },
{
    let mut i: usize = 0;
    while i < interface_tree.endpoints.len()
        invariant
            i <= interface_tree.endpoints@.len(),
            forall|j: int| 0 <= j < i ==> !is_interrupt_in(interface_tree.endpoints@[j]),
            first_interrupt_in(interface_tree.endpoints@) == first_interrupt_in_from(interface_tree.endpoints@, i as int),
        decreases interface_tree.endpoints@.len() - i,
    {
        let ep = &interface_tree.endpoints[i];
        let is_in = (ep.b_endpoint_address & 0x80) != 0;
        let is_interrupt = (ep.bm_attributes & 0b11) == 3;
        if is_in && is_interrupt {
            assert(is_interrupt_in(interface_tree.endpoints@[i as int]));
            return Some(ep.b_endpoint_address);
        }
        i = i + 1;
    }
    None
}

/// What the kernel does with a HID interface.
#[derive(PartialEq, Eq, Structural, Clone, Copy, Debug)]
pub enum HidInterfaceKind {
    /// A boot protocol keyboard, which the kernel drives.
    BootKeyboard,
    /// A boot protocol mouse, which the kernel recognises.
    BootMouse,
    /// An interface without boot protocol support, which the kernel skips.
    NoBootProtocol,
    /// Anything else, which the kernel refuses.
    Invalid,
}

/// The kind of HID interface that a subclass and protocol announce.
pub fn hid_interface_kind(sub_class: u8, protocol: u8) -> (r: HidInterfaceKind)
    ensures
        r == if sub_class == 1 && protocol == 1 {
            HidInterfaceKind::BootKeyboard
        } else if sub_class == 1 && protocol == 2 {
            HidInterfaceKind::BootMouse
        } else if sub_class == 0 {
            HidInterfaceKind::NoBootProtocol
        } else {
            HidInterfaceKind::Invalid
        },
{
    if sub_class == HID_SUBCLASS_BOOT && protocol == HID_PROTOCOL_KEYBOARD {
        HidInterfaceKind::BootKeyboard
    } else if sub_class == HID_SUBCLASS_BOOT && protocol == HID_PROTOCOL_MOUSE {
        HidInterfaceKind::BootMouse
    } else if sub_class == HID_SUBCLASS_NONE {
        HidInterfaceKind::NoBootProtocol
    } else {
        HidInterfaceKind::Invalid
    }
}

/// The class request SET_PROTOCOL(boot) to interface `interface_num`.
pub fn hid_set_protocol_packet(interface_num: u16) -> (r: UsbSetupPacket)
    ensures
        r == (UsbSetupPacket {
            bm_request_type: 0x21,
            b_request: 0x0B,
            w_value: 0,
            w_index: interface_num,
            w_length: 0,
        }),
{
    UsbSetupPacket::new(0x21, 0x0B, 0x0000, interface_num, 0)
}

/// The class request SET_IDLE(0, 0) to interface `interface_number`: report
/// only on change, for every report.
pub fn hid_set_idle_packet(interface_number: u16) -> (r: UsbSetupPacket)
    ensures
        r == (UsbSetupPacket {
            bm_request_type: 0x21,
            b_request: 0x0A,
            w_value: 0,
            w_index: interface_number,
            w_length: 0,
        }),
{
    UsbSetupPacket::new(0x21, 0x0A, 0x0000, interface_number, 0)
}

/// A report as it came from the device.
pub struct RawHidReport<'a> {
    pub data: &'a [u8],
}

/// What a HID device reported.
#[derive(Clone, Copy, Debug, PartialEq, Eq, Structural)]
pub enum HidEvent {
    Key(KeyEvent),
    Mouse(MouseEvent),
}

/// The request a HID driver listens with: an interrupt IN transfer from
/// `endpoint` of the device into `length` bytes at `dma_buffer`.
pub open spec fn interrupt_in_request(hardware_id: u8, endpoint: u8, dma_buffer: u64, length: usize) -> UsbTransferRequest {
    UsbTransferRequest {
        target_hardware_id: hardware_id,
        endpoint_address: endpoint,
        transfer_direction: UsbTransferDirection::DeviceToHost,
        transfer_type: UsbTransferType::Interrupt,
        setup_packet: None,
        dma_buffer: Some(dma_buffer),
        data_buffer_length: length,
        status: UsbTransferStatus::Pending,
        bytes_transferred: 0,
    }
}

/// Builds the request a HID driver listens with.
pub fn listen_request(hardware_id: u8, endpoint: u8, dma_buffer: u64, length: usize) -> (r: UsbTransferRequest)
    ensures
        r == interrupt_in_request(hardware_id, endpoint, dma_buffer, length),
{
    UsbTransferRequest {
        target_hardware_id: hardware_id,
        endpoint_address: endpoint,
        transfer_direction: UsbTransferDirection::DeviceToHost,
        transfer_type: UsbTransferType::Interrupt,
        setup_packet: None,
        dma_buffer: Some(dma_buffer),
        data_buffer_length: length,
        status: UsbTransferStatus::Pending,
        bytes_transferred: 0,
    }
}

/// A driver of a HID device: it turns reports into events and listens on
/// the device's interrupt IN endpoint.
pub trait HidDriver: Sized {
    /// Whether the driver takes a report of these bytes.
    spec fn accepts_report(&self, data: Seq<u8>) -> bool;

    /// The events of a report of these bytes.
    spec fn report_events_of(&self, data: Seq<u8>) -> Seq<HidEvent>;

    /// Whether `after` is the driver after a report of these bytes.
    spec fn after_report(&self, after: &Self, data: Seq<u8>) -> bool;

    /// The interrupt IN endpoint.
    spec fn in_endpoint(&self) -> u8;

    /// The length of the buffer it listens with.
    spec fn listen_length(&self) -> usize;

    /// Whether `after` is the driver listening with `request`.
    spec fn after_listening(&self, after: &Self, request: UsbTransferRequest) -> bool;

    fn handle_hid_report(&mut self, report: RawHidReport) -> (r: Vec<HidEvent>)
        requires
            old(self).accepts_report(report.data@),
        ensures
            r@ == old(self).report_events_of(report.data@),
            old(self).after_report(final(self), report.data@),
    ;

    fn start_listening(&mut self, hardware_id: u8, dma_buffer: u64) -> (r: UsbTransferRequest)
        ensures
            r == interrupt_in_request(hardware_id, old(self).in_endpoint(), dma_buffer, old(self).listen_length()),
            old(self).after_listening(final(self), r),
    ;
}

/// A HID device the kernel drives.
pub enum HidDevice {
    Keyboard(HidKeyboard),
    Mouse(HidMouse),
}

/// The HID devices the kernel drives, by system ID.
pub struct HidCore {
    devices: Vec<(u64, HidDevice)>,
}

/// Makes the request ending the device's switch to the boot protocol: once
/// SET_PROTOCOL has completed, SET_IDLE to the same interface; nothing if it
/// failed.
pub fn hid_on_set_protocol_done(request: &UsbTransferRequest) -> (r: Option<UsbTransferRequest>)
    requires
        request.setup_packet is Some,
    ensures
        r == if request.status == UsbTransferStatus::Completed {
            Some(
                UsbTransferRequest {
                    target_hardware_id: request.target_hardware_id,
                    endpoint_address: 0,
                    transfer_direction: UsbTransferDirection::HostToDevice,
                    transfer_type: UsbTransferType::Control,
                    setup_packet: Some(
                        UsbSetupPacket {
                            bm_request_type: 0x21,
                            b_request: 0x0A,
                            w_value: 0,
                            w_index: request.setup_packet->0.w_index,
                            w_length: 0,
                        },
                    ),
                    dma_buffer: None,
                    data_buffer_length: 0,
                    status: UsbTransferStatus::Pending,
                    bytes_transferred: 0,
                },
            )
        } else {
            None
        },
{
    let interface_number = match request.setup_packet {
        Some(setup) => setup.w_index,
        None => 0,
    };
    if request.status != UsbTransferStatus::Completed {
        return None;
    }
    Some(UsbTransferRequest::new_control(request.target_hardware_id, hid_set_idle_packet(interface_number)))
}

/// An interrupt IN report arrived on `request`: gives how many bytes it
/// holds, and makes the request pending again to be submitted once more.
pub fn on_interrupt_in(request: &mut UsbTransferRequest) -> (r: usize)
    ensures
        r == old(request).bytes_transferred,
        *final(request) == (UsbTransferRequest {
            status: UsbTransferStatus::Pending,
            bytes_transferred: 0,
            ..*old(request)
        }),
{
    let received = request.bytes_transferred;
    request.rearm();
    received
}

/// A device after it began listening with `request`.
pub open spec fn listening_device(d: HidDevice, request: UsbTransferRequest) -> HidDevice {
    match d {
        HidDevice::Keyboard(k) => HidDevice::Keyboard(HidKeyboard { pending_request: Some(request), ..k }),
        HidDevice::Mouse(m) => HidDevice::Mouse(HidMouse { pending_request: Some(request), ..m }),
    }
}

/// The request a device listens with.
pub open spec fn device_listen_request(d: HidDevice, hardware_id: u8, dma_buffer: u64) -> UsbTransferRequest {
    match d {
        HidDevice::Keyboard(k) => interrupt_in_request(hardware_id, k.in_endpoint_address, dma_buffer, 8),
        HidDevice::Mouse(m) => interrupt_in_request(hardware_id, m.in_endpoint_address, dma_buffer, 4),
    }
}

impl HidCore {
    /// The devices by system ID.
    pub closed spec fn devices(&self) -> Map<u64, HidDevice> {
        pairs_map(self.devices@)
    }

    /// No system ID is there twice.
    pub closed spec fn wf(&self) -> bool {
        keys_unique(self.devices@)
    }

    /// No device.
    pub fn new() -> (r: Self)
        ensures
            r.wf(),
            r.devices() == Map::<u64, HidDevice>::empty(),
    {
        let r = HidCore { devices: Vec::new() };
        assert(pairs_map(r.devices@) =~= Map::<u64, HidDevice>::empty());
        r
    }

    /// Where the device of `system_id` is held, if it is.
    fn index_of(&self, system_id: u64) -> (r: Option<usize>)
        requires
            self.wf(),
        ensures
            r is None ==> !self.devices().dom().contains(system_id),
            r matches Some(i) ==> i < self.devices@.len() && self.devices@[i as int].0 == system_id,
    {
        let n = self.devices.len();
        let mut i: usize = 0;
        while i < n
            invariant
                n == self.devices@.len(),
                i <= n,
                forall|j: int| 0 <= j < i ==> self.devices@[j].0 != system_id,
            decreases n - i,
        {
            if self.devices[i].0 == system_id {
                return Some(i);
            }
            i = i + 1;
        }
        proof {
            lemma_pairs_contains(self.devices@, system_id);
        }
        None
    }

    /// Whether the device of `system_id` is driven.
    pub fn contains(&self, system_id: u64) -> (r: bool)
        requires
            self.wf(),
        ensures
            r == self.devices().dom().contains(system_id),
    {
        match self.index_of(system_id) {
            Some(i) => {
                proof {
                    lemma_pairs_value(self.devices@, i as int);
                }
                true
            },
            None => false,
        }
    }

    /// Drives `device` as the device of `system_id`, in place of any other.
    fn insert(&mut self, system_id: u64, device: HidDevice)
        requires
            old(self).wf(),
        ensures
            final(self).wf(),
            final(self).devices() == old(self).devices().insert(system_id, device),
    {
        match self.index_of(system_id) {
            Some(i) => {
                proof {
                    lemma_pairs_update(self.devices@, i as int, device);
                }
                self.devices.set(i, (system_id, device));
            },
            None => {
                proof {
                    lemma_pairs_contains(self.devices@, system_id);
                }
                self.devices.push((system_id, device));
                assert(self.devices@.drop_last() =~= old(self).devices@);
            },
        }
    }
}

/// The SET_PROTOCOL(boot) request to interface `interface_num` of the
/// device numbered `hardware_id` by its controller.
pub fn hid_set_protocol(hardware_id: u8, interface_num: u16) -> (r: UsbTransferRequest)
    ensures
        r == (UsbTransferRequest {
            target_hardware_id: hardware_id,
            endpoint_address: 0,
            transfer_direction: UsbTransferDirection::HostToDevice,
            transfer_type: UsbTransferType::Control,
            setup_packet: Some(
                UsbSetupPacket { bm_request_type: 0x21, b_request: 0x0B, w_value: 0, w_index: interface_num, w_length: 0 },
            ),
            dma_buffer: None,
            data_buffer_length: 0,
            status: UsbTransferStatus::Pending,
            bytes_transferred: 0,
        }),
{
    UsbTransferRequest::new_control(hardware_id, hid_set_protocol_packet(interface_num))
}

/// Takes on the HID interface `interface_tree` of the device known as
/// `system_id` and numbered `hardware_id` by its controller: it needs an
/// interrupt IN endpoint; a boot keyboard is driven from then on, a boot
/// mouse is recognised; both are then switched to the boot protocol with
/// the SET_PROTOCOL request given back. Interfaces without the boot
/// protocol, and invalid ones, are left alone.
pub fn hid_register_usb_device(hid_core: &mut HidCore, system_id: u64, hardware_id: u8, interface_tree: &UsbInterfaceTree) -> (r: Option<UsbTransferRequest>)
    requires
        old(hid_core).wf(),
    ensures
        final(hid_core).wf(),
        ({
            let ep = first_interrupt_in(interface_tree.endpoints@);
            let sub_class = interface_tree.interface.b_interface_sub_class;
            let protocol = interface_tree.interface.b_interface_protocol;
            let keyboard = sub_class == 1 && protocol == 1;
            let mouse = sub_class == 1 && protocol == 2;
            let set_protocol = UsbTransferRequest {
                target_hardware_id: hardware_id,
                endpoint_address: 0,
                transfer_direction: UsbTransferDirection::HostToDevice,
                transfer_type: UsbTransferType::Control,
                setup_packet: Some(
                    UsbSetupPacket {
                        bm_request_type: 0x21,
                        b_request: 0x0B,
                        w_value: 0,
                        w_index: interface_tree.interface.b_interface_number as u16,
                        w_length: 0,
                    },
                ),
                dma_buffer: None,
                data_buffer_length: 0,
                status: UsbTransferStatus::Pending,
                bytes_transferred: 0,
            };
            &&& (ep is None || !(keyboard || mouse)) ==> r is None && final(hid_core).devices() == old(hid_core).devices()
            &&& (ep is Some && mouse) ==> r == Some(set_protocol) && final(hid_core).devices() == old(hid_core).devices()
            &&& (ep is Some && keyboard) ==> {
                &&& r == Some(set_protocol)
                &&& final(hid_core).devices() == old(hid_core).devices().insert(system_id, final(hid_core).devices()[system_id])
                &&& final(hid_core).devices()[system_id] matches HidDevice::Keyboard(k)
                &&& k.in_endpoint_address == ep->0
                &&& k.pending_request is None
                &&& k.previous_key_state@ == seq![0u8, 0u8, 0u8, 0u8, 0u8, 0u8, 0u8, 0u8]
            }
        }),
{
    let interface = &interface_tree.interface;
    let endpoint_in_address = match find_in_endpoint_address(interface_tree) {
        Some(address) => address,
        None => return None,
    };
    match hid_interface_kind(interface.b_interface_sub_class, interface.b_interface_protocol) {
        HidInterfaceKind::BootKeyboard => {
            let keyboard = HidKeyboard::new(endpoint_in_address);
            let ghost d = HidDevice::Keyboard(keyboard);
            hid_core.insert(system_id, HidDevice::Keyboard(keyboard));
            assert(hid_core.devices()[system_id] == d);
        },
        HidInterfaceKind::BootMouse => {},
        HidInterfaceKind::NoBootProtocol => {
            return None;
        },
        HidInterfaceKind::Invalid => {
            return None;
        },
    }
    Some(hid_set_protocol(hardware_id, interface.b_interface_number as u16))
}

/// SET_IDLE completed for the device of `system_id`, numbered
/// `hardware_id` by its controller: its driver starts listening, into
/// the buffer at `dma_buffer`, and the request to submit is given back.
pub fn hid_on_set_idle_done(hid_core: &mut HidCore, system_id: u64, hardware_id: u8, dma_buffer: u64) -> (r: UsbTransferRequest)
    requires
        old(hid_core).wf(),
        old(hid_core).devices().dom().contains(system_id),
    ensures
        final(hid_core).wf(),
        r == device_listen_request(old(hid_core).devices()[system_id], hardware_id, dma_buffer),
        final(hid_core).devices() == old(hid_core).devices().insert(
            system_id,
            listening_device(old(hid_core).devices()[system_id], r),
        ),
{
    let i = match hid_core.index_of(system_id) {
        Some(i) => i,
        None => {
            proof {
                assert(false);
            }
            0
        },
    };
    proof {
        lemma_pairs_value(hid_core.devices@, i as int);
    }
    let mut entry: (u64, HidDevice) = (system_id, HidDevice::Mouse(HidMouse::new(0)));
    hid_core.devices.set_and_swap(i, &mut entry);
    let (key, mut device) = entry;
    let request = match &mut device {
        HidDevice::Keyboard(k) => k.start_listening(hardware_id, dma_buffer),
        HidDevice::Mouse(m) => m.start_listening(hardware_id, dma_buffer),
    };
    proof {
        lemma_pairs_update(old(hid_core).devices@, i as int, device);
    }
    hid_core.devices.set(i, (key, device));
    assert(hid_core.devices@ =~= old(hid_core).devices@.update(i as int, (old(hid_core).devices@[i as int].0, device)));
    request
}

} // verus!
