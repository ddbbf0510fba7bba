//! The USB core: the devices that the host controllers hand over, each
//! with a system ID of its own, and the first request sent to each.
use vstd::prelude::*;
use crate::usb::usb_transfers::UsbSetupPacket;

verus! {

/// A device the core knows: its system ID and the ID its controller gave.
#[derive(Clone, Copy, Debug, PartialEq, Eq, Structural)]
pub struct UsbDeviceRecord {
    pub system_id: u64,
    pub hardware_id: u8,
}

/// The devices in the order they came, and the next system ID.
pub struct UsbCore {
    pub devices: Vec<UsbDeviceRecord>,
    pub next_system_id: u64,
}

/// The core's invariant: system IDs start at 1, rise with each device, and
/// stay below the next one to be handed out.
pub open spec fn core_wf(devices: Seq<UsbDeviceRecord>, next: u64) -> bool {
    &&& next >= 1
    &&& forall|i: int| 0 <= i < devices.len() ==> 1 <= #[trigger] devices[i].system_id < next
    &&& forall|i: int, j: int| 0 <= i < j < devices.len() ==> devices[i].system_id < devices[j].system_id
}

impl UsbCore {
    /// No device; the first ID is 1.
    pub fn new() -> (r: Self)
        ensures
            r.devices@.len() == 0,
            r.next_system_id == 1,
            core_wf(r.devices@, r.next_system_id),
    {
        UsbCore { devices: Vec::new(), next_system_id: 1 }
    }

    /// Hands out the next system ID.
    pub fn new_system_id(&mut self) -> (r: u64)
        requires
            old(self).next_system_id < u64::MAX,
        ensures
            r == old(self).next_system_id,
            final(self).next_system_id == old(self).next_system_id + 1,
            final(self).devices@ == old(self).devices@,
    {
        let id = self.next_system_id;
        self.next_system_id = self.next_system_id + 1;
        id
    }

    /// Adds the device that its controller numbers `hardware_id`, under
    /// the next system ID; gives it, and the request for its device
    /// descriptor (GET_DESCRIPTOR of the 18-byte device descriptor).
    pub fn add_device(&mut self, hardware_id: u8) -> (r: (UsbDeviceRecord, UsbSetupPacket))
        requires
            core_wf(old(self).devices@, old(self).next_system_id),
            old(self).next_system_id < u64::MAX,
        ensures
            core_wf(final(self).devices@, final(self).next_system_id),
            r.0 == (UsbDeviceRecord { system_id: old(self).next_system_id, hardware_id }),
            final(self).devices@ == old(self).devices@.push(r.0),
            final(self).next_system_id == old(self).next_system_id + 1,
            r.1 == (UsbSetupPacket {
                bm_request_type: 0x80,
                b_request: 0x06,
                w_value: 0x0100,
                w_index: 0,
                w_length: 18,
            }),
    {
        let system_id = self.new_system_id();
        let device = UsbDeviceRecord { system_id, hardware_id };
        self.devices.push(device);
        let setup = UsbSetupPacket::new(0x80, 0x06, 0x0100, 0x0000, 18);
        (device, setup)
    }
}

/// No two devices of the core share a system ID.
pub proof fn law_system_ids_unique(devices: Seq<UsbDeviceRecord>, next: u64, i: int, j: int)
    requires
        core_wf(devices, next),
        0 <= i < devices.len(),
        0 <= j < devices.len(),
        i != j,
    ensures
        devices[i].system_id != devices[j].system_id,
{
}

} // verus!
