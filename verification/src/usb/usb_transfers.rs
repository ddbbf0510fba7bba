//! The kinds, directions and states of USB transfers, and the setup packet
//! of a control transfer.
use vstd::prelude::*;

verus! {

#[derive(Debug, Clone, Copy, PartialEq, Eq, Structural)]
pub enum UsbTransferType {
    Control,
    Isochronous,
    Bulk,
    Interrupt,
}

#[derive(Debug, Clone, Copy, PartialEq, Eq, Structural)]
pub enum UsbTransferStatus {
    Pending,
    Completed,
    Stalled,
    Error,
}

#[derive(Debug, Clone, Copy, PartialEq, Eq, Structural)]
pub enum UsbTransferDirection {
    HostToDevice,
    DeviceToHost,
}

/// The eight bytes that start every control transfer.
#[derive(Debug, Clone, Copy, PartialEq, Eq, Structural)]
pub struct UsbSetupPacket {
    pub bm_request_type: u8,
    pub b_request: u8,
    pub w_value: u16,
    pub w_index: u16,
    pub w_length: u16,
}

impl UsbSetupPacket {
    pub fn new(bm_request_type: u8, b_request: u8, w_value: u16, w_index: u16, w_length: u16) -> (r:
        Self)
        ensures
            r == (UsbSetupPacket { bm_request_type, b_request, w_value, w_index, w_length }),
    {
        Self { bm_request_type, b_request, w_value, w_index, w_length }
    }

    /// The packet as it goes on the wire, 16-bit fields little-endian.
    pub fn as_bytes(&self) -> (r: [u8; 8])
        ensures
            r@ == setup_packet_bytes(*self),
    {
        let r = [
            self.bm_request_type,
            self.b_request,
            (self.w_value % 256) as u8,
            (self.w_value / 256) as u8,
            (self.w_index % 256) as u8,
            (self.w_index / 256) as u8,
            (self.w_length % 256) as u8,
            (self.w_length / 256) as u8,
        ];
        assert(r@ =~= setup_packet_bytes(*self));
        r
    }
}

/// The eight bytes of the packet `p` as they go on the wire, 16-bit fields
/// little-endian.
pub open spec fn setup_packet_bytes(p: UsbSetupPacket) -> Seq<u8> {
    seq![
        p.bm_request_type,
        p.b_request,
        (p.w_value % 256) as u8,
        (p.w_value / 256) as u8,
        (p.w_index % 256) as u8,
        (p.w_index / 256) as u8,
        (p.w_length % 256) as u8,
        (p.w_length / 256) as u8,
    ]
}

/// A transfer asked of a host controller. The device is named by the ID
/// its controller gave it, the buffer by its physical address; the callback
/// that runs on completion stays with the caller.
#[derive(Debug, Clone, Copy, PartialEq, Eq, Structural)]
pub struct UsbTransferRequest {
    pub target_hardware_id: u8,
    pub endpoint_address: u8,
    pub transfer_direction: UsbTransferDirection,
    pub transfer_type: UsbTransferType,
    pub setup_packet: Option<UsbSetupPacket>,
    pub dma_buffer: Option<u64>,
    pub data_buffer_length: usize,
    pub status: UsbTransferStatus,
    pub bytes_transferred: usize,
}

impl UsbTransferRequest {
    /// A pending interrupt transfer from `endpoint_num` of the device into a
    /// buffer of `buffer_length` bytes, nothing transferred yet. The
    /// direction field is set to host to device.
    pub fn new_interrupt_in(target_hardware_id: u8, endpoint_num: u8, dma_buffer: u64, buffer_length: usize) -> (r: Self)
        ensures
            r == (UsbTransferRequest {
                target_hardware_id,
                endpoint_address: endpoint_num,
                transfer_direction: UsbTransferDirection::HostToDevice,
                transfer_type: UsbTransferType::Interrupt,
                setup_packet: None,
                dma_buffer: Some(dma_buffer),
                data_buffer_length: buffer_length,
                status: UsbTransferStatus::Pending,
                bytes_transferred: 0,
            }),
    {
        Self {
            target_hardware_id,
            endpoint_address: endpoint_num,
            transfer_direction: UsbTransferDirection::HostToDevice,
            transfer_type: UsbTransferType::Interrupt,
            setup_packet: None,
            dma_buffer: Some(dma_buffer),
            data_buffer_length: buffer_length,
            status: UsbTransferStatus::Pending,
            bytes_transferred: 0,
        }
    }

    /// A pending control transfer on endpoint 0 with `setup` and no data
    /// stage.
    pub fn new_control(target_hardware_id: u8, setup: UsbSetupPacket) -> (r: Self)
        ensures
            r == (UsbTransferRequest {
                target_hardware_id,
                endpoint_address: 0,
                transfer_direction: UsbTransferDirection::HostToDevice,
                transfer_type: UsbTransferType::Control,
                setup_packet: Some(setup),
                dma_buffer: None,
                data_buffer_length: 0,
                status: UsbTransferStatus::Pending,
                bytes_transferred: 0,
            }),
    {
        Self {
            target_hardware_id,
            endpoint_address: 0,
            transfer_direction: UsbTransferDirection::HostToDevice,
            transfer_type: UsbTransferType::Control,
            setup_packet: Some(setup),
            dma_buffer: None,
            data_buffer_length: 0,
            status: UsbTransferStatus::Pending,
            bytes_transferred: 0,
        }
    }

    /// Records the end of the transfer: its status, and as transferred the
    /// buffer's length less the `residual` bytes the controller reports as
    /// not moved (0 where the residual is larger).
    pub fn complete(&mut self, status: UsbTransferStatus, residual: usize)
        ensures
            *final(self) == (UsbTransferRequest {
                status,
                bytes_transferred: if residual <= old(self).data_buffer_length {
                    (old(self).data_buffer_length - residual) as usize
                } else {
                    0
                },
                ..*old(self)
            }),
    {
        self.status = status;
        self.bytes_transferred = self.data_buffer_length.saturating_sub(residual);
    }

    /// Makes the request pending again with nothing transferred, to submit
    /// it once more.
    pub fn rearm(&mut self)
        ensures
            *final(self) == (UsbTransferRequest {
                status: UsbTransferStatus::Pending,
                bytes_transferred: 0,
                ..*old(self)
            }),
    {
        self.status = UsbTransferStatus::Pending;
        self.bytes_transferred = 0;
    }
}

} // verus!
