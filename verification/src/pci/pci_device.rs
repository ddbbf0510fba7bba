//! A PCI function as the configuration space describes it, and the errors
//! of bringing a device up.
use vstd::prelude::*;

verus! {

/// Offset of the command register in configuration space.
pub const PCI_COMMAND_REGISTER: u32 = 0x04;
/// Command bit 1: respond to memory space accesses.
pub const PCI_COMMAND_MEMORY_SPACE: u16 = 0x2;
/// Command bit 2: allow the device to master the bus.
pub const PCI_COMMAND_BUS_MASTER: u16 = 0x4;

/// The identifying fields of a PCI function and its configuration address.
#[derive(Clone, Copy, Debug)]
pub struct PciDevice {
    vendor_id: u16,
    device_id: u16,
    class_code: u8,
    sub_class: u8,
    prog_info_byte: u8,
    header_type: u8,
    base_id: u32,
}

/// Why a device could not be brought up.
#[derive(Debug, Clone, Copy, PartialEq, Eq, Structural)]
pub enum PciDeviceInitError {
    NotImplemeted,
    InvalidBarType,
    InitializationFailure,
    TimeoutError,
    NoMSIXCapabilities,
    DmaAllocationFailure,
    XhciControllerStopTimeout,
    XhciControllerResetTimeout,
    XhciControllerNotReadyTimeout,
    XhciControllerStartTimeout,
    XhciCommandRingInitFailure,
    XhciMsixCapabilityNotFound,
    XhciMsiCapabilityNotFound,
    XhciNoSupportedInterruptMode,
    InsufficientMsixVectors,
    InsufficientMsiVectors,
    MsixTableBarInvalid,
    MsixPbaBarInvalid,
}

/// How a driver takes over a device.
pub trait PciDeviceInitializer {
    fn initialize(pci_device: PciDevice) -> Result<(), PciDeviceInitError>;
}

impl PciDeviceInitializer for PciDevice {
    /// A bare device has no driver of its own.
    fn initialize(pci_device: PciDevice) -> (r: Result<(), PciDeviceInitError>)
        ensures
            r == Err::<(), PciDeviceInitError>(PciDeviceInitError::NotImplemeted),
    {
        Err(PciDeviceInitError::NotImplemeted)
    }
}

/// The configuration address of bus, device and function.
pub open spec fn pci_id_spec(pci_bus: u32, pci_device: u32, pci_function: u32) -> u32 {
    (pci_bus << 16u32) | (pci_device << 11u32) | (pci_function << 8u32)
}

/// The command register value with memory space and bus mastering on and
/// every other bit as it was.
pub fn command_with_mmio_and_bus_master(command: u16) -> (r: u16)
    ensures
        r == command | 0x2 | 0x4,
{
    command | PCI_COMMAND_MEMORY_SPACE | PCI_COMMAND_BUS_MASTER
}

impl PciDevice {
    pub fn get_pci_id(pci_bus: u32, pci_device: u32, pci_function: u32) -> (r: u32)
        ensures
            r == pci_id_spec(pci_bus, pci_device, pci_function),
    {
        (pci_bus << 16) | (pci_device << 11) | (pci_function << 8)
    }

    pub closed spec fn spec_vendor_id(&self) -> u16 {
        self.vendor_id
    }

    pub closed spec fn spec_device_id(&self) -> u16 {
        self.device_id
    }

    pub closed spec fn spec_class_code(&self) -> u8 {
        self.class_code
    }

    pub closed spec fn spec_sub_class(&self) -> u8 {
        self.sub_class
    }

    pub closed spec fn spec_prog_info_byte(&self) -> u8 {
        self.prog_info_byte
    }

    pub closed spec fn spec_header_type(&self) -> u8 {
        self.header_type
    }

    pub closed spec fn spec_base_id(&self) -> u32 {
        self.base_id
    }

    pub fn new(
        vendor_id: u16,
        device_id: u16,
        class_code: u8,
        sub_class: u8,
        prog_info_byte: u8,
        header_type: u8,
        base_id: u32,
    ) -> (r: Self)
        ensures
            r.spec_vendor_id() == vendor_id,
            r.spec_device_id() == device_id,
            r.spec_class_code() == class_code,
            r.spec_sub_class() == sub_class,
            r.spec_prog_info_byte() == prog_info_byte,
            r.spec_header_type() == header_type,
            r.spec_base_id() == base_id,
    {
        PciDevice {
            vendor_id,
            device_id,
            class_code,
            sub_class,
            prog_info_byte,
            header_type,
            base_id,
        }
    }

    /// A device known only by its configuration address.
    pub fn new_empty(base_id: u32) -> (r: Self)
        ensures
            r.spec_vendor_id() == 0,
            r.spec_device_id() == 0,
            r.spec_class_code() == 0,
            r.spec_sub_class() == 0,
            r.spec_prog_info_byte() == 0,
            r.spec_header_type() == 0,
            r.spec_base_id() == base_id,
    {
        PciDevice {
            vendor_id: 0,
            device_id: 0,
            class_code: 0,
            sub_class: 0,
            prog_info_byte: 0,
            header_type: 0,
            base_id,
        }
    }

    pub fn prog_info_byte(&self) -> (r: u8)
        ensures
            r == self.spec_prog_info_byte(),
    {
        self.prog_info_byte
    }

    pub fn class_code(&self) -> (r: u8)
        ensures
            r == self.spec_class_code(),
    {
        self.class_code
    }

    pub fn sub_class(&self) -> (r: u8)
        ensures
            r == self.spec_sub_class(),
    {
        self.sub_class
    }

    pub fn vendor_id(&self) -> (r: u16)
        ensures
            r == self.spec_vendor_id(),
    {
        self.vendor_id
    }

    pub fn device_id(&self) -> (r: u16)
        ensures
            r == self.spec_device_id(),
    {
        self.device_id
    }

    pub fn header_type(&self) -> (r: u8)
        ensures
            r == self.spec_header_type(),
    {
        self.header_type
    }

    pub fn base_id(&self) -> (r: u32)
        ensures
            r == self.spec_base_id(),
    {
        self.base_id
    }
}

} // verus!
