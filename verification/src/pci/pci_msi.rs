//! Message signalled interrupts: the MSI and MSI-X capabilities, the MSI-X
//! table entries and pending bits, and what configuring them writes.
use vstd::prelude::*;
use crate::bits::{lemma_and_le16, lemma_and_le32, lemma_bits16, lemma_bits32};
use crate::bytes::{le16, le32, read_u16_le, read_u32_le};
use crate::pci::pci_device::{PciDevice, PciDeviceInitError};

verus! {

pub const PCI_CAPABILITY_NEXT_POINTER_OFFSET: u32 = 0x01;
pub const PCI_MSIX_MESSAGE_CONTROL_OFFSET: u32 = 0x02;
pub const PCI_MSIX_TABLE_OFFSET: u32 = 0x04;
pub const PCI_MSIX_PBA_OFFSET: u32 = 0x08;
pub const PCI_MSI_MESSAGE_CONTROL_OFFSET: u32 = 0x02;
pub const PCI_MSI_MESSAGE_ADDRESS_LOW_OFFSET: u32 = 0x04;
pub const PCI_MSI_MESSAGE_ADDRESS_HIGH_OFFSET: u32 = 0x08;
pub const PCI_MSI_MESSAGE_DATA_32_OFFSET: u32 = 0x08;
pub const PCI_MSI_MESSAGE_DATA_64_OFFSET: u32 = 0x0C;
/// The address window in which the local APICs receive messages.
pub const LAPIC_MSI_ADDR: u64 = 0xFEE0_0000;

/// The MSI-X capability structure in configuration space.
#[derive(Clone, Copy, Debug)]
pub struct MsixCapability {
    pub cap_id: u8,
    pub next: u8,
    pub message_control: u16,
    pub table: u32,
    pub pba: u32,
}

/// `v` holds the 12-byte record stored in `s` at `off`.
pub open spec fn msix_capability_at(v: MsixCapability, s: Seq<u8>, off: int) -> bool {
    &&& 0 <= off && off + 12 <= s.len()
    &&& v.cap_id == s[off]
    &&& v.next == s[off + 1]
    &&& v.message_control == le16(s, off + 2)
    &&& v.table == le32(s, off + 4)
    &&& v.pba == le32(s, off + 8)
}

impl MsixCapability {
    /// Size of the record in bytes.
    pub const SIZE: usize = 12;

    /// Decodes the record stored in `data` at `off`.
    pub fn read_from(data: &[u8], off: usize) -> (r: MsixCapability)
        requires
            off + 12 <= data@.len(),
        ensures
            msix_capability_at(r, data@, off as int),
    {
        let _n = data.len();
        MsixCapability {
            cap_id: data[off],
            next: data[off + 1],
            message_control: read_u16_le(data, off + 2),
            table: read_u32_le(data, off + 4),
            pba: read_u32_le(data, off + 8),
        }
    }
}

impl MsixCapability {
    /// Number of table entries: the encoded size plus one.
    pub fn table_size(&self) -> (r: u16)
        ensures
            r == (self.message_control & 0x07FF) + 1,
    {
        proof {
            lemma_and_le16(self.message_control, 0x07FF);
        }
        (self.message_control & 0x07FF) + 1
    }

    pub fn enabled(&self) -> (r: bool)
        ensures
            r == (self.message_control & 0x8000 != 0),
    {
        (self.message_control & 0x8000) != 0
    }

    /// Sets the MSI-X enable bit (15).
    pub fn enable(&mut self)
        ensures
            final(self).message_control == old(self).message_control | 0x8000,
            final(self).cap_id == old(self).cap_id,
            final(self).next == old(self).next,
            final(self).table == old(self).table,
            final(self).pba == old(self).pba,
    {
        self.message_control = self.message_control | 0x8000;
    }

    /// Sets the function mask bit (14), masking every vector.
    pub fn mask_all(&mut self)
        ensures
            final(self).message_control == old(self).message_control | 0x4000,
            final(self).cap_id == old(self).cap_id,
            final(self).next == old(self).next,
            final(self).table == old(self).table,
            final(self).pba == old(self).pba,
    {
        self.message_control = self.message_control | 0x4000;
    }

    /// Clears the function mask bit (14).
    pub fn unmask_all(&mut self)
        ensures
            final(self).message_control == old(self).message_control & !0x4000u16,
            final(self).cap_id == old(self).cap_id,
            final(self).next == old(self).next,
            final(self).table == old(self).table,
            final(self).pba == old(self).pba,
    {
        self.message_control = self.message_control & !0x4000;
    }

    /// The BAR that holds the table.
    pub fn table_bir(&self) -> (r: u8)
        ensures
            r == self.table & 0x7,
    {
        proof {
            lemma_and_le32(self.table, 7);
        }
        (self.table & 0x7) as u8
    }

    /// The table's offset in its BAR.
    pub fn table_offset(&self) -> (r: u32)
        ensures
            r == self.table & !0x7u32,
    {
        self.table & !0x7
    }

    /// The BAR that holds the pending bit array.
    pub fn pba_bir(&self) -> (r: u8)
        ensures
            r == self.pba & 0x7,
    {
        proof {
            lemma_and_le32(self.pba, 7);
        }
        (self.pba & 0x7) as u8
    }

    /// The pending bit array's offset in its BAR.
    pub fn pba_offset(&self) -> (r: u32)
        ensures
            r == self.pba & !0x7u32,
    {
        self.pba & !0x7
    }

    /// Whether the table has room for `requested_vectors` vectors.
    pub fn check_vectors(&self, requested_vectors: u16) -> (r: Result<(), PciDeviceInitError>)
        ensures
            r is Ok <==> (self.message_control & 0x07FF) + 1 >= requested_vectors,
            r matches Err(e) ==> e == PciDeviceInitError::InsufficientMsixVectors,
    {
        if self.table_size() < requested_vectors {
            Err(PciDeviceInitError::InsufficientMsixVectors)
        } else {
            Ok(())
        }
    }
}

/// Masking the function and then unmasking it leaves every other bit of
/// message control as it was, with the function unmasked.
pub proof fn law_mask_unmask(mc: u16)
    ensures
        (mc | 0x4000) & !0x4000u16 == mc & !0x4000u16,
        ((mc | 0x4000) & !0x4000u16) & 0x4000 == 0,
{
    lemma_bits16(mc, 0x4000, true);
    lemma_bits16(mc | 0x4000, 0x4000, false);
}

/// One entry of the MSI-X table.
#[derive(Clone, Copy, Debug)]
pub struct MsixTableEntry {
    pub msg_addr_low: u32,
    pub msg_addr_high: u32,
    pub msg_data: u32,
    pub vector_ctrl: u32,
}

impl MsixTableEntry {
    pub const MASK_BIT: u32 = 1;

    pub fn is_masked(&self) -> (r: bool)
        ensures
            r == (self.vector_ctrl & 1 != 0),
    {
        self.vector_ctrl & Self::MASK_BIT != 0
    }

    /// Sets or clears the vector's mask bit (0), keeping the other bits.
    pub fn set_masked(&mut self, masked: bool)
        ensures
            final(self).vector_ctrl == if masked {
                old(self).vector_ctrl | 1
            } else {
                old(self).vector_ctrl & !1u32
            },
            final(self).msg_addr_low == old(self).msg_addr_low,
            final(self).msg_addr_high == old(self).msg_addr_high,
            final(self).msg_data == old(self).msg_data,
    {
        if masked {
            self.vector_ctrl = self.vector_ctrl | Self::MASK_BIT;
        } else {
            self.vector_ctrl = self.vector_ctrl & !Self::MASK_BIT;
        }
    }

    /// The entry that delivers `vector` to `message_address`, unmasked.
    pub fn programmed(message_address: u64, vector: u8) -> (r: MsixTableEntry)
        ensures
            r.msg_addr_low == message_address as u32,
            r.msg_addr_high == (message_address >> 32u64) as u32,
            r.msg_data == vector,
            r.vector_ctrl == 0,
    {
        MsixTableEntry {
            msg_addr_low: message_address as u32,
            msg_addr_high: (message_address >> 32) as u32,
            msg_data: vector as u32,
            vector_ctrl: 0,
        }
    }
}

/// Setting the mask reads back as masked, clearing it as unmasked.
pub proof fn law_set_masked_reads_back(ctrl: u32, masked: bool)
    ensures
        ((if masked {
            ctrl | 1
        } else {
            ctrl & !1u32
        }) & 1 != 0) == masked,
{
    lemma_bits32(ctrl, 1, masked);
}

/// The table entries that deliver each of `vectors` to `message_address`,
/// in order, all unmasked.
pub fn msix_table_entries(message_address: u64, vectors: &[u8]) -> (r: Vec<MsixTableEntry>)
    ensures
        r@.len() == vectors@.len(),
        forall|i: int|
            0 <= i < r@.len() ==> {
                &&& (#[trigger] r@[i]).msg_addr_low == message_address as u32
                &&& r@[i].msg_addr_high == (message_address >> 32u64) as u32
                &&& r@[i].msg_data == vectors@[i]
                &&& r@[i].vector_ctrl == 0
            },
{
    let mut r: Vec<MsixTableEntry> = Vec::new();
    let mut i: usize = 0;
    while i < vectors.len()
        invariant
            i <= vectors@.len(),
            r@.len() == i,
            forall|k: int|
                0 <= k < i ==> {
                    &&& (#[trigger] r@[k]).msg_addr_low == message_address as u32
                    &&& r@[k].msg_addr_high == (message_address >> 32u64) as u32
                    &&& r@[k].msg_data == vectors@[k]
                    &&& r@[k].vector_ctrl == 0
                },
        decreases vectors@.len() - i,
    {
        r.push(MsixTableEntry::programmed(message_address, vectors[i]));
        i = i + 1;
    }
    r
}

/// Where the pending bit array lies in its BAR, and how many vectors it
/// covers.
#[derive(Clone, Copy, Debug)]
pub struct MsixPBA {
    pub offset: u32,
    pub vectors: usize,
}

impl MsixPBA {
    pub fn new(pba_offset: u32, vectors: usize) -> (r: Self)
        ensures
            r.offset == pba_offset,
            r.vectors == vectors,
    {
        MsixPBA { offset: pba_offset, vectors }
    }

    /// Index of the 32-bit word of the array that is read for `vector`.
    pub fn word_index(&self, vector: u16) -> (r: usize)
        ensures
            r == vector / 64,
    {
        assert((vector as usize) >> 6usize == (vector as usize) / 64) by (bit_vector);
        (vector as usize) >> 6
    }

    /// Whether `word`, the word at `word_index(vector)`, shows `vector`
    /// pending: the bit at `vector % 64`, which must fall inside the word.
    pub fn is_pending(&self, word: u32, vector: u16) -> (r: bool)
        requires
            vector % 64 < 32,
        ensures
            r == ((word >> ((vector % 64) as u32)) & 1 != 0),
    {
        let bit = (vector as usize) % 64;
        (word >> (bit as u32)) & 0x01 != 0
    }
}

/// The MSI capability structure in configuration space.
#[derive(Debug, Clone, Copy)]
pub struct MsiCapability {
    pub cap_id: u8,
    pub next: u8,
    pub message_control: u16,
    pub message_address_low: u32,
    pub message_address_high: u32,
    pub message_data: u16,
}

/// The number of vectors that a message control value announces: two to
/// the power of its multiple message capable field, capped at 32.
pub open spec fn capable_vectors_spec(mc: u16) -> u16 {
    let mmc = (mc >> 1u16) & 7;
    let e = if mmc < 5 {
        mmc
    } else {
        5
    };
    (1u16 << e) as u16
}

impl MsiCapability {
    /// Bit 7: the device takes a 64-bit message address.
    pub fn is_64_bit_capable(&self) -> (r: bool)
        ensures
            r == (self.message_control & 0x80 != 0),
    {
        self.message_control & 0x80 != 0
    }

    /// Enables MSI with a single message: clears multiple message enable
    /// (bits 4..7) and sets MSI enable (bit 0).
    pub fn enable_single_vector(&mut self)
        ensures
            final(self).message_control == (old(self).message_control & !0x70u16) | 1,
            final(self).cap_id == old(self).cap_id,
            final(self).next == old(self).next,
            final(self).message_address_low == old(self).message_address_low,
            final(self).message_address_high == old(self).message_address_high,
            final(self).message_data == old(self).message_data,
    {
        self.message_control = self.message_control & !0x70;
        self.message_control = self.message_control | 1;
    }

    pub fn capable_vectors(&self) -> (r: u16)
        ensures
            r == capable_vectors_spec(self.message_control),
    {
        let mmc = (self.message_control >> 1) & 0b111;
        let safe_mmc = if mmc < 5 {
            mmc
        } else {
            5
        };
        1 << safe_mmc
    }

    /// Programs the message address and data for `base_vector` and enables
    /// a single message.
    pub fn program(&mut self, message_address: u64, base_vector: u8)
        ensures
            final(self).message_address_low == message_address as u32,
            final(self).message_address_high == (message_address >> 32u64) as u32,
            final(self).message_data == base_vector,
            final(self).message_control == (old(self).message_control & !0x70u16) | 1,
            final(self).cap_id == old(self).cap_id,
            final(self).next == old(self).next,
    {
        self.message_address_low = message_address as u32;
        self.message_address_high = (message_address >> 32) as u32;
        self.message_data = base_vector as u16;
        self.enable_single_vector();
    }

    /// Offset of the message data register: after the high address
    /// register on 64-bit capable devices.
    pub fn message_data_offset(&self) -> (r: u32)
        ensures
            r == if self.message_control & 0x80 != 0 {
                0x0Cu32
            } else {
                0x08u32
            },
    {
        if self.is_64_bit_capable() {
            PCI_MSI_MESSAGE_DATA_64_OFFSET
        } else {
            PCI_MSI_MESSAGE_DATA_32_OFFSET
        }
    }
}

/// A device never announces more than 32 MSI vectors, and always a power
/// of two.
pub proof fn law_capable_vectors_power_of_two(mc: u16)
    ensures
        capable_vectors_spec(mc) == 1 || capable_vectors_spec(mc) == 2 || capable_vectors_spec(mc)
            == 4 || capable_vectors_spec(mc) == 8 || capable_vectors_spec(mc) == 16
            || capable_vectors_spec(mc) == 32,
{
    let mmc = (mc >> 1u16) & 7;
    lemma_and_le16(mc >> 1u16, 7);
    assert(1u16 << 0u16 == 1 && 1u16 << 1u16 == 2 && 1u16 << 2u16 == 4 && 1u16 << 3u16 == 8 && 1u16
        << 4u16 == 16 && 1u16 << 5u16 == 32) by (bit_vector);
}

/// Number of MSI vectors to allocate: what was asked for, but no more than
/// the device can take.
pub fn msi_vector_count(capability: &MsiCapability, requested_vectors: u16) -> (r: u16)
    ensures
        r == if requested_vectors < capable_vectors_spec(capability.message_control) {
            requested_vectors
        } else {
            capable_vectors_spec(capability.message_control)
        },
{
    let capable = capability.capable_vectors();
    if requested_vectors < capable {
        requested_vectors
    } else {
        capable
    }
}

/// The message address that targets the local APIC `lapic_id` (0 where no
/// local APIC is known).
pub fn msi_message_address(lapic_id: Option<u32>) -> (r: u64)
    ensures
        r == 0xFEE0_0000u64 | ((match lapic_id {
            Some(id) => id as u64,
            None => 0u64,
        }) << 12u64),
{
    let id: u64 = match lapic_id {
        Some(id) => id as u64,
        None => 0,
    };
    LAPIC_MSI_ADDR | (id << 12)
}

/// The MSI-X setup of a device: its capability, its pending bits and the
/// vectors that were allocated for it.
pub struct MsixConfiguration {
    pub capability: MsixCapability,
    pub pba: MsixPBA,
    pub vectors: Vec<u8>,
}

/// The MSI setup of a device: its capability and its vectors.
pub struct MsiConfiguration {
    pub capability: MsiCapability,
    pub vectors: Vec<u8>,
}

/// How an xHCI controller's interrupts were set up.
pub enum XhciInterruptConfig {
    Msix {
        capability: MsixCapability,
        pba: MsixPBA,
        command_vector: u8,
        transfer_vector: u8,
    },
    Msi { capability: MsiCapability, vector: u8 },
}

/// What configuring MSI-X writes, and what it yields.
pub struct MsixSetup {
    /// Message control with every vector masked: written first, whatever
    /// follows.
    pub masked_control: u16,
    /// The table entries written, one per vector in order; empty where the
    /// setup stopped before the table.
    pub table_entries: Vec<MsixTableEntry>,
    /// The configuration, whose capability holds the message control
    /// written last; or why the setup stopped.
    pub result: Result<MsixConfiguration, PciDeviceInitError>,
}

/// Why an MSI-X setup stops, in the order the steps run: a table too small,
/// vectors that could not be allocated, a table BAR or a pending bit array
/// BAR that cannot be used.
pub open spec fn msix_setup_error(
    capability: MsixCapability,
    requested_vectors: u16,
    vectors_allocated: bool,
    table_bar_valid: bool,
    pba_bar_valid: bool,
) -> Option<PciDeviceInitError> {
    if (capability.message_control & 0x07FF) + 1 < requested_vectors {
        Some(PciDeviceInitError::InsufficientMsixVectors)
    } else if !vectors_allocated {
        Some(PciDeviceInitError::InsufficientMsixVectors)
    } else if !table_bar_valid {
        Some(PciDeviceInitError::InvalidBarType)
    } else if !pba_bar_valid {
        Some(PciDeviceInitError::MsixPbaBarInvalid)
    } else {
        None
    }
}

/// What configuring MSI with a single message writes, and what it yields.
pub struct MsiSetup {
    /// The capability as written back: message address and data, and
    /// message control with one message enabled; absent where the vectors
    /// could not be allocated.
    pub result: Result<MsiConfiguration, PciDeviceInitError>,
}

impl PciDevice {
    /// The decisions of setting up MSI-X on this device, given what was read
    /// and obtained on the way: the capability as read, the vectors the
    /// allocator handed out (`None` where it ran out), whether the table's
    /// and the pending bit array's BARs can be used, and the message
    /// address. Every vector is masked first; the table is then filled, one
    /// unmasked entry per vector; and last the function is unmasked and
    /// MSI-X enabled.
    pub fn configure_msix(
        &self,
        capability: MsixCapability,
        requested_vectors: u16,
        allocated_vectors: Option<Vec<u8>>,
        table_bar_valid: bool,
        pba_bar_valid: bool,
        message_address: u64,
    ) -> (r: MsixSetup)
        requires
            allocated_vectors matches Some(v) ==> v@.len() == requested_vectors,
        ensures
            r.masked_control == capability.message_control | 0x4000,
            ({
                let err = msix_setup_error(capability, requested_vectors, allocated_vectors is Some,
                    table_bar_valid, pba_bar_valid);
                &&& err matches Some(e) ==> r.result == Err::<MsixConfiguration, PciDeviceInitError>(e)
                &&& err is None ==> r.result is Ok
            }),
            r.table_entries@.len() == if (capability.message_control & 0x07FF) + 1 >= requested_vectors
                && allocated_vectors is Some && table_bar_valid {
                requested_vectors as int
            } else {
                0
            },
            forall|i: int|
                0 <= i < r.table_entries@.len() ==> {
                    &&& (#[trigger] r.table_entries@[i]).msg_addr_low == message_address as u32
                    &&& r.table_entries@[i].msg_addr_high == (message_address >> 32u64) as u32
                    &&& r.table_entries@[i].msg_data == allocated_vectors->0@[i]
                    &&& r.table_entries@[i].vector_ctrl == 0
                },
            r.result matches Ok(c) ==> {
                &&& c.capability.message_control == ((capability.message_control | 0x4000)
                    & !0x4000u16) | 0x8000
                &&& c.capability.cap_id == capability.cap_id
                &&& c.capability.next == capability.next
                &&& c.capability.table == capability.table
                &&& c.capability.pba == capability.pba
                &&& c.pba.offset == capability.pba & !0x7u32
                &&& c.pba.vectors == requested_vectors
                &&& c.vectors@ == allocated_vectors->0@
            },
    {
        let mut msix_capability = capability;
        proof {
            let mc = capability.message_control;
            assert((mc | 0x4000u16) & 0x07FFu16 == mc & 0x07FFu16) by (bit_vector);
        }
        msix_capability.mask_all();
        let masked_control = msix_capability.message_control;
        if let Err(e) = msix_capability.check_vectors(requested_vectors) {
            return MsixSetup { masked_control, table_entries: Vec::new(), result: Err(e) };
        }
        let vectors = match allocated_vectors {
            Some(v) => v,
            None => {
                return MsixSetup {
                    masked_control,
                    table_entries: Vec::new(),
                    result: Err(PciDeviceInitError::InsufficientMsixVectors),
                };
            },
        };
        if !table_bar_valid {
            return MsixSetup {
                masked_control,
                table_entries: Vec::new(),
                result: Err(PciDeviceInitError::InvalidBarType),
            };
        }
        let table_entries = msix_table_entries(message_address, vectors.as_slice());
        if !pba_bar_valid {
            return MsixSetup {
                masked_control,
                table_entries,
                result: Err(PciDeviceInitError::MsixPbaBarInvalid),
            };
        }
        let pba = MsixPBA::new(msix_capability.pba_offset(), requested_vectors as usize);
        msix_capability.unmask_all();
        msix_capability.enable();
        MsixSetup {
            masked_control,
            table_entries,
            result: Ok(MsixConfiguration { capability: msix_capability, pba, vectors }),
        }
    }

    /// The decisions of setting up MSI on this device, given the capability
    /// as read, the vectors the allocator handed out for the count that
    /// `msi_vector_count` gives (`None` where it ran out), and the message
    /// address: the message goes to the first vector, and a single message
    /// is enabled.
    pub fn configure_msi(
        &self,
        capability: MsiCapability,
        requested_vectors: u16,
        allocated_vectors: Option<Vec<u8>>,
        message_address: u64,
    ) -> (r: MsiSetup)
        requires
            requested_vectors >= 1,
            allocated_vectors matches Some(v) ==> v@.len() == (if requested_vectors
                < capable_vectors_spec(capability.message_control) {
                requested_vectors
            } else {
                capable_vectors_spec(capability.message_control)
            }),
        ensures
            allocated_vectors is None ==> r.result == Err::<MsiConfiguration, PciDeviceInitError>(
                PciDeviceInitError::InsufficientMsiVectors,
            ),
            allocated_vectors is Some ==> r.result is Ok,
            r.result matches Ok(c) ==> {
                &&& c.vectors@ == allocated_vectors->0@
                &&& c.capability.cap_id == capability.cap_id
                &&& c.capability.next == capability.next
                &&& c.capability.message_address_low == message_address as u32
                &&& c.capability.message_address_high == (message_address >> 32u64) as u32
                &&& c.capability.message_data == allocated_vectors->0@[0]
                &&& c.capability.message_control == (capability.message_control & !0x70u16) | 1
            },
    {
        proof {
            law_capable_vectors_power_of_two(capability.message_control);
        }
        let vectors = match allocated_vectors {
            Some(v) => v,
            None => {
                return MsiSetup { result: Err(PciDeviceInitError::InsufficientMsiVectors) };
            },
        };
        let mut msi_capability = capability;
        let base_vector = vectors[0];
        msi_capability.program(message_address, base_vector);
        MsiSetup { result: Ok(MsiConfiguration { capability: msi_capability, vectors }) }
    }
}

} // verus!
