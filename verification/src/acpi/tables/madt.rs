//! The multiple APIC description table: the processors' local APICs, the
//! I/O APICs and the interrupt source overrides that firmware announces.
use vstd::prelude::*;
use crate::acpi::acpi_tables::{ACPISignature, AcpiSdtTable, madt_sig};
use crate::acpi::tables::sdt_header::{
    ACPISDTHeader, checksum_ok, header_of, whole_table,
};
use crate::bytes::{le16, le32, le64, read_u16_le, read_u32_le, read_u64_le};

verus! {

pub const MADT_ENTRY_TYPE_LOCAL_APIC: u8 = 0;
pub const MADT_ENTRY_TYPE_IO_APIC: u8 = 1;
pub const MADT_ENTRY_TYPE_INTERRUPT_SOURCE_OVERRIDE: u8 = 2;
pub const MADT_ENTRY_TYPE_NMI_SOURCE: u8 = 3;
pub const MADT_ENTRY_TYPE_LOCAL_APIC_NMI: u8 = 4;
pub const MADT_ENTRY_TYPE_LOCAL_APIC_ADDRESS_OVERRIDE: u8 = 5;
pub const MADT_ENTRY_TYPE_LOCAL_X2APIC: u8 = 9;

pub const MADT_APIC_FLAG_PROCESSOR_ENABLED: u32 = 1;
pub const MADT_APIC_FLAG_ONLINE_CAPABLE: u32 = 2;

/// The processor may be brought up: it is enabled, or it is online capable.
pub fn madt_cpu_can_be_enabled(flags: u32) -> (r: bool)
    ensures
        r == (flags & 3 != 0),
{
    assert(1u32 | 2u32 == 3u32) by (bit_vector);
    flags & (MADT_APIC_FLAG_PROCESSOR_ENABLED | MADT_APIC_FLAG_ONLINE_CAPABLE) != 0
}

pub fn madt_cpu_is_enabled(flags: u32) -> (r: bool)
    ensures
        r == (flags & 1 != 0),
{
    flags & MADT_APIC_FLAG_PROCESSOR_ENABLED != 0
}

pub fn madt_cpu_is_online_capable(flags: u32) -> (r: bool)
    ensures
        r == (flags & 2 != 0),
{
    flags & MADT_APIC_FLAG_ONLINE_CAPABLE != 0
}

/// A processor can be brought up exactly when it is enabled or online
/// capable.
pub proof fn law_can_be_enabled_iff_enabled_or_online_capable(flags: u32)
    ensures
        (flags & 3 != 0) == ((flags & 1 != 0) || (flags & 2 != 0)),
{
    assert((flags & 3 != 0) == ((flags & 1 != 0) || (flags & 2 != 0))) by (bit_vector);
}

pub const MADT_INTERRUPT_POLARITY_MASK: u16 = 0x3;
pub const MADT_INTERRUPT_TRIGGER_MASK: u16 = 0xC;

pub const MADT_INTERRUPT_POLARITY_CONFORMS: u16 = 0;
pub const MADT_INTERRUPT_POLARITY_ACTIVE_HIGH: u16 = 1;
pub const MADT_INTERRUPT_POLARITY_RESERVED: u16 = 2;
pub const MADT_INTERRUPT_POLARITY_ACTIVE_LOW: u16 = 3;

pub const MADT_INTERRUPT_TRIGGER_CONFORMS: u16 = 0;
pub const MADT_INTERRUPT_TRIGGER_EDGE: u16 = 0x4;
pub const MADT_INTERRUPT_TRIGGER_RESERVED: u16 = 0x8;
pub const MADT_INTERRUPT_TRIGGER_LEVEL: u16 = 0xC;

pub fn madt_interrupt_polarity(flags: u16) -> (r: u16)
    ensures
        r == flags & 3,
{
    flags & MADT_INTERRUPT_POLARITY_MASK
}

pub fn madt_interrupt_trigger_mode(flags: u16) -> (r: u16)
    ensures
        r == flags & 0xC,
{
    flags & MADT_INTERRUPT_TRIGGER_MASK
}

pub fn madt_interrupt_is_active_low(flags: u16) -> (r: bool)
    ensures
        r == (flags & 3 == 3),
{
    madt_interrupt_polarity(flags) == MADT_INTERRUPT_POLARITY_ACTIVE_LOW
}

pub fn madt_interrupt_is_active_high(flags: u16) -> (r: bool)
    ensures
        r == (flags & 3 == 1),
{
    madt_interrupt_polarity(flags) == MADT_INTERRUPT_POLARITY_ACTIVE_HIGH
}

pub fn madt_interrupt_is_level_triggered(flags: u16) -> (r: bool)
    ensures
        r == (flags & 0xC == 0xC),
{
    madt_interrupt_trigger_mode(flags) == MADT_INTERRUPT_TRIGGER_LEVEL
}

pub fn madt_interrupt_is_edge_triggered(flags: u16) -> (r: bool)
    ensures
        r == (flags & 0xC == 4),
{
    madt_interrupt_trigger_mode(flags) == MADT_INTERRUPT_TRIGGER_EDGE
}

pub const MADT_ENTRY_HEADER_SIZE: usize = 2;
pub const MADT_LOCAL_APIC_ENTRY_SIZE: usize = 8;
pub const MADT_IO_APIC_ENTRY_SIZE: usize = 12;
pub const MADT_INTERRUPT_SOURCE_OVERRIDE_ENTRY_SIZE: usize = 10;
pub const MADT_NMI_SOURCE_ENTRY_SIZE: usize = 10;
pub const MADT_LOCAL_APIC_NMI_ENTRY_SIZE: usize = 6;
pub const MADT_LOCAL_APIC_ADDRESS_OVERRIDE_ENTRY_SIZE: usize = 12;
pub const MADT_LOCAL_X2APIC_ENTRY_SIZE: usize = 16;

/// The kinds of entry that the table may hold.
#[derive(Debug, Clone, Copy, PartialEq, Eq, Structural)]
pub enum MadtEntryType {
    LocalApic,
    IoApic,
    InterruptSourceOverride,
    NmiSource,
    LocalApicNmi,
    LocalApicAddressOverride,
    LocalX2Apic,
}

/// The type and length bytes that open every entry.
#[derive(Clone, Copy, Debug)]
pub struct MadtEntryHeader {
    pub entry_type: u8,
    pub length: u8,
}

/// `v` holds the 2-byte record stored in `s` at `off`.
pub open spec fn madt_entry_header_at(v: MadtEntryHeader, s: Seq<u8>, off: int) -> bool {
    &&& 0 <= off && off + 2 <= s.len()
    &&& v.entry_type == s[off]
    &&& v.length == s[off + 1]
}

impl MadtEntryHeader {
    /// Size of the record in bytes.
    pub const SIZE: usize = 2;

    /// Decodes the record stored in `data` at `off`.
    pub fn read_from(data: &[u8], off: usize) -> (r: MadtEntryHeader)
        requires
            off + 2 <= data@.len(),
        ensures
            madt_entry_header_at(r, data@, off as int),
    {
        let _n = data.len();
        MadtEntryHeader {
            entry_type: data[off],
            length: data[off + 1],
        }
    }
}

/// Entry of type 0: a processor and its local APIC.
#[derive(Clone, Copy, Debug)]
pub struct MadtLocalApic {
    pub header: MadtEntryHeader,
    pub acpi_processor_id: u8,
    pub apic_id: u8,
    pub flags: u32,
}

/// `v` holds the 8-byte record stored in `s` at `off`.
pub open spec fn madt_local_apic_at(v: MadtLocalApic, s: Seq<u8>, off: int) -> bool {
    &&& 0 <= off && off + 8 <= s.len()
    &&& madt_entry_header_at(v.header, s, off)
    &&& v.acpi_processor_id == s[off + 2]
    &&& v.apic_id == s[off + 3]
    &&& v.flags == le32(s, off + 4)
}

impl MadtLocalApic {
    /// Size of the record in bytes.
    pub const SIZE: usize = 8;

    /// Decodes the record stored in `data` at `off`.
    pub fn read_from(data: &[u8], off: usize) -> (r: MadtLocalApic)
        requires
            off + 8 <= data@.len(),
        ensures
            madt_local_apic_at(r, data@, off as int),
    {
        let _n = data.len();
        MadtLocalApic {
            header: MadtEntryHeader::read_from(data, off),
            acpi_processor_id: data[off + 2],
            apic_id: data[off + 3],
            flags: read_u32_le(data, off + 4),
        }
    }
}

impl MadtLocalApic {
    pub const MADT_LOCAL_APIC_ENABLED: u32 = 1;
    pub const MADT_LOCAL_APIC_ONLINE_CAPABLE: u32 = 2;
}

/// Entry of type 1: an I/O APIC.
#[derive(Clone, Copy, Debug)]
pub struct MadtIoApic {
    pub header: MadtEntryHeader,
    pub io_apic_id: u8,
    pub reserved: u8,
    pub io_apic_address: u32,
    pub global_system_interrupt_base: u32,
}

/// `v` holds the 12-byte record stored in `s` at `off`.
pub open spec fn madt_io_apic_at(v: MadtIoApic, s: Seq<u8>, off: int) -> bool {
    &&& 0 <= off && off + 12 <= s.len()
    &&& madt_entry_header_at(v.header, s, off)
    &&& v.io_apic_id == s[off + 2]
    &&& v.reserved == s[off + 3]
    &&& v.io_apic_address == le32(s, off + 4)
    &&& v.global_system_interrupt_base == le32(s, off + 8)
}

impl MadtIoApic {
    /// Size of the record in bytes.
    pub const SIZE: usize = 12;

    /// Decodes the record stored in `data` at `off`.
    pub fn read_from(data: &[u8], off: usize) -> (r: MadtIoApic)
        requires
            off + 12 <= data@.len(),
        ensures
            madt_io_apic_at(r, data@, off as int),
    {
        let _n = data.len();
        MadtIoApic {
            header: MadtEntryHeader::read_from(data, off),
            io_apic_id: data[off + 2],
            reserved: data[off + 3],
            io_apic_address: read_u32_le(data, off + 4),
            global_system_interrupt_base: read_u32_le(data, off + 8),
        }
    }
}

/// Entry of type 2: how an IRQ source maps to a global system interrupt.
#[derive(Clone, Copy, Debug)]
pub struct MadtInterruptSourceOverride {
    pub header: MadtEntryHeader,
    pub bus_source: u8,
    pub irq_source: u8,
    pub global_system_interrupt: u32,
    pub flags: u16,
}

/// `v` holds the 10-byte record stored in `s` at `off`.
pub open spec fn madt_interrupt_source_override_at(v: MadtInterruptSourceOverride, s: Seq<u8>, off: int) -> bool {
    &&& 0 <= off && off + 10 <= s.len()
    &&& madt_entry_header_at(v.header, s, off)
    &&& v.bus_source == s[off + 2]
    &&& v.irq_source == s[off + 3]
    &&& v.global_system_interrupt == le32(s, off + 4)
    &&& v.flags == le16(s, off + 8)
}

impl MadtInterruptSourceOverride {
    /// Size of the record in bytes.
    pub const SIZE: usize = 10;

    /// Decodes the record stored in `data` at `off`.
    pub fn read_from(data: &[u8], off: usize) -> (r: MadtInterruptSourceOverride)
        requires
            off + 10 <= data@.len(),
        ensures
            madt_interrupt_source_override_at(r, data@, off as int),
    {
        let _n = data.len();
        MadtInterruptSourceOverride {
            header: MadtEntryHeader::read_from(data, off),
            bus_source: data[off + 2],
            irq_source: data[off + 3],
            global_system_interrupt: read_u32_le(data, off + 4),
            flags: read_u16_le(data, off + 8),
        }
    }
}

/// Entry of type 5: a 64-bit address of the local APIC that replaces the one in the table header.
#[derive(Clone, Copy, Debug)]
pub struct MadtLocalApicAddressOverride {
    pub header: MadtEntryHeader,
    pub reserved: u16,
    pub local_apic_address: u64,
}

/// `v` holds the 12-byte record stored in `s` at `off`.
pub open spec fn madt_local_apic_address_override_at(v: MadtLocalApicAddressOverride, s: Seq<u8>, off: int) -> bool {
    &&& 0 <= off && off + 12 <= s.len()
    &&& madt_entry_header_at(v.header, s, off)
    &&& v.reserved == le16(s, off + 2)
    &&& v.local_apic_address == le64(s, off + 4)
}

impl MadtLocalApicAddressOverride {
    /// Size of the record in bytes.
    pub const SIZE: usize = 12;

    /// Decodes the record stored in `data` at `off`.
    pub fn read_from(data: &[u8], off: usize) -> (r: MadtLocalApicAddressOverride)
        requires
            off + 12 <= data@.len(),
        ensures
            madt_local_apic_address_override_at(r, data@, off as int),
    {
        let _n = data.len();
        MadtLocalApicAddressOverride {
            header: MadtEntryHeader::read_from(data, off),
            reserved: read_u16_le(data, off + 2),
            local_apic_address: read_u64_le(data, off + 4),
        }
    }
}

/// Entry of type 9: a processor and its local x2APIC.
#[derive(Clone, Copy, Debug)]
pub struct MadtLocalX2Apic {
    pub header: MadtEntryHeader,
    pub reserved: u16,
    pub x2apic_id: u32,
    pub flags: u32,
    pub acpi_id: u32,
}

/// `v` holds the 16-byte record stored in `s` at `off`.
pub open spec fn madt_local_x2_apic_at(v: MadtLocalX2Apic, s: Seq<u8>, off: int) -> bool {
    &&& 0 <= off && off + 16 <= s.len()
    &&& madt_entry_header_at(v.header, s, off)
    &&& v.reserved == le16(s, off + 2)
    &&& v.x2apic_id == le32(s, off + 4)
    &&& v.flags == le32(s, off + 8)
    &&& v.acpi_id == le32(s, off + 12)
}

impl MadtLocalX2Apic {
    /// Size of the record in bytes.
    pub const SIZE: usize = 16;

    /// Decodes the record stored in `data` at `off`.
    pub fn read_from(data: &[u8], off: usize) -> (r: MadtLocalX2Apic)
        requires
            off + 16 <= data@.len(),
        ensures
            madt_local_x2_apic_at(r, data@, off as int),
    {
        let _n = data.len();
        MadtLocalX2Apic {
            header: MadtEntryHeader::read_from(data, off),
            reserved: read_u16_le(data, off + 2),
            x2apic_id: read_u32_le(data, off + 4),
            flags: read_u32_le(data, off + 8),
            acpi_id: read_u32_le(data, off + 12),
        }
    }
}

/// A processor's local APIC or x2APIC, as the table announces it.
#[derive(Debug, Clone, Copy)]
pub struct MadtCpuApic {
    pub acpi_processor_id: u32,
    pub apic_id: u32,
    pub flags: u32,
    pub is_x2apic: bool,
}

impl MadtCpuApic {
    pub fn enabled(&self) -> (r: bool)
        ensures
            r == (self.flags & 1 != 0),
    {
        madt_cpu_is_enabled(self.flags)
    }

    pub fn online_capable(&self) -> (r: bool)
        ensures
            r == (self.flags & 2 != 0),
    {
        madt_cpu_is_online_capable(self.flags)
    }

    pub fn can_be_enabled(&self) -> (r: bool)
        ensures
            r == (self.flags & 3 != 0),
    {
        madt_cpu_can_be_enabled(self.flags)
    }
}

/// An I/O APIC, as the table announces it.
#[derive(Debug, Clone, Copy)]
pub struct MadtIoApicInfo {
    pub id: u8,
    pub physical_address: u32,
    pub global_system_interrupt_base: u32,
}

/// An interrupt source override, as the table announces it.
#[derive(Debug, Clone, Copy)]
pub struct MadtInterruptSourceOverrideInfo {
    pub bus_source: u8,
    pub irq_source: u8,
    pub global_system_interrupt: u32,
    pub flags: u16,
}

/// Everything that a walk over the table's entries collects.
#[derive(Debug)]
pub struct MadtParseResult {
    pub local_apic_physical_address: u64,
    pub cpu_apics: Vec<MadtCpuApic>,
    pub io_apics: Vec<MadtIoApicInfo>,
    pub interrupt_source_overrides: Vec<MadtInterruptSourceOverrideInfo>,
}

/// The local APIC address, the processors, the I/O APICs and the source
/// overrides, in the order in which the table lists them.
pub type MadtSummary = (
    u64,
    Seq<MadtCpuApic>,
    Seq<MadtIoApicInfo>,
    Seq<MadtInterruptSourceOverrideInfo>,
);

/// The collections of a parse result, as mathematical values.
pub open spec fn summary_of(r: MadtParseResult) -> MadtSummary {
    (r.local_apic_physical_address, r.cpu_apics@, r.io_apics@, r.interrupt_source_overrides@)
}

/// Number of processors whose flags mark them enabled.
pub open spec fn count_enabled(s: Seq<MadtCpuApic>) -> nat
    decreases s.len(),
{
    if s.len() == 0 {
        0
    } else {
        count_enabled(s.drop_last()) + if s.last().flags & 1 != 0 {
            1nat
        } else {
            0nat
        }
    }
}

impl MadtParseResult {
    pub fn cpu_apic_count(&self) -> (r: usize)
        ensures
            r == self.cpu_apics@.len(),
    {
        self.cpu_apics.len()
    }

    pub fn enabled_cpu_apic_count(&self) -> (r: usize)
        ensures
            r == count_enabled(self.cpu_apics@),
    {
        let mut n: usize = 0;
        let mut i: usize = 0;
        while i < self.cpu_apics.len()
            invariant
                i <= self.cpu_apics@.len(),
                n == count_enabled(self.cpu_apics@.take(i as int)),
                n <= i,
            decreases self.cpu_apics@.len() - i,
        {
            assert(self.cpu_apics@.take(i as int + 1).drop_last() =~= self.cpu_apics@.take(
                i as int,
            ));
            if self.cpu_apics[i].enabled() {
                n = n + 1;
            }
            i = i + 1;
        }
        assert(self.cpu_apics@.take(i as int) =~= self.cpu_apics@);
        n
    }

    pub fn io_apic_count(&self) -> (r: usize)
        ensures
            r == self.io_apics@.len(),
    {
        self.io_apics.len()
    }
}

/// The enabled processors are never more than all processors.
pub proof fn law_enabled_count_at_most_total(s: Seq<MadtCpuApic>)
    ensures
        count_enabled(s) <= s.len(),
    decreases s.len(),
{
    if s.len() > 0 {
        law_enabled_count_at_most_total(s.drop_last());
    }
}

/// Offset of the first entry: the header, the local APIC address and the
/// flags come before it.
pub const MADT_ENTRIES_START: usize = 44;

/// An entry of type `t` with length byte `len` is long enough for the
/// record that its type announces.
pub open spec fn entry_size_ok(t: u8, len: u8) -> bool {
    if t == 0 {
        len >= 8
    } else if t == 1 {
        len >= 12
    } else if t == 2 {
        len >= 10
    } else if t == 5 {
        len >= 12
    } else if t == 9 {
        len >= 16
    } else {
        true
    }
}

/// The entries of `s` from `pos` up to `end` are well formed: each one has
/// a length of at least two bytes, ends at or before `end`, and is long
/// enough for its type.
pub open spec fn madt_entries_ok(s: Seq<u8>, pos: int, end: int) -> bool
    decreases end - pos,
{
    if pos >= end {
        true
    } else if !(pos + 2 <= end && s[pos + 1] >= 2 && pos + s[pos + 1] <= end && entry_size_ok(
        s[pos],
        s[pos + 1],
    )) {
        false
    } else {
        madt_entries_ok(s, pos + s[pos + 1], end)
    }
}

/// What the entry at `pos` adds to the summary `m`; unknown types add
/// nothing.
pub open spec fn madt_apply(m: MadtSummary, s: Seq<u8>, pos: int) -> MadtSummary {
    let t = s[pos];
    if t == 0 {
        (
            m.0,
            m.1.push(
                MadtCpuApic {
                    acpi_processor_id: s[pos + 2] as u32,
                    apic_id: s[pos + 3] as u32,
                    flags: le32(s, pos + 4) as u32,
                    is_x2apic: false,
                },
            ),
            m.2,
            m.3,
        )
    } else if t == 1 {
        (
            m.0,
            m.1,
            m.2.push(
                MadtIoApicInfo {
                    id: s[pos + 2],
                    physical_address: le32(s, pos + 4) as u32,
                    global_system_interrupt_base: le32(s, pos + 8) as u32,
                },
            ),
            m.3,
        )
    } else if t == 2 {
        (
            m.0,
            m.1,
            m.2,
            m.3.push(
                MadtInterruptSourceOverrideInfo {
                    bus_source: s[pos + 2],
                    irq_source: s[pos + 3],
                    global_system_interrupt: le32(s, pos + 4) as u32,
                    flags: le16(s, pos + 8) as u16,
                },
            ),
        )
    } else if t == 5 {
        (le64(s, pos + 4) as u64, m.1, m.2, m.3)
    } else if t == 9 {
        (
            m.0,
            m.1.push(
                MadtCpuApic {
                    acpi_processor_id: le32(s, pos + 12) as u32,
                    apic_id: le32(s, pos + 4) as u32,
                    flags: le32(s, pos + 8) as u32,
                    is_x2apic: true,
                },
            ),
            m.2,
            m.3,
        )
    } else {
        m
    }
}

/// The summary after walking the entries from `pos` up to `end`, starting
/// from `m`.
pub open spec fn madt_fold(s: Seq<u8>, pos: int, end: int, m: MadtSummary) -> MadtSummary
    decreases end - pos,
{
    if pos >= end || s[pos + 1] < 2 || pos + s[pos + 1] > end {
        m
    } else {
        madt_fold(s, pos + s[pos + 1], end, madt_apply(m, s, pos))
    }
}

/// What parsing the table `s` yields: the walk over its entries, starting
/// from the 32-bit local APIC address in the table header.
pub open spec fn madt_summary(s: Seq<u8>) -> MadtSummary {
    madt_fold(s, 44, s.len() as int, (le32(s, 36) as u64, seq![], seq![], seq![]))
}

/// The entry at `p` is one that the walk over the entries from `pos` up to
/// `end` visits: each visited entry has a length byte of at least two that
/// keeps it within `end`, and the next one starts where it ends.
pub open spec fn madt_entry_visited(s: Seq<u8>, pos: int, end: int, p: int) -> bool
    decreases end - pos,
{
    if pos >= end || s[pos + 1] < 2 || pos + s[pos + 1] > end {
        false
    } else {
        p == pos || madt_entry_visited(s, pos + s[pos + 1], end, p)
    }
}

/// The processors collected by a walk keep those collected before it, in
/// their places.
proof fn lemma_fold_keeps_cpus(s: Seq<u8>, pos: int, end: int, m: MadtSummary)
    ensures
        madt_fold(s, pos, end, m).1.len() >= m.1.len(),
        forall|j: int| 0 <= j < m.1.len() ==> #[trigger] madt_fold(s, pos, end, m).1[j] == m.1[j],
    decreases end - pos,
{
    if !(pos >= end || s[pos + 1] < 2 || pos + s[pos + 1] > end) {
        let m2 = madt_apply(m, s, pos);
        lemma_fold_keeps_cpus(s, pos + s[pos + 1], end, m2);
        assert forall|j: int| 0 <= j < m.1.len() implies #[trigger] madt_fold(s, pos, end, m).1[j] == m.1[j] by {
            assert(m2.1[j] == m.1[j]);
        }
    }
}

/// A processor local APIC entry visited by the walk leaves a processor with
/// its ID bytes in the walk's result.
proof fn lemma_fold_has_local_apic(s: Seq<u8>, pos: int, end: int, m: MadtSummary, p: int, v: MadtLocalApic)
    requires
        madt_entries_ok(s, pos, end),
        end <= s.len(),
        madt_entry_visited(s, pos, end, p),
        s[p] == 0,
        madt_local_apic_at(v, s, p),
    ensures
        exists|j: int|
            0 <= j < madt_fold(s, pos, end, m).1.len() && #[trigger] madt_fold(s, pos, end, m).1[j]
                == (MadtCpuApic {
                acpi_processor_id: v.acpi_processor_id as u32,
                apic_id: v.apic_id as u32,
                flags: v.flags,
                is_x2apic: false,
            }),
    decreases end - pos,
{
    let m2 = madt_apply(m, s, pos);
    if p == pos {
        lemma_fold_keeps_cpus(s, pos + s[pos + 1], end, m2);
        let j = m.1.len() as int;
        assert(m2.1[j] == (MadtCpuApic {
            acpi_processor_id: v.acpi_processor_id as u32,
            apic_id: v.apic_id as u32,
            flags: v.flags,
            is_x2apic: false,
        }));
        assert(madt_fold(s, pos, end, m) == madt_fold(s, pos + s[pos + 1], end, m2));
        assert(madt_fold(s, pos, end, m).1[j] == m2.1[j]);
        assert(0 <= j < madt_fold(s, pos, end, m).1.len());
    } else {
        assert(madt_fold(s, pos, end, m) == madt_fold(s, pos + s[pos + 1], end, m2));
        lemma_fold_has_local_apic(s, pos + s[pos + 1], end, m2, p, v);
    }
}

/// Every processor local APIC entry (type 0) of a well formed table shows
/// up among the parsed processors with the entry's own bytes: byte 2 as the
/// ACPI processor ID, byte 3 as the APIC ID, bytes 4..8 as the flags, and
/// not marked x2APIC.
pub proof fn law_local_apic_entries_parsed(s: Seq<u8>, p: int, v: MadtLocalApic)
    requires
        madt_entries_ok(s, 44, s.len() as int),
        madt_entry_visited(s, 44, s.len() as int, p),
        s[p] == 0,
        madt_local_apic_at(v, s, p),
    ensures
        exists|j: int|
            0 <= j < madt_summary(s).1.len() && #[trigger] madt_summary(s).1[j] == (MadtCpuApic {
                acpi_processor_id: v.acpi_processor_id as u32,
                apic_id: v.apic_id as u32,
                flags: v.flags,
                is_x2apic: false,
            }),
{
    let m0: MadtSummary = (le32(s, 36) as u64, seq![], seq![], seq![]);
    lemma_fold_has_local_apic(s, 44, s.len() as int, m0, p, v);
    let f = madt_fold(s, 44, s.len() as int, m0);
    assert(madt_summary(s) == f);
    let cpu = MadtCpuApic {
        acpi_processor_id: v.acpi_processor_id as u32,
        apic_id: v.apic_id as u32,
        flags: v.flags,
        is_x2apic: false,
    };
    let j = choose|j: int| 0 <= j < f.1.len() && #[trigger] f.1[j] == cpu;
    assert(madt_summary(s).1[j] == cpu);
}

/// The multiple APIC description table.
pub struct Madt {
    header: ACPISDTHeader,
    local_apic_address: u32,
    flags: u32,
    table: Vec<u8>,
}

impl View for Madt {
    type V = Seq<u8>;

    closed spec fn view(&self) -> Seq<u8> {
        self.table@
    }
}

impl Madt {
    #[verifier::type_invariant]
    closed spec fn inv(&self) -> bool {
        &&& whole_table(self.header, self.table@)
        &&& self.table@.len() >= 44
        &&& self.local_apic_address == le32(self.table@, 36)
        &&& self.flags == le32(self.table@, 40)
    }

    /// Takes the bytes of the table; `None` unless they are a whole table
    /// with room for the local APIC address and the flags.
    pub fn new_from_bytes(bytes: Vec<u8>) -> (r: Option<Madt>)
        ensures
            r is Some <==> (bytes@.len() >= 44 && le32(bytes@, 4) == bytes@.len()),
            r matches Some(t) ==> t@ == bytes@,
    {
        if bytes.len() < MADT_ENTRIES_START {
            return None;
        }
        let header = ACPISDTHeader::read_from(bytes.as_slice(), 0);
        if header.length as usize != bytes.len() {
            return None;
        }
        let local_apic_address = read_u32_le(bytes.as_slice(), 36);
        let flags = read_u32_le(bytes.as_slice(), 40);
        Some(Madt { header, local_apic_address, flags, table: bytes })
    }

    /// The 32-bit local APIC address of the table header.
    pub fn local_apic_address(&self) -> (r: u32)
        ensures
            r == le32(self@, 36),
    {
        proof {
            use_type_invariant(self);
        }
        self.local_apic_address
    }

    /// The table's flags (bit 0: a dual 8259 PIC is installed too).
    pub fn flags(&self) -> (r: u32)
        ensures
            r == le32(self@, 40),
    {
        proof {
            use_type_invariant(self);
        }
        self.flags
    }

    /// Offset of the first entry.
    pub fn entries_start(&self) -> (r: usize)
        ensures
            r == 44,
    {
        MADT_ENTRIES_START
    }

    /// Offset just past the last entry: the table's length.
    pub fn entries_end(&self) -> (r: usize)
        ensures
            r == self@.len(),
    {
        proof {
            use_type_invariant(self);
        }
        self.header.length as usize
    }

    /// Whether every entry is well formed, which `parse` needs.
    pub fn entries_well_formed(&self) -> (r: bool)
        ensures
            r == madt_entries_ok(self@, 44, self@.len() as int),
    {
        proof {
            use_type_invariant(self);
        }
        let end = self.table.len();
        let mut pos: usize = MADT_ENTRIES_START;
        while pos < end
            invariant
                end == self.table@.len(),
                44 <= pos <= end,
                madt_entries_ok(self.table@, 44, end as int) == madt_entries_ok(
                    self.table@,
                    pos as int,
                    end as int,
                ),
            decreases end - pos,
        {
            if end - pos < 2 {
                return false;
            }
            let len = self.table[pos + 1];
            let t = self.table[pos];
            if len < 2 || len as usize > end - pos {
                return false;
            }
            let size_ok = if t == MADT_ENTRY_TYPE_LOCAL_APIC {
                len as usize >= MADT_LOCAL_APIC_ENTRY_SIZE
            } else if t == MADT_ENTRY_TYPE_IO_APIC {
                len as usize >= MADT_IO_APIC_ENTRY_SIZE
            } else if t == MADT_ENTRY_TYPE_INTERRUPT_SOURCE_OVERRIDE {
                len as usize >= MADT_INTERRUPT_SOURCE_OVERRIDE_ENTRY_SIZE
            } else if t == MADT_ENTRY_TYPE_LOCAL_APIC_ADDRESS_OVERRIDE {
                len as usize >= MADT_LOCAL_APIC_ADDRESS_OVERRIDE_ENTRY_SIZE
            } else if t == MADT_ENTRY_TYPE_LOCAL_X2APIC {
                len as usize >= MADT_LOCAL_X2APIC_ENTRY_SIZE
            } else {
                true
            };
            if !size_ok {
                return false;
            }
            pos = pos + len as usize;
        }
        true
    }

    /// Walks the entries and collects the processors, the I/O APICs, the
    /// interrupt source overrides and the local APIC address (the header's,
    /// unless an address override entry replaces it). Entries of other
    /// types are skipped.
    pub fn parse(&self) -> (r: MadtParseResult)
        requires
            madt_entries_ok(self@, 44, self@.len() as int),
        ensures
            summary_of(r) == madt_summary(self@),
    {
        proof {
            use_type_invariant(self);
        }
        let data = self.table.as_slice();
        let end = self.table.len();
        let mut result = MadtParseResult {
            local_apic_physical_address: self.local_apic_address as u64,
            cpu_apics: Vec::new(),
            io_apics: Vec::new(),
            interrupt_source_overrides: Vec::new(),
        };
        let mut pos: usize = MADT_ENTRIES_START;
        assert(summary_of(result) =~= (le32(data@, 36) as u64, seq![], seq![], seq![]));
        while pos < end
            invariant
                end == data@.len(),
                data@ == self.table@,
                44 <= pos <= end,
                madt_entries_ok(data@, pos as int, end as int),
                madt_summary(data@) == madt_fold(
                    data@,
                    pos as int,
                    end as int,
                    summary_of(result),
                ),
            decreases end - pos,
        {
            let len = data[pos + 1];
            let t = data[pos];
            let ghost before = summary_of(result);
            if t == MADT_ENTRY_TYPE_LOCAL_APIC {
                let entry = MadtLocalApic::read_from(data, pos);
                result.cpu_apics.push(
                    MadtCpuApic {
                        acpi_processor_id: entry.acpi_processor_id as u32,
                        apic_id: entry.apic_id as u32,
                        flags: entry.flags,
                        is_x2apic: false,
                    },
                );
            } else if t == MADT_ENTRY_TYPE_IO_APIC {
                let entry = MadtIoApic::read_from(data, pos);
                result.io_apics.push(
                    MadtIoApicInfo {
                        id: entry.io_apic_id,
                        physical_address: entry.io_apic_address,
                        global_system_interrupt_base: entry.global_system_interrupt_base,
                    },
                );
            } else if t == MADT_ENTRY_TYPE_INTERRUPT_SOURCE_OVERRIDE {
                let entry = MadtInterruptSourceOverride::read_from(data, pos);
                result.interrupt_source_overrides.push(
                    MadtInterruptSourceOverrideInfo {
                        bus_source: entry.bus_source,
                        irq_source: entry.irq_source,
                        global_system_interrupt: entry.global_system_interrupt,
                        flags: entry.flags,
                    },
                );
            } else if t == MADT_ENTRY_TYPE_LOCAL_APIC_ADDRESS_OVERRIDE {
                let entry = MadtLocalApicAddressOverride::read_from(data, pos);
                result.local_apic_physical_address = entry.local_apic_address;
            } else if t == MADT_ENTRY_TYPE_LOCAL_X2APIC {
                let entry = MadtLocalX2Apic::read_from(data, pos);
                result.cpu_apics.push(
                    MadtCpuApic {
                        acpi_processor_id: entry.acpi_id,
                        apic_id: entry.x2apic_id,
                        flags: entry.flags,
                        is_x2apic: true,
                    },
                );
            }
            assert(summary_of(result) =~= madt_apply(before, data@, pos as int));
            pos = pos + len as usize;
        }
        result
    }

    /// Parses the table `madt`.
    pub fn parse_madt(madt: &Madt) -> (r: MadtParseResult)
        requires
            madt_entries_ok(madt@, 44, madt@.len() as int),
        ensures
            summary_of(r) == madt_summary(madt@),
    {
        madt.parse()
    }
}

impl AcpiSdtTable for Madt {
    fn get_signature(&self) -> (r: ACPISignature)
        ensures
            r.0@ == madt_sig(),
    {
        ACPISignature::madt()
    }

    fn validate(&self) -> (r: bool)
        ensures
            r == checksum_ok(self@, self@.len() as int),
    {
        proof {
            use_type_invariant(self);
        }
        self.header.validate_checksum(self.table.as_slice())
    }

    fn get_sdt_header(&self) -> (r: ACPISDTHeader)
        ensures
            header_of(r, self@),
            r.length == self@.len(),
    {
        proof {
            use_type_invariant(self);
        }
        self.header
    }
}

} // verus!
