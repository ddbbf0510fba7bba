//! The multiboot2 information structure: the walk over its tags, the
//! memory map and the modules tag.
use vstd::prelude::*;
use crate::bytes::{le32, le64, read_u32_le, read_u64_le};
use crate::phys::phys_addr_truncate;

verus! {

/// The type and size that open every tag.
#[derive(Clone, Copy, Debug)]
pub struct MultibootTagBase {
    pub tag_type: u32,
    pub size: u32,
}

/// `v` holds the 8-byte record stored in `s` at `off`.
pub open spec fn multiboot_tag_base_at(v: MultibootTagBase, s: Seq<u8>, off: int) -> bool {
    &&& 0 <= off && off + 8 <= s.len()
    &&& v.tag_type == le32(s, off)
    &&& v.size == le32(s, off + 4)
}

impl MultibootTagBase {
    /// Size of the record in bytes.
    pub const SIZE: usize = 8;

    /// Decodes the record stored in `data` at `off`.
    pub fn read_from(data: &[u8], off: usize) -> (r: MultibootTagBase)
        requires
            off + 8 <= data@.len(),
        ensures
            multiboot_tag_base_at(r, data@, off as int),
    {
        let _n = data.len();
        MultibootTagBase {
            tag_type: read_u32_le(data, off),
            size: read_u32_le(data, off + 4),
        }
    }
}

impl MultibootTagBase {
    pub const MULTIBOOT_TAG_TYPE_BOOT_COMMAND_LINE: u32 = 1;
    pub const MULTIBOOT_TAG_TYPE_BOOTLOADER_NAME: u32 = 2;
    pub const MULTIBOOT_TAG_TYPE_MODULES: u32 = 3;
    pub const MULTIBOOT_TAG_TYPE_FLAGS: u32 = 4;
    pub const MULTIBOOT_TAG_TYPE_FRAMEBUFFER: u32 = 5;
    pub const MULTIBOOT_TAG_TYPE_MEMORY_MAP: u32 = 6;
    pub const MULTIBOOT_TAG_TYPE_VBE_INFO: u32 = 7;
    pub const MULTIBOOT_TAG_TYPE_FRAMEBUFFER_INFO: u32 = 8;
    pub const MULTIBOOT_TAG_TYPE_ELF_SYMBOLS: u32 = 9;
    pub const MULTIBOOT_TAG_TYPE_APM_TABLE: u32 = 10;
    pub const MULTIBOOT_TAG_TYPE_EFI_32_BIT_SYSTEM_TABLE_POINTER: u32 = 11;
    pub const MULTIBOOT_TAG_TYPE_EFI_64_BIT_SYSTEM_TABLE_POINTER: u32 = 12;
    pub const MULTIBOOT_TAG_TYPE_SMBIOS_TABLES: u32 = 13;
    pub const MULTIBOOT_TAG_TYPE_ACPI_OLD_RSDP: u32 = 14;
    pub const MULTIBOOT_TAG_TYPE_ACPI_NEW_RSDP: u32 = 15;
    pub const MULTIBOOT_TAG_TYPE_NETWORKING_INFORMATION: u32 = 16;
    pub const MULTIBOOT_TAG_TYPE_EFI_MEMORY_MAP: u32 = 17;
    pub const MULTIBOOT_TAG_TYPE_EFI_BOOT_SERVICES_NOT_TERMINATED: u32 = 18;
    pub const MULTIBOOT_TAG_TYPE_EFI_32_BIT_IMAGE_HANDLE_POINTER: u32 = 19;
    pub const MULTIBOOT_TAG_TYPE_EFI_64_BIT_IMAGE_HANDLE_POINTER: u32 = 20;
    pub const MULTIBOOT_TAG_TYPE_IMAGE_LOAD_BASE_PHYSICAL_ADDRESS: u32 = 21;

    pub fn tag_type(&self) -> (r: u32)
        ensures
            r == self.tag_type,
    {
        self.tag_type
    }

    pub fn size(&self) -> (r: u32)
        ensures
            r == self.size,
    {
        self.size
    }
}

/// One region of the memory map.
#[derive(Clone, Copy, Debug)]
pub struct MultibootMemoryMapEntry {
    pub base_addr: u64,
    pub length: u64,
    pub addr_range_type: u32,
    pub _reserved: u32,
}

/// `v` holds the 24-byte record stored in `s` at `off`.
pub open spec fn multiboot_memory_map_entry_at(v: MultibootMemoryMapEntry, s: Seq<u8>, off: int) -> bool {
    &&& 0 <= off && off + 24 <= s.len()
    &&& v.base_addr == le64(s, off)
    &&& v.length == le64(s, off + 8)
    &&& v.addr_range_type == le32(s, off + 16)
    &&& v._reserved == le32(s, off + 20)
}

impl MultibootMemoryMapEntry {
    /// Size of the record in bytes.
    pub const SIZE: usize = 24;

    /// Decodes the record stored in `data` at `off`.
    pub fn read_from(data: &[u8], off: usize) -> (r: MultibootMemoryMapEntry)
        requires
            off + 24 <= data@.len(),
        ensures
            multiboot_memory_map_entry_at(r, data@, off as int),
    {
        let _n = data.len();
        MultibootMemoryMapEntry {
            base_addr: read_u64_le(data, off),
            length: read_u64_le(data, off + 8),
            addr_range_type: read_u32_le(data, off + 16),
            _reserved: read_u32_le(data, off + 20),
        }
    }
}

impl MultibootMemoryMapEntry {
    pub fn base_addr(&self) -> (r: u64)
        ensures
            r == self.base_addr,
    {
        self.base_addr
    }

    pub fn length(&self) -> (r: u64)
        ensures
            r == self.length,
    {
        self.length
    }

    pub fn addr_range_type(&self) -> (r: u32)
        ensures
            r == self.addr_range_type,
    {
        self.addr_range_type
    }

    pub fn _reserved(&self) -> (r: u32)
        ensures
            r == self._reserved,
    {
        self._reserved
    }
}

/// A module tag: where a boot module lies, and its command line.
#[derive(Clone, Copy, Debug)]
pub struct MultibootModulesTag {
    pub header: MultibootTagBase,
    pub mod_start: u32,
    pub mod_end: u32,
    pub string: u64,
}

/// `v` holds the 24-byte record stored in `s` at `off`.
pub open spec fn multiboot_modules_tag_at(v: MultibootModulesTag, s: Seq<u8>, off: int) -> bool {
    &&& 0 <= off && off + 24 <= s.len()
    &&& multiboot_tag_base_at(v.header, s, off)
    &&& v.mod_start == le32(s, off + 8)
    &&& v.mod_end == le32(s, off + 12)
    &&& v.string == le64(s, off + 16)
}

impl MultibootModulesTag {
    /// Size of the record in bytes.
    pub const SIZE: usize = 24;

    /// Decodes the record stored in `data` at `off`.
    pub fn read_from(data: &[u8], off: usize) -> (r: MultibootModulesTag)
        requires
            off + 24 <= data@.len(),
        ensures
            multiboot_modules_tag_at(r, data@, off as int),
    {
        let _n = data.len();
        MultibootModulesTag {
            header: MultibootTagBase::read_from(data, off),
            mod_start: read_u32_le(data, off + 8),
            mod_end: read_u32_le(data, off + 12),
            string: read_u64_le(data, off + 16),
        }
    }
}

impl MultibootModulesTag {
    pub fn header(&self) -> (r: MultibootTagBase)
        ensures
            r == self.header,
    {
        self.header
    }

    pub fn mod_start(&self) -> (r: u32)
        ensures
            r == self.mod_start,
    {
        self.mod_start
    }

    pub fn mod_end(&self) -> (r: u32)
        ensures
            r == self.mod_end,
    {
        self.mod_end
    }

    pub fn string(&self) -> (r: u64)
        ensures
            r == self.string,
    {
        self.string
    }
}

/// The kinds of memory region that the map names.
#[derive(PartialEq, Eq, Structural, Clone, Copy, Debug)]
pub enum MemoryRegionType {
    AvailableRAM,
    UsableAcpi,
    HibernationPreserved,
    DefectiveRAM,
}

/// The region type that a type value names; `None` for the values that
/// stand for reserved memory.
pub open spec fn region_type_of(val: u32) -> Option<MemoryRegionType> {
    if val == 1 {
        Some(MemoryRegionType::AvailableRAM)
    } else if val == 3 {
        Some(MemoryRegionType::UsableAcpi)
    } else if val == 4 {
        Some(MemoryRegionType::HibernationPreserved)
    } else if val == 5 {
        Some(MemoryRegionType::DefectiveRAM)
    } else {
        None
    }
}

/// The type value of a region type.
pub open spec fn region_type_value(t: MemoryRegionType) -> u32 {
    match t {
        MemoryRegionType::AvailableRAM => 1,
        MemoryRegionType::UsableAcpi => 3,
        MemoryRegionType::HibernationPreserved => 4,
        MemoryRegionType::DefectiveRAM => 5,
    }
}

impl MemoryRegionType {
    pub fn from_u32(val: u32) -> (r: Option<Self>)
        ensures
            r == region_type_of(val),
    {
        match val {
            1 => Some(Self::AvailableRAM),
            3 => Some(Self::UsableAcpi),
            4 => Some(Self::HibernationPreserved),
            5 => Some(Self::DefectiveRAM),
            _ => None,
        }
    }

    pub fn to_u32(&self) -> (r: u32)
        ensures
            r == region_type_value(*self),
    {
        match self {
            Self::AvailableRAM => 1,
            Self::UsableAcpi => 3,
            Self::HibernationPreserved => 4,
            Self::DefectiveRAM => 5,
        }
    }
}

/// A region type's value names it again.
pub proof fn law_region_type_roundtrip(t: MemoryRegionType)
    ensures
        region_type_of(region_type_value(t)) == Some(t),
{
}

/// The memory map tag: its header, the size and version of its entries,
/// and its bytes.
pub struct MultibootMemoryMapTag {
    pub header: MultibootTagBase,
    pub entry_size: u32,
    pub entry_version: u32,
    pub entries: MultibootMemoryMapEntry,
    pub bytes: Vec<u8>,
}

/// Number of entries that a walk over a memory map of `size` bytes visits:
/// the bytes past the 40 of the tag's fixed part, in steps of 24, a partial
/// step counted whole.
pub open spec fn map_entries_walked(size: u32) -> int {
    (size - 40 + 23) / 24
}

/// The entry at index `i` of the memory map bytes `s`.
pub open spec fn map_entry(s: Seq<u8>, i: int) -> (u64, u64, u32) {
    (le64(s, 16 + 24 * i) as u64, le64(s, 24 + 24 * i) as u64, le32(s, 32 + 24 * i) as u32)
}

/// Bytes of available RAM among the first `n` entries.
pub open spec fn available_bytes(s: Seq<u8>, n: int) -> int
    decreases n,
{
    if n <= 0 {
        0
    } else {
        available_bytes(s, n - 1) + if map_entry(s, n - 1).2 == 1 {
            map_entry(s, n - 1).1 as int
        } else {
            0
        }
    }
}

/// The highest end address among the first `n` entries (0 for none).
pub open spec fn highest_end(s: Seq<u8>, n: int) -> int
    decreases n,
{
    if n <= 0 {
        0
    } else {
        let e = map_entry(s, n - 1);
        let m = highest_end(s, n - 1);
        if e.0 + e.1 > m {
            e.0 + e.1
        } else {
            m
        }
    }
}

/// The memory map can be walked: entries of 24 bytes, version 0, a size
/// that covers the fixed part, and bytes for every entry visited.
pub open spec fn map_walkable(t: MultibootMemoryMapTag) -> bool {
    &&& t.entry_size == 24
    &&& t.entry_version == 0
    &&& t.header.size >= 40
    &&& 16 + 24 * map_entries_walked(t.header.size) <= t.bytes@.len()
}

impl MultibootMemoryMapTag {
    /// Decodes the memory map tag whose bytes are `bytes`; `None` where they
    /// do not hold its 40-byte fixed part.
    pub fn new_from_bytes(bytes: Vec<u8>) -> (r: Option<MultibootMemoryMapTag>)
        ensures
            r is Some <==> bytes@.len() >= 40,
            r matches Some(t) ==> {
                &&& t.bytes@ == bytes@
                &&& multiboot_tag_base_at(t.header, bytes@, 0)
                &&& t.entry_size == le32(bytes@, 8)
                &&& t.entry_version == le32(bytes@, 12)
                &&& multiboot_memory_map_entry_at(t.entries, bytes@, 16)
            },
    {
        if bytes.len() < 40 {
            return None;
        }
        let header = MultibootTagBase::read_from(bytes.as_slice(), 0);
        let entry_size = read_u32_le(bytes.as_slice(), 8);
        let entry_version = read_u32_le(bytes.as_slice(), 12);
        let entries = MultibootMemoryMapEntry::read_from(bytes.as_slice(), 16);
        Some(MultibootMemoryMapTag { header, entry_size, entry_version, entries, bytes })
    }

    pub fn header(&self) -> (r: MultibootTagBase)
        ensures
            r == self.header,
    {
        self.header
    }

    pub fn entry_size(&self) -> (r: u32)
        ensures
            r == self.entry_size,
    {
        self.entry_size
    }

    pub fn entry_version(&self) -> (r: u32)
        ensures
            r == self.entry_version,
    {
        self.entry_version
    }

    pub fn entries(&self) -> (r: &MultibootMemoryMapEntry)
        ensures
            *r == self.entries,
    {
        &self.entries
    }

    /// Bytes of available RAM, in units of `size_unit` bytes (rounded
    /// down).
    pub fn get_available_memory(&self, size_unit: u64) -> (r: u64)
        requires
            map_walkable(*self),
            size_unit > 0,
            available_bytes(self.bytes@, map_entries_walked(self.header.size)) <= u64::MAX,
        ensures
            r == available_bytes(self.bytes@, map_entries_walked(self.header.size)) / size_unit as int,
    {
        let n = ((self.header.size - 40) as usize + 23) / 24;
        let data = self.bytes.as_slice();
        let mut mem_size: u64 = 0;
        let mut i: usize = 0;
        while i < n
            invariant
                n == map_entries_walked(self.header.size),
                16 + 24 * n <= data@.len(),
                data@ == self.bytes@,
                i <= n,
                mem_size == available_bytes(data@, i as int),
                available_bytes(data@, n as int) <= u64::MAX,
            decreases n - i,
        {
            proof {
                lemma_available_monotone(data@, i as int + 1, n as int);
            }
            assert(16 + 24 * i + 24 <= data@.len()) by (nonlinear_arith)
                requires
                    i < n,
                    16 + 24 * n <= data@.len(),
            ;
            let entry = MultibootMemoryMapEntry::read_from(data, 16 + 24 * i);
            match MemoryRegionType::from_u32(entry.addr_range_type) {
                Some(region_type) => {
                    if region_type == MemoryRegionType::AvailableRAM {
                        mem_size = mem_size + entry.length;
                    }
                },
                None => {},
            }
            i = i + 1;
        }
        mem_size / size_unit
    }

    /// The highest end address of any region, as a physical address
    /// (bits 52..64 dropped).
    pub fn get_high_usable_memory_address(&self) -> (r: u64)
        requires
            map_walkable(*self),
            forall|i: int|
                0 <= i < map_entries_walked(self.header.size) ==> #[trigger] map_entry(self.bytes@, i).0
                    + map_entry(self.bytes@, i).1 <= u64::MAX,
        ensures
            r == highest_end(self.bytes@, map_entries_walked(self.header.size)) % 0x10_0000_0000_0000,
    {
        let n = ((self.header.size - 40) as usize + 23) / 24;
        let data = self.bytes.as_slice();
        let mut max: u64 = 0;
        let mut i: usize = 0;
        while i < n
            invariant
                n == map_entries_walked(self.header.size),
                16 + 24 * n <= data@.len(),
                data@ == self.bytes@,
                i <= n,
                max == highest_end(data@, i as int),
                forall|k: int|
                    0 <= k < n ==> #[trigger] map_entry(data@, k).0 + map_entry(data@, k).1 <= u64::MAX,
            decreases n - i,
        {
            assert(16 + 24 * i + 24 <= data@.len()) by (nonlinear_arith)
                requires
                    i < n,
                    16 + 24 * n <= data@.len(),
            ;
            let entry = MultibootMemoryMapEntry::read_from(data, 16 + 24 * i);
            assert(map_entry(data@, i as int).0 + map_entry(data@, i as int).1 <= u64::MAX);
            let addr = entry.base_addr + entry.length;
            if addr > max {
                max = addr;
            }
            i = i + 1;
        }
        phys_addr_truncate(max)
    }
}

/// The available bytes of a prefix never exceed those of a longer prefix.
proof fn lemma_available_monotone(s: Seq<u8>, a: int, b: int)
    requires
        0 <= a <= b,
    ensures
        available_bytes(s, a) <= available_bytes(s, b),
    decreases b - a,
{
    if a < b {
        lemma_available_monotone(s, a, b - 1);
    }
}

/// Entries of types other than available RAM add nothing: a memory map
/// whose first `n` entries hold no available RAM has none.
pub proof fn law_available_ignores_other_types(s: Seq<u8>, n: int)
    requires
        forall|i: int| 0 <= i < n ==> #[trigger] map_entry(s, i).2 != 1,
    ensures
        available_bytes(s, n) == 0,
    decreases n,
{
    if n > 0 {
        law_available_ignores_other_types(s, n - 1);
    }
}

/// Each available RAM entry among the first `n` counts in full.
pub proof fn law_available_counts_each_ram_entry(s: Seq<u8>, n: int, i: int)
    requires
        0 <= i < n,
        map_entry(s, i).2 == 1,
    ensures
        available_bytes(s, n) >= map_entry(s, i).1,
    decreases n,
{
    if i < n - 1 {
        law_available_counts_each_ram_entry(s, n - 1, i);
    } else {
        lemma_available_nonneg(s, n - 1);
    }
}

/// The total depends on the available RAM entries alone: two maps whose
/// first `n` entries agree on which are available RAM, and on the lengths
/// of those, have the same total, whatever their other entries hold.
pub proof fn law_available_depends_on_ram_entries_only(s: Seq<u8>, t: Seq<u8>, n: int)
    requires
        forall|i: int| 0 <= i < n ==> (#[trigger] map_entry(s, i).2 == 1) == (map_entry(t, i).2 == 1),
        forall|i: int| 0 <= i < n && #[trigger] map_entry(s, i).2 == 1 ==> map_entry(s, i).1 == map_entry(t, i).1,
    ensures
        available_bytes(s, n) == available_bytes(t, n),
    decreases n,
{
    if n > 0 {
        law_available_depends_on_ram_entries_only(s, t, n - 1);
        assert((map_entry(s, n - 1).2 == 1) == (map_entry(t, n - 1).2 == 1));
    }
}

/// The available bytes are never negative.
proof fn lemma_available_nonneg(s: Seq<u8>, n: int)
    ensures
        available_bytes(s, n) >= 0,
    decreases n,
{
    if n > 0 {
        lemma_available_nonneg(s, n - 1);
    }
}

/// The fixed part of the information structure: its total size.
#[derive(Clone, Copy, Debug)]
pub struct MultibootInfo {
    pub total_size: u32,
    pub _reserved: u32,
}

impl MultibootInfo {
    /// Decodes the fixed part at the start of `data`.
    pub fn new(data: &[u8]) -> (r: Self)
        requires
            data@.len() >= 8,
        ensures
            r.total_size == le32(data@, 0),
            r._reserved == le32(data@, 4),
    {
        MultibootInfo { total_size: read_u32_le(data, 0), _reserved: read_u32_le(data, 4) }
    }

    /// Whether the reserved field is zero, as the structure demands.
    pub fn reserved_ok(&self) -> (r: bool)
        ensures
            r == (self._reserved == 0),
    {
        self._reserved == 0
    }
}

/// A tag's size rounded up to the next multiple of eight: the distance to
/// the next tag.
pub open spec fn tag_step(size: u32) -> int {
    (size + 7) / 8 * 8
}

/// The offset of the first tag of type `t` at or after `pos`, stopping at
/// the end tag (type 0) or at `end`.
pub open spec fn find_tag(s: Seq<u8>, pos: int, end: int, t: u32) -> Option<int>
    decreases end - pos,
{
    if pos >= end || pos < 0 {
        None
    } else {
        let ty = le32(s, pos);
        if ty == 0 {
            None
        } else if ty == t {
            Some(pos)
        } else if tag_step(le32(s, pos + 4) as u32) <= 0 || pos + tag_step(le32(s, pos + 4) as u32) >= end {
            None
        } else {
            find_tag(s, pos + tag_step(le32(s, pos + 4) as u32), end, t)
        }
    }
}

/// The search for a tag of type `t` from `pos` reads only whole tag
/// headers inside `s`, and every tag that it steps over has a nonzero
/// size.
pub open spec fn tag_walk_ok(s: Seq<u8>, pos: int, end: int, t: u32) -> bool
    decreases end - pos,
{
    if pos >= end || pos < 0 {
        true
    } else {
        let ty = le32(s, pos);
        let step = tag_step(le32(s, pos + 4) as u32);
        pos + 8 <= s.len() && (ty == 0 || ty == t || (step > 0 && pos + step <= usize::MAX && (pos
            + step >= end || tag_walk_ok(s, pos + step, end, t))))
    }
}

/// The information structure, copied: its bytes, and where the copy and
/// the modules after it end.
pub struct MultibootInfoView {
    pub info: Vec<u8>,
    pub multiboot_end_logical: u64,
}

impl MultibootInfoView {
    /// An empty view.
    pub fn empty() -> (r: Self)
        ensures
            r.info@.len() == 0,
            r.multiboot_end_logical == 0,
    {
        MultibootInfoView { info: Vec::new(), multiboot_end_logical: 0 }
    }

    /// A view of the structure whose bytes are `info`; `None` unless they
    /// are exactly as many as its total size says, at least 8.
    pub fn new(info: Vec<u8>) -> (r: Option<Self>)
        ensures
            r is Some <==> info@.len() >= 8 && le32(info@, 0) == info@.len(),
            r matches Some(v) ==> v.info@ == info@ && v.multiboot_end_logical == 0,
    {
        if info.len() < 8 {
            return None;
        }
        let total = read_u32_le(info.as_slice(), 0);
        if total as usize != info.len() {
            return None;
        }
        Some(MultibootInfoView { info, multiboot_end_logical: 0 })
    }

    /// Offset of the first tag.
    pub fn tags(&self) -> (r: usize)
        ensures
            r == 8,
    {
        8
    }

    /// Number of bytes of tags.
    pub fn tags_size_bytes(&self) -> (r: usize)
        requires
            self.info@.len() >= 8,
        ensures
            r == self.info@.len() - 8,
    {
        self.info.len() - 8
    }

    /// The structure's total size.
    pub fn length(&self) -> (r: u32)
        requires
            self.info@.len() >= 8,
        ensures
            r == le32(self.info@, 0),
    {
        read_u32_le(self.info.as_slice(), 0)
    }

    /// The fixed part of the structure.
    pub fn base(&self) -> (r: MultibootInfo)
        requires
            self.info@.len() >= 8,
        ensures
            r.total_size == le32(self.info@, 0),
            r._reserved == le32(self.info@, 4),
    {
        MultibootInfo::new(self.info.as_slice())
    }

    pub fn multiboot_end_logical(&self) -> (r: u64)
        ensures
            r == self.multiboot_end_logical,
    {
        self.multiboot_end_logical
    }

    /// Offset of the first tag of type `tag_type` at or after `start`.
    pub fn get_tag_addr_by_type(&self, tag_type: u32, start: usize) -> (r: Option<usize>)
        requires
            start >= 8,
            tag_walk_ok(self.info@, start as int, self.info@.len() as int, tag_type),
        ensures
            match r {
                Some(p) => find_tag(self.info@, start as int, self.info@.len() as int, tag_type)
                    == Some(p as int),
                None => find_tag(self.info@, start as int, self.info@.len() as int, tag_type) is None,
            },
            r matches Some(p) ==> p + 8 <= self.info@.len(),
    {
        let s = self.info.as_slice();
        let end = s.len();
        let mut pos = start;
        while pos < end
            invariant
                end == s@.len(),
                s@ == self.info@,
                tag_walk_ok(s@, pos as int, end as int, tag_type),
                find_tag(s@, start as int, end as int, tag_type) == find_tag(
                    s@,
                    pos as int,
                    end as int,
                    tag_type,
                ),
            decreases end - pos,
        {
            let current_tag_type = read_u32_le(s, pos);
            let size = read_u32_le(s, pos + 4);
            if current_tag_type == 0 {
                return None;
            }
            if current_tag_type == tag_type {
                return Some(pos);
            }
            let length = (size as usize + 7) / 8 * 8;
            if length >= end - pos {
                return None;
            }
            pos = pos + length;
        }
        None
    }

    /// The bytes of the boot loader's name (without the terminating zero),
    /// from the first boot loader name tag.
    pub fn get_boot_loader_name(&self) -> (r: Option<Vec<u8>>)
        requires
            tag_walk_ok(self.info@, 8, self.info@.len() as int, 2),
            find_tag(self.info@, 8, self.info@.len() as int, 2) matches Some(p) ==> le32(
                self.info@,
                p + 4,
            ) >= 9 && p + le32(self.info@, p + 4) - 1 <= self.info@.len(),
        ensures
            match find_tag(self.info@, 8, self.info@.len() as int, 2) {
                Some(p) => r matches Some(v) && v@ == self.info@.subrange(
                    p + 8,
                    p + le32(self.info@, p + 4) - 1,
                ),
                None => r is None,
            },
    {
        let addr = match self.get_tag_addr_by_type(MultibootTagBase::MULTIBOOT_TAG_TYPE_BOOTLOADER_NAME, 8) {
            Some(x) => x,
            None => {
                return None;
            },
        };
        let _n = self.info.len();
        let size = read_u32_le(self.info.as_slice(), addr + 4);
        let strlen = size as usize - 8 - 1;
        let name = vstd::slice::slice_subrange(self.info.as_slice(), addr + 8, addr + 8 + strlen);
        Some(vstd::slice::slice_to_vec(name))
    }

    /// Offset of the memory map tag.
    pub fn get_memory_map_tag(&self) -> (r: Option<usize>)
        requires
            tag_walk_ok(self.info@, 8, self.info@.len() as int, 6),
        ensures
            match r {
                Some(p) => find_tag(self.info@, 8, self.info@.len() as int, 6) == Some(p as int),
                None => find_tag(self.info@, 8, self.info@.len() as int, 6) is None,
            },
    {
        self.get_tag_addr_by_type(MultibootTagBase::MULTIBOOT_TAG_TYPE_MEMORY_MAP, 8)
    }

    /// Offset of the first modules tag at or after `search_start_addr`.
    pub fn get_modules_tag(&self, search_start_addr: usize) -> (r: Option<usize>)
        requires
            search_start_addr >= 8,
            tag_walk_ok(self.info@, search_start_addr as int, self.info@.len() as int, 3),
        ensures
            match r {
                Some(p) => find_tag(self.info@, search_start_addr as int, self.info@.len() as int, 3)
                    == Some(p as int),
                None => find_tag(self.info@, search_start_addr as int, self.info@.len() as int, 3) is None,
            },
    {
        self.get_tag_addr_by_type(MultibootTagBase::MULTIBOOT_TAG_TYPE_MODULES, search_start_addr)
    }

    /// Whether a page is inside the kernel image or the early boot
    /// allocations, from the kernel's base up to the end of the early heap;
    /// those pages stay mapped.
    pub fn is_page_inside_kernel_or_eba_regions(virt_addr: u64, kernel_virt_base: u64, early_heap_end_virt: u64) -> (r: bool)
        ensures
            r == (kernel_virt_base <= virt_addr && virt_addr <= early_heap_end_virt),
    {
        if virt_addr >= kernel_virt_base && virt_addr <= early_heap_end_virt {
            return true;
        }
        false
    }
}

/// The address after a module copied to `dst` with `len` bytes, rounded up
/// to the next 4 KiB page: where the next module is copied.
pub fn next_module_destination(dst: u64, len: u64) -> (r: u64)
    requires
        dst + len + 0xFFF <= u64::MAX,
    ensures
        r == (dst + len + 0xFFF) / 0x1000 * 0x1000,
{
    (dst + len + 0xFFF) / 0x1000 * 0x1000
}

} // verus!
