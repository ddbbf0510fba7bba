//! Decoding a base address register from the value it holds and the mask
//! that it reads back after all ones were written to it.
use vstd::prelude::*;

verus! {

/// Offset of BAR 0 in configuration space.
pub const BAR0_OFFSET: u8 = 0x10;
/// Bit 0: the BAR maps I/O space.
pub const PCI_BAR_IO: u32 = 0x01;
/// Bit 3: the memory is prefetchable.
pub const PCI_BAR_PREFETCH: u32 = 0x08;
/// Bits 1..3: the memory BAR's type.
pub const PCI_BAR_MEM_TYPE_MASK: u32 = 0x06;
/// The type of a 64-bit memory BAR, which takes the next BAR as its high half.
pub const PCI_BAR_MEM_TYPE_64: u32 = 0x04;

/// What a BAR held, and what it read back once all ones were written.
#[derive(Clone, Copy, Debug)]
pub struct BarInfo {
    pub address: u32,
    pub mask: u32,
}

impl BarInfo {
    /// The configuration space offset of BAR `bar_index`.
    pub fn offset(bar_index: u8) -> (r: u32)
        requires
            bar_index <= 59,
        ensures
            r == 0x10 + 4 * bar_index,
    {
        (BAR0_OFFSET + (bar_index * 4)) as u32
    }
}

/// The address spaces a BAR can map.
#[derive(PartialEq, Eq, Structural, Clone, Copy, Debug)]
pub enum BarType {
    Mmio32,
    Mmio64,
    Io,
}

/// A decoded base address register.
#[derive(Clone, Copy, Debug)]
pub struct PciBAR {
    base_address: u64,
    size: u64,
    bar_type: BarType,
    prefetchable: bool,
}

/// The kind of BAR that `low` describes.
pub open spec fn bar_kind(low: BarInfo) -> BarType {
    if low.address & 1 != 0 {
        BarType::Io
    } else if low.address & 6 == 4 {
        BarType::Mmio64
    } else {
        BarType::Mmio32
    }
}

/// The size mask of a 64-bit BAR: the high half's mask above the low
/// half's address bits.
pub open spec fn mask64(low: BarInfo, high: BarInfo) -> u64 {
    ((high.mask as u64) << 32u64) | ((low.mask & !0xFu32) as u64)
}

/// The BAR reads back a mask from which a size can be computed: some
/// address bit is writable.
pub open spec fn bar_decodable(low: BarInfo, high: Option<BarInfo>) -> bool {
    match bar_kind(low) {
        BarType::Io => low.mask & !3u32 != 0,
        BarType::Mmio32 => low.mask & !0xFu32 != 0,
        BarType::Mmio64 => high matches Some(h) && mask64(low, h) != 0,
    }
}

/// The base address that the BAR holds.
pub open spec fn bar_base(low: BarInfo, high: Option<BarInfo>) -> u64 {
    match bar_kind(low) {
        BarType::Io => (low.address & !3u32) as u64,
        BarType::Mmio32 => (low.address & !0xFu32) as u64,
        BarType::Mmio64 => ((high->0.address as u64) << 32u64) | ((low.address & !0xFu32) as u64),
    }
}

/// The size of the region, from the two's complement of the writable bits.
pub open spec fn bar_size(low: BarInfo, high: Option<BarInfo>) -> u64 {
    match bar_kind(low) {
        BarType::Io => (!(low.mask & !3u32) + 1) as u64,
        BarType::Mmio32 => (!(low.mask & !0xFu32) + 1) as u64,
        BarType::Mmio64 => (!mask64(low, high->0) + 1) as u64,
    }
}

/// The complement of a nonzero value leaves room for adding one.
proof fn lemma_complement_room(x: u32, y: u64)
    ensures
        x != 0 ==> !x < 0xFFFF_FFFFu32,
        y != 0 ==> !y < 0xFFFF_FFFF_FFFF_FFFFu64,
{
    assert((x != 0 ==> !x < 0xFFFF_FFFFu32) && (y != 0 ==> !y < 0xFFFF_FFFF_FFFF_FFFFu64))
        by (bit_vector);
}

impl PciBAR {
    pub closed spec fn spec_base_address(&self) -> u64 {
        self.base_address
    }

    pub closed spec fn spec_size(&self) -> u64 {
        self.size
    }

    pub closed spec fn spec_bar_type(&self) -> BarType {
        self.bar_type
    }

    pub closed spec fn spec_prefetchable(&self) -> bool {
        self.prefetchable
    }

    /// Decodes the BAR from its low half and, for a 64-bit memory BAR, the
    /// next BAR as its high half.
    pub fn get(low: BarInfo, high: Option<BarInfo>) -> (r: Self)
        requires
            bar_decodable(low, high),
        ensures
            r.spec_bar_type() == bar_kind(low),
            r.spec_base_address() == bar_base(low, high),
            r.spec_size() == bar_size(low, high),
            r.spec_prefetchable() == (bar_kind(low) != BarType::Io && low.address & 8 != 0),
    {
        let address_low = low.address;
        let mask_low = low.mask;
        proof {
            lemma_complement_room(mask_low & !0x3u32, 1);
            lemma_complement_room(mask_low & !0xFu32, 1);
            if let Some(h) = high {
                lemma_complement_room(0, mask64(low, h));
            }
        }
        if (address_low & PCI_BAR_IO) != 0 {
            let base = (address_low & !0x3) as u64;
            let size = (!(mask_low & !0x3) + 1) as u64;
            return PciBAR { base_address: base, size, bar_type: BarType::Io, prefetchable: false };
        }
        let prefetchable = (address_low & PCI_BAR_PREFETCH) != 0;
        let mem_type = address_low & PCI_BAR_MEM_TYPE_MASK;
        if mem_type == PCI_BAR_MEM_TYPE_64 {
            let bar_high = match high {
                Some(h) => h,
                None => {
                    return PciBAR { base_address: 0, size: 0, bar_type: BarType::Mmio64, prefetchable };
                },
            };
            let base = ((bar_high.address as u64) << 32) | ((address_low & !0xF) as u64);
            let size = !(((bar_high.mask as u64) << 32) | ((mask_low & !0xF) as u64)) + 1;
            return PciBAR { base_address: base, size, bar_type: BarType::Mmio64, prefetchable };
        }
        let base = (address_low & !0xF) as u64;
        let size = (!(mask_low & !0xF) + 1) as u64;
        PciBAR { base_address: base, size, bar_type: BarType::Mmio32, prefetchable }
    }

    pub fn base_address(&self) -> (r: u64)
        ensures
            r == self.spec_base_address(),
    {
        self.base_address
    }

    pub fn size(&self) -> (r: u64)
        ensures
            r == self.spec_size(),
    {
        self.size
    }

    pub fn bar_type(&self) -> (r: &BarType)
        ensures
            *r == self.spec_bar_type(),
    {
        &self.bar_type
    }

    pub fn prefetchable(&self) -> (r: bool)
        ensures
            r == self.spec_prefetchable(),
    {
        self.prefetchable
    }
}

/// A decoded base address is aligned as its address space demands: to
/// four bytes in I/O space, to sixteen in memory.
pub proof fn law_bar_base_aligned(low: BarInfo, high: Option<BarInfo>)
    requires
        bar_decodable(low, high),
    ensures
        bar_kind(low) == BarType::Io ==> bar_base(low, high) & 3 == 0,
        bar_kind(low) != BarType::Io ==> bar_base(low, high) & 0xF == 0,
{
    let a = low.address;
    assert(((a & !3u32) as u64) & 3 == 0) by (bit_vector);
    assert(((a & !0xFu32) as u64) & 0xF == 0) by (bit_vector);
    if bar_kind(low) == BarType::Mmio64 {
        let h = high->0.address;
        assert((((h as u64) << 32u64) | ((a & !0xFu32) as u64)) & 0xF == 0) by (bit_vector);
    }
}

} // verus!
