//! What the bootloader's memory map adds up to.
use vstd::prelude::*;

verus! {

/// What a region of the memory map is used for, as far as the totals tell
/// them apart.
#[derive(Clone, Copy, Debug, PartialEq, Eq, Structural)]
pub enum MemRegionKind {
    Usable,
    Kernel,
    KernelStack,
    Other,
}

/// A region of the memory map: its start and end addresses and its use.
#[derive(Clone, Copy, Debug, PartialEq, Eq, Structural)]
pub struct MemRegion {
    pub start: u64,
    pub end: u64,
    pub kind: MemRegionKind,
}

/// Bytes of memory in all, usable, reserved and taken by the kernel.
#[derive(Clone, Copy, Debug, PartialEq, Eq, Structural)]
pub struct MemInfo {
    pub total: u64,
    pub usable: u64,
    pub reserved: u64,
    pub kernel: u64,
}

/// The totals of `regions` as (total, usable, reserved, kernel): every
/// region counts in the total; kernel code and stack as kernel, usable
/// memory as usable, anything else as reserved.
pub open spec fn mem_totals(regions: Seq<MemRegion>) -> (int, int, int, int)
    decreases regions.len(),
{
    if regions.len() == 0 {
        (0, 0, 0, 0)
    } else {
        let t = mem_totals(regions.drop_last());
        let r = regions.last();
        let size = r.end - r.start;
        match r.kind {
            MemRegionKind::Kernel => (t.0 + size, t.1, t.2, t.3 + size),
            MemRegionKind::KernelStack => (t.0 + size, t.1, t.2, t.3 + size),
            MemRegionKind::Usable => (t.0 + size, t.1 + size, t.2, t.3),
            MemRegionKind::Other => (t.0 + size, t.1, t.2 + size, t.3),
        }
    }
}

/// The totals of a prefix of the map: each part at least zero and at most
/// the total, and the total at most the whole map's.
pub proof fn lemma_mem_totals_bounds(regions: Seq<MemRegion>, n: int)
    requires
        0 <= n <= regions.len(),
        forall|i: int| 0 <= i < regions.len() ==> #[trigger] regions[i].start <= regions[i].end,
    ensures
        0 <= mem_totals(regions.take(n)).1 <= mem_totals(regions.take(n)).0,
        0 <= mem_totals(regions.take(n)).2 <= mem_totals(regions.take(n)).0,
        0 <= mem_totals(regions.take(n)).3 <= mem_totals(regions.take(n)).0,
        mem_totals(regions.take(n)).0 <= mem_totals(regions).0,
    decreases regions.len(),
{
    let p = regions.take(n);
    assert forall|i: int| 0 <= i < p.len() implies #[trigger] p[i].start <= p[i].end by {
        assert(p[i] == regions[i]);
    }
    lemma_mem_totals_nonneg(p);
    if n == regions.len() {
        assert(p =~= regions);
    } else {
        let d = regions.drop_last();
        assert(d.take(n) =~= p);
        lemma_mem_totals_bounds(d, n);
        lemma_mem_totals_nonneg(regions);
    }
}

proof fn lemma_mem_totals_nonneg(regions: Seq<MemRegion>)
    requires
        forall|i: int| 0 <= i < regions.len() ==> #[trigger] regions[i].start <= regions[i].end,
    ensures
        0 <= mem_totals(regions).1 <= mem_totals(regions).0,
        0 <= mem_totals(regions).2 <= mem_totals(regions).0,
        0 <= mem_totals(regions).3 <= mem_totals(regions).0,
    decreases regions.len(),
{
    if regions.len() > 0 {
        lemma_mem_totals_nonneg(regions.drop_last());
    }
}

impl MemInfo {
    /// Adds up the memory map.
    pub fn from(mem_map: &[MemRegion]) -> (r: MemInfo)
        requires
            forall|i: int| 0 <= i < mem_map@.len() ==> #[trigger] mem_map@[i].start <= mem_map@[i].end,
            mem_totals(mem_map@).0 <= u64::MAX,
        ensures
            r.total == mem_totals(mem_map@).0,
            r.usable == mem_totals(mem_map@).1,
            r.reserved == mem_totals(mem_map@).2,
            r.kernel == mem_totals(mem_map@).3,
    {
        let mut total: u64 = 0;
        let mut usable: u64 = 0;
        let mut reserved: u64 = 0;
        let mut kernel: u64 = 0;
        let mut i: usize = 0;
        while i < mem_map.len()
            invariant
                i <= mem_map@.len(),
                forall|k: int| 0 <= k < mem_map@.len() ==> #[trigger] mem_map@[k].start <= mem_map@[k].end,
                mem_totals(mem_map@).0 <= u64::MAX,
                (total as int, usable as int, reserved as int, kernel as int) == mem_totals(mem_map@.take(i as int)),
            decreases mem_map@.len() - i,
        {
            let region = mem_map[i];
            proof {
                lemma_mem_totals_bounds(mem_map@, i as int + 1);
                assert(mem_map@.take(i as int + 1).drop_last() =~= mem_map@.take(i as int));
            }
            let size = region.end - region.start;
            total = total + size;
            match region.kind {
                MemRegionKind::Kernel => kernel = kernel + size,
                MemRegionKind::KernelStack => kernel = kernel + size,
                MemRegionKind::Usable => usable = usable + size,
                MemRegionKind::Other => reserved = reserved + size,
            }
            i = i + 1;
        }
        assert(mem_map@.take(i as int) =~= mem_map@);
        MemInfo { total, usable, reserved, kernel }
    }
}

/// A size split into whole gigabytes and the megabytes, kilobytes and bytes
/// left over, as the memory report prints it.
pub fn size_parts(bytes: u64) -> (r: (u64, u64, u64, u64))
    ensures
        r.0 == bytes / 0x4000_0000,
        r.1 == (bytes % 0x4000_0000) / 0x10_0000,
        r.2 == (bytes % 0x10_0000) / 0x400,
        r.3 == bytes % 0x400,
        r.1 < 1024 && r.2 < 1024 && r.3 < 1024,
{
    let gb = bytes / (1024 * 1024 * 1024);
    let mb = (bytes % (1024 * 1024 * 1024)) / (1024 * 1024);
    let kb = (bytes % (1024 * 1024)) / 1024;
    let b = bytes % 1024;
    (gb, mb, kb, b)
}

/// The four parts of a size give the size back.
pub proof fn law_size_parts_sum(bytes: u64)
    ensures
        (bytes / 0x4000_0000) * 0x4000_0000 + ((bytes % 0x4000_0000) / 0x10_0000) * 0x10_0000
            + ((bytes % 0x10_0000) / 0x400) * 0x400 + bytes % 0x400 == bytes,
{
    let b = bytes as int;
    vstd::arithmetic::div_mod::lemma_fundamental_div_mod(b, 0x4000_0000);
    vstd::arithmetic::div_mod::lemma_fundamental_div_mod(b % 0x4000_0000, 0x10_0000);
    vstd::arithmetic::div_mod::lemma_fundamental_div_mod(b % 0x10_0000, 0x400);
    vstd::arithmetic::div_mod::lemma_mod_mod(b, 0x10_0000, 0x400);
    vstd::arithmetic::div_mod::lemma_mod_mod(b, 0x400, 0x400);
    assert(0x10_0000int * 0x400 == 0x4000_0000);
    assert(0x400int * 0x400 == 0x10_0000);
}

} // verus!
