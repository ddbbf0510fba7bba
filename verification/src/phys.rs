//! Physical and virtual addresses. The library holds them as plain `u64`
//! values; the arithmetic that the `x86_64` crate defines on them is done
//! through it.
use vstd::prelude::*;

verus! {

/// The first address that `x86_64::PhysAddr` refuses: bits 52..64 must be clear.
pub open spec fn phys_limit() -> int {
    0x10_0000_0000_0000
}

/// Adds `offset` to the physical address `base` with `x86_64::PhysAddr`'s `+`.
///
/// `PhysAddr::new` accepts `base` because it is below 2^52; `+` adds with
/// `checked_add` and re-checks the 52-bit limit, panicking otherwise, so the
/// sum must stay below 2^52. The result is the plain sum.
#[verifier::external_body]
pub fn phys_addr_add(base: u64, offset: u64) -> (r: u64)
    requires
        base + offset < phys_limit(),
    ensures
        r == base + offset,
{
    (x86_64::PhysAddr::new(base) + offset).as_u64()
}

/// `x86_64::PhysAddr::new_truncate`: keeps bits 0..52 of the address.
#[verifier::external_body]
pub fn phys_addr_truncate(addr: u64) -> (r: u64)
    ensures
        r == addr % 0x10_0000_0000_0000,
{
    x86_64::PhysAddr::new_truncate(addr).as_u64()
}

/// `x86_64::PhysAddr::new`: panics when a bit in 52..64 is set, else keeps the
/// address as it is.
#[verifier::external_body]
pub fn phys_addr_new(addr: u64) -> (r: u64)
    requires
        addr < phys_limit(),
    ensures
        r == addr,
{
    x86_64::PhysAddr::new(addr).as_u64()
}

/// A virtual address is canonical when bits 48..64 repeat bit 47.
pub open spec fn canonical(addr: int) -> bool {
    (0 <= addr < 0x8000_0000_0000) || (0xFFFF_8000_0000_0000 <= addr <= u64::MAX)
}

/// Adds `offset` to the virtual address `base` with `x86_64::VirtAddr`'s `+`.
///
/// `VirtAddr::new` accepts a canonical `base`; `+` adds with `checked_add`
/// and panics on overflow or on a sum that is not canonical. The result is
/// the plain sum.
#[verifier::external_body]
pub fn virt_addr_add(base: u64, offset: u64) -> (r: u64)
    requires
        canonical(base as int),
        canonical(base + offset),
    ensures
        r == base + offset,
{
    (x86_64::VirtAddr::new(base) + offset).as_u64()
}

/// `x86_64::VirtAddr::new`: panics unless the address is canonical, else
/// keeps it as it is.
#[verifier::external_body]
pub fn virt_addr_new(addr: u64) -> (r: u64)
    requires
        canonical(addr as int),
    ensures
        r == addr,
{
    x86_64::VirtAddr::new(addr).as_u64()
}

} // verus!
