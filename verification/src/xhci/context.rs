//! The device context the xHC keeps for each slot, and the device context
//! base address array that points at them.
use vstd::prelude::*;
use crate::phys::{phys_addr_new, phys_limit};

verus! {

/// Size of a device context: 32 contexts of 64 bytes at most.
pub const DEVICE_CONTEXT_SIZE: usize = 2048;

/// A device context, as the bytes that the xHC writes.
pub struct DeviceContext {
    pub data: Vec<u8>,
}

impl DeviceContext {
    /// An all-zero device context.
    pub fn new() -> (r: Self)
        ensures
            r.data@ == Seq::new(2048, |i: int| 0u8),
    {
        let mut data: Vec<u8> = Vec::new();
        let mut i: usize = 0;
        while i < DEVICE_CONTEXT_SIZE
            invariant
                i <= 2048,
                data@ == Seq::new(i as nat, |k: int| 0u8),
            decreases 2048 - i,
        {
            data.push(0);
            i = i + 1;
            assert(data@ =~= Seq::new(i as nat, |k: int| 0u8));
        }
        DeviceContext { data }
    }

    /// Offset of the slot context.
    pub fn slot_offset(&self) -> (r: usize)
        ensures
            r == 0,
    {
        0
    }

    /// Offset of the endpoint context with device context index `dci`
    /// (1..=31) for contexts of `context_size` bytes.
    pub fn endpoint_offset(&self, dci: usize, context_size: u32) -> (r: usize)
        requires
            0 < dci <= 31,
            context_size == 32 || context_size == 64,
        ensures
            r == dci * context_size,
    {
        dci * context_size as usize
    }

    /// Offset of the endpoint context with device context index `dci`
    /// (1..=31), for 64-byte contexts when `csz` is set and 32-byte ones
    /// otherwise.
    pub fn endpoint_offset_csz(&self, dci: usize, csz: bool) -> (r: usize)
        requires
            0 < dci <= 31,
        ensures
            r == dci * (if csz {
                64int
            } else {
                32int
            }),
    {
        let step: usize = if csz {
            64
        } else {
            32
        };
        dci * step
    }
}

/// Number of slots of a device context base address array.
pub const DCBAA_ENTRIES: usize = 256;

/// The device context base address array: the physical address of each
/// slot's device context.
pub struct Dcbaa {
    pub entries: Vec<u64>,
}

impl Dcbaa {
    /// An array with every entry zero.
    pub fn new() -> (r: Self)
        ensures
            r.entries@ == Seq::new(256, |i: int| 0u64),
    {
        let mut entries: Vec<u64> = Vec::new();
        let mut i: usize = 0;
        while i < DCBAA_ENTRIES
            invariant
                i <= 256,
                entries@ == Seq::new(i as nat, |k: int| 0u64),
            decreases 256 - i,
        {
            entries.push(0);
            i = i + 1;
            assert(entries@ =~= Seq::new(i as nat, |k: int| 0u64));
        }
        Dcbaa { entries }
    }

    /// The physical address of slot `slot_id`'s device context.
    pub fn get_context(&self, slot_id: usize) -> (r: u64)
        requires
            slot_id < self.entries@.len(),
            self.entries@[slot_id as int] < phys_limit(),
        ensures
            r == self.entries@[slot_id as int],
    {
        phys_addr_new(self.entries[slot_id])
    }

    /// Points slot `slot_id` at the device context at `addr`.
    pub fn set_context(&mut self, slot_id: usize, addr: u64)
        requires
            slot_id < old(self).entries@.len(),
        ensures
            final(self).entries@ == old(self).entries@.update(slot_id as int, addr),
    {
        self.entries.set(slot_id, addr);
    }

    /// Empties slot `slot_id`.
    pub fn clear_context(&mut self, slot_id: usize)
        requires
            slot_id < old(self).entries@.len(),
        ensures
            final(self).entries@ == old(self).entries@.update(slot_id as int, 0),
    {
        self.entries.set(slot_id, 0);
    }
}

/// Reading a slot back after writing it gives the address written, and
/// every other slot is unchanged.
pub proof fn law_dcbaa_set_then_get(entries: Seq<u64>, slot: int, other: int, addr: u64)
    requires
        0 <= slot < entries.len(),
        0 <= other < entries.len(),
        other != slot,
    ensures
        entries.update(slot, addr)[slot] == addr,
        entries.update(slot, addr)[other] == entries[other],
{
}

} // verus!
