//! The input context that software hands the xHC with a command: the
//! input control context with its add and drop flags, then the slot and
//! endpoint contexts.
use vstd::prelude::*;

verus! {

/// The input control context.
#[derive(Clone, Copy, Debug)]
pub struct InputControlContext {
    pub drop_flags: u32,
    pub add_flags: u32,
    pub reserved: [u32; 5],
    pub config_info: u32,
}

impl InputControlContext {
    /// An input control context with every flag and field clear.
    pub fn new() -> (r: Self)
        ensures
            r.drop_flags == 0,
            r.add_flags == 0,
            r.config_info == 0,
            r.reserved@ == seq![0u32, 0u32, 0u32, 0u32, 0u32],
    {
        let r = Self { drop_flags: 0, add_flags: 0, reserved: [0;5], config_info: 0 };
        assert(r.reserved@ =~= seq![0u32, 0u32, 0u32, 0u32, 0u32]);
        r
    }

    /// Sets the add flag of context `index` (0..=31).
    pub fn add_context(&mut self, index: u8)
        requires
            index <= 31,
        ensures
            final(self).add_flags == old(self).add_flags | (1u32 << index),
            final(self).drop_flags == old(self).drop_flags,
            final(self).config_info == old(self).config_info,
    {
        self.add_flags = self.add_flags | (1u32 << index);
    }

    /// Sets the drop flag of context `index` (2..=31; the slot and the
    /// default control endpoint cannot be dropped).
    pub fn drop_context(&mut self, index: u8)
        requires
            2 <= index <= 31,
        ensures
            final(self).drop_flags == old(self).drop_flags | (1u32 << index),
            final(self).add_flags == old(self).add_flags,
            final(self).config_info == old(self).config_info,
    {
        self.drop_flags = self.drop_flags | (1u32 << index);
    }

    /// Sets the add flag of the slot context (A1).
    pub fn add_slot_context(&mut self)
        ensures
            final(self).add_flags == old(self).add_flags | (1u32 << 1u8),
            final(self).drop_flags == old(self).drop_flags,
            final(self).config_info == old(self).config_info,
    {
        self.add_context(1);
    }

    /// Sets the add flag of the default control endpoint's context (A2).
    pub fn add_ep0_context(&mut self)
        ensures
            final(self).add_flags == old(self).add_flags | (1u32 << 2u8),
            final(self).drop_flags == old(self).drop_flags,
            final(self).config_info == old(self).config_info,
    {
        self.add_context(2);
    }

    /// Writes the configuration value, bits 0..=7 of the last dword.
    pub fn set_configuration_value(&mut self, val: u8)
        ensures
            final(self).config_info == (old(self).config_info & !0xFFu32) | (val as u32),
            final(self).add_flags == old(self).add_flags,
            final(self).drop_flags == old(self).drop_flags,
    {
        self.config_info = self.config_info & !0x0000_00FF;
        self.config_info = self.config_info | val as u32;
    }

    /// Writes the interface number, bits 8..=15 of the last dword.
    pub fn set_interface_number(&mut self, val: u8)
        ensures
            final(self).config_info == (old(self).config_info & !0xFF00u32) | ((val as u32) << 8u32),
            final(self).add_flags == old(self).add_flags,
            final(self).drop_flags == old(self).drop_flags,
    {
        self.config_info = self.config_info & !0x0000_FF00;
        self.config_info = self.config_info | ((val as u32) << 8);
    }

    /// Writes the alternate setting, bits 16..=23 of the last dword.
    pub fn set_alternate_setting(&mut self, val: u8)
        ensures
            final(self).config_info == (old(self).config_info & !0xFF0000u32) | ((val as u32)
                << 16u32),
            final(self).add_flags == old(self).add_flags,
            final(self).drop_flags == old(self).drop_flags,
    {
        self.config_info = self.config_info & !0x00FF_0000;
        self.config_info = self.config_info | ((val as u32) << 16);
    }
}

/// Adding a context sets its flag and keeps every flag that was set.
pub proof fn law_add_context_sets_flag(flags: u32, index: u32)
    requires
        index <= 31,
    ensures
        (flags | (1u32 << index)) & (1u32 << index) != 0,
        (flags | (1u32 << index)) & flags == flags,
{
    assert(index <= 31 ==> (flags | (1u32 << index)) & (1u32 << index) != 0 && (flags | (1u32
        << index)) & flags == flags) by (bit_vector);
}

/// Size of an input context: the control context and 32 contexts of 64
/// bytes at most.
pub const INPUT_CONTEXT_SIZE: usize = 2112;

/// An input context, as the bytes handed to the xHC.
pub struct InputContext {
    pub data: Vec<u8>,
}

impl InputContext {
    /// An all-zero input context.
    pub fn new() -> (r: Self)
        ensures
            r.data@ == Seq::new(2112, |i: int| 0u8),
    {
        let mut data: Vec<u8> = Vec::new();
        let mut i: usize = 0;
        while i < INPUT_CONTEXT_SIZE
            invariant
                i <= 2112,
                data@ == Seq::new(i as nat, |k: int| 0u8),
            decreases 2112 - i,
        {
            data.push(0);
            i = i + 1;
            assert(data@ =~= Seq::new(i as nat, |k: int| 0u8));
        }
        InputContext { data }
    }

    /// Offset of the input control context.
    pub fn control_offset(&self) -> (r: usize)
        ensures
            r == 0,
    {
        0
    }

    /// Offset of the slot context: one context past the control context.
    pub fn slot_offset(&self, context_size: u32) -> (r: usize)
        requires
            context_size == 32 || context_size == 64,
        ensures
            r == context_size,
    {
        context_size as usize
    }

    /// Offset of the context with input context index `ici`.
    pub fn endpoint_offset(&self, ici: usize, context_size: u32) -> (r: usize)
        requires
            ici * context_size <= usize::MAX,
        ensures
            r == ici * context_size,
    {
        ici * context_size as usize
    }
}

} // verus!
