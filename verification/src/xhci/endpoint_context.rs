//! The endpoint context: one endpoint's state and its transfer ring.
use vstd::prelude::*;
use crate::bits::{
    bits_test32, bits_update32, field_get32, field_place32, field_set32, get_field32, has_bits32,
    lemma_bits32, lemma_field32_frame, lemma_field32_roundtrip, lemma_place32_fits, place_field32,
    set_bits32, set_field32,
};

verus! {

/// The endpoint context; `CZ` reserved dwords follow the five defined
/// ones (3 for 32-byte contexts, 11 for 64-byte ones).
#[derive(Clone, Copy, Debug)]
pub struct EndpointContext<const CZ: usize> {
    pub dword0: u32,
    pub dword1: u32,
    pub dword2: u32,
    pub dword3: u32,
    pub dword4: u32,
    pub reserved: [u32; CZ],
}

impl<const CZ: usize> EndpointContext<CZ> {
    /// Endpoint State, bits 0..=2 of dword 0.
    pub fn get_ep_state(&self) -> (r: u32)
        ensures
            r == get_field32(self.dword0, 0x7, 0),
    {
        field_get32(self.dword0, 0x7, 0)
    }

    /// Writes the field, cut to its width.
    pub fn set_ep_state(&mut self, val: u32)
        ensures
            final(self).dword0 == set_field32(old(self).dword0, 0x7, 0, val),
            final(self).dword1 == old(self).dword1,
            final(self).dword2 == old(self).dword2,
            final(self).dword3 == old(self).dword3,
            final(self).dword4 == old(self).dword4,
            final(self).reserved == old(self).reserved,
    {
        self.dword0 = field_set32(self.dword0, 0x7, 0, val);
    }

    /// Mult, bits 8..=9 of dword 0.
    pub fn get_mult(&self) -> (r: u32)
        ensures
            r == get_field32(self.dword0, 0x300, 8),
    {
        field_get32(self.dword0, 0x300, 8)
    }

    /// Writes the field, cut to its width.
    pub fn set_mult(&mut self, val: u32)
        ensures
            final(self).dword0 == set_field32(old(self).dword0, 0x300, 8, val),
            final(self).dword1 == old(self).dword1,
            final(self).dword2 == old(self).dword2,
            final(self).dword3 == old(self).dword3,
            final(self).dword4 == old(self).dword4,
            final(self).reserved == old(self).reserved,
    {
        self.dword0 = field_set32(self.dword0, 0x300, 8, val);
    }

    /// Max Primary Streams, bits 10..=14 of dword 0.
    pub fn get_max_pstreams(&self) -> (r: u32)
        ensures
            r == get_field32(self.dword0, 0x7C00, 10),
    {
        field_get32(self.dword0, 0x7C00, 10)
    }

    /// Writes the field, cut to its width.
    pub fn set_max_pstreams(&mut self, val: u32)
        ensures
            final(self).dword0 == set_field32(old(self).dword0, 0x7C00, 10, val),
            final(self).dword1 == old(self).dword1,
            final(self).dword2 == old(self).dword2,
            final(self).dword3 == old(self).dword3,
            final(self).dword4 == old(self).dword4,
            final(self).reserved == old(self).reserved,
    {
        self.dword0 = field_set32(self.dword0, 0x7C00, 10, val);
    }

    /// Linear Stream Array, bit 15 of dword 0.
    pub fn lsa(&self) -> (r: bool)
        ensures
            r == has_bits32(self.dword0, 0x8000),
    {
        bits_test32(self.dword0, 0x8000)
    }

    /// Sets or clears LSA.
    pub fn set_lsa(&mut self, on: bool)
        ensures
            final(self).dword0 == set_bits32(old(self).dword0, 0x8000, on),
            final(self).dword1 == old(self).dword1,
            final(self).dword2 == old(self).dword2,
            final(self).dword3 == old(self).dword3,
            final(self).dword4 == old(self).dword4,
            final(self).reserved == old(self).reserved,
    {
        self.dword0 = bits_update32(self.dword0, 0x8000, on);
    }

    /// Interval, bits 16..=23 of dword 0.
    pub fn get_interval(&self) -> (r: u32)
        ensures
            r == get_field32(self.dword0, 0xFF0000, 16),
    {
        field_get32(self.dword0, 0xFF0000, 16)
    }

    /// Writes the field, cut to its width.
    pub fn set_interval(&mut self, val: u32)
        ensures
            final(self).dword0 == set_field32(old(self).dword0, 0xFF0000, 16, val),
            final(self).dword1 == old(self).dword1,
            final(self).dword2 == old(self).dword2,
            final(self).dword3 == old(self).dword3,
            final(self).dword4 == old(self).dword4,
            final(self).reserved == old(self).reserved,
    {
        self.dword0 = field_set32(self.dword0, 0xFF0000, 16, val);
    }

    /// Max ESIT Payload high byte, bits 24..=31 of dword 0.
    pub fn get_max_esit_payload_hi(&self) -> (r: u32)
        ensures
            r == get_field32(self.dword0, 0xFF000000, 24),
    {
        field_get32(self.dword0, 0xFF000000, 24)
    }

    /// Writes the field, cut to its width.
    pub fn set_max_esit_payload_hi(&mut self, val: u32)
        ensures
            final(self).dword0 == set_field32(old(self).dword0, 0xFF000000, 24, val),
            final(self).dword1 == old(self).dword1,
            final(self).dword2 == old(self).dword2,
            final(self).dword3 == old(self).dword3,
            final(self).dword4 == old(self).dword4,
            final(self).reserved == old(self).reserved,
    {
        self.dword0 = field_set32(self.dword0, 0xFF000000, 24, val);
    }

    /// Error Count, bits 1..=2 of dword 1.
    pub fn get_cerr(&self) -> (r: u32)
        ensures
            r == get_field32(self.dword1, 0x6, 1),
    {
        field_get32(self.dword1, 0x6, 1)
    }

    /// Writes the field, cut to its width.
    pub fn set_cerr(&mut self, val: u32)
        ensures
            final(self).dword1 == set_field32(old(self).dword1, 0x6, 1, val),
            final(self).dword0 == old(self).dword0,
            final(self).dword2 == old(self).dword2,
            final(self).dword3 == old(self).dword3,
            final(self).dword4 == old(self).dword4,
            final(self).reserved == old(self).reserved,
    {
        self.dword1 = field_set32(self.dword1, 0x6, 1, val);
    }

    /// Endpoint Type, bits 3..=5 of dword 1.
    pub fn get_ep_type(&self) -> (r: u32)
        ensures
            r == get_field32(self.dword1, 0x38, 3),
    {
        field_get32(self.dword1, 0x38, 3)
    }

    /// Writes the field, cut to its width.
    pub fn set_ep_type(&mut self, val: u32)
        ensures
            final(self).dword1 == set_field32(old(self).dword1, 0x38, 3, val),
            final(self).dword0 == old(self).dword0,
            final(self).dword2 == old(self).dword2,
            final(self).dword3 == old(self).dword3,
            final(self).dword4 == old(self).dword4,
            final(self).reserved == old(self).reserved,
    {
        self.dword1 = field_set32(self.dword1, 0x38, 3, val);
    }

    /// Host Initiate Disable, bit 7 of dword 1.
    pub fn hid(&self) -> (r: bool)
        ensures
            r == has_bits32(self.dword1, 0x80),
    {
        bits_test32(self.dword1, 0x80)
    }

    /// Sets or clears HID.
    pub fn set_hid(&mut self, on: bool)
        ensures
            final(self).dword1 == set_bits32(old(self).dword1, 0x80, on),
            final(self).dword0 == old(self).dword0,
            final(self).dword2 == old(self).dword2,
            final(self).dword3 == old(self).dword3,
            final(self).dword4 == old(self).dword4,
            final(self).reserved == old(self).reserved,
    {
        self.dword1 = bits_update32(self.dword1, 0x80, on);
    }

    /// Max Burst Size, bits 8..=15 of dword 1.
    pub fn get_max_burst(&self) -> (r: u32)
        ensures
            r == get_field32(self.dword1, 0xFF00, 8),
    {
        field_get32(self.dword1, 0xFF00, 8)
    }

    /// Writes the field, cut to its width.
    pub fn set_max_burst(&mut self, val: u32)
        ensures
            final(self).dword1 == set_field32(old(self).dword1, 0xFF00, 8, val),
            final(self).dword0 == old(self).dword0,
            final(self).dword2 == old(self).dword2,
            final(self).dword3 == old(self).dword3,
            final(self).dword4 == old(self).dword4,
            final(self).reserved == old(self).reserved,
    {
        self.dword1 = field_set32(self.dword1, 0xFF00, 8, val);
    }

    /// Max Packet Size, bits 16..=31 of dword 1.
    pub fn get_max_packet_size(&self) -> (r: u32)
        ensures
            r == get_field32(self.dword1, 0xFFFF0000, 16),
    {
        field_get32(self.dword1, 0xFFFF0000, 16)
    }

    /// Writes the field, cut to its width.
    pub fn set_max_packet_size(&mut self, val: u32)
        ensures
            final(self).dword1 == set_field32(old(self).dword1, 0xFFFF0000, 16, val),
            final(self).dword0 == old(self).dword0,
            final(self).dword2 == old(self).dword2,
            final(self).dword3 == old(self).dword3,
            final(self).dword4 == old(self).dword4,
            final(self).reserved == old(self).reserved,
    {
        self.dword1 = field_set32(self.dword1, 0xFFFF0000, 16, val);
    }

    /// Dequeue Cycle State, bit 0 of dword 2.
    pub fn dcs(&self) -> (r: bool)
        ensures
            r == has_bits32(self.dword2, 0x1),
    {
        bits_test32(self.dword2, 0x1)
    }

    /// Sets or clears DCS.
    pub fn set_dcs(&mut self, on: bool)
        ensures
            final(self).dword2 == set_bits32(old(self).dword2, 0x1, on),
            final(self).dword0 == old(self).dword0,
            final(self).dword1 == old(self).dword1,
            final(self).dword3 == old(self).dword3,
            final(self).dword4 == old(self).dword4,
            final(self).reserved == old(self).reserved,
    {
        self.dword2 = bits_update32(self.dword2, 0x1, on);
    }

    /// The TR dequeue pointer: dword 3 above the 16-byte aligned part of dword 2.
    pub fn get_tr_dequeue_ptr(&self) -> (r: u64)
        ensures
            r == ((self.dword3 as u64) << 32u64) | ((self.dword2 & !0xFu32) as u64),
    {
        let lo = (self.dword2 & !0xF) as u64;
        let hi = self.dword3 as u64;
        (hi << 32) | lo
    }

    /// Writes the TR dequeue pointer, keeping the low four bits of dword 2
    /// (DCS and the stream type).
    pub fn set_tr_dequeue_ptr(&mut self, addr: u64)
        ensures
            final(self).dword2 == (old(self).dword2 & 0xF) | ((addr as u32) & !0xFu32),
            final(self).dword3 == (addr >> 32u64) as u32,
            final(self).dword0 == old(self).dword0,
            final(self).dword1 == old(self).dword1,
            final(self).dword4 == old(self).dword4,
            final(self).reserved == old(self).reserved,
    {
        self.dword2 = (self.dword2 & 0xF) | ((addr as u32) & !0xF);
        self.dword3 = (addr >> 32) as u32;
    }

    /// Average TRB Length, bits 0..=15 of dword 4.
    pub fn get_avg_trb_len(&self) -> (r: u32)
        ensures
            r == get_field32(self.dword4, 0xFFFF, 0),
    {
        field_get32(self.dword4, 0xFFFF, 0)
    }

    /// Writes the average TRB length, cut to its width.
    pub fn set_avg_trb_len(&mut self, val: u32)
        ensures
            final(self).dword4 == set_field32(old(self).dword4, 0xFFFF, 0, val),
            final(self).dword0 == old(self).dword0,
            final(self).dword1 == old(self).dword1,
            final(self).dword2 == old(self).dword2,
            final(self).dword3 == old(self).dword3,
            final(self).reserved == old(self).reserved,
    {
        self.dword4 = field_set32(self.dword4, 0xFFFF, 0, val);
    }

    /// Max ESIT Payload low half, bits 16..=31 of dword 4.
    pub fn get_max_esit_payload_lo(&self) -> (r: u32)
        ensures
            r == get_field32(self.dword4, 0xFFFF0000, 16),
    {
        field_get32(self.dword4, 0xFFFF0000, 16)
    }

    /// Writes the field, cut to its width.
    pub fn set_max_esit_payload_lo(&mut self, val: u32)
        ensures
            final(self).dword4 == set_field32(old(self).dword4, 0xFFFF0000, 16, val),
            final(self).dword0 == old(self).dword0,
            final(self).dword1 == old(self).dword1,
            final(self).dword2 == old(self).dword2,
            final(self).dword3 == old(self).dword3,
            final(self).reserved == old(self).reserved,
    {
        self.dword4 = field_set32(self.dword4, 0xFFFF0000, 16, val);
    }

}

/// Writing an endpoint context field and reading it back gives the value cut to the field, and leaves the rest of the dword as it was.
pub proof fn law_endpoint_context_fields(x: u32, v: u32, on: bool)
    ensures
        get_field32(set_field32(x, 0x7, 0, v), 0x7, 0) == v & 0x7,
        set_field32(x, 0x7, 0, v) & !0x7u32 == x & !0x7u32,
        get_field32(set_field32(x, 0x300, 8, v), 0x300, 8) == v & 0x3,
        set_field32(x, 0x300, 8, v) & !0x300u32 == x & !0x300u32,
        get_field32(set_field32(x, 0x7C00, 10, v), 0x7C00, 10) == v & 0x1F,
        set_field32(x, 0x7C00, 10, v) & !0x7C00u32 == x & !0x7C00u32,
        has_bits32(set_bits32(x, 0x8000, on), 0x8000) == on,
        set_bits32(x, 0x8000, on) & !0x8000u32 == x & !0x8000u32,
        get_field32(set_field32(x, 0xFF0000, 16, v), 0xFF0000, 16) == v & 0xFF,
        set_field32(x, 0xFF0000, 16, v) & !0xFF0000u32 == x & !0xFF0000u32,
        get_field32(set_field32(x, 0xFF000000, 24, v), 0xFF000000, 24) == v & 0xFF,
        set_field32(x, 0xFF000000, 24, v) & !0xFF000000u32 == x & !0xFF000000u32,
        get_field32(set_field32(x, 0x6, 1, v), 0x6, 1) == v & 0x3,
        set_field32(x, 0x6, 1, v) & !0x6u32 == x & !0x6u32,
        get_field32(set_field32(x, 0x38, 3, v), 0x38, 3) == v & 0x7,
        set_field32(x, 0x38, 3, v) & !0x38u32 == x & !0x38u32,
        has_bits32(set_bits32(x, 0x80, on), 0x80) == on,
        set_bits32(x, 0x80, on) & !0x80u32 == x & !0x80u32,
        get_field32(set_field32(x, 0xFF00, 8, v), 0xFF00, 8) == v & 0xFF,
        set_field32(x, 0xFF00, 8, v) & !0xFF00u32 == x & !0xFF00u32,
        get_field32(set_field32(x, 0xFFFF0000, 16, v), 0xFFFF0000, 16) == v & 0xFFFF,
        set_field32(x, 0xFFFF0000, 16, v) & !0xFFFF0000u32 == x & !0xFFFF0000u32,
        has_bits32(set_bits32(x, 0x1, on), 0x1) == on,
        set_bits32(x, 0x1, on) & !0x1u32 == x & !0x1u32,
        get_field32(set_field32(x, 0xFFFF, 0, v), 0xFFFF, 0) == v & 0xFFFF,
        set_field32(x, 0xFFFF, 0, v) & !0xFFFFu32 == x & !0xFFFFu32,
        get_field32(set_field32(x, 0xFFFF0000, 16, v), 0xFFFF0000, 16) == v & 0xFFFF,
        set_field32(x, 0xFFFF0000, 16, v) & !0xFFFF0000u32 == x & !0xFFFF0000u32,
{
    assert(0x6u32 >> 1u32 == 0x3u32 && 0x7u32 >> 0u32 == 0x7u32 && 0x38u32 >> 3u32 == 0x7u32 && 0x300u32 >> 8u32 == 0x3u32 && 0x7C00u32 >> 10u32 == 0x1Fu32 && 0xFF00u32 >> 8u32 == 0xFFu32 && 0xFFFFu32 >> 0u32 == 0xFFFFu32 && 0xFF0000u32 >> 16u32 == 0xFFu32 && 0xFF000000u32 >> 24u32 == 0xFFu32 && 0xFFFF0000u32 >> 16u32 == 0xFFFFu32) by (bit_vector);
    lemma_field32_roundtrip(x, 0x7, 0, v);
    lemma_field32_frame(x, 0x7, 0, v);
    lemma_field32_roundtrip(x, 0x300, 8, v);
    lemma_field32_frame(x, 0x300, 8, v);
    lemma_field32_roundtrip(x, 0x7C00, 10, v);
    lemma_field32_frame(x, 0x7C00, 10, v);
    lemma_bits32(x, 0x8000, on);
    lemma_field32_roundtrip(x, 0xFF0000, 16, v);
    lemma_field32_frame(x, 0xFF0000, 16, v);
    lemma_field32_roundtrip(x, 0xFF000000, 24, v);
    lemma_field32_frame(x, 0xFF000000, 24, v);
    lemma_field32_roundtrip(x, 0x6, 1, v);
    lemma_field32_frame(x, 0x6, 1, v);
    lemma_field32_roundtrip(x, 0x38, 3, v);
    lemma_field32_frame(x, 0x38, 3, v);
    lemma_bits32(x, 0x80, on);
    lemma_field32_roundtrip(x, 0xFF00, 8, v);
    lemma_field32_frame(x, 0xFF00, 8, v);
    lemma_field32_roundtrip(x, 0xFFFF0000, 16, v);
    lemma_field32_frame(x, 0xFFFF0000, 16, v);
    lemma_bits32(x, 0x1, on);
    lemma_field32_roundtrip(x, 0xFFFF, 0, v);
    lemma_field32_frame(x, 0xFFFF, 0, v);
    lemma_field32_roundtrip(x, 0xFFFF0000, 16, v);
    lemma_field32_frame(x, 0xFFFF0000, 16, v);
}

/// Reading back a TR dequeue pointer that was just written gives the
/// pointer with its low four bits cleared, and keeps the low four bits of
/// dword 2.
pub proof fn law_tr_dequeue_ptr_roundtrip(dword2: u32, addr: u64)
    ensures
        ((((addr >> 32u64) as u32) as u64) << 32u64) | ((((dword2 & 0xF) | ((addr as u32)
            & !0xFu32)) & !0xFu32) as u64) == addr & !0xFu64,
        ((dword2 & 0xF) | ((addr as u32) & !0xFu32)) & 0xF == dword2 & 0xF,
{
    assert(((((addr >> 32u64) as u32) as u64) << 32u64) | ((((dword2 & 0xF) | ((addr as u32)
        & !0xFu32)) & !0xFu32) as u64) == addr & !0xFu64 && ((dword2 & 0xF) | ((addr as u32)
        & !0xFu32)) & 0xF == dword2 & 0xF) by (bit_vector);
}

} // verus!
