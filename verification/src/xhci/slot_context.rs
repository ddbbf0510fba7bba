//! The slot context: the device-wide part of a device context.
use vstd::prelude::*;
use crate::bits::{
    bits_test32, bits_update32, field_get32, field_place32, field_set32, get_field32, has_bits32,
    lemma_bits32, lemma_field32_frame, lemma_field32_roundtrip, lemma_place32_fits, place_field32,
    set_bits32, set_field32,
};

verus! {

/// The slot context; `CZ` reserved dwords follow the four defined ones (4
/// for 32-byte contexts, 12 for 64-byte ones).
#[derive(Clone, Copy, Debug)]
pub struct SlotContext<const CZ: usize> {
    pub dword0: u32,
    pub dword1: u32,
    pub dword2: u32,
    pub dword3: u32,
    pub reserved: [u32; CZ],
}

impl<const CZ: usize> SlotContext<CZ> {
    /// Route String, bits 0..=19 of dword 0.
    pub fn get_route_string(&self) -> (r: u32)
        ensures
            r == get_field32(self.dword0, 0xFFFFF, 0),
    {
        field_get32(self.dword0, 0xFFFFF, 0)
    }

    /// Writes the route string, cut to its 20 bits.
    pub fn set_route_string(&mut self, route: u32)
        ensures
            final(self).dword0 == set_field32(old(self).dword0, 0xFFFFF, 0, route),
            final(self).dword1 == old(self).dword1,
            final(self).dword2 == old(self).dword2,
            final(self).dword3 == old(self).dword3,
            final(self).reserved == old(self).reserved,
    {
        self.dword0 = field_set32(self.dword0, 0xFFFFF, 0, route);
    }

    /// Speed, bits 20..=23 of dword 0.
    pub fn get_speed(&self) -> (r: u8)
        ensures
            r == get_field32(self.dword0, 0xF00000, 20) as u8,
    {
        field_get32(self.dword0, 0xF00000, 20) as u8
    }

    /// Writes the speed.
    pub fn set_speed(&mut self, speed: u8)
        ensures
            final(self).dword0 == place_field32(old(self).dword0, 0xF00000, 20, speed as u32),
            final(self).dword1 == old(self).dword1,
            final(self).dword2 == old(self).dword2,
            final(self).dword3 == old(self).dword3,
            final(self).reserved == old(self).reserved,
    {
        self.dword0 = field_place32(self.dword0, 0xF00000, 20, speed as u32);
    }

    /// Multi-TT, bit 25 of dword 0.
    pub fn is_multi_tt(&self) -> (r: bool)
        ensures
            r == has_bits32(self.dword0, 0x2000000),
    {
        bits_test32(self.dword0, 0x2000000)
    }

    /// Sets or clears Multi-TT.
    pub fn set_multi_tt(&mut self, enabled: bool)
        ensures
            final(self).dword0 == set_bits32(old(self).dword0, 0x2000000, enabled),
            final(self).dword1 == old(self).dword1,
            final(self).dword2 == old(self).dword2,
            final(self).dword3 == old(self).dword3,
            final(self).reserved == old(self).reserved,
    {
        self.dword0 = bits_update32(self.dword0, 0x2000000, enabled);
    }

    /// Hub, bit 26 of dword 0.
    pub fn is_hub(&self) -> (r: bool)
        ensures
            r == has_bits32(self.dword0, 0x4000000),
    {
        bits_test32(self.dword0, 0x4000000)
    }

    /// Sets or clears Hub.
    pub fn set_hub(&mut self, enabled: bool)
        ensures
            final(self).dword0 == set_bits32(old(self).dword0, 0x4000000, enabled),
            final(self).dword1 == old(self).dword1,
            final(self).dword2 == old(self).dword2,
            final(self).dword3 == old(self).dword3,
            final(self).reserved == old(self).reserved,
    {
        self.dword0 = bits_update32(self.dword0, 0x4000000, enabled);
    }

    /// Context Entries, bits 27..=31 of dword 0.
    pub fn get_context_entries(&self) -> (r: u8)
        ensures
            r == get_field32(self.dword0, 0xF8000000, 27) as u8,
    {
        field_get32(self.dword0, 0xF8000000, 27) as u8
    }

    /// Writes the context entries.
    pub fn set_context_entries(&mut self, entries: u8)
        ensures
            final(self).dword0 == place_field32(old(self).dword0, 0xF8000000, 27, entries as u32),
            final(self).dword1 == old(self).dword1,
            final(self).dword2 == old(self).dword2,
            final(self).dword3 == old(self).dword3,
            final(self).reserved == old(self).reserved,
    {
        self.dword0 = field_place32(self.dword0, 0xF8000000, 27, entries as u32);
    }

    /// Max Exit Latency, bits 0..=15 of dword 1.
    pub fn get_max_exit_latency(&self) -> (r: u16)
        ensures
            r == get_field32(self.dword1, 0xFFFF, 0) as u16,
    {
        field_get32(self.dword1, 0xFFFF, 0) as u16
    }

    /// Writes the max exit latency.
    pub fn set_max_exit_latency(&mut self, latency: u16)
        ensures
            final(self).dword1 == place_field32(old(self).dword1, 0xFFFF, 0, latency as u32),
            final(self).dword0 == old(self).dword0,
            final(self).dword2 == old(self).dword2,
            final(self).dword3 == old(self).dword3,
            final(self).reserved == old(self).reserved,
    {
        self.dword1 = field_place32(self.dword1, 0xFFFF, 0, latency as u32);
    }

    /// Root Hub Port Number, bits 16..=23 of dword 1.
    pub fn get_root_hub_port(&self) -> (r: u8)
        ensures
            r == get_field32(self.dword1, 0xFF0000, 16) as u8,
    {
        field_get32(self.dword1, 0xFF0000, 16) as u8
    }

    /// Writes the root hub port number.
    pub fn set_root_hub_port(&mut self, port: u8)
        ensures
            final(self).dword1 == place_field32(old(self).dword1, 0xFF0000, 16, port as u32),
            final(self).dword0 == old(self).dword0,
            final(self).dword2 == old(self).dword2,
            final(self).dword3 == old(self).dword3,
            final(self).reserved == old(self).reserved,
    {
        self.dword1 = field_place32(self.dword1, 0xFF0000, 16, port as u32);
    }

    /// Number of Ports, bits 24..=31 of dword 1.
    pub fn get_num_ports(&self) -> (r: u8)
        ensures
            r == get_field32(self.dword1, 0xFF000000, 24) as u8,
    {
        field_get32(self.dword1, 0xFF000000, 24) as u8
    }

    /// Writes the number of ports.
    pub fn set_num_ports(&mut self, ports: u8)
        ensures
            final(self).dword1 == place_field32(old(self).dword1, 0xFF000000, 24, ports as u32),
            final(self).dword0 == old(self).dword0,
            final(self).dword2 == old(self).dword2,
            final(self).dword3 == old(self).dword3,
            final(self).reserved == old(self).reserved,
    {
        self.dword1 = field_place32(self.dword1, 0xFF000000, 24, ports as u32);
    }

    /// Parent Hub Slot ID, bits 0..=7 of dword 2.
    pub fn get_parent_hub_slot(&self) -> (r: u8)
        ensures
            r == get_field32(self.dword2, 0xFF, 0) as u8,
    {
        field_get32(self.dword2, 0xFF, 0) as u8
    }

    /// Writes the parent hub slot ID.
    pub fn set_parent_hub_slot(&mut self, slot: u8)
        ensures
            final(self).dword2 == place_field32(old(self).dword2, 0xFF, 0, slot as u32),
            final(self).dword0 == old(self).dword0,
            final(self).dword1 == old(self).dword1,
            final(self).dword3 == old(self).dword3,
            final(self).reserved == old(self).reserved,
    {
        self.dword2 = field_place32(self.dword2, 0xFF, 0, slot as u32);
    }

    /// Parent Port Number, bits 8..=15 of dword 2.
    pub fn get_parent_port(&self) -> (r: u8)
        ensures
            r == get_field32(self.dword2, 0xFF00, 8) as u8,
    {
        field_get32(self.dword2, 0xFF00, 8) as u8
    }

    /// Writes the parent port number.
    pub fn set_parent_port(&mut self, port: u8)
        ensures
            final(self).dword2 == place_field32(old(self).dword2, 0xFF00, 8, port as u32),
            final(self).dword0 == old(self).dword0,
            final(self).dword1 == old(self).dword1,
            final(self).dword3 == old(self).dword3,
            final(self).reserved == old(self).reserved,
    {
        self.dword2 = field_place32(self.dword2, 0xFF00, 8, port as u32);
    }

    /// TT Think Time, bits 16..=17 of dword 2.
    pub fn get_tt_think_time(&self) -> (r: u8)
        ensures
            r == get_field32(self.dword2, 0x30000, 16) as u8,
    {
        field_get32(self.dword2, 0x30000, 16) as u8
    }

    /// Writes the TT think time.
    pub fn set_tt_think_time(&mut self, ttt: u8)
        ensures
            final(self).dword2 == place_field32(old(self).dword2, 0x30000, 16, ttt as u32),
            final(self).dword0 == old(self).dword0,
            final(self).dword1 == old(self).dword1,
            final(self).dword3 == old(self).dword3,
            final(self).reserved == old(self).reserved,
    {
        self.dword2 = field_place32(self.dword2, 0x30000, 16, ttt as u32);
    }

    /// Interrupter Target, bits 22..=31 of dword 2.
    pub fn get_interrupter_target(&self) -> (r: u16)
        ensures
            r == get_field32(self.dword2, 0xFFC00000, 22) as u16,
    {
        field_get32(self.dword2, 0xFFC00000, 22) as u16
    }

    /// Writes the interrupter target.
    pub fn set_interrupter_target(&mut self, intr: u16)
        ensures
            final(self).dword2 == place_field32(old(self).dword2, 0xFFC00000, 22, intr as u32),
            final(self).dword0 == old(self).dword0,
            final(self).dword1 == old(self).dword1,
            final(self).dword3 == old(self).dword3,
            final(self).reserved == old(self).reserved,
    {
        self.dword2 = field_place32(self.dword2, 0xFFC00000, 22, intr as u32);
    }

    /// USB Device Address, bits 0..=7 of dword 3.
    pub fn get_usb_address(&self) -> (r: u8)
        ensures
            r == get_field32(self.dword3, 0xFF, 0) as u8,
    {
        field_get32(self.dword3, 0xFF, 0) as u8
    }

    /// Writes the USB device address.
    pub fn set_usb_address(&mut self, addr: u8)
        ensures
            final(self).dword3 == place_field32(old(self).dword3, 0xFF, 0, addr as u32),
            final(self).dword0 == old(self).dword0,
            final(self).dword1 == old(self).dword1,
            final(self).dword2 == old(self).dword2,
            final(self).reserved == old(self).reserved,
    {
        self.dword3 = field_place32(self.dword3, 0xFF, 0, addr as u32);
    }

    /// Slot State, bits 27..=31 of dword 3.
    pub fn get_slot_state(&self) -> (r: u8)
        ensures
            r == get_field32(self.dword3, 0xF8000000, 27) as u8,
    {
        field_get32(self.dword3, 0xF8000000, 27) as u8
    }

}

/// Writing a slot context field and reading it back gives the value cut to the field, and leaves the rest of the dword as it was; a value written without cutting must fit the field.
pub proof fn law_slot_context_fields(x: u32, v: u32, on: bool)
    ensures
        get_field32(set_field32(x, 0xFFFFF, 0, v), 0xFFFFF, 0) == v & 0xFFFFF,
        set_field32(x, 0xFFFFF, 0, v) & !0xFFFFFu32 == x & !0xFFFFFu32,
        (v << 20u32) & !0xF00000u32 == 0 ==> get_field32(place_field32(x, 0xF00000, 20, v), 0xF00000, 20) == v & 0xF,
        (v << 20u32) & !0xF00000u32 == 0 ==> place_field32(x, 0xF00000, 20, v) & !0xF00000u32 == x & !0xF00000u32,
        has_bits32(set_bits32(x, 0x2000000, on), 0x2000000) == on,
        set_bits32(x, 0x2000000, on) & !0x2000000u32 == x & !0x2000000u32,
        has_bits32(set_bits32(x, 0x4000000, on), 0x4000000) == on,
        set_bits32(x, 0x4000000, on) & !0x4000000u32 == x & !0x4000000u32,
        (v << 27u32) & !0xF8000000u32 == 0 ==> get_field32(place_field32(x, 0xF8000000, 27, v), 0xF8000000, 27) == v & 0x1F,
        (v << 27u32) & !0xF8000000u32 == 0 ==> place_field32(x, 0xF8000000, 27, v) & !0xF8000000u32 == x & !0xF8000000u32,
        (v << 0u32) & !0xFFFFu32 == 0 ==> get_field32(place_field32(x, 0xFFFF, 0, v), 0xFFFF, 0) == v & 0xFFFF,
        (v << 0u32) & !0xFFFFu32 == 0 ==> place_field32(x, 0xFFFF, 0, v) & !0xFFFFu32 == x & !0xFFFFu32,
        (v << 16u32) & !0xFF0000u32 == 0 ==> get_field32(place_field32(x, 0xFF0000, 16, v), 0xFF0000, 16) == v & 0xFF,
        (v << 16u32) & !0xFF0000u32 == 0 ==> place_field32(x, 0xFF0000, 16, v) & !0xFF0000u32 == x & !0xFF0000u32,
        (v << 24u32) & !0xFF000000u32 == 0 ==> get_field32(place_field32(x, 0xFF000000, 24, v), 0xFF000000, 24) == v & 0xFF,
        (v << 24u32) & !0xFF000000u32 == 0 ==> place_field32(x, 0xFF000000, 24, v) & !0xFF000000u32 == x & !0xFF000000u32,
        (v << 0u32) & !0xFFu32 == 0 ==> get_field32(place_field32(x, 0xFF, 0, v), 0xFF, 0) == v & 0xFF,
        (v << 0u32) & !0xFFu32 == 0 ==> place_field32(x, 0xFF, 0, v) & !0xFFu32 == x & !0xFFu32,
        (v << 8u32) & !0xFF00u32 == 0 ==> get_field32(place_field32(x, 0xFF00, 8, v), 0xFF00, 8) == v & 0xFF,
        (v << 8u32) & !0xFF00u32 == 0 ==> place_field32(x, 0xFF00, 8, v) & !0xFF00u32 == x & !0xFF00u32,
        (v << 16u32) & !0x30000u32 == 0 ==> get_field32(place_field32(x, 0x30000, 16, v), 0x30000, 16) == v & 0x3,
        (v << 16u32) & !0x30000u32 == 0 ==> place_field32(x, 0x30000, 16, v) & !0x30000u32 == x & !0x30000u32,
        (v << 22u32) & !0xFFC00000u32 == 0 ==> get_field32(place_field32(x, 0xFFC00000, 22, v), 0xFFC00000, 22) == v & 0x3FF,
        (v << 22u32) & !0xFFC00000u32 == 0 ==> place_field32(x, 0xFFC00000, 22, v) & !0xFFC00000u32 == x & !0xFFC00000u32,
        (v << 0u32) & !0xFFu32 == 0 ==> get_field32(place_field32(x, 0xFF, 0, v), 0xFF, 0) == v & 0xFF,
        (v << 0u32) & !0xFFu32 == 0 ==> place_field32(x, 0xFF, 0, v) & !0xFFu32 == x & !0xFFu32,
{
    assert(0xFFu32 >> 0u32 == 0xFFu32 && 0xFF00u32 >> 8u32 == 0xFFu32 && 0xFFFFu32 >> 0u32 == 0xFFFFu32 && 0x30000u32 >> 16u32 == 0x3u32 && 0xFFFFFu32 >> 0u32 == 0xFFFFFu32 && 0xF00000u32 >> 20u32 == 0xFu32 && 0xFF0000u32 >> 16u32 == 0xFFu32 && 0xF8000000u32 >> 27u32 == 0x1Fu32 && 0xFF000000u32 >> 24u32 == 0xFFu32 && 0xFFC00000u32 >> 22u32 == 0x3FFu32) by (bit_vector);
    lemma_field32_roundtrip(x, 0xFFFFF, 0, v);
    lemma_field32_frame(x, 0xFFFFF, 0, v);
    if (v << 20u32) & !0xF00000u32 == 0 {
        lemma_place32_fits(x, 0xF00000, 20, v);
        lemma_field32_roundtrip(x, 0xF00000, 20, v);
        lemma_field32_frame(x, 0xF00000, 20, v);
    }
    lemma_bits32(x, 0x2000000, on);
    lemma_bits32(x, 0x4000000, on);
    if (v << 27u32) & !0xF8000000u32 == 0 {
        lemma_place32_fits(x, 0xF8000000, 27, v);
        lemma_field32_roundtrip(x, 0xF8000000, 27, v);
        lemma_field32_frame(x, 0xF8000000, 27, v);
    }
    if (v << 0u32) & !0xFFFFu32 == 0 {
        lemma_place32_fits(x, 0xFFFF, 0, v);
        lemma_field32_roundtrip(x, 0xFFFF, 0, v);
        lemma_field32_frame(x, 0xFFFF, 0, v);
    }
    if (v << 16u32) & !0xFF0000u32 == 0 {
        lemma_place32_fits(x, 0xFF0000, 16, v);
        lemma_field32_roundtrip(x, 0xFF0000, 16, v);
        lemma_field32_frame(x, 0xFF0000, 16, v);
    }
    if (v << 24u32) & !0xFF000000u32 == 0 {
        lemma_place32_fits(x, 0xFF000000, 24, v);
        lemma_field32_roundtrip(x, 0xFF000000, 24, v);
        lemma_field32_frame(x, 0xFF000000, 24, v);
    }
    if (v << 0u32) & !0xFFu32 == 0 {
        lemma_place32_fits(x, 0xFF, 0, v);
        lemma_field32_roundtrip(x, 0xFF, 0, v);
        lemma_field32_frame(x, 0xFF, 0, v);
    }
    if (v << 8u32) & !0xFF00u32 == 0 {
        lemma_place32_fits(x, 0xFF00, 8, v);
        lemma_field32_roundtrip(x, 0xFF00, 8, v);
        lemma_field32_frame(x, 0xFF00, 8, v);
    }
    if (v << 16u32) & !0x30000u32 == 0 {
        lemma_place32_fits(x, 0x30000, 16, v);
        lemma_field32_roundtrip(x, 0x30000, 16, v);
        lemma_field32_frame(x, 0x30000, 16, v);
    }
    if (v << 22u32) & !0xFFC00000u32 == 0 {
        lemma_place32_fits(x, 0xFFC00000, 22, v);
        lemma_field32_roundtrip(x, 0xFFC00000, 22, v);
        lemma_field32_frame(x, 0xFFC00000, 22, v);
    }
    if (v << 0u32) & !0xFFu32 == 0 {
        lemma_place32_fits(x, 0xFF, 0, v);
        lemma_field32_roundtrip(x, 0xFF, 0, v);
        lemma_field32_frame(x, 0xFF, 0, v);
    }
}

} // verus!
