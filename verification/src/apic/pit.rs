//! PIT channel 2 as a one-shot delay, used to calibrate the local APIC
//! timer.
use vstd::prelude::*;

verus! {

pub const PIT_FREQUENCY: u64 = 1_193_182;
pub const PIT_CHANNEL2: u16 = 0x42;
pub const PIT_COMMAND: u16 = 0x43;
pub const PIT_SPEAKER_PORT: u16 = 0x61;
/// Channel 2, low then high byte, mode 0, binary.
pub const PIT_CMD_CHANNEL2_ONESHOT: u8 = 0b1011_0000;
pub const PIT_PORT61_GATE2: u8 = 1;
pub const PIT_PORT61_SPEAKER: u8 = 2;
pub const PIT_PORT61_OUT2: u8 = 0x20;

/// The writes and the wait of a delay on channel 2.
#[derive(Clone, Copy, Debug, PartialEq, Eq, Structural)]
pub struct PitWait {
    /// Value for port 0x61 with channel 2 gated off and the beeper silent; it goes out first.
    pub gate_off: u8,
    /// The count, sent low byte then high byte after the command.
    pub count: u16,
    /// Value for port 0x61 with channel 2 gated on and the beeper silent, which starts the
    /// count.
    pub gate_on: u8,
    /// Port 0x61 as it was, written back once OUT2 rises.
    pub restore: u8,
}

/// Channel 2's count for `ms` milliseconds: the PIT ticks in that time,
/// at least one.
pub open spec fn pit_count_spec(ms: u16) -> u16 {
    let c = ((PIT_FREQUENCY * ms) / 1000) as u16;
    if c == 0 {
        1
    } else {
        c
    }
}

/// The delay of `ms` milliseconds, 1 to 54, given port 0x61 as read.
pub fn _pit_wait_ms(ms: u16, old_port61: u8) -> (r: PitWait)
    requires
        0 < ms <= 54,
    ensures
        r.count == pit_count_spec(ms),
        r.count as int == (PIT_FREQUENCY * ms) / 1000,
        r.gate_off == old_port61 & !(PIT_PORT61_GATE2 | PIT_PORT61_SPEAKER),
        r.gate_on == (old_port61 & !PIT_PORT61_SPEAKER) | PIT_PORT61_GATE2,
        r.restore == old_port61,
{
    assert(PIT_FREQUENCY * ms <= PIT_FREQUENCY * 54) by (nonlinear_arith)
        requires
            ms <= 54,
    ;
    assert(PIT_FREQUENCY * ms >= PIT_FREQUENCY) by (nonlinear_arith)
        requires
            ms >= 1,
    ;
    let count = ((PIT_FREQUENCY * ms as u64) / 1000) as u16;
    let count = if count == 0 {
        1
    } else {
        count
    };
    PitWait {
        gate_off: old_port61 & !(PIT_PORT61_GATE2 | PIT_PORT61_SPEAKER),
        count,
        gate_on: (old_port61 & !PIT_PORT61_SPEAKER) | PIT_PORT61_GATE2,
        restore: old_port61,
    }
}

/// Whether port 0x61, as read, shows channel 2's output high: the delay
/// is over.
pub fn pit_out2_high(port61: u8) -> (r: bool)
    ensures
        r == (port61 & PIT_PORT61_OUT2 != 0),
{
    port61 & PIT_PORT61_OUT2 != 0
}

} // verus!
