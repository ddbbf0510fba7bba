//! The local APIC: the register writes that enable it, the calibration of
//! its timer, and the conversions between timer ticks and milliseconds.
use vstd::prelude::*;

verus! {

pub const IA32_APIC_BASE_MSR: u32 = 0x1B;
pub const IA32_APIC_BASE_ADDR_MASK: u64 = 0xFFFF_F000;
pub const LAPIC_DEFAULT_PHYS_BASE: u64 = 0xFEE0_0000;
pub const LAPIC_MMIO_SIZE: u64 = 0x1000;

pub const LAPIC_ID: usize = 0x020;
pub const LAPIC_VERSION: usize = 0x030;
pub const LAPIC_TPR: usize = 0x080;
pub const LAPIC_EOI: usize = 0x0B0;
pub const LAPIC_SVR: usize = 0x0F0;
pub const LAPIC_ESR: usize = 0x280;
pub const LAPIC_LVT_TIMER: usize = 0x320;
pub const LAPIC_LVT_THERMAL: usize = 0x330;
pub const LAPIC_LVT_PERF: usize = 0x340;
pub const LAPIC_LVT_LINT0: usize = 0x350;
pub const LAPIC_LVT_LINT1: usize = 0x360;
pub const LAPIC_LVT_ERROR: usize = 0x370;
pub const LAPIC_TIMER_INITIAL_COUNT: usize = 0x380;
pub const LAPIC_TIMER_CURRENT_COUNT: usize = 0x390;
pub const LAPIC_TIMER_DIVIDE_CONFIG: usize = 0x3E0;

pub const LAPIC_SVR_VECTOR_MASK: u32 = 0xFF;
pub const LAPIC_SVR_APIC_ENABLE: u32 = 0x100;
pub const LAPIC_SPURIOUS_VECTOR: u8 = 0xFF;
pub const LAPIC_LVT_MASKED: u32 = 0x10000;
pub const LAPIC_TIMER_MODE_ONE_SHOT: u32 = 0;
pub const LAPIC_TIMER_MODE_PERIODIC: u32 = 0x20000;
pub const LAPIC_TIMER_DIVIDE_BY_16: u32 = 0x3;
pub const LAPIC_TIMER_VECTOR: u8 = 0x40;
pub const LAPIC_SPURIOUS_VECTOR_IDT_INDEX: u8 = 0xFF;
pub const LAPIC_ERROR_VECTOR: u8 = 0xFE;

pub const TIMER_HZ: u64 = 100;
/// Milliseconds between two timer interrupts.
pub const TIMER_PERIOD_MS: u64 = 10;
/// The count the timer runs down from while it is calibrated.
pub const LAPIC_START_COUNT: u32 = 10_000_000;
/// How long the calibration waits, in milliseconds.
pub const LAPIC_CALIBRATION_MS: u32 = 50;

/// A local APIC: where its registers lie and how fast its timer runs.
#[derive(Clone, Copy, Debug)]
pub struct Apic {
    pub phys_addr: u64,
    pub ticks_per_ms: u64,
}

/// The register writes that enable the local APIC and start the timer's
/// calibration, given the register read at the spurious vector's offset.
pub open spec fn apic_enable_writes_spec(svr_read: u32) -> Seq<(usize, u32)> {
    let val = ((svr_read & LAPIC_SVR_VECTOR_MASK) | 0xFF) | LAPIC_SVR_APIC_ENABLE;
    seq![
        (LAPIC_TPR, 0u32),
        (LAPIC_LVT_TIMER, LAPIC_LVT_MASKED | 0x40u32),
        (LAPIC_LVT_THERMAL, LAPIC_LVT_MASKED),
        (LAPIC_LVT_PERF, LAPIC_LVT_MASKED),
        (LAPIC_LVT_LINT0, LAPIC_LVT_MASKED),
        (LAPIC_LVT_LINT1, LAPIC_LVT_MASKED),
        (LAPIC_LVT_ERROR, 0xFEu32),
        (0xFFusize, val),
        (LAPIC_SVR, LAPIC_SVR_APIC_ENABLE | 0xFFu32),
        (LAPIC_TIMER_DIVIDE_CONFIG, LAPIC_TIMER_DIVIDE_BY_16),
        (LAPIC_LVT_TIMER, 0x40u32 | LAPIC_TIMER_MODE_ONE_SHOT | LAPIC_LVT_MASKED),
        (LAPIC_TIMER_INITIAL_COUNT, LAPIC_START_COUNT),
    ]
}

impl Apic {
    /// The local APIC at `phys_addr`, its timer not yet calibrated.
    pub fn new(phys_addr: u64) -> (r: Apic)
        ensures
            r.phys_addr == phys_addr,
            r.ticks_per_ms == 0,
    {
        Apic { phys_addr, ticks_per_ms: 0 }
    }

    /// The register writes that enable the APIC, in order, given the
    /// register read at the spurious vector's offset: task priority 0,
    /// every local vector masked, the error vector, the spurious vector
    /// with the APIC enabled, and the timer started one-shot and masked
    /// from its calibration count. The legacy PICs are disabled before.
    pub fn enable(&self, svr_read: u32) -> (r: Vec<(usize, u32)>)
        ensures
            r@ == apic_enable_writes_spec(svr_read),
    {
        let mut val = svr_read & LAPIC_SVR_VECTOR_MASK;
        val = val | LAPIC_SPURIOUS_VECTOR_IDT_INDEX as u32;
        val = val | LAPIC_SVR_APIC_ENABLE;
        let mut r: Vec<(usize, u32)> = Vec::new();
        r.push((LAPIC_TPR, 0));
        r.push((LAPIC_LVT_TIMER, LAPIC_LVT_MASKED | LAPIC_TIMER_VECTOR as u32));
        r.push((LAPIC_LVT_THERMAL, LAPIC_LVT_MASKED));
        r.push((LAPIC_LVT_PERF, LAPIC_LVT_MASKED));
        r.push((LAPIC_LVT_LINT0, LAPIC_LVT_MASKED));
        r.push((LAPIC_LVT_LINT1, LAPIC_LVT_MASKED));
        r.push((LAPIC_LVT_ERROR, LAPIC_ERROR_VECTOR as u32));
        r.push((LAPIC_SPURIOUS_VECTOR as usize, val));
        r.push((LAPIC_SVR, LAPIC_SVR_APIC_ENABLE | LAPIC_SPURIOUS_VECTOR_IDT_INDEX as u32));
        r.push((LAPIC_TIMER_DIVIDE_CONFIG, LAPIC_TIMER_DIVIDE_BY_16));
        r.push((LAPIC_LVT_TIMER, LAPIC_TIMER_VECTOR as u32 | LAPIC_TIMER_MODE_ONE_SHOT | LAPIC_LVT_MASKED));
        r.push((LAPIC_TIMER_INITIAL_COUNT, LAPIC_START_COUNT));
        assert(r@ =~= apic_enable_writes_spec(svr_read));
        r
    }

    /// Ends the timer's calibration, given the count it had reached after
    /// the calibration delay: the ticks it ran per millisecond are kept,
    /// and the writes returned start it periodic at `TIMER_HZ`.
    pub fn calibrate(&mut self, current_count: u32) -> (r: Vec<(usize, u32)>)
        requires
            current_count <= LAPIC_START_COUNT,
        ensures
            final(self).phys_addr == old(self).phys_addr,
            final(self).ticks_per_ms == (LAPIC_START_COUNT - current_count) / 50,
            r@ == seq![
                (LAPIC_TIMER_DIVIDE_CONFIG, LAPIC_TIMER_DIVIDE_BY_16),
                (LAPIC_LVT_TIMER, 0x40u32 | LAPIC_TIMER_MODE_PERIODIC),
                (LAPIC_TIMER_INITIAL_COUNT, (((LAPIC_START_COUNT - current_count) / 50) * 10) as u32),
            ],
    {
        let elapsed = LAPIC_START_COUNT - current_count;
        let ticks_per_ms = elapsed / LAPIC_CALIBRATION_MS;
        self.ticks_per_ms = ticks_per_ms as u64;
        let initial_count = ticks_per_ms * (TIMER_PERIOD_MS as u32);
        let mut r: Vec<(usize, u32)> = Vec::new();
        r.push((LAPIC_TIMER_DIVIDE_CONFIG, LAPIC_TIMER_DIVIDE_BY_16));
        r.push((LAPIC_LVT_TIMER, LAPIC_TIMER_VECTOR as u32 | LAPIC_TIMER_MODE_PERIODIC));
        r.push((LAPIC_TIMER_INITIAL_COUNT, initial_count));
        assert(r@ =~= seq![
            (LAPIC_TIMER_DIVIDE_CONFIG, LAPIC_TIMER_DIVIDE_BY_16),
            (LAPIC_LVT_TIMER, 0x40u32 | LAPIC_TIMER_MODE_PERIODIC),
            (LAPIC_TIMER_INITIAL_COUNT, (((LAPIC_START_COUNT - current_count) / 50) * 10) as u32),
        ]);
        r
    }

    /// Milliseconds in `ticks` timer ticks, rounded down.
    pub fn lapic_ticks_to_ms(&self, ticks: u64) -> (r: u64)
        requires
            self.ticks_per_ms > 0,
        ensures
            r == ticks / self.ticks_per_ms,
    {
        ticks / self.ticks_per_ms
    }

    /// Timer ticks in `ms` milliseconds.
    pub fn ms_to_lapic_ticks(&self, ms: u64) -> (r: u64)
        requires
            ms * self.ticks_per_ms <= u64::MAX,
        ensures
            r == ms * self.ticks_per_ms,
    {
        ms * self.ticks_per_ms
    }
}

/// Converting milliseconds to ticks and back gives the milliseconds again.
pub proof fn law_ticks_ms_roundtrip(ticks_per_ms: u64, ms: u64)
    requires
        ticks_per_ms > 0,
        ms * ticks_per_ms <= u64::MAX,
    ensures
        (ms * ticks_per_ms) / (ticks_per_ms as int) == ms,
{
    vstd::arithmetic::div_mod::lemma_div_multiples_vanish(ms as int, ticks_per_ms as int);
    assert(ms * ticks_per_ms == ticks_per_ms * ms) by (nonlinear_arith);
}

/// Milliseconds since the timer started, given the interrupts counted.
pub fn timer_lapic_uptime_ms(timer_ticks: u64) -> (r: u64)
    requires
        timer_ticks * TIMER_PERIOD_MS <= u64::MAX,
    ensures
        r == timer_ticks * TIMER_PERIOD_MS,
{
    timer_ticks * TIMER_PERIOD_MS
}

/// Milliseconds from `start` to `now` on a clock that wraps around.
pub open spec fn elapsed_ms(start: u64, now: u64) -> int {
    if now >= start {
        now - start
    } else {
        now - start + 0x1_0000_0000_0000_0000
    }
}

/// Whether a sleep of `ms` milliseconds begun at `start` must go on at
/// `now`.
pub fn timer_lapic_sleep_pending(start: u64, now: u64, ms: u64) -> (r: bool)
    ensures
        r == (elapsed_ms(start, now) < ms),
{
    let e = now.wrapping_sub(start);
    e < ms
}

} // verus!
