use kernel_drivers::apic::apic::{timer_lapic_sleep_pending, timer_lapic_uptime_ms, Apic};
use kernel_drivers::apic::pic::disable_pic;
use kernel_drivers::apic::pit::{_pit_wait_ms, pit_out2_high};

#[test]
fn apic_enable_and_calibration() {
    let mut apic = Apic::new(0xFEE0_0000);
    let w = apic.enable(0x0000_01FF);
    assert_eq!(w.len(), 12);
    assert_eq!(w[0], (0x080, 0));
    assert_eq!(w[1], (0x320, 0x10040));
    assert_eq!(w[7], (0xFF, 0x1FF));
    assert_eq!(w[8], (0x0F0, 0x1FF));
    assert_eq!(w[11], (0x380, 10_000_000));
    // 1,000,000 ticks ran down in the 50 ms of the calibration
    let periodic = apic.calibrate(9_000_000);
    assert_eq!(apic.ticks_per_ms, 20_000);
    assert_eq!(periodic, vec![(0x3E0, 3), (0x320, 0x20040), (0x380, 200_000)]);
    assert_eq!(apic.lapic_ticks_to_ms(45_000), 2);
    assert_eq!(apic.ms_to_lapic_ticks(3), 60_000);
    assert_eq!(apic.lapic_ticks_to_ms(apic.ms_to_lapic_ticks(7)), 7);
}

#[test]
fn uptime_and_sleep() {
    assert_eq!(timer_lapic_uptime_ms(42), 420);
    assert!(timer_lapic_sleep_pending(100, 150, 100));
    assert!(!timer_lapic_sleep_pending(100, 200, 100));
    // the clock wrapping around still counts the time that passed
    assert!(!timer_lapic_sleep_pending(u64::MAX - 10, 100, 100));
    assert!(timer_lapic_sleep_pending(u64::MAX - 10, 50, 100));
}

#[test]
fn pit_delay() {
    let w = _pit_wait_ms(50, 0xFF);
    assert_eq!(w.count, 59659);
    assert_eq!(w.gate_off, 0xFC);
    assert_eq!(w.gate_on, 0xFD);
    assert_eq!(w.restore, 0xFF);
    assert_eq!(_pit_wait_ms(1, 0).count, 1193);
    assert!(pit_out2_high(0x20));
    assert!(!pit_out2_high(0x1F));
}

#[test]
fn pic_is_masked_last() {
    let w = disable_pic();
    assert_eq!(w.len(), 10);
    assert_eq!(w[0], (0x20, 0x11));
    assert_eq!(w[2], (0x21, 0x20));
    assert_eq!(w[3], (0xA1, 0x28));
    assert_eq!(w[8], (0x21, 0xFF));
    assert_eq!(w[9], (0xA1, 0xFF));
}
