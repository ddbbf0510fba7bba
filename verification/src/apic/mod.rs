//! Interrupt controllers and timers: the legacy PIC, the local APIC and its
//! timer, and the PIT channel that calibrates it.
pub mod apic;
pub mod pic;
pub mod pit;
