pub mod acpi;
pub mod apic;
pub mod bits;
pub mod boot;
pub mod bootinfo;
pub mod bytes;
pub mod input;
pub mod keyed;
pub mod pci;
pub mod phys;
pub mod usb;
pub mod vga;
pub mod xhci;
