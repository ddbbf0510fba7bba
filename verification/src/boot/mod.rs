pub mod cpuid;
pub mod multiboot;
pub mod multiboot_tag;
