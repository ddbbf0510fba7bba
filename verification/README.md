# kernel_drivers

A verified library of the decisions inside a small x86_64 kernel's drivers:
ACPI table parsing and power commands, APIC/PIC/PIT arithmetic, PCI
configuration (BARs, MSI and MSI-X), multiboot2 information, USB descriptors
and HID reports, the xHCI controller's registers, TRBs, rings, contexts and
port state, VGA text and graphics modes, and keyboard and mouse input.

- `src/` is the library, written in Verus: every function there carries a
  contract that Verus proves, and the laws that tie functions together are
  public proof functions named `law_*`.
- `app/` holds the hardware side that Verus does not see: port and
  memory-mapped I/O, global state, and the sequences that carry out what the
  library decides.
- `tests/` runs the library on concrete values.

Calls into the `x86_64` crate's address types go through the wrappers in
`src/phys.rs`, whose contracts are trusted.
