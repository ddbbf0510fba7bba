//! ACPI system description tables, each decoded from the bytes that the
//! firmware left in memory.
pub mod dsdt;
pub mod fadt;
pub mod madt;
pub mod mcfg;
pub mod rsdp;
pub mod rsdt;
pub mod sdt_header;

use vstd::prelude::*;

verus! {

/// The ACPI revision announced by the root system description pointer.
#[derive(PartialEq, Eq, Structural, Debug, Clone, Copy)]
pub enum AcpiRevision {
    Unknown,
    Acpi10,
    Acpi20,
}

/// The revision byte that stands for each revision.
pub open spec fn revision_byte(r: AcpiRevision) -> u8 {
    match r {
        AcpiRevision::Unknown => 3,
        AcpiRevision::Acpi10 => 0,
        AcpiRevision::Acpi20 => 2,
    }
}

/// The revision that a revision byte announces.
pub open spec fn revision_of_byte(val: u8) -> AcpiRevision {
    if val == 0 {
        AcpiRevision::Acpi10
    } else if val == 2 {
        AcpiRevision::Acpi20
    } else {
        AcpiRevision::Unknown
    }
}

impl AcpiRevision {
    pub fn as_u8(&self) -> (r: u8)
        ensures
            r == revision_byte(*self),
    {
        match self {
            AcpiRevision::Unknown => 3,
            AcpiRevision::Acpi10 => 0,
            AcpiRevision::Acpi20 => 2,
        }
    }

    pub fn from_u8(val: u8) -> (r: AcpiRevision)
        ensures
            r == revision_of_byte(val),
    {
        match val {
            0 => AcpiRevision::Acpi10,
            2 => AcpiRevision::Acpi20,
            _ => AcpiRevision::Unknown,
        }
    }
}

/// Reading back the byte of a revision gives the revision again.
pub proof fn law_revision_byte_roundtrip(r: AcpiRevision)
    ensures
        revision_of_byte(revision_byte(r)) == r,
{
}

} // verus!
