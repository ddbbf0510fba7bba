//! The decisions behind switching to ACPI mode, the soft-off state and the
//! ACPI 2.0 reset: which port to write and what.
use vstd::prelude::*;
use crate::acpi::tables::AcpiRevision;
use crate::acpi::tables::dsdt::{
    DSDT, S5Obj, dsdt_content, is_first_s5, s5_fits, s5_search_safe, s5_values,
};
use crate::acpi::tables::fadt::FADT;

verus! {

/// Bit 13 of PM1 control: SLP_EN, which enters the sleep state whose type
/// SLP_TYP holds.
pub const PM1_SLEEP_ENABLE: u16 = 0x2000;

/// How long the firmware may take to switch to ACPI mode, in milliseconds.
pub const ACPI_ENABLE_TIMEOUT_MS: u64 = 3000;

/// The port and byte that ask the firmware to switch to ACPI mode.
pub fn acpi_enable_command(fadt: &FADT) -> (r: (u16, u8))
    ensures
        r == (fadt.smi_command_port as u16, fadt.acpi_enable),
{
    (fadt.smi_command_port as u16, fadt.acpi_enable)
}

/// Whether a PM1a control value shows ACPI mode on (SCI_EN, bit 0).
pub fn acpi_mode_enabled(pm1a_control: u16) -> (r: bool)
    ensures
        r == (pm1a_control & 1 != 0),
{
    pm1a_control & 1 != 0
}

/// Whether to keep polling: ACPI mode is not on yet and less than three
/// seconds have passed.
pub fn acpi_enable_keep_waiting(pm1a_control: u16, waited_ms: u64) -> (r: bool)
    ensures
        r == (pm1a_control & 1 == 0 && waited_ms < 3000),
{
    pm1a_control & 1 == 0 && waited_ms < ACPI_ENABLE_TIMEOUT_MS
}

/// The port and the value that enter the soft-off state: the PM1a control
/// block, written with the first sleep type of `\_S5_` and SLP_EN; `None`
/// where the DSDT holds no `\_S5_` object.
pub fn soft_off_command(fadt: &FADT, dsdt: &DSDT) -> (r: Option<(u16, u16)>)
    requires
        s5_search_safe(dsdt_content(dsdt@)),
        forall|k: int| #[trigger]
            is_first_s5(dsdt_content(dsdt@), k) ==> s5_fits(dsdt_content(dsdt@), k),
    ensures
        r is Some <==> exists|k: int| #[trigger] is_first_s5(dsdt_content(dsdt@), k),
        forall|k: int| #[trigger]
            is_first_s5(dsdt_content(dsdt@), k) ==> r == Some(
                (
                    fadt.pm1a_control_block as u16,
                    (s5_values(dsdt_content(dsdt@), k).0 as u16) | 0x2000u16,
                ),
            ),
{
    match S5Obj::new_from_dsdt(dsdt) {
        Some(s5) => Some((fadt.pm1a_control_block as u16, s5.SLP_TYPa as u16 | PM1_SLEEP_ENABLE)),
        None => None,
    }
}

/// The port and byte of the ACPI 2.0 reset register; `None` before ACPI
/// 2.0 or where the FADT flags (bit 10) do not announce the register.
pub fn reset_command(revision: AcpiRevision, fadt: &FADT) -> (r: Option<(u16, u8)>)
    ensures
        r == (if revision != AcpiRevision::Acpi20 || (fadt.flags >> 10) & 1 != 1 {
            None
        } else {
            Some((fadt.reset_reg.address as u16, fadt.reset_value))
        }),
{
    if revision != AcpiRevision::Acpi20 {
        return None;
    }
    if (fadt.flags >> 10) & 0x01 != 1 {
        return None;
    }
    Some((fadt.reset_reg.address as u16, fadt.reset_value))
}

} // verus!
