pub mod acpi_fadt;
pub mod acpi_tables;
pub mod power;
pub mod tables;
