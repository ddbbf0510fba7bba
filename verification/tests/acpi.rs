use kernel_drivers::acpi::acpi_fadt::{find_FADT_address_from_rsdt, find_FADT_address_from_xsdt};
use kernel_drivers::acpi::acpi_tables::{
    find_table_address, get_acpi_tables, root_table_address, ACPISignature, AcpiError,
};
use kernel_drivers::acpi::power::{
    acpi_enable_command, acpi_enable_keep_waiting, acpi_mode_enabled, reset_command,
    soft_off_command,
};
use kernel_drivers::acpi::tables::dsdt::{S5Obj, DSDT};
use kernel_drivers::acpi::tables::fadt::{PrefferedPowerManagementProfile, FADT};
use kernel_drivers::acpi::tables::madt::{
    madt_cpu_can_be_enabled, madt_interrupt_is_active_low, madt_interrupt_is_level_triggered,
    Madt,
};
use kernel_drivers::acpi::tables::mcfg::MCFG;
use kernel_drivers::acpi::tables::rsdp::{rsdp_fallback_search_in_bios, BIOS_END, BIOS_START};
use kernel_drivers::acpi::tables::rsdt::{RSDT, XSDT};
use kernel_drivers::acpi::tables::sdt_header::{checksum_of, ACPISDTHeader};
use kernel_drivers::acpi::tables::AcpiRevision;

fn fix_checksum(bytes: &mut Vec<u8>, at: usize, len: usize) {
    bytes[at] = 0;
    let sum = bytes[..len].iter().fold(0u8, |a, b| a.wrapping_add(*b));
    bytes[at] = 0u8.wrapping_sub(sum);
}

/// A whole table with signature `sig` and `body` after the header, its
/// checksum made right.
fn sdt(sig: &[u8; 4], body: &[u8]) -> Vec<u8> {
    let len = 36 + body.len();
    let mut t = Vec::new();
    t.extend_from_slice(sig);
    t.extend_from_slice(&(len as u32).to_le_bytes());
    t.push(1); // revision
    t.push(0); // checksum
    t.extend_from_slice(b"OEMID ");
    t.extend_from_slice(b"TABLEID ");
    t.extend_from_slice(&1u32.to_le_bytes());
    t.extend_from_slice(&2u32.to_le_bytes());
    t.extend_from_slice(&3u32.to_le_bytes());
    t.extend_from_slice(body);
    fix_checksum(&mut t, 9, len);
    t
}

fn rsdp_v1(rsdt_address: u32) -> Vec<u8> {
    let mut r = Vec::new();
    r.extend_from_slice(b"RSD PTR ");
    r.push(0);
    r.extend_from_slice(b"OEMID ");
    r.push(0); // revision: ACPI 1.0
    r.extend_from_slice(&rsdt_address.to_le_bytes());
    r.extend_from_slice(&[0u8; 16]);
    fix_checksum(&mut r, 8, 20);
    r
}

fn xsdp_v2(xsdt_address: u64) -> Vec<u8> {
    let mut r = Vec::new();
    r.extend_from_slice(b"RSD PTR ");
    r.push(0);
    r.extend_from_slice(b"OEMID ");
    r.push(2); // revision: ACPI 2.0
    r.extend_from_slice(&0u32.to_le_bytes());
    r.extend_from_slice(&36u32.to_le_bytes());
    r.extend_from_slice(&xsdt_address.to_le_bytes());
    r.push(0);
    r.extend_from_slice(&[0u8; 3]);
    fix_checksum(&mut r, 8, 20);
    fix_checksum(&mut r, 32, 36);
    r
}

fn rsdt_with(addrs: &[u32]) -> Vec<u8> {
    let mut body = Vec::new();
    for a in addrs {
        body.extend_from_slice(&a.to_le_bytes());
    }
    sdt(b"RSDT", &body)
}

fn xsdt_with(addrs: &[u64]) -> Vec<u8> {
    let mut body = Vec::new();
    for a in addrs {
        body.extend_from_slice(&a.to_le_bytes());
    }
    sdt(b"XSDT", &body)
}

#[test]
fn checksum_of_whole_table_is_zero() {
    let t = sdt(b"APIC", &[1, 2, 3, 4]);
    assert_eq!(checksum_of(&t, t.len()), 0);
    let h = ACPISDTHeader::parse(&t).unwrap();
    assert!(h.validate_checksum(&t));
    assert_eq!(h.length as usize, t.len());
    assert_eq!(h.signature.0, *b"APIC");
    let mut bad = t.clone();
    bad[38] ^= 0xFF;
    assert!(!h.validate_checksum(&bad));
}

#[test]
fn header_parse_needs_36_bytes() {
    assert!(ACPISDTHeader::parse(&[0u8; 35]).is_none());
    assert!(ACPISDTHeader::parse(&[0u8; 36]).is_some());
}

#[test]
fn revision_byte_roundtrip() {
    assert!(AcpiRevision::from_u8(0) == AcpiRevision::Acpi10);
    assert!(AcpiRevision::from_u8(2) == AcpiRevision::Acpi20);
    assert!(AcpiRevision::from_u8(7) == AcpiRevision::Unknown);
    assert_eq!(AcpiRevision::from_u8(AcpiRevision::Acpi10.as_u8()).as_u8(), 0);
    assert_eq!(AcpiRevision::from_u8(AcpiRevision::Acpi20.as_u8()).as_u8(), 2);
}

#[test]
fn signature_names() {
    // the FADT is named by its role, and only the four tables the kernel reads are named
    assert_eq!(ACPISignature::fadt().as_str(), "FADT");
    assert_eq!(ACPISignature::madt().as_str(), "----");
    assert_eq!(ACPISignature::rsdt().as_str(), "RSDT");
    assert!(ACPISignature::mcfg() == ACPISignature(*b"MCFG"));
}

#[test]
fn acpi10_tables_list_the_rsdt_entries() {
    let rsdp = rsdp_v1(0x1000);
    let root = rsdt_with(&[0x2000, 0x3000]);
    assert_eq!(root_table_address(&rsdp, 0x8000_0000), Some(0x8000_1000));
    let t = get_acpi_tables(rsdp, 0x8000_0000, root).unwrap();
    assert!(t.get_revision() == AcpiRevision::Acpi10);
    assert_eq!(t.rsdt_mappings, vec![0x2000, 0x3000]);
    assert_eq!(t.get_memory_offset(), 0x8000_0000);
    let sigs = [ACPISignature::fadt(), ACPISignature::madt()];
    assert_eq!(t.find_sdt_table(ACPISignature::madt(), &sigs), Some(0x8000_3000));
    assert_eq!(t.find_sdt_table(ACPISignature::mcfg(), &sigs), None);
}

#[test]
fn acpi20_tables_list_the_xsdt_entries() {
    let xsdp = xsdp_v2(0x1_0000_0000);
    let root = xsdt_with(&[0x1_2345_0000, 0x4000]);
    assert_eq!(root_table_address(&xsdp, 16), Some(0x1_0000_0010));
    let t = get_acpi_tables(xsdp, 0, root).unwrap();
    assert!(t.get_revision() == AcpiRevision::Acpi20);
    assert_eq!(t.rsdt_mappings, vec![0x1_2345_0000, 0x4000]);
}

#[test]
fn bad_rsdp_checksum_is_refused() {
    let mut rsdp = rsdp_v1(0x1000);
    rsdp[8] = rsdp[8].wrapping_add(1);
    match get_acpi_tables(rsdp, 0, rsdt_with(&[])) {
        Err(AcpiError::InvalidSdpChecksumError()) => {}
        other => panic!("unexpected: {:?}", other.err()),
    }
}

#[test]
fn unknown_revision_is_refused() {
    let mut rsdp = rsdp_v1(0x1000);
    rsdp[15] = 5;
    fix_checksum(&mut rsdp, 8, 20);
    assert_eq!(root_table_address(&rsdp, 0), None);
    match get_acpi_tables(rsdp, 0, rsdt_with(&[])) {
        Err(AcpiError::InvalidRevisionError) => {}
        other => panic!("unexpected: {:?}", other.err()),
    }
}

#[test]
fn bad_root_table_checksum_is_refused() {
    let mut root = rsdt_with(&[0x2000]);
    root[36] ^= 1;
    match get_acpi_tables(rsdp_v1(0x1000), 0, root) {
        Err(AcpiError::InvalidChecksumError(s)) => assert!(s == ACPISignature::rsdt()),
        other => panic!("unexpected: {:?}", other.err()),
    }
    let mut xroot = xsdt_with(&[0x2000]);
    xroot[36] ^= 1;
    match get_acpi_tables(xsdp_v2(0x1000), 0, xroot) {
        Err(AcpiError::InvalidChecksumError(s)) => assert!(s == ACPISignature::xsdt()),
        other => panic!("unexpected: {:?}", other.err()),
    }
}

#[test]
fn find_table_takes_the_first_match() {
    let pointers = [10u64, 20, 30];
    let sigs = [ACPISignature::madt(), ACPISignature::fadt(), ACPISignature::fadt()];
    assert_eq!(find_table_address(&pointers, &sigs, ACPISignature::fadt(), 5), Some(25));
    assert_eq!(find_table_address(&pointers, &sigs, ACPISignature::dsdt(), 5), None);
}

#[test]
fn rsdt_and_xsdt_pointers() {
    let rsdt = RSDT::new_from_bytes(rsdt_with(&[0x10, 0x20, 0x30])).unwrap();
    assert_eq!(rsdt.get_pointers_to_other_sdts(), vec![0x10, 0x20, 0x30]);
    assert_eq!(rsdt.get_mapping_length(), 3);
    let sigs = [ACPISignature::madt(), ACPISignature::fadt(), ACPISignature::fadt()];
    assert_eq!(find_FADT_address_from_rsdt(&rsdt, 0x100, &sigs), Some(0x120));
    let xsdt = XSDT::new_from_bytes(xsdt_with(&[0x1_0000_0000, 0x20])).unwrap();
    assert_eq!(xsdt.get_pointers_to_other_sdts(), vec![0x1_0000_0000, 0x20]);
    let xsigs = [ACPISignature::fadt(), ACPISignature::madt()];
    assert_eq!(find_FADT_address_from_xsdt(&xsdt, 1, &xsigs), Some(0x1_0000_0001));
    // a length field that disagrees with the bytes is no table
    let mut short = rsdt_with(&[0x10]);
    short.pop();
    assert!(RSDT::new_from_bytes(short).is_none());
}

fn fadt_bytes() -> Vec<u8> {
    let mut f = sdt(b"FACP", &[0u8; 244 - 36]);
    f[40..44].copy_from_slice(&0x000E_0000u32.to_le_bytes()); // DSDT
    f[45] = 2; // preferred power management profile: mobile
    f[48..52].copy_from_slice(&0xB2u32.to_le_bytes()); // SMI command port
    f[52] = 0xA0; // ACPI enable
    f[64..68].copy_from_slice(&0x604u32.to_le_bytes()); // PM1a control block
    f[112..116].copy_from_slice(&(1u32 << 10).to_le_bytes()); // reset register supported
    f[120..128].copy_from_slice(&0xCF9u64.to_le_bytes()); // reset register address
    f[128] = 0x06; // reset value
    let n = f.len();
    fix_checksum(&mut f, 9, n);
    f
}

#[test]
fn fadt_fields_and_commands() {
    assert!(FADT::new_from_bytes(&[0u8; 243]).is_none());
    let fadt = FADT::new_from_bytes(&fadt_bytes()).unwrap();
    assert_eq!(fadt.get_dsdt_pointer(0x1000), 0x000E_1000);
    assert!(fadt.get_preffered_power_management_profile() == PrefferedPowerManagementProfile::Mobile);
    assert_eq!(acpi_enable_command(&fadt), (0xB2, 0xA0));
    assert_eq!(reset_command(AcpiRevision::Acpi20, &fadt), Some((0xCF9, 0x06)));
    assert_eq!(reset_command(AcpiRevision::Acpi10, &fadt), None);
    assert!(acpi_mode_enabled(0x0001));
    assert!(!acpi_mode_enabled(0x0200));
    assert!(acpi_enable_keep_waiting(0, 2999));
    assert!(!acpi_enable_keep_waiting(0, 3000));
    assert!(!acpi_enable_keep_waiting(1, 0));
}

fn dsdt_with_s5(aml: &[u8]) -> DSDT {
    DSDT::new_from_bytes(sdt(b"DSDT", aml)).unwrap()
}

#[test]
fn s5_package_with_byte_prefixes() {
    // Name(\_S5_, Package(4) { 0x05, 0x05, 0, 0 })
    let aml = [0x10, 0x08, 0x5C, b'_', b'S', b'5', b'_', 0x12, 0x0A, 0x04, 0x0A, 0x05, 0x0A, 0x07, 0x00, 0x00];
    let dsdt = dsdt_with_s5(&aml);
    assert_eq!(dsdt.get_content_length(), aml.len());
    assert_eq!(dsdt.get_s5_object_offset(), Some(3));
    let s5 = S5Obj::new_from_dsdt(&dsdt).unwrap();
    assert_eq!(s5.SLP_TYPa, 5 << 10);
    assert_eq!(s5.SLP_TYPb, 7 << 10);
    let fadt = FADT::new_from_bytes(&fadt_bytes()).unwrap();
    assert_eq!(soft_off_command(&fadt, &dsdt), Some((0x604, (5 << 10) | 0x2000)));
}

#[test]
fn s5_package_without_byte_prefixes() {
    // Name(_S5_, Package(2) { 0, 0 }) as some firmware writes it
    let aml = [0x00, 0x08, b'_', b'S', b'5', b'_', 0x12, 0x06, 0x02, 0x03, 0x04, 0x00];
    let s5 = S5Obj::new_from_dsdt(&dsdt_with_s5(&aml)).unwrap();
    assert_eq!(s5.SLP_TYPa, 3 << 10);
    assert_eq!(s5.SLP_TYPb, 4 << 10);
}

#[test]
fn no_s5_package() {
    let aml = [0x00, 0x08, b'_', b'S', b'4', b'_', 0x12, 0x06, 0x02, 0x03, 0x04, 0x00];
    let dsdt = dsdt_with_s5(&aml);
    assert_eq!(dsdt.get_s5_object_offset(), None);
    assert!(S5Obj::new_from_dsdt(&dsdt).is_none());
    let fadt = FADT::new_from_bytes(&fadt_bytes()).unwrap();
    assert_eq!(soft_off_command(&fadt, &dsdt), None);
}

#[test]
fn madt_entries_are_collected_in_order() {
    let mut body = Vec::new();
    body.extend_from_slice(&0xFEE0_0000u32.to_le_bytes());
    body.extend_from_slice(&1u32.to_le_bytes());
    body.extend_from_slice(&[0, 8, 0, 0, 1, 0, 0, 0]); // processor 0, enabled
    body.extend_from_slice(&[0, 8, 1, 1, 2, 0, 0, 0]); // processor 1, online capable
    body.extend_from_slice(&[1, 12, 4, 0]); // I/O APIC 4
    body.extend_from_slice(&0xFEC0_0000u32.to_le_bytes());
    body.extend_from_slice(&0u32.to_le_bytes());
    body.extend_from_slice(&[2, 10, 0, 1]); // IRQ 1 -> GSI 2, active low, level
    body.extend_from_slice(&2u32.to_le_bytes());
    body.extend_from_slice(&0x000Fu16.to_le_bytes());
    let madt = Madt::new_from_bytes(sdt(b"APIC", &body)).unwrap();
    assert!(madt.entries_well_formed());
    let r = madt.parse();
    assert_eq!(r.local_apic_physical_address, 0xFEE0_0000);
    assert_eq!(r.cpu_apic_count(), 2);
    assert_eq!(r.enabled_cpu_apic_count(), 1);
    assert_eq!(r.io_apic_count(), 1);
    assert_eq!(r.cpu_apics[1].apic_id, 1);
    assert!(r.cpu_apics[1].can_be_enabled());
    assert!(!r.cpu_apics[1].enabled());
    assert_eq!(r.io_apics[0].physical_address, 0xFEC0_0000);
    let iso = r.interrupt_source_overrides[0];
    assert_eq!((iso.irq_source, iso.global_system_interrupt), (1, 2));
    assert!(madt_interrupt_is_active_low(iso.flags));
    assert!(madt_interrupt_is_level_triggered(iso.flags));
    assert!(madt_cpu_can_be_enabled(2));
    assert!(!madt_cpu_can_be_enabled(4));
}

#[test]
fn madt_address_override_replaces_the_local_apic_address() {
    let mut body = Vec::new();
    body.extend_from_slice(&0xFEE0_0000u32.to_le_bytes());
    body.extend_from_slice(&0u32.to_le_bytes());
    body.extend_from_slice(&[5, 12, 0, 0]);
    body.extend_from_slice(&0x1_0000_0000u64.to_le_bytes());
    let madt = Madt::new_from_bytes(sdt(b"APIC", &body)).unwrap();
    assert_eq!(madt.parse().local_apic_physical_address, 0x1_0000_0000);
}

#[test]
fn madt_with_a_truncated_entry_is_not_well_formed() {
    let mut body = Vec::new();
    body.extend_from_slice(&0xFEE0_0000u32.to_le_bytes());
    body.extend_from_slice(&0u32.to_le_bytes());
    body.extend_from_slice(&[0, 4, 0, 0]); // a processor entry that claims 4 bytes
    let madt = Madt::new_from_bytes(sdt(b"APIC", &body)).unwrap();
    assert!(!madt.entries_well_formed());
}

#[test]
fn mcfg_allocations() {
    let mut body = vec![0u8; 8];
    body.extend_from_slice(&0xE000_0000u64.to_le_bytes());
    body.extend_from_slice(&0u16.to_le_bytes());
    body.push(0);
    body.push(0xFF);
    body.extend_from_slice(&0u32.to_le_bytes());
    let mcfg = MCFG::new_from_bytes(sdt(b"MCFG", &body)).unwrap();
    let a = mcfg.allocations();
    assert_eq!(a.len(), 1);
    assert_eq!(a[0].base_address, 0xE000_0000);
    assert_eq!(a[0].end_bus_number, 0xFF);
}

fn bios_area() -> Vec<u8> {
    vec![0u8; (BIOS_END - BIOS_START + 1) as usize]
}

#[test]
fn rsdp_search_finds_aligned_signature() {
    let mut bios = bios_area();
    bios[0x1230..0x1238].copy_from_slice(b"RSD PTR ");
    let start = 0xFFFF_8000_000E_0000u64;
    assert_eq!(rsdp_fallback_search_in_bios(&bios, start), Some(start + 0x1230));
}

#[test]
fn rsdp_search_takes_first_boundary() {
    let mut bios = bios_area();
    bios[0x40..0x48].copy_from_slice(b"RSD PTR ");
    bios[0x20..0x28].copy_from_slice(b"RSD PTR ");
    assert_eq!(rsdp_fallback_search_in_bios(&bios, BIOS_START), Some(BIOS_START + 0x20));
}

#[test]
fn rsdp_search_skips_unaligned_signature() {
    let mut bios = bios_area();
    bios[0x41..0x49].copy_from_slice(b"RSD PTR ");
    assert_eq!(rsdp_fallback_search_in_bios(&bios, BIOS_START), None);
}

#[test]
fn rsdp_search_checks_last_boundary() {
    let mut bios = bios_area();
    let last = bios.len() - 16;
    bios[last..last + 8].copy_from_slice(b"RSD PTR ");
    assert_eq!(rsdp_fallback_search_in_bios(&bios, BIOS_START), Some(BIOS_START + last as u64));
    assert_eq!(rsdp_fallback_search_in_bios(&bios[..7], BIOS_START), None);
}
