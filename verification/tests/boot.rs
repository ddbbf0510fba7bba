use kernel_drivers::boot::cpuid::{CpuId, CpuidRegs};
use kernel_drivers::boot::multiboot::{next_module_destination, MultibootInfoView, MultibootMemoryMapTag};
use kernel_drivers::boot::multiboot_tag::MultibootTagType;
use kernel_drivers::bootinfo::{size_parts, MemInfo, MemRegion, MemRegionKind};

fn tag(tag_type: u32, payload: &[u8]) -> Vec<u8> {
    let mut t = Vec::new();
    t.extend_from_slice(&tag_type.to_le_bytes());
    t.extend_from_slice(&((8 + payload.len()) as u32).to_le_bytes());
    t.extend_from_slice(payload);
    while t.len() % 8 != 0 {
        t.push(0);
    }
    t
}

fn info(tags: &[Vec<u8>]) -> Vec<u8> {
    let mut body = Vec::new();
    for t in tags {
        body.extend_from_slice(t);
    }
    body.extend_from_slice(&tag(0, &[]));
    let mut v = Vec::new();
    v.extend_from_slice(&((8 + body.len()) as u32).to_le_bytes());
    v.extend_from_slice(&0u32.to_le_bytes());
    v.extend_from_slice(&body);
    v
}

fn map_tag(entries: &[(u64, u64, u32)]) -> Vec<u8> {
    let mut payload = Vec::new();
    payload.extend_from_slice(&24u32.to_le_bytes());
    payload.extend_from_slice(&0u32.to_le_bytes());
    for (base, len, ty) in entries {
        payload.extend_from_slice(&base.to_le_bytes());
        payload.extend_from_slice(&len.to_le_bytes());
        payload.extend_from_slice(&ty.to_le_bytes());
        payload.extend_from_slice(&0u32.to_le_bytes());
    }
    tag(6, &payload)
}

#[test]
fn tags_are_found_by_type() {
    let name = tag(2, b"GRUB 2.06\0");
    let v = MultibootInfoView::new(info(&[name.clone(), map_tag(&[(0, 0x9F000, 1)])])).unwrap();
    assert_eq!(v.tags(), 8);
    assert_eq!(v.get_tag_addr_by_type(2, 8), Some(8));
    assert_eq!(v.get_memory_map_tag(), Some(8 + name.len()));
    assert_eq!(v.get_modules_tag(8), None);
    assert_eq!(v.get_boot_loader_name(), Some(b"GRUB 2.06".to_vec()));
    assert!(MultibootInfoView::new(vec![0u8; 4]).is_none());
}

#[test]
fn memory_map_totals() {
    let map = MultibootMemoryMapTag::new_from_bytes(map_tag(&[
        (0, 0x9F000, 1),
        (0x9F000, 0x1000, 2),
        (0x10_0000, 0x7F0_0000, 1),
    ]))
    .unwrap();
    assert_eq!(map.entry_size, 24);
    // the walk covers the tag's size less its 40-byte fixed part: the last
    // entry of the map is not visited
    assert_eq!(map.get_available_memory(1), 0x9F000);
    assert_eq!(map.get_available_memory(1024), 0x9F000 / 1024);
    assert_eq!(map.get_high_usable_memory_address(), 0xA0000);
    let longer = MultibootMemoryMapTag::new_from_bytes(map_tag(&[
        (0, 0x9F000, 1),
        (0x9F000, 0x1000, 2),
        (0x10_0000, 0x7F0_0000, 1),
        (0, 0, 0),
    ]))
    .unwrap();
    assert_eq!(longer.get_available_memory(1), 0x9F000 + 0x7F0_0000);
    assert_eq!(longer.get_high_usable_memory_address(), 0x800_0000);
}

#[test]
fn highest_address_is_cut_to_a_physical_address() {
    let map = MultibootMemoryMapTag::new_from_bytes(map_tag(&[(0x10_0000_0000_0000, 0x1000, 1), (0, 0, 0)])).unwrap();
    // bit 52 is not part of a physical address
    assert_eq!(map.get_high_usable_memory_address(), 0x1000);
}

#[test]
fn module_destinations_are_page_aligned() {
    assert_eq!(next_module_destination(0x20_0000, 1), 0x20_1000);
    assert_eq!(next_module_destination(0x20_0000, 0x1000), 0x20_1000);
    assert!(MultibootInfoView::is_page_inside_kernel_or_eba_regions(0x2000, 0x1000, 0x3000));
    assert!(!MultibootInfoView::is_page_inside_kernel_or_eba_regions(0x3001, 0x1000, 0x3000));
}

#[test]
fn tag_types() {
    assert!(MultibootTagType::try_from(6).is_ok());
    assert_eq!(MultibootTagType::try_from(99).err(), Some(99));
}

#[test]
fn cpuid_fields() {
    // family 6, model 0x9E with extended model 0x9 (Coffee Lake), APIC present
    let base = CpuidRegs { eax: 0x000906EA, ebx: 0x0210_0800, ecx: 0x0020_0000, edx: 0x0000_0200 };
    let c = CpuId::new(base, CpuidRegs { eax: 0, ebx: 0, ecx: 0, edx: 0 });
    assert_eq!(c.stepping_id(), 0xA);
    assert_eq!(c.family_id(), 6);
    assert_eq!(c.actual_family(), 6);
    assert_eq!(c.actual_model(), 0x9E);
    assert!(c.has_apic());
    assert!(c.has_x2apic());
    assert_eq!(c.initial_apic_id(), 2);
}

#[test]
fn memory_totals() {
    let regions = [
        MemRegion { start: 0, end: 0x1000, kind: MemRegionKind::Other },
        MemRegion { start: 0x1000, end: 0x9_F000, kind: MemRegionKind::Usable },
        MemRegion { start: 0x10_0000, end: 0x20_0000, kind: MemRegionKind::Kernel },
        MemRegion { start: 0x20_0000, end: 0x20_4000, kind: MemRegionKind::KernelStack },
    ];
    let m = MemInfo::from(&regions);
    assert_eq!(m.usable, 0x9_E000);
    assert_eq!(m.kernel, 0x10_4000);
    assert_eq!(m.reserved, 0x1000);
    assert_eq!(m.total, m.usable + m.kernel + m.reserved);
    assert_eq!(size_parts(3 * 0x4000_0000 + 5 * 0x10_0000 + 7 * 0x400 + 9), (3, 5, 7, 9));
}

#[test]
fn tag_type_number_roundtrip() {
    for v in 1u32..=21 {
        let t = MultibootTagType::try_from(v).unwrap();
        assert_eq!(t.number(), v);
    }
    assert_eq!(MultibootTagType::MemoryMap.number(), 6);
    assert_eq!(MultibootTagType::BootCommandLine.number(), 1);
    assert_eq!(MultibootTagType::try_from(0).err(), Some(0));
    assert_eq!(MultibootTagType::try_from(22).err(), Some(22));
}
