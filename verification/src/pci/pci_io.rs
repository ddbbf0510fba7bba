//! Addressing configuration space: the legacy port mechanism and the
//! memory mapped windows of the enhanced mechanism.
use vstd::prelude::*;
use crate::acpi::tables::mcfg::McfgAllocation;
use crate::phys::{canonical, virt_addr_add};

verus! {

/// The port that selects a configuration register.
pub const PCI_CONFIG_ADDR: u16 = 0xCF8;
/// The port through which the selected register is read and written.
pub const PCI_CONFIG_DATA: u16 = 0xCFC;

/// The value written to the address port to select register `reg` of the
/// function at `id`: the enable bit, the function's address and the
/// register's dword offset.
pub fn pci_addr(id: u32, reg: u32) -> (r: u32)
    ensures
        r == 0x8000_0000u32 | id | (reg & 0xfc),
{
    0x8000_0000 | id | (reg & 0xfc)
}

/// The legacy mechanism reaches only the first 256 bytes of each function.
pub fn legacy_reaches(reg: u32) -> (r: bool)
    ensures
        r == (reg < 256),
{
    reg < 256
}

/// The data port through which a byte at `reg` is accessed.
pub fn legacy_data_port8(reg: u32) -> (r: u16)
    ensures
        r == 0xCFC + (reg & 0x03),
{
    proof {
        lemma_small_masks(reg);
    }
    PCI_CONFIG_DATA + (reg & 0x03) as u16
}

/// The data port through which a 16-bit word at `reg` is accessed.
pub fn legacy_data_port16(reg: u32) -> (r: u16)
    ensures
        r == 0xCFC + (reg & 0x02),
{
    proof {
        lemma_small_masks(reg);
    }
    PCI_CONFIG_DATA + (reg & 0x02) as u16
}

/// Masks keep values below their width.
proof fn lemma_small_masks(x: u32)
    ensures
        x & 0xFF < 256,
        x & 0x1F < 32,
        x & 0x07 < 8,
        x & 0x03 < 4,
        x & 0x02 <= 2,
{
    assert(x & 0xFF < 256 && x & 0x1F < 32 && x & 0x07 < 8 && x & 0x03 < 4 && x & 0x02 <= 2)
        by (bit_vector);
}

/// The bus number held in a configuration address.
pub fn pci_id_bus(id: u32) -> (r: u8)
    ensures
        r == (id >> 16u32) & 0xFF,
{
    proof {
        lemma_small_masks(id >> 16u32);
    }
    ((id >> 16) & 0xFF) as u8
}

/// The device number held in a configuration address.
pub fn pci_id_device(id: u32) -> (r: u8)
    ensures
        r == (id >> 11u32) & 0x1F,
{
    proof {
        lemma_small_masks(id >> 11u32);
    }
    ((id >> 11) & 0x1F) as u8
}

/// The function number held in a configuration address.
pub fn pci_id_function(id: u32) -> (r: u8)
    ensures
        r == (id >> 8u32) & 0x07,
{
    proof {
        lemma_small_masks(id >> 8u32);
    }
    ((id >> 8) & 0x07) as u8
}

/// A configuration address gives back the bus, device and function that
/// it was made of.
pub proof fn law_pci_id_roundtrip(bus: u32, device: u32, function: u32)
    requires
        bus < 256,
        device < 32,
        function < 8,
    ensures
        ((crate::pci::pci_device::pci_id_spec(bus, device, function) >> 16u32) & 0xFF) == bus,
        ((crate::pci::pci_device::pci_id_spec(bus, device, function) >> 11u32) & 0x1F) == device,
        ((crate::pci::pci_device::pci_id_spec(bus, device, function) >> 8u32) & 0x07) == function,
{
    assert(bus < 256 && device < 32 && function < 8 ==> (((bus << 16u32) | (device << 11u32) | (
    function << 8u32)) >> 16u32) & 0xFF == bus && (((bus << 16u32) | (device << 11u32) | (function
        << 8u32)) >> 11u32) & 0x1F == device && (((bus << 16u32) | (device << 11u32) | (function
        << 8u32)) >> 8u32) & 0x07 == function) by (bit_vector);
}

/// A window of the enhanced configuration mechanism: the table's
/// allocation and the virtual address at which it is mapped.
#[derive(Clone, Copy, Debug)]
pub struct PciMmioInfo {
    pub mcfg_alloc: McfgAllocation,
    pub virt_addr: u64,
}

/// The bus number of the configuration address `id`.
pub open spec fn id_bus(id: u32) -> u8 {
    ((id >> 16u32) & 0xFF) as u8
}

/// The window `info` covers `bus` of segment group 0.
pub open spec fn window_covers(info: PciMmioInfo, bus: u8) -> bool {
    info.mcfg_alloc.pci_segment_group == 0 && info.mcfg_alloc.start_bus_number <= bus
        <= info.mcfg_alloc.end_bus_number
}

/// The offset, in the window starting at bus `start`, of register `reg` of
/// the function at `id`.
pub open spec fn ecam_offset(id: u32, reg: u32, start: u8) -> int {
    let bus = (id >> 16u32) & 0xFF;
    let device = (id >> 11u32) & 0x1F;
    let function = (id >> 8u32) & 0x07;
    (bus - start) * 0x10_0000 + device * 0x8000 + function * 0x1000 + (reg & 0xFFF)
}

/// The address, in the first window that covers the function's bus, of
/// register `reg` of the function at `id`; `None` where no window covers
/// it and the legacy mechanism must be used.
pub fn get_mmio_addr(allocs: &[PciMmioInfo], id: u32, reg: u32) -> (r: Option<u64>)
    requires
        forall|k: int|
            0 <= k < allocs@.len() && window_covers(#[trigger] allocs@[k], id_bus(id)) && (forall|
                j: int,
            | 0 <= j < k ==> !window_covers(allocs@[j], id_bus(id))) ==> canonical(
                allocs@[k].virt_addr as int,
            ) && canonical(
                allocs@[k].virt_addr + ecam_offset(id, reg, allocs@[k].mcfg_alloc.start_bus_number),
            ),
    ensures
        match r {
            Some(a) => exists|k: int|
                0 <= k < allocs@.len() && window_covers(#[trigger] allocs@[k], id_bus(id)) && (
                forall|j: int| 0 <= j < k ==> !window_covers(allocs@[j], id_bus(id))) && a
                    == allocs@[k].virt_addr + ecam_offset(
                    id,
                    reg,
                    allocs@[k].mcfg_alloc.start_bus_number,
                ),
            None => forall|j: int| 0 <= j < allocs@.len() ==> !window_covers(allocs@[j], id_bus(id)),
        },
{
    let bus = pci_id_bus(id);
    let device = pci_id_device(id);
    let function = pci_id_function(id);
    proof {
        lemma_small_masks(id >> 16u32);
        lemma_small_masks(id >> 11u32);
        lemma_small_masks(id >> 8u32);
    }
    assert(bus == id_bus(id));
    let mut i: usize = 0;
    while i < allocs.len()
        invariant
            i <= allocs@.len(),
            bus == (id >> 16u32) & 0xFF,
            bus == id_bus(id),
            device < 32,
            function < 8,
            device == (id >> 11u32) & 0x1F,
            function == (id >> 8u32) & 0x07,
            forall|k: int|
                0 <= k < allocs@.len() && window_covers(#[trigger] allocs@[k], id_bus(id)) && (
                forall|j: int| 0 <= j < k ==> !window_covers(allocs@[j], id_bus(id)))
                    ==> canonical(allocs@[k].virt_addr as int) && canonical(
                    allocs@[k].virt_addr + ecam_offset(
                        id,
                        reg,
                        allocs@[k].mcfg_alloc.start_bus_number,
                    ),
                ),
            forall|j: int| 0 <= j < i ==> !window_covers(allocs@[j], bus),
        decreases allocs@.len() - i,
    {
        let info = allocs[i];
        if info.mcfg_alloc.pci_segment_group == 0 && bus >= info.mcfg_alloc.start_bus_number
            && bus <= info.mcfg_alloc.end_bus_number {
            let bus_offset = ((bus - info.mcfg_alloc.start_bus_number) as u64) << 20;
            let dev_offset = (device as u64) << 15;
            let func_offset = (function as u64) << 12;
            let reg_offset = (reg & 0xFFF) as u64;
            let b = (bus - info.mcfg_alloc.start_bus_number) as u64;
            let d = device as u64;
            let f = function as u64;
            let g = reg_offset;
            assert(b < 256 && d < 32 && f < 8 && g < 0x1000 ==> (b << 20u64) | (d << 15u64) | (f
                << 12u64) | g == b * 0x10_0000 + d * 0x8000 + f * 0x1000 + g) by (bit_vector);
            assert(reg & 0xFFF < 0x1000) by (bit_vector);
            let offset = bus_offset | dev_offset | func_offset | reg_offset;
            assert(offset == ecam_offset(id, reg, info.mcfg_alloc.start_bus_number));
            assert(allocs@[i as int] == info);
            assert(window_covers(allocs@[i as int], id_bus(id)));
            return Some(virt_addr_add(info.virt_addr, offset));
        }
        i = i + 1;
    }
    None
}

} // verus!
