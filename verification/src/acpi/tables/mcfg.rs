//! The PCI express memory mapped configuration table: one allocation per
//! segment group and bus range.
use vstd::prelude::*;
use crate::acpi::acpi_tables::{ACPISignature, AcpiSdtTable, mcfg_sig};
use crate::acpi::tables::rsdt::table_fits;
use crate::acpi::tables::sdt_header::{
    ACPISDTHeader, checksum_ok, header_of, whole_table,
};
use crate::bytes::{le16, le32, le64, read_u16_le, read_u32_le, read_u64_le};

verus! {

/// One configuration space allocation: where the space of a segment group and bus range is mapped.
#[derive(Clone, Copy, Debug)]
pub struct McfgAllocation {
    pub base_address: u64,
    pub pci_segment_group: u16,
    pub start_bus_number: u8,
    pub end_bus_number: u8,
    pub __reserved: u32,
}

/// `v` holds the 16-byte record stored in `s` at `off`.
pub open spec fn mcfg_allocation_at(v: McfgAllocation, s: Seq<u8>, off: int) -> bool {
    &&& 0 <= off && off + 16 <= s.len()
    &&& v.base_address == le64(s, off)
    &&& v.pci_segment_group == le16(s, off + 8)
    &&& v.start_bus_number == s[off + 10]
    &&& v.end_bus_number == s[off + 11]
    &&& v.__reserved == le32(s, off + 12)
}

impl McfgAllocation {
    /// Size of the record in bytes.
    pub const SIZE: usize = 16;

    /// Decodes the record stored in `data` at `off`.
    pub fn read_from(data: &[u8], off: usize) -> (r: McfgAllocation)
        requires
            off + 16 <= data@.len(),
        ensures
            mcfg_allocation_at(r, data@, off as int),
    {
        let _n = data.len();
        McfgAllocation {
            base_address: read_u64_le(data, off),
            pci_segment_group: read_u16_le(data, off + 8),
            start_bus_number: data[off + 10],
            end_bus_number: data[off + 11],
            __reserved: read_u32_le(data, off + 12),
        }
    }
}

/// Offset of the first allocation: the header and eight reserved bytes
/// come before it.
pub const MCFG_ALLOCATIONS_START: usize = 44;

/// The memory mapped configuration table.
pub struct MCFG {
    header: ACPISDTHeader,
    table: Vec<u8>,
}

impl View for MCFG {
    type V = Seq<u8>;

    closed spec fn view(&self) -> Seq<u8> {
        self.table@
    }
}

impl MCFG {
    #[verifier::type_invariant]
    closed spec fn inv(&self) -> bool {
        whole_table(self.header, self.table@)
    }

    /// Takes the bytes of the table; `None` unless they are a whole table.
    pub fn new_from_bytes(bytes: Vec<u8>) -> (r: Option<MCFG>)
        ensures
            r is Some <==> table_fits(bytes@),
            r matches Some(t) ==> t@ == bytes@,
    {
        match ACPISDTHeader::parse(bytes.as_slice()) {
            None => None,
            Some(header) => {
                if header.length as usize != bytes.len() {
                    None
                } else {
                    Some(MCFG { header, table: bytes })
                }
            },
        }
    }

    /// The allocations after the header and the reserved bytes: as many
    /// whole 16-byte records as fit in the table's length.
    pub fn allocations(&self) -> (r: Vec<McfgAllocation>)
        requires
            self@.len() >= 44,
        ensures
            r@.len() == (self@.len() - 44) / 16,
            forall|i: int| 0 <= i < r@.len() ==> mcfg_allocation_at(r@[i], self@, 44 + 16 * i),
    {
        proof {
            use_type_invariant(self);
        }
        let data = self.table.as_slice();
        let total = data.len();
        let n = (self.header.length as usize - MCFG_ALLOCATIONS_START) / McfgAllocation::SIZE;
        let mut a: Vec<McfgAllocation> = Vec::new();
        let mut i: usize = 0;
        while i < n
            invariant
                total == data@.len(),
                total >= 44,
                n == (total - 44) / 16,
                i <= n,
                a@.len() == i,
                forall|k: int| 0 <= k < i ==> mcfg_allocation_at(a@[k], data@, 44 + 16 * k),
            decreases n - i,
        {
            assert(44 + 16 * i + 16 <= total) by (nonlinear_arith)
                requires
                    i < n,
                    n == (total - 44) / 16,
                    total >= 44,
            ;
            a.push(McfgAllocation::read_from(data, MCFG_ALLOCATIONS_START + 16 * i));
            i = i + 1;
        }
        a
    }
}

impl AcpiSdtTable for MCFG {
    fn get_signature(&self) -> (r: ACPISignature)
        ensures
            r.0@ == mcfg_sig(),
    {
        ACPISignature::mcfg()
    }

    fn validate(&self) -> (r: bool)
        ensures
            r == checksum_ok(self@, self@.len() as int),
    {
        proof {
            use_type_invariant(self);
        }
        self.header.validate_checksum(self.table.as_slice())
    }

    fn get_sdt_header(&self) -> (r: ACPISDTHeader)
        ensures
            header_of(r, self@),
            r.length == self@.len(),
    {
        proof {
            use_type_invariant(self);
        }
        self.header
    }
}

} // verus!
