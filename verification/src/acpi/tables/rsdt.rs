//! The root and extended system description tables: lists of the
//! physical addresses of every other table.
use vstd::prelude::*;
use crate::acpi::acpi_tables::{ACPISignature, AcpiSdtTable};
use crate::acpi::tables::sdt_header::{
    ACPISDTHeader, SDT_HEADER_SIZE, checksum_ok, header_of, whole_table,
};
use crate::bytes::{le32, le64, read_u32_le, read_u64_le};

verus! {

/// The root system description table of ACPI 1.0: 32-bit table addresses
/// after the header.
pub struct RSDT {
    header: ACPISDTHeader,
    table: Vec<u8>,
}

impl View for RSDT {
    type V = Seq<u8>;

    closed spec fn view(&self) -> Seq<u8> {
        self.table@
    }
}

/// Whether `bytes` can be taken as a whole table: a header, and exactly as
/// many bytes as its length field says.
pub open spec fn table_fits(bytes: Seq<u8>) -> bool {
    bytes.len() >= 36 && le32(bytes, 4) == bytes.len()
}

impl RSDT {
    #[verifier::type_invariant]
    closed spec fn inv(&self) -> bool {
        whole_table(self.header, self.table@)
    }

    /// Takes the bytes of the table; `None` unless they are a whole table.
    pub fn new_from_bytes(bytes: Vec<u8>) -> (r: Option<RSDT>)
        ensures
            r is Some <==> table_fits(bytes@),
            r matches Some(t) ==> t@ == bytes@,
    {
        match ACPISDTHeader::parse(bytes.as_slice()) {
            None => None,
            Some(header) => {
                if header.length as usize != bytes.len() {
                    None
                } else {
                    Some(RSDT { header, table: bytes })
                }
            },
        }
    }

    /// Number of table addresses after the header.
    pub fn get_mapping_length(&self) -> (r: usize)
        ensures
            r == (self@.len() - 36) / 4,
    {
        proof {
            use_type_invariant(self);
        }
        (self.header.length as usize - SDT_HEADER_SIZE) / 4
    }

    /// The addresses of the other tables, in the order the table lists them.
    pub fn get_pointers_to_other_sdts(&self) -> (r: Vec<u64>)
        ensures
            r@.len() == (self@.len() - 36) / 4,
            forall|i: int| 0 <= i < r@.len() ==> r@[i] == le32(self@, 36 + 4 * i),
    {
        proof {
            use_type_invariant(self);
        }
        let n = self.get_mapping_length();
        let total = self.table.len();
        let mut a: Vec<u64> = Vec::new();
        let mut i: usize = 0;
        while i < n
            invariant
                n == (self.table@.len() - 36) / 4,
                self.table@.len() >= 36,
                total == self.table@.len(),
                i <= n,
                a@.len() == i,
                forall|k: int| 0 <= k < i ==> a@[k] == le32(self.table@, 36 + 4 * k),
            decreases n - i,
        {
            assert(36 + 4 * i + 4 <= self.table@.len()) by (nonlinear_arith)
                requires
                    i < n,
                    n == (self.table@.len() - 36) / 4,
                    self.table@.len() >= 36,
            ;
            let v = read_u32_le(self.table.as_slice(), SDT_HEADER_SIZE + 4 * i);
            a.push(v as u64);
            i = i + 1;
        }
        a
    }
}

impl AcpiSdtTable for RSDT {
    fn get_signature(&self) -> (r: ACPISignature)
        ensures
            r.0@ == crate::acpi::acpi_tables::rsdt_sig(),
    {
        ACPISignature::rsdt()
    }

    fn validate(&self) -> (r: bool)
        ensures
            r == checksum_ok(self@, self@.len() as int),
    {
        proof {
            use_type_invariant(self);
        }
        self.header.validate_checksum(self.table.as_slice())
    }

    fn get_sdt_header(&self) -> (r: ACPISDTHeader)
        ensures
            header_of(r, self@),
            r.length == self@.len(),
    {
        proof {
            use_type_invariant(self);
        }
        self.header
    }
}

/// The extended system description table of ACPI 2.0: 64-bit table
/// addresses after the header.
pub struct XSDT {
    header: ACPISDTHeader,
    table: Vec<u8>,
}

impl View for XSDT {
    type V = Seq<u8>;

    closed spec fn view(&self) -> Seq<u8> {
        self.table@
    }
}

impl XSDT {
    #[verifier::type_invariant]
    closed spec fn inv(&self) -> bool {
        whole_table(self.header, self.table@)
    }

    /// Takes the bytes of the table; `None` unless they are a whole table.
    pub fn new_from_bytes(bytes: Vec<u8>) -> (r: Option<XSDT>)
        ensures
            r is Some <==> table_fits(bytes@),
            r matches Some(t) ==> t@ == bytes@,
    {
        match ACPISDTHeader::parse(bytes.as_slice()) {
            None => None,
            Some(header) => {
                if header.length as usize != bytes.len() {
                    None
                } else {
                    Some(XSDT { header, table: bytes })
                }
            },
        }
    }

    /// Number of table addresses after the header.
    pub fn get_mapping_length(&self) -> (r: usize)
        ensures
            r == (self@.len() - 36) / 8,
    {
        proof {
            use_type_invariant(self);
        }
        (self.header.length as usize - SDT_HEADER_SIZE) / 8
    }

    /// The addresses of the other tables, in the order the table lists them.
    pub fn get_pointers_to_other_sdts(&self) -> (r: Vec<u64>)
        ensures
            r@.len() == (self@.len() - 36) / 8,
            forall|i: int| 0 <= i < r@.len() ==> r@[i] == le64(self@, 36 + 8 * i),
    {
        proof {
            use_type_invariant(self);
        }
        let n = self.get_mapping_length();
        let total = self.table.len();
        let mut a: Vec<u64> = Vec::new();
        let mut i: usize = 0;
        while i < n
            invariant
                n == (self.table@.len() - 36) / 8,
                self.table@.len() >= 36,
                total == self.table@.len(),
                i <= n,
                a@.len() == i,
                forall|k: int| 0 <= k < i ==> a@[k] == le64(self.table@, 36 + 8 * k),
            decreases n - i,
        {
            assert(36 + 8 * i + 8 <= self.table@.len()) by (nonlinear_arith)
                requires
                    i < n,
                    n == (self.table@.len() - 36) / 8,
                    self.table@.len() >= 36,
            ;
            let v = read_u64_le(self.table.as_slice(), SDT_HEADER_SIZE + 8 * i);
            a.push(v);
            i = i + 1;
        }
        a
    }
}

impl AcpiSdtTable for XSDT {
    fn get_signature(&self) -> (r: ACPISignature)
        ensures
            r.0@ == crate::acpi::acpi_tables::xsdt_sig(),
    {
        ACPISignature::xsdt()
    }

    fn validate(&self) -> (r: bool)
        ensures
            r == checksum_ok(self@, self@.len() as int),
    {
        proof {
            use_type_invariant(self);
        }
        self.header.validate_checksum(self.table.as_slice())
    }

    fn get_sdt_header(&self) -> (r: ACPISDTHeader)
        ensures
            header_of(r, self@),
            r.length == self@.len(),
    {
        proof {
            use_type_invariant(self);
        }
        self.header
    }
}

} // verus!
