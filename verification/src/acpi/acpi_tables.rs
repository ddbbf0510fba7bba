//! Table signatures, the errors of table discovery, and the directory of
//! tables that the root table points at.
use vstd::prelude::*;
use crate::acpi::tables::{AcpiRevision, revision_of_byte};
use crate::acpi::tables::rsdp::{DescriptionPointerTable, RSDP, XSDP};
use crate::acpi::tables::rsdt::{RSDT, XSDT, table_fits};
use crate::acpi::tables::sdt_header::checksum_ok;
use crate::bytes::{le32, le64};

verus! {

/// A four-character table signature.
#[derive(Clone, Copy, Debug)]
pub struct ACPISignature(pub [u8; 4]);

impl PartialEq for ACPISignature {
    fn eq(&self, other: &Self) -> (r: bool) {
        let r = self.0[0] == other.0[0] && self.0[1] == other.0[1] && self.0[2] == other.0[2]
            && self.0[3] == other.0[3];
        proof {
            if r {
                assert(self.0@ =~= other.0@);
            }
        }
        r
    }
}

impl vstd::std_specs::cmp::PartialEqSpecImpl for ACPISignature {
    open spec fn obeys_eq_spec() -> bool {
        true
    }

    open spec fn eq_spec(&self, other: &Self) -> bool {
        self.0@ == other.0@
    }
}

/// "RSDT"
pub open spec fn rsdt_sig() -> Seq<u8> {
    seq![0x52u8, 0x53u8, 0x44u8, 0x54u8]
}

/// "XSDT"
pub open spec fn xsdt_sig() -> Seq<u8> {
    seq![0x58u8, 0x53u8, 0x44u8, 0x54u8]
}

/// "FACP", the signature of the fixed ACPI description table.
pub open spec fn fadt_sig() -> Seq<u8> {
    seq![0x46u8, 0x41u8, 0x43u8, 0x50u8]
}

/// "DSDT"
pub open spec fn dsdt_sig() -> Seq<u8> {
    seq![0x44u8, 0x53u8, 0x44u8, 0x54u8]
}

/// "APIC", the signature of the multiple APIC description table.
pub open spec fn madt_sig() -> Seq<u8> {
    seq![0x41u8, 0x50u8, 0x49u8, 0x43u8]
}

/// "MCFG"
pub open spec fn mcfg_sig() -> Seq<u8> {
    seq![0x4Du8, 0x43u8, 0x46u8, 0x47u8]
}

/// The printable name of a signature: the four tables that the kernel
/// looks for by name, and a placeholder for any other.
pub open spec fn signature_name(sig: Seq<u8>) -> Seq<char> {
    if sig == rsdt_sig() {
        "RSDT"@
    } else if sig == xsdt_sig() {
        "XSDT"@
    } else if sig == fadt_sig() {
        "FADT"@
    } else if sig == dsdt_sig() {
        "DSDT"@
    } else {
        "----"@
    }
}

impl ACPISignature {
    pub fn rsdt() -> (r: ACPISignature)
        ensures
            r.0@ == rsdt_sig(),
    {
        let r = ACPISignature([0x52, 0x53, 0x44, 0x54]);
        assert(r.0@ =~= rsdt_sig());
        r
    }

    pub fn xsdt() -> (r: ACPISignature)
        ensures
            r.0@ == xsdt_sig(),
    {
        let r = ACPISignature([0x58, 0x53, 0x44, 0x54]);
        assert(r.0@ =~= xsdt_sig());
        r
    }

    pub fn fadt() -> (r: ACPISignature)
        ensures
            r.0@ == fadt_sig(),
    {
        let r = ACPISignature([0x46, 0x41, 0x43, 0x50]);
        assert(r.0@ =~= fadt_sig());
        r
    }

    pub fn dsdt() -> (r: ACPISignature)
        ensures
            r.0@ == dsdt_sig(),
    {
        let r = ACPISignature([0x44, 0x53, 0x44, 0x54]);
        assert(r.0@ =~= dsdt_sig());
        r
    }

    pub fn madt() -> (r: ACPISignature)
        ensures
            r.0@ == madt_sig(),
    {
        let r = ACPISignature([0x41, 0x50, 0x49, 0x43]);
        assert(r.0@ =~= madt_sig());
        r
    }

    pub fn mcfg() -> (r: ACPISignature)
        ensures
            r.0@ == mcfg_sig(),
    {
        let r = ACPISignature([0x4D, 0x43, 0x46, 0x47]);
        assert(r.0@ =~= mcfg_sig());
        r
    }

    /// The printable name of this signature.
    pub fn as_str(&self) -> (r: &'static str)
        ensures
            r@ == signature_name(self.0@),
    {
        if *self == ACPISignature::rsdt() {
            "RSDT"
        } else if *self == ACPISignature::xsdt() {
            "XSDT"
        } else if *self == ACPISignature::fadt() {
            "FADT"
        } else if *self == ACPISignature::dsdt() {
            "DSDT"
        } else {
            "----"
        }
    }
}

} // verus!

verus! {

/// What every system description table offers.
pub trait AcpiSdtTable {
    fn get_signature(&self) -> ACPISignature;

    fn validate(&self) -> bool;

    fn get_sdt_header(&self) -> crate::acpi::tables::sdt_header::ACPISDTHeader;
}

/// Why the tables could not be found.
#[derive(Debug)]
pub enum AcpiError {
    InvalidRevisionError,
    InvalidSdpChecksumError(),
    InvalidChecksumError(ACPISignature),
}

/// The 32-bit table addresses that a root table `s` lists.
pub open spec fn rsdt_entries(s: Seq<u8>) -> Seq<u64> {
    Seq::new(((s.len() - 36) / 4) as nat, |i: int| le32(s, 36 + 4 * i) as u64)
}

/// The 64-bit table addresses that an extended root table `s` lists.
pub open spec fn xsdt_entries(s: Seq<u8>) -> Seq<u64> {
    Seq::new(((s.len() - 36) / 8) as nat, |i: int| le64(s, 36 + 8 * i) as u64)
}

/// Index of the first signature in `sigs` equal to `wanted`.
pub open spec fn is_first_with(sigs: Seq<ACPISignature>, wanted: Seq<u8>, k: int) -> bool {
    &&& 0 <= k < sigs.len()
    &&& sigs[k].0@ == wanted
    &&& forall|j: int| 0 <= j < k ==> sigs[j].0@ != wanted
}

/// Adding `offset` overflows for no address that a search for `wanted`
/// reaches.
pub open spec fn search_no_overflow(
    pointers: Seq<u64>,
    sigs: Seq<ACPISignature>,
    wanted: Seq<u8>,
    offset: u64,
) -> bool {
    forall|i: int|
        0 <= i < pointers.len() && (forall|j: int| 0 <= j < i ==> sigs[j].0@ != wanted)
            ==> #[trigger] pointers[i] + offset <= u64::MAX
}

/// Searches the tables at `pointers`, whose signatures are `sigs`, for the
/// first whose signature is `wanted`, and gives its address in the mapping
/// at `offset`.
pub fn find_table_address(
    pointers: &[u64],
    sigs: &[ACPISignature],
    wanted: ACPISignature,
    offset: u64,
) -> (r: Option<u64>)
    requires
        sigs@.len() == pointers@.len(),
        search_no_overflow(pointers@, sigs@, wanted.0@, offset),
    ensures
        match r {
            Some(a) => exists|k: int|
                #[trigger] is_first_with(sigs@, wanted.0@, k) && a == pointers@[k] + offset,
            None => forall|j: int| 0 <= j < sigs@.len() ==> sigs@[j].0@ != wanted.0@,
        },
{
    let mut i: usize = 0;
    while i < pointers.len()
        invariant
            sigs@.len() == pointers@.len(),
            i <= pointers@.len(),
            search_no_overflow(pointers@, sigs@, wanted.0@, offset),
            forall|j: int| 0 <= j < i ==> sigs@[j].0@ != wanted.0@,
        decreases pointers@.len() - i,
    {
        assert(pointers@[i as int] + offset <= u64::MAX);
        let addr = pointers[i] + offset;
        if sigs[i] == wanted {
            assert(is_first_with(sigs@, wanted.0@, i as int));
            return Some(addr);
        }
        i = i + 1;
    }
    None
}

/// The root pointers and the addresses of the tables that the root table
/// lists.
pub struct ACPITables {
    pub mem_physical_offset: u64,
    pub rsdp: Option<RSDP>,
    pub xsdp: Option<XSDP>,
    pub rsdt_mappings: Vec<u64>,
}

impl ACPITables {
    fn new_from_xsdp(xsdp: XSDP, mem_physical_offset: u64) -> (r: ACPITables)
        ensures
            r.mem_physical_offset == mem_physical_offset,
            r.xsdp == Some(xsdp),
            r.rsdp is None,
            r.rsdt_mappings@.len() == 0,
    {
        ACPITables { mem_physical_offset, xsdp: Some(xsdp), rsdp: None, rsdt_mappings: Vec::new() }
    }

    fn new_from_rsdp(rsdp: RSDP, mem_physical_offset: u64) -> (r: ACPITables)
        ensures
            r.mem_physical_offset == mem_physical_offset,
            r.rsdp == Some(rsdp),
            r.xsdp is None,
            r.rsdt_mappings@.len() == 0,
    {
        ACPITables { mem_physical_offset, xsdp: None, rsdp: Some(rsdp), rsdt_mappings: Vec::new() }
    }

    /// ACPI 2.0 where the extended pointer was found, 1.0 where only the
    /// first one was, unknown where neither was.
    pub fn get_revision(&self) -> (r: AcpiRevision)
        ensures
            r == (if self.xsdp is Some {
                AcpiRevision::Acpi20
            } else if self.rsdp is Some {
                AcpiRevision::Acpi10
            } else {
                AcpiRevision::Unknown
            }),
    {
        match self.xsdp {
            Some(_) => AcpiRevision::Acpi20,
            None => match self.rsdp {
                None => AcpiRevision::Unknown,
                Some(_) => AcpiRevision::Acpi10,
            },
        }
    }

    /// The address, in the direct mapping, of the first listed table whose
    /// signature is `signature`; `table_signatures` holds the signature of
    /// each listed table, in the order of the list.
    pub fn find_sdt_table(&self, signature: ACPISignature, table_signatures: &[ACPISignature]) -> (r:
        Option<u64>)
        requires
            table_signatures@.len() == self.rsdt_mappings@.len(),
            search_no_overflow(
                self.rsdt_mappings@,
                table_signatures@,
                signature.0@,
                self.mem_physical_offset,
            ),
        ensures
            match r {
                Some(a) => exists|k: int|
                    #[trigger] is_first_with(table_signatures@, signature.0@, k) && a
                        == self.rsdt_mappings@[k] + self.mem_physical_offset,
                None => forall|j: int|
                    0 <= j < table_signatures@.len() ==> table_signatures@[j].0@
                        != signature.0@,
            },
    {
        find_table_address(
            self.rsdt_mappings.as_slice(),
            table_signatures,
            signature,
            self.mem_physical_offset,
        )
    }

    pub fn get_memory_offset(&self) -> (r: u64)
        ensures
            r == self.mem_physical_offset,
    {
        self.mem_physical_offset
    }
}

/// Where the root table lies in the direct mapping at `offset`: the
/// extended table for ACPI 2.0, the 32-bit one for ACPI 1.0; `None` for
/// any other revision.
pub open spec fn root_table_address_spec(rsdp: Seq<u8>, offset: u64) -> Option<int> {
    let rev = revision_of_byte(rsdp[15]);
    if rev == AcpiRevision::Acpi20 {
        Some(le64(rsdp, 24) + offset)
    } else if rev == AcpiRevision::Acpi10 {
        Some(le32(rsdp, 16) + offset)
    } else {
        None
    }
}

/// The address of the root table that `get_acpi_tables` needs, from the 36
/// bytes at the root pointer.
pub fn root_table_address(rsdp_bytes: &[u8], offset: u64) -> (r: Option<u64>)
    requires
        rsdp_bytes@.len() >= 36,
        root_table_address_spec(rsdp_bytes@, offset) matches Some(a) ==> a <= u64::MAX,
    ensures
        r matches Some(a) ==> root_table_address_spec(rsdp_bytes@, offset) == Some(a as int),
        r is None ==> root_table_address_spec(rsdp_bytes@, offset) is None,
{
    let rev = AcpiRevision::from_u8(rsdp_bytes[15]);
    match rev {
        AcpiRevision::Acpi20 => Some(crate::bytes::read_u64_le(rsdp_bytes, 24) + offset),
        AcpiRevision::Acpi10 => Some(crate::bytes::read_u32_le(rsdp_bytes, 16) as u64 + offset),
        AcpiRevision::Unknown => None,
    }
}

/// What `get_acpi_tables` owes for the root pointer bytes `rsdp` and the
/// root table bytes `root`: the error, or the revision and the listed
/// table addresses.
pub open spec fn acpi_tables_outcome(rsdp: Seq<u8>, root: Seq<u8>) -> Result<
    (AcpiRevision, Seq<u64>),
    int,
> {
    let rev = revision_of_byte(rsdp[15]);
    if !checksum_ok(rsdp, 20) {
        Err(1)
    } else if rev == AcpiRevision::Unknown {
        Err(0)
    } else if rev == AcpiRevision::Acpi10 {
        if !checksum_ok(root, root.len() as int) {
            Err(2)
        } else {
            Ok((AcpiRevision::Acpi10, rsdt_entries(root)))
        }
    } else if !checksum_ok(rsdp, le32(rsdp, 20)) {
        Err(1)
    } else if !checksum_ok(root, root.len() as int) {
        Err(3)
    } else {
        Ok((AcpiRevision::Acpi20, xsdt_entries(root)))
    }
}

/// The number by which `acpi_tables_outcome` names each error.
pub open spec fn error_code(e: AcpiError) -> int {
    match e {
        AcpiError::InvalidRevisionError => 0,
        AcpiError::InvalidSdpChecksumError() => 1,
        AcpiError::InvalidChecksumError(s) => if s.0@ == rsdt_sig() {
            2
        } else if s.0@ == xsdt_sig() {
            3
        } else {
            4
        },
    }
}

/// Checks the root pointer (`rsdp_bytes`, the 36 bytes at its address) and
/// the root table (`root_table`, the bytes at the address that
/// `root_table_address` gives), and collects the addresses of the tables
/// that the root table lists.
pub fn get_acpi_tables(rsdp_bytes: Vec<u8>, physical_memory_offset: u64, root_table: Vec<u8>) -> (r:
    Result<ACPITables, AcpiError>)
    requires
        rsdp_bytes@.len() >= 36,
        table_fits(root_table@),
    ensures
        match (r, acpi_tables_outcome(rsdp_bytes@, root_table@)) {
            (Ok(t), Ok((rev, entries))) => {
                &&& t.rsdt_mappings@ == entries
                &&& t.mem_physical_offset == physical_memory_offset
                &&& (rev == AcpiRevision::Acpi20 <==> t.xsdp is Some)
                &&& (rev == AcpiRevision::Acpi10 <==> t.xsdp is None && t.rsdp is Some)
            },
            (Err(e), Err(code)) => error_code(e) == code,
            _ => false,
        },
{
    let ghost rb = rsdp_bytes@;
    let rsdp = match RSDP::parse(rsdp_bytes.clone()) {
        Some(p) => p,
        None => {
            return Err(AcpiError::InvalidSdpChecksumError());
        },
    };
    if !rsdp.validate() {
        return Err(AcpiError::InvalidSdpChecksumError());
    }
    match rsdp.get_revision() {
        AcpiRevision::Unknown => {
            return Err(AcpiError::InvalidRevisionError);
        },
        AcpiRevision::Acpi10 => {
            let mut acpi_tables = ACPITables::new_from_rsdp(rsdp, physical_memory_offset);
            let rsdt = match RSDT::new_from_bytes(root_table) {
                Some(t) => t,
                None => {
                    return Err(AcpiError::InvalidChecksumError(ACPISignature::rsdt()));
                },
            };
            if !rsdt.validate() {
                return Err(AcpiError::InvalidChecksumError(ACPISignature::rsdt()));
            }
            acpi_tables.rsdt_mappings = rsdt.get_pointers_to_other_sdts();
            assert(acpi_tables.rsdt_mappings@ =~= rsdt_entries(rsdt@));
            Ok(acpi_tables)
        },
        AcpiRevision::Acpi20 => {
            let xsdp = match XSDP::parse(rsdp_bytes) {
                Some(p) => p,
                None => {
                    return Err(AcpiError::InvalidSdpChecksumError());
                },
            };
            if !xsdp.validate() {
                return Err(AcpiError::InvalidSdpChecksumError());
            }
            let mut acpi_tables = ACPITables::new_from_xsdp(xsdp, physical_memory_offset);
            let xsdt = match XSDT::new_from_bytes(root_table) {
                Some(t) => t,
                None => {
                    return Err(AcpiError::InvalidChecksumError(ACPISignature::xsdt()));
                },
            };
            if !xsdt.validate() {
                return Err(AcpiError::InvalidChecksumError(ACPISignature::xsdt()));
            }
            acpi_tables.rsdt_mappings = xsdt.get_pointers_to_other_sdts();
            assert(acpi_tables.rsdt_mappings@ =~= xsdt_entries(xsdt@));
            Ok(acpi_tables)
        },
    }
}

} // verus!
