//! The root system description pointer, in its ACPI 1.0 form and in the
//! extended form of ACPI 2.0.
use vstd::prelude::*;
use crate::acpi::tables::{AcpiRevision, revision_of_byte};
use crate::acpi::tables::sdt_header::{checksum_ok, checksum_of};
use crate::bytes::{le32, le64, read_u32_le, read_u64_le};

verus! {

/// "RSD PTR ", the signature that the pointer structure starts with.
pub open spec fn rsd_ptr_signature() -> Seq<u8> {
    seq![0x52u8, 0x53u8, 0x44u8, 0x20u8, 0x50u8, 0x54u8, 0x52u8, 0x20u8]
}

/// Number of bytes that the ACPI 1.0 checksum covers.
pub const RSDP_CHECKSUM_LENGTH: usize = 20;

/// Size of the extended (ACPI 2.0) pointer structure.
pub const XSDP_SIZE: usize = 36;

/// What every form of the root pointer offers.
pub trait DescriptionPointerTable {
    fn get_signature(&self) -> [u8; 8];

    fn validate(&self) -> bool;

    fn get_oem_id(&self) -> [u8; 6];

    fn get_revision(&self) -> AcpiRevision;

    fn get_sdt_address(&self) -> u64;
}

/// The ACPI 1.0 root pointer: its fields, and the bytes it was read from.
pub struct RSDP {
    pub signature: [u8; 8],
    pub checksum: u8,
    pub oem_id: [u8; 6],
    pub revision: u8,
    pub rsdt_address: u32,
    pub raw: Vec<u8>,
}

impl View for RSDP {
    type V = Seq<u8>;

    open spec fn view(&self) -> Seq<u8> {
        self.raw@
    }
}

impl RSDP {
    /// Decodes the pointer structure at the start of `bytes`; `None` where
    /// fewer than 20 bytes are given.
    pub fn parse(bytes: Vec<u8>) -> (r: Option<RSDP>)
        ensures
            r is Some <==> bytes@.len() >= 20,
            r matches Some(p) ==> {
                &&& p@ == bytes@
                &&& p.signature@ == bytes@.subrange(0, 8)
                &&& p.checksum == bytes@[8]
                &&& p.oem_id@ == bytes@.subrange(9, 15)
                &&& p.revision == bytes@[15]
                &&& p.rsdt_address == le32(bytes@, 16)
            },
    {
        if bytes.len() < RSDP_CHECKSUM_LENGTH {
            return None;
        }
        let signature = [
            bytes[0], bytes[1], bytes[2], bytes[3], bytes[4], bytes[5], bytes[6], bytes[7],
        ];
        let oem_id = [bytes[9], bytes[10], bytes[11], bytes[12], bytes[13], bytes[14]];
        assert(signature@ =~= bytes@.subrange(0, 8));
        assert(oem_id@ =~= bytes@.subrange(9, 15));
        let checksum = bytes[8];
        let revision = bytes[15];
        let rsdt_address = read_u32_le(bytes.as_slice(), 16);
        Some(RSDP { signature, checksum, oem_id, revision, rsdt_address, raw: bytes })
    }
}

impl DescriptionPointerTable for RSDP {
    fn get_signature(&self) -> (r: [u8; 8])
        ensures
            r == self.signature,
    {
        self.signature
    }

    /// Whether the first 20 bytes sum to zero modulo 256.
    fn validate(&self) -> (r: bool)
        ensures
            r == checksum_ok(self@, 20),
    {
        if self.raw.len() < RSDP_CHECKSUM_LENGTH {
            return false;
        }
        checksum_of(self.raw.as_slice(), RSDP_CHECKSUM_LENGTH) == 0
    }

    fn get_oem_id(&self) -> (r: [u8; 6])
        ensures
            r == self.oem_id,
    {
        self.oem_id
    }

    fn get_revision(&self) -> (r: AcpiRevision)
        ensures
            r == revision_of_byte(self.revision),
    {
        AcpiRevision::from_u8(self.revision)
    }

    fn get_sdt_address(&self) -> (r: u64)
        ensures
            r == self.rsdt_address,
    {
        self.rsdt_address as u64
    }
}

/// The extended root pointer of ACPI 2.0 and later.
pub struct XSDP {
    pub signature: [u8; 8],
    pub checksum: u8,
    pub oem_id: [u8; 6],
    pub revision: u8,
    pub rsdt_address: u32,
    pub length: u32,
    pub xsdt_address: u64,
    pub extended_checksum: u8,
    pub reserved: [u8; 3],
    pub raw: Vec<u8>,
}

impl View for XSDP {
    type V = Seq<u8>;

    open spec fn view(&self) -> Seq<u8> {
        self.raw@
    }
}

impl XSDP {
    /// Decodes the extended pointer structure at the start of `bytes`;
    /// `None` where fewer than 36 bytes are given.
    pub fn parse(bytes: Vec<u8>) -> (r: Option<XSDP>)
        ensures
            r is Some <==> bytes@.len() >= 36,
            r matches Some(p) ==> {
                &&& p@ == bytes@
                &&& p.signature@ == bytes@.subrange(0, 8)
                &&& p.checksum == bytes@[8]
                &&& p.oem_id@ == bytes@.subrange(9, 15)
                &&& p.revision == bytes@[15]
                &&& p.rsdt_address == le32(bytes@, 16)
                &&& p.length == le32(bytes@, 20)
                &&& p.xsdt_address == le64(bytes@, 24)
                &&& p.extended_checksum == bytes@[32]
                &&& p.reserved@ == bytes@.subrange(33, 36)
            },
    {
        if bytes.len() < XSDP_SIZE {
            return None;
        }
        let signature = [
            bytes[0], bytes[1], bytes[2], bytes[3], bytes[4], bytes[5], bytes[6], bytes[7],
        ];
        let oem_id = [bytes[9], bytes[10], bytes[11], bytes[12], bytes[13], bytes[14]];
        let reserved = [bytes[33], bytes[34], bytes[35]];
        assert(signature@ =~= bytes@.subrange(0, 8));
        assert(oem_id@ =~= bytes@.subrange(9, 15));
        assert(reserved@ =~= bytes@.subrange(33, 36));
        let checksum = bytes[8];
        let revision = bytes[15];
        let rsdt_address = read_u32_le(bytes.as_slice(), 16);
        let length = read_u32_le(bytes.as_slice(), 20);
        let xsdt_address = read_u64_le(bytes.as_slice(), 24);
        let extended_checksum = bytes[32];
        Some(
            XSDP {
                signature,
                checksum,
                oem_id,
                revision,
                rsdt_address,
                length,
                xsdt_address,
                extended_checksum,
                reserved,
                raw: bytes,
            },
        )
    }
}

impl DescriptionPointerTable for XSDP {
    fn get_signature(&self) -> (r: [u8; 8])
        ensures
            r == self.signature,
    {
        self.signature
    }

    /// Whether the `length` bytes of the structure sum to zero modulo 256;
    /// fewer bytes than `length` fail.
    fn validate(&self) -> (r: bool)
        ensures
            r == checksum_ok(self@, self.length as int),
    {
        let len = self.length as usize;
        if len > self.raw.len() {
            return false;
        }
        checksum_of(self.raw.as_slice(), len) == 0
    }

    fn get_oem_id(&self) -> (r: [u8; 6])
        ensures
            r == self.oem_id,
    {
        self.oem_id
    }

    fn get_revision(&self) -> (r: AcpiRevision)
        ensures
            r == revision_of_byte(self.revision),
    {
        AcpiRevision::from_u8(self.revision)
    }

    fn get_sdt_address(&self) -> (r: u64)
        ensures
            r == self.xsdt_address,
    {
        self.xsdt_address
    }
}


/// Physical address where the BIOS area searched for the root pointer begins.
pub const BIOS_START: u64 = 0x000E0000;

/// Last physical address of that BIOS area.
pub const BIOS_END: u64 = 0x000FFFFF;

/// `bytes` holds the root pointer's signature at `off`.
pub open spec fn signature_at(bytes: Seq<u8>, off: int) -> bool {
    0 <= off && off + 8 <= bytes.len() && bytes.subrange(off, off + 8) == rsd_ptr_signature()
}

/// Whether the eight bytes of `bytes` at `off` are "RSD PTR ".
fn signature_matches(bytes: &[u8], off: usize) -> (r: bool)
    requires
        off + 8 <= bytes@.len(),
    ensures
        r == signature_at(bytes@, off as int),
{
    let ok = bytes[off] == 0x52 && bytes[off + 1] == 0x53 && bytes[off + 2] == 0x44
        && bytes[off + 3] == 0x20 && bytes[off + 4] == 0x50 && bytes[off + 5] == 0x54
        && bytes[off + 6] == 0x52 && bytes[off + 7] == 0x20;
    if ok {
        assert(bytes@.subrange(off as int, off + 8) =~= rsd_ptr_signature());
    } else {
        proof {
            if signature_at(bytes@, off as int) {
                let sub = bytes@.subrange(off as int, off + 8);
                assert(sub[0] == 0x52 && sub[1] == 0x53 && sub[2] == 0x44 && sub[3] == 0x20);
                assert(sub[4] == 0x50 && sub[5] == 0x54 && sub[6] == 0x52 && sub[7] == 0x20);
            }
        }
    }
    ok
}

/// Searches the BIOS area for the root pointer, on 16-byte boundaries.
/// `bios` holds the area's bytes, read at `bios_start`; the address of the
/// first boundary where "RSD PTR " stands comes back, `None` where no
/// boundary holds it.
pub fn rsdp_fallback_search_in_bios(bios: &[u8], bios_start: u64) -> (r: Option<u64>)
    requires
        bios_start + bios@.len() <= u64::MAX,
    ensures
        match r {
            Some(a) => {
                let off = a - bios_start;
                &&& bios_start <= a
                &&& off % 16 == 0
                &&& signature_at(bios@, off)
                &&& forall|k: int| 0 <= k < off && k % 16 == 0 ==> !signature_at(bios@, k)
            },
            None => forall|k: int| 0 <= k && k % 16 == 0 ==> !signature_at(bios@, k),
        },
{
    let len = bios.len();
    if len < 8 {
        return None;
    }
    let mut off: usize = 0;
    loop
        invariant
            len == bios@.len(),
            8 <= len,
            off + 8 <= len,
            off % 16 == 0,
            bios_start + bios@.len() <= u64::MAX,
            forall|k: int| 0 <= k < off && k % 16 == 0 ==> !signature_at(bios@, k),
        decreases len - off,
    {
        if signature_matches(bios, off) {
            return Some(bios_start + off as u64);
        }
        if len - off < 24 {
            assert forall|k: int| 0 <= k && k % 16 == 0 implies !signature_at(bios@, k) by {
                if k > off {
                    assert(k >= off + 16);
                }
            }
            return None;
        }
        off = off + 16;
    }
}

} // verus!
