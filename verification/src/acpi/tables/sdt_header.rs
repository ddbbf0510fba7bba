//! The header shared by every system description table, and the byte
//! checksum that firmware tables carry.
use vstd::prelude::*;
use crate::acpi::acpi_tables::ACPISignature;
use crate::acpi::tables::{AcpiRevision, revision_of_byte};
use crate::bytes::{le32, read_u32_le};

verus! {

/// Size of a system description table header in bytes.
pub const SDT_HEADER_SIZE: usize = 36;

/// The sum of all bytes of `s`, as a mathematical integer.
pub open spec fn byte_sum(s: Seq<u8>) -> int
    decreases s.len(),
{
    if s.len() == 0 {
        0
    } else {
        byte_sum(s.drop_last()) + s.last() as int
    }
}

/// The first `n` bytes of `s` sum to zero modulo 256, as every ACPI
/// checksum demands.
pub open spec fn checksum_ok(s: Seq<u8>, n: int) -> bool {
    0 <= n <= s.len() && byte_sum(s.take(n)) % 256 == 0
}

/// The low byte of the sum of the first `n` bytes of `data`.
pub fn checksum_of(data: &[u8], n: usize) -> (r: u8)
    requires
        n <= data@.len(),
    ensures
        r as int == byte_sum(data@.take(n as int)) % 256,
{
    let mut sum: u8 = 0;
    let mut i: usize = 0;
    while i < n
        invariant
            i <= n,
            n <= data@.len(),
            sum as int == byte_sum(data@.take(i as int)) % 256,
        decreases n - i,
    {
        assert(data@.take(i as int + 1).drop_last() =~= data@.take(i as int));
        sum = sum.wrapping_add(data[i]);
        i = i + 1;
    }
    sum
}

/// The 36-byte header at the start of every system description table.
#[derive(Clone, Copy, Debug)]
pub struct ACPISDTHeader {
    pub signature: ACPISignature,
    pub length: u32,
    pub revision: u8,
    pub checksum: u8,
    pub oem_id: [u8; 6],
    pub oem_table_id: [u8; 8],
    pub oem_revision: u32,
    pub creator_id: u32,
    pub creator_revision: u32,
}

/// `h` holds the header fields stored in `s` at `off`.
pub open spec fn header_at(h: ACPISDTHeader, s: Seq<u8>, off: int) -> bool {
    &&& 0 <= off && off + 36 <= s.len()
    &&& h.signature.0@ == s.subrange(off, off + 4)
    &&& h.length == le32(s, off + 4)
    &&& h.revision == s[off + 8]
    &&& h.checksum == s[off + 9]
    &&& h.oem_id@ == s.subrange(off + 10, off + 16)
    &&& h.oem_table_id@ == s.subrange(off + 16, off + 24)
    &&& h.oem_revision == le32(s, off + 24)
    &&& h.creator_id == le32(s, off + 28)
    &&& h.creator_revision == le32(s, off + 32)
}

/// `h` holds the header fields stored at the start of `s`.
pub open spec fn header_of(h: ACPISDTHeader, s: Seq<u8>) -> bool {
    header_at(h, s, 0)
}

/// `s` is a whole table: its header, and as many bytes as the header's
/// length field says.
pub open spec fn whole_table(h: ACPISDTHeader, s: Seq<u8>) -> bool {
    header_of(h, s) && h.length == s.len()
}

impl ACPISDTHeader {
    /// Decodes the header stored in `data` at `off`.
    pub fn read_from(data: &[u8], off: usize) -> (r: ACPISDTHeader)
        requires
            off + 36 <= data@.len(),
        ensures
            header_at(r, data@, off as int),
    {
        let signature = ACPISignature([data[off], data[off + 1], data[off + 2], data[off + 3]]);
        let oem_id = [
            data[off + 10],
            data[off + 11],
            data[off + 12],
            data[off + 13],
            data[off + 14],
            data[off + 15],
        ];
        let oem_table_id = [
            data[off + 16],
            data[off + 17],
            data[off + 18],
            data[off + 19],
            data[off + 20],
            data[off + 21],
            data[off + 22],
            data[off + 23],
        ];
        assert(signature.0@ =~= data@.subrange(off as int, off + 4));
        assert(oem_id@ =~= data@.subrange(off + 10, off + 16));
        assert(oem_table_id@ =~= data@.subrange(off + 16, off + 24));
        ACPISDTHeader {
            signature,
            length: read_u32_le(data, off + 4),
            revision: data[off + 8],
            checksum: data[off + 9],
            oem_id,
            oem_table_id,
            oem_revision: read_u32_le(data, off + 24),
            creator_id: read_u32_le(data, off + 28),
            creator_revision: read_u32_le(data, off + 32),
        }
    }

    /// Decodes the header at the start of `data`; `None` where fewer than
    /// 36 bytes are given.
    pub fn parse(data: &[u8]) -> (r: Option<ACPISDTHeader>)
        ensures
            r is Some <==> data@.len() >= 36,
            r matches Some(h) ==> header_of(h, data@),
    {
        if data.len() < SDT_HEADER_SIZE {
            return None;
        }
        Some(ACPISDTHeader::read_from(data, 0))
    }

    /// Whether the `length` bytes of the table that starts with this
    /// header sum to zero modulo 256; `table` holds the table's bytes, and
    /// a table shorter than the header's length fails.
    pub fn validate_checksum(&self, table: &[u8]) -> (r: bool)
        ensures
            r == checksum_ok(table@, self.length as int),
    {
        let len = self.length as usize;
        if len > table.len() {
            return false;
        }
        checksum_of(table, len) == 0
    }

    pub fn get_revision(&self) -> (r: AcpiRevision)
        ensures
            r == revision_of_byte(self.revision),
    {
        AcpiRevision::from_u8(self.revision)
    }
}

} // verus!
