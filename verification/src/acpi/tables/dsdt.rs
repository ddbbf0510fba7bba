//! The differentiated system description table, searched for the `\_S5_`
//! package that gives the sleep type values of the soft-off state.
use vstd::prelude::*;
use crate::acpi::acpi_tables::{ACPISignature, AcpiSdtTable, dsdt_sig};
use crate::acpi::tables::sdt_header::{
    ACPISDTHeader, SDT_HEADER_SIZE, checksum_ok, header_of, whole_table,
};
use crate::acpi::tables::rsdt::table_fits;

verus! {

/// The table's AML content: the bytes after the header.
pub open spec fn dsdt_content(s: Seq<u8>) -> Seq<u8> {
    s.subrange(36, s.len() as int)
}

/// The name `_S5_` starts at `i`.
pub open spec fn s5_name_at(c: Seq<u8>, i: int) -> bool {
    &&& 0 <= i
    &&& i + 4 <= c.len()
    &&& c[i] == 0x5F
    &&& c[i + 1] == 0x53
    &&& c[i + 2] == 0x35
    &&& c[i + 3] == 0x5F
}

/// The name at `i` is declared by a NameOp, directly or through a root
/// prefix `\`.
pub open spec fn s5_prefix_ok(c: Seq<u8>, i: int) -> bool {
    c[i - 1] == 0x08 || (c[i - 2] == 0x08 && c[i - 1] == 0x5C)
}

/// The `_S5_` object starts at `i`: the name, declared by a NameOp, and a
/// PackageOp after it.
pub open spec fn s5_match(c: Seq<u8>, i: int) -> bool {
    s5_name_at(c, i) && s5_prefix_ok(c, i) && c[i + 4] == 0x12
}

/// Testing the name found at `i` reads only bytes of the content.
pub open spec fn s5_check_safe(c: Seq<u8>, i: int) -> bool {
    &&& i >= 1
    &&& c[i - 1] != 0x08 ==> i >= 2
    &&& s5_prefix_ok(c, i) ==> i + 4 < c.len()
}

/// The search for the object reads only bytes of the content: there are
/// at least four of them, and every occurrence of the name that the search
/// reaches can be tested.
pub open spec fn s5_search_safe(c: Seq<u8>) -> bool {
    &&& c.len() >= 4
    &&& forall|i: int|
        0 <= i <= c.len() - 4 && #[trigger] s5_name_at(c, i) && (forall|j: int|
            0 <= j < i ==> !s5_match(c, j)) ==> s5_check_safe(c, i)
}

/// `k` is the first offset at which the object starts.
pub open spec fn is_first_s5(c: Seq<u8>, k: int) -> bool {
    &&& 0 <= k <= c.len() - 4
    &&& s5_match(c, k)
    &&& forall|j: int| 0 <= j < k ==> !s5_match(c, j)
}

/// Offset of the first package element: past the name, the PackageOp and
/// the package length, whose top two bits give its extra bytes, and the
/// element count.
pub open spec fn s5_elements_start(c: Seq<u8>, k: int) -> int {
    k + 5 + c[k + 5] / 64 + 2
}

/// Offset of the first sleep type byte, past a BytePrefix if there is one.
pub open spec fn s5_a_offset(c: Seq<u8>, k: int) -> int {
    let p = s5_elements_start(c, k);
    if c[p] == 0x0A {
        p + 1
    } else {
        p
    }
}

/// Offset of the second sleep type byte, past a BytePrefix if there is one.
pub open spec fn s5_b_offset(c: Seq<u8>, k: int) -> int {
    let q = s5_a_offset(c, k) + 1;
    if c[q] == 0x0A {
        q + 1
    } else {
        q
    }
}

/// Every byte that decoding the object at `k` reads lies in the content.
pub open spec fn s5_fits(c: Seq<u8>, k: int) -> bool {
    &&& k + 5 < c.len()
    &&& s5_elements_start(c, k) < c.len()
    &&& s5_a_offset(c, k) + 1 < c.len()
    &&& s5_b_offset(c, k) < c.len()
}

/// The differentiated system description table.
pub struct DSDT {
    header: ACPISDTHeader,
    table: Vec<u8>,
}

impl View for DSDT {
    type V = Seq<u8>;

    closed spec fn view(&self) -> Seq<u8> {
        self.table@
    }
}

/// The sleep type values of the soft-off state, already shifted into the
/// SLP_TYP field of the PM1 control register.
#[allow(non_snake_case)]
pub struct S5Obj {
    pub SLP_TYPa: u32,
    pub SLP_TYPb: u32,
}

impl DSDT {
    #[verifier::type_invariant]
    closed spec fn inv(&self) -> bool {
        whole_table(self.header, self.table@)
    }

    /// Takes the bytes of the table; `None` unless they are a whole table.
    pub fn new_from_bytes(bytes: Vec<u8>) -> (r: Option<DSDT>)
        ensures
            r is Some <==> table_fits(bytes@),
            r matches Some(t) ==> t@ == bytes@,
    {
        match ACPISDTHeader::parse(bytes.as_slice()) {
            None => None,
            Some(header) => {
                if header.length as usize != bytes.len() {
                    None
                } else {
                    Some(DSDT { header, table: bytes })
                }
            },
        }
    }

    /// Number of content bytes after the header.
    pub fn get_content_length(&self) -> (r: usize)
        ensures
            r == self@.len() - 36,
    {
        proof {
            use_type_invariant(self);
        }
        self.header.length as usize - SDT_HEADER_SIZE
    }

    /// Offset, in the content, of the first `_S5_` object: the name,
    /// declared by a NameOp, followed by a PackageOp.
    pub fn get_s5_object_offset(&self) -> (r: Option<usize>)
        requires
            s5_search_safe(dsdt_content(self@)),
        ensures
            match r {
                Some(k) => is_first_s5(dsdt_content(self@), k as int),
                None => forall|j: int|
                    0 <= j <= dsdt_content(self@).len() - 4 ==> !s5_match(
                        dsdt_content(self@),
                        j,
                    ),
            },
    {
        proof {
            use_type_invariant(self);
        }
        let ghost c = dsdt_content(self.table@);
        let t = self.table.as_slice();
        let n = self.get_content_length();
        let last = n - 4;
        let total = t.len();
        assert(forall|j: int| 0 <= j < c.len() ==> c[j] == t@[36 + j]);
        let mut i: usize = 0;
        while i <= last
            invariant
                c == dsdt_content(t@),
                c == dsdt_content(self@),
                c.len() == n,
                t@.len() == n + 36,
                total == t@.len(),
                forall|j: int| 0 <= j < c.len() ==> c[j] == t@[36 + j],
                n >= 4,
                last == n - 4,
                i <= last + 1,
                s5_search_safe(c),
                forall|j: int| 0 <= j < i ==> !s5_match(c, j),
            decreases last + 1 - i,
        {
            let at = SDT_HEADER_SIZE + i;
            if t[at] == 0x5F && t[at + 1] == 0x53 && t[at + 2] == 0x35 && t[at + 3] == 0x5F {
                assert(s5_name_at(c, i as int));
                assert(s5_check_safe(c, i as int));
                if (t[at - 1] == 0x08 || (t[at - 2] == 0x08 && t[at - 1] == 0x5C)) && t[at + 4]
                    == 0x12 {
                    assert(c[i - 1] == t@[at - 1]);
                    assert(i >= 2 ==> c[i - 2] == t@[at - 2]);
                    assert(c[i + 4] == t@[at + 4]);
                    return Some(i);
                }
            }
            i = i + 1;
        }
        None
    }
}

/// Decoding the object at `k` as the sleep type values.
pub open spec fn s5_values(c: Seq<u8>, k: int) -> (u32, u32) {
    ((c[s5_a_offset(c, k)] * 1024) as u32, (c[s5_b_offset(c, k)] * 1024) as u32)
}

#[allow(non_snake_case)]
impl S5Obj {
    /// Decodes the `_S5_` package of `dsdt`: its first two elements, each a
    /// byte, with or without a BytePrefix, shifted into place; `None`
    /// where the table holds no such object.
    pub fn new_from_dsdt(dsdt: &DSDT) -> (r: Option<S5Obj>)
        requires
            s5_search_safe(dsdt_content(dsdt@)),
            forall|k: int| #[trigger]
                is_first_s5(dsdt_content(dsdt@), k) ==> s5_fits(dsdt_content(dsdt@), k),
        ensures
            r is Some <==> exists|k: int| #[trigger] is_first_s5(dsdt_content(dsdt@), k),
            forall|k: int| #[trigger]
                is_first_s5(dsdt_content(dsdt@), k) ==> (r matches Some(o) && (
                o.SLP_TYPa,
                o.SLP_TYPb,
            ) == s5_values(dsdt_content(dsdt@), k)),
    {
        proof {
            use_type_invariant(dsdt);
        }
        let ghost c = dsdt_content(dsdt.table@);
        let t = dsdt.table.as_slice();
        let found = dsdt.get_s5_object_offset();
        let mut offset = match found {
            Some(x) => x,
            None => {
                assert forall|k: int| !#[trigger] is_first_s5(c, k) by {}
                return None;
            },
        };
        let ghost k = offset as int;
        assert(is_first_s5(c, k));
        assert forall|k2: int| #[trigger] is_first_s5(c, k2) implies k2 == k by {
            if k2 < k {
                assert(!s5_match(c, k2));
            } else if k2 > k {
                assert(!s5_match(c, k));
            }
        }
        assert(s5_fits(c, k));
        offset = offset + 5;
        let pkg = t[SDT_HEADER_SIZE + offset];
        let extra = ((pkg & 0xC0) >> 6) as usize;
        assert((pkg & 0xC0) >> 6 == pkg / 64) by (bit_vector);
        offset = offset + extra + 2;
        if t[SDT_HEADER_SIZE + offset] == 0x0A {
            offset = offset + 1;
        }
        let a = t[SDT_HEADER_SIZE + offset] as u32;
        let SLP_TYPa = a << 10;
        offset = offset + 1;
        if t[SDT_HEADER_SIZE + offset] == 0x0A {
            offset = offset + 1;
        }
        let b = t[SDT_HEADER_SIZE + offset] as u32;
        let SLP_TYPb = b << 10;
        assert(a < 256 ==> a << 10 == a * 1024) by (bit_vector);
        assert(b < 256 ==> b << 10 == b * 1024) by (bit_vector);
        Some(S5Obj { SLP_TYPa, SLP_TYPb })
    }
}

impl AcpiSdtTable for DSDT {
    fn get_signature(&self) -> (r: ACPISignature)
        ensures
            r.0@ == dsdt_sig(),
    {
        ACPISignature::dsdt()
    }

    fn validate(&self) -> (r: bool)
        ensures
            r == checksum_ok(self@, self@.len() as int),
    {
        proof {
            use_type_invariant(self);
        }
        self.header.validate_checksum(self.table.as_slice())
    }

    fn get_sdt_header(&self) -> (r: ACPISDTHeader)
        ensures
            header_of(r, self@),
            r.length == self@.len(),
    {
        proof {
            use_type_invariant(self);
        }
        self.header
    }
}

} // verus!
