//! Finding the fixed ACPI description table among the tables that a root
//! table lists.
use vstd::prelude::*;
use crate::acpi::acpi_tables::{
    ACPISignature, fadt_sig, find_table_address, is_first_with, search_no_overflow,
};
use crate::acpi::tables::rsdt::{RSDT, XSDT};

verus! {

/// The address, in the mapping at `mem_offset`, of the first table listed
/// by `rsdt` whose signature is "FACP"; `table_signatures` holds the
/// signature of each listed table.
#[allow(non_snake_case)]
pub fn find_FADT_address_from_rsdt(
    rsdt: &RSDT,
    mem_offset: u64,
    table_signatures: &[ACPISignature],
) -> (r: Option<u64>)
    requires
        table_signatures@.len() == (rsdt@.len() - 36) / 4,
        forall|i: int|
            0 <= i < table_signatures@.len() && (forall|j: int|
                0 <= j < i ==> table_signatures@[j].0@ != fadt_sig()) ==> #[trigger] crate::bytes::le32(
                rsdt@,
                36 + 4 * i,
            ) + mem_offset <= u64::MAX,
    ensures
        match r {
            Some(a) => exists|k: int|
                #[trigger] is_first_with(table_signatures@, fadt_sig(), k) && a
                    == crate::bytes::le32(rsdt@, 36 + 4 * k) + mem_offset,
            None => forall|j: int|
                0 <= j < table_signatures@.len() ==> table_signatures@[j].0@ != fadt_sig(),
        },
{
    let pointers = rsdt.get_pointers_to_other_sdts();
    let wanted = ACPISignature::fadt();
    assert(search_no_overflow(pointers@, table_signatures@, wanted.0@, mem_offset)) by {
        assert forall|i: int|
            0 <= i < pointers@.len() && (forall|j: int|
                0 <= j < i ==> table_signatures@[j].0@ != wanted.0@) implies #[trigger] pointers@[i]
            + mem_offset <= u64::MAX by {
            assert(pointers@[i] == crate::bytes::le32(rsdt@, 36 + 4 * i));
        }
    }
    find_table_address(pointers.as_slice(), table_signatures, wanted, mem_offset)
}

/// The address, in the mapping at `mem_offset`, of the first table listed
/// by `xsdt` whose signature is "FACP"; `table_signatures` holds the
/// signature of each listed table.
#[allow(non_snake_case)]
pub fn find_FADT_address_from_xsdt(
    xsdt: &XSDT,
    mem_offset: u64,
    table_signatures: &[ACPISignature],
) -> (r: Option<u64>)
    requires
        table_signatures@.len() == (xsdt@.len() - 36) / 8,
        forall|i: int|
            0 <= i < table_signatures@.len() && (forall|j: int|
                0 <= j < i ==> table_signatures@[j].0@ != fadt_sig()) ==> #[trigger] crate::bytes::le64(
                xsdt@,
                36 + 8 * i,
            ) + mem_offset <= u64::MAX,
    ensures
        match r {
            Some(a) => exists|k: int|
                #[trigger] is_first_with(table_signatures@, fadt_sig(), k) && a
                    == crate::bytes::le64(xsdt@, 36 + 8 * k) + mem_offset,
            None => forall|j: int|
                0 <= j < table_signatures@.len() ==> table_signatures@[j].0@ != fadt_sig(),
        },
{
    let pointers = xsdt.get_pointers_to_other_sdts();
    let wanted = ACPISignature::fadt();
    assert(search_no_overflow(pointers@, table_signatures@, wanted.0@, mem_offset)) by {
        assert forall|i: int|
            0 <= i < pointers@.len() && (forall|j: int|
                0 <= j < i ==> table_signatures@[j].0@ != wanted.0@) implies #[trigger] pointers@[i]
            + mem_offset <= u64::MAX by {
            assert(pointers@[i] == crate::bytes::le64(xsdt@, 36 + 8 * i));
        }
    }
    find_table_address(pointers.as_slice(), table_signatures, wanted, mem_offset)
}

} // verus!
