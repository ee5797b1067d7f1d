//! The platform configuration table directory: an ordered sequence of
//! (identifier, address) pairs, searched by first match.
//!
//! Addresses published by the platform are opaque; they are modelled as
//! plain integer offsets into a caller-supplied memory region, and the
//! helpers below decode the named table shapes at those offsets.

use vstd::prelude::*;

use crate::ffi::Guid;
use crate::tables::acpi::{
    acpi_20_table_guid,
    acpi_table_guid,
    parse_rsdp10_at,
    parse_rsdp20_at,
    rsdp10_bytes,
    rsdp20_bytes,
    RsdpDescriptor10,
    RsdpDescriptor20,
};
use crate::tables::smbios::{smbios3_table_guid, smbios_table_guid};

verus! {

/// One entry of the configuration table directory.
#[derive(Debug, Copy, Clone)]
pub struct ConfigurationTable {
    pub vendor_guid: Guid,
    /// The address the platform published for this table, as a plain
    /// offset into the caller's memory region.
    pub vendor_table: usize,
}

impl ConfigurationTable {
    /// Check if this table matches a given GUID
    pub fn matches_guid(&self, guid: &Guid) -> (r: bool)
        ensures
            r == (self.vendor_guid == *guid),
    {
        self.vendor_guid == *guid
    }
}

/// Entry `i` is the first entry of the directory whose identifier is
/// `guid`.
pub open spec fn spec_first_match(tables: Seq<ConfigurationTable>, guid: Guid, i: int) -> bool {
    &&& 0 <= i < tables.len()
    &&& tables[i].vendor_guid == guid
    &&& forall|j: int| 0 <= j < i ==> tables[j].vendor_guid != guid
}

/// At most one entry is the first match.
pub proof fn lemma_first_match_unique(
    tables: Seq<ConfigurationTable>,
    guid: Guid,
    a: int,
    b: int,
)
    requires
        spec_first_match(tables, guid, a),
        spec_first_match(tables, guid, b),
    ensures
        a == b,
{
    if a < b {
        assert(tables[a].vendor_guid != guid);
    } else if b < a {
        assert(tables[b].vendor_guid != guid);
    }
}

/// First-match linear scan over the configuration table directory.
pub struct ConfigurationTableIter<'a> {
    tables: &'a [ConfigurationTable],
    index: usize,
}

impl<'a> ConfigurationTableIter<'a> {
    /// The directory this scan walks.
    pub closed spec fn spec_tables(&self) -> Seq<ConfigurationTable> {
        self.tables@
    }

    /// The cursor position of this scan.
    pub closed spec fn spec_index(&self) -> int {
        self.index as int
    }

    /// Create a new configuration table iterator over the directory the
    /// platform published.
    pub fn new(tables: &'a [ConfigurationTable]) -> (it: ConfigurationTableIter<'a>)
        ensures
            it.spec_tables() == tables@,
            it.spec_index() == 0,
    {
        ConfigurationTableIter { tables, index: 0 }
    }

    /// Find a table by GUID: the first entry of the directory whose
    /// identifier matches, or an absent result.  The directory is not
    /// assumed deduplicated or sorted.
    pub fn find_by_guid(&self, guid: &Guid) -> (r: Option<&'a ConfigurationTable>)
        ensures
            match r {
                Some(t) => exists|i: int|
                    #[trigger] spec_first_match(self.spec_tables(), *guid, i)
                        && self.spec_tables()[i] == *t,
                None => forall|i: int|
                    0 <= i < self.spec_tables().len() ==> (#[trigger] self.spec_tables()[i])
                        .vendor_guid != *guid,
            },
    {
        let n: usize = self.tables.len();
        let mut i: usize = 0;
        while i < n
            invariant
                i <= n,
                n == self.tables@.len(),
                forall|j: int| 0 <= j < i ==> (#[trigger] self.tables@[j]).vendor_guid != *guid,
            decreases n - i,
        {
            if self.tables[i].matches_guid(guid) {
                proof {
                    let wi = i as int;
                    assert(#[trigger] spec_first_match(self.spec_tables(), *guid, wi)
                        && self.spec_tables()[wi] == self.tables@[wi]);
                }
                return Some(&self.tables[i]);
            }
            i = i + 1;
        }
        None
    }

    /// Yield the entry at the cursor and advance, or report the end of
    /// the directory.
    pub fn next(&mut self) -> (r: Option<&'a ConfigurationTable>)
        ensures
            final(self).spec_tables() == old(self).spec_tables(),
            match r {
                Some(t) => {
                    &&& 0 <= old(self).spec_index() < old(self).spec_tables().len()
                    &&& *t == old(self).spec_tables()[old(self).spec_index()]
                    &&& final(self).spec_index() == old(self).spec_index() + 1
                },
                None => {
                    &&& old(self).spec_index() >= old(self).spec_tables().len()
                    &&& final(self).spec_index() == old(self).spec_index()
                },
            },
    {
        if self.index < self.tables.len() {
            let t = &self.tables[self.index];
            self.index = self.index + 1;
            Some(t)
        } else {
            None
        }
    }
}

/// Find the extended ACPI root pointer through the directory and decode
/// the shape at its published offset; absent exactly when no directory
/// entry bears the identifier or the first such entry's 36 bytes reach
/// past the region.  No validation is performed here; callers run the
/// root-pointer validation separately.
pub fn find_acpi_20_table(tables: &[ConfigurationTable], memory: &[u8]) -> (r: Option<
    RsdpDescriptor20,
>)
    ensures
        match r {
            Some(d) => exists|i: int|
                #[trigger] spec_first_match(tables@, acpi_20_guid_spec(), i) && tables@[
                    i
                ].vendor_table + 36 <= memory@.len() && rsdp20_bytes(d) == memory@.subrange(
                    tables@[i].vendor_table as int,
                    tables@[i].vendor_table + 36,
                ),
            None => forall|i: int|
                #[trigger] spec_first_match(tables@, acpi_20_guid_spec(), i) ==> tables@[
                    i
                ].vendor_table + 36 > memory@.len(),
        },
{
    let guid = acpi_20_table_guid();
    let it = ConfigurationTableIter::new(tables);
    match it.find_by_guid(&guid) {
        Some(t) => {
            let r = parse_rsdp20_at(memory, t.vendor_table);
            proof {
                let wi = choose|i: int|
                    #[trigger] spec_first_match(tables@, acpi_20_guid_spec(), i) && tables@[i]
                        == *t;
                if r is None {
                    assert forall|i: int|
                        #[trigger] spec_first_match(tables@, acpi_20_guid_spec(), i) implies
                        tables@[i].vendor_table + 36 > memory@.len() by {
                        lemma_first_match_unique(tables@, acpi_20_guid_spec(), i, wi);
                    }
                }
            }
            r
        },
        None => None,
    }
}

/// The identifier of the extended ACPI root pointer.
pub open spec fn acpi_20_guid_spec() -> Guid {
    Guid {
        data1: 0x8868e871,
        data2: 0xe4f1,
        data3: 0x11d3,
        data4: [0xbc, 0x22, 0x00, 0x80, 0xc7, 0x3c, 0x88, 0x81],
    }
}

/// The identifier of the legacy ACPI root pointer.
pub open spec fn acpi_10_guid_spec() -> Guid {
    Guid {
        data1: 0xeb9d2d30,
        data2: 0x2d88,
        data3: 0x11d3,
        data4: [0x9a, 0x16, 0x00, 0x90, 0x27, 0x3f, 0xc1, 0x4d],
    }
}

/// Find the legacy ACPI root pointer through the directory and decode the
/// shape at its published offset; absent exactly when no directory entry
/// bears the identifier or the first such entry's 20 bytes reach past the
/// region.  No validation is performed here.
pub fn find_acpi_10_table(tables: &[ConfigurationTable], memory: &[u8]) -> (r: Option<
    RsdpDescriptor10,
>)
    ensures
        match r {
            Some(d) => exists|i: int|
                #[trigger] spec_first_match(tables@, acpi_10_guid_spec(), i) && tables@[
                    i
                ].vendor_table + 20 <= memory@.len() && rsdp10_bytes(d) == memory@.subrange(
                    tables@[i].vendor_table as int,
                    tables@[i].vendor_table + 20,
                ),
            None => forall|i: int|
                #[trigger] spec_first_match(tables@, acpi_10_guid_spec(), i) ==> tables@[
                    i
                ].vendor_table + 20 > memory@.len(),
        },
{
    let guid = acpi_table_guid();
    let it = ConfigurationTableIter::new(tables);
    match it.find_by_guid(&guid) {
        Some(t) => {
            let r = parse_rsdp10_at(memory, t.vendor_table);
            proof {
                let wi = choose|i: int|
                    #[trigger] spec_first_match(tables@, acpi_10_guid_spec(), i) && tables@[i]
                        == *t;
                if r is None {
                    assert forall|i: int|
                        #[trigger] spec_first_match(tables@, acpi_10_guid_spec(), i) implies
                        tables@[i].vendor_table + 20 > memory@.len() by {
                        lemma_first_match_unique(tables@, acpi_10_guid_spec(), i, wi);
                    }
                }
            }
            r
        },
        None => None,
    }
}

/// Find the 64-bit SMBIOS entry point through the directory: the offset it
/// was published at, for the caller to validate.
pub fn find_smbios3_table(tables: &[ConfigurationTable]) -> (r: Option<usize>)
    ensures
        match r {
            Some(off) => exists|i: int|
                #[trigger] spec_first_match(tables@, smbios3_guid_spec(), i) && tables@[
                    i
                ].vendor_table == off,
            None => forall|i: int|
                0 <= i < tables@.len() ==> (#[trigger] tables@[i]).vendor_guid
                    != smbios3_guid_spec(),
        },
{
    let guid = smbios3_table_guid();
    let it = ConfigurationTableIter::new(tables);
    match it.find_by_guid(&guid) {
        Some(t) => {
            proof {
                let wi = choose|i: int|
                    #[trigger] spec_first_match(it.spec_tables(), guid, i) && it.spec_tables()[i]
                        == *t;
                assert(spec_first_match(tables@, smbios3_guid_spec(), wi) && tables@[
                    wi
                ].vendor_table == t.vendor_table);
            }
            Some(t.vendor_table)
        },
        None => None,
    }
}

/// Find the legacy SMBIOS entry point through the directory: the offset it
/// was published at, for the caller to validate.
pub fn find_smbios_table(tables: &[ConfigurationTable]) -> (r: Option<usize>)
    ensures
        match r {
            Some(off) => exists|i: int|
                #[trigger] spec_first_match(tables@, smbios_guid_spec(), i) && tables@[
                    i
                ].vendor_table == off,
            None => forall|i: int|
                0 <= i < tables@.len() ==> (#[trigger] tables@[i]).vendor_guid
                    != smbios_guid_spec(),
        },
{
    let guid = smbios_table_guid();
    let it = ConfigurationTableIter::new(tables);
    match it.find_by_guid(&guid) {
        Some(t) => {
            proof {
                let wi = choose|i: int|
                    #[trigger] spec_first_match(it.spec_tables(), guid, i) && it.spec_tables()[i]
                        == *t;
                assert(spec_first_match(tables@, smbios_guid_spec(), wi) && tables@[
                    wi
                ].vendor_table == t.vendor_table);
            }
            Some(t.vendor_table)
        },
        None => None,
    }
}

/// The identifier of the legacy SMBIOS entry point.
pub open spec fn smbios_guid_spec() -> Guid {
    Guid {
        data1: 0xeb9d2d31,
        data2: 0x2d88,
        data3: 0x11d3,
        data4: [0x9a, 0x16, 0x00, 0x90, 0x27, 0x3f, 0xc1, 0x4d],
    }
}

/// The identifier of the 64-bit SMBIOS entry point.
pub open spec fn smbios3_guid_spec() -> Guid {
    Guid {
        data1: 0xf2fd1544,
        data2: 0x9794,
        data3: 0x4a2c,
        data4: [0x99, 0x2e, 0xe5, 0xbb, 0xcf, 0x20, 0xe3, 0x94],
    }
}

} // verus!
