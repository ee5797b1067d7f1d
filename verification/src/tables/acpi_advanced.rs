//! System description table utilities: the common SDT header, a set of
//! well-known table layouts, typed lookup of those tables inside a memory
//! region, and the PCI Express configuration-space address helper.

use vstd::prelude::*;
use vstd::string::StringSliceAdditionalSpecFns;

use crate::bytes::{read_u16_le, read_u32_le, read_u64_le, u16_le, u32_le, u64_le};
use crate::checksum::region_checksum_ok;
use crate::checksum::validate_region;
use crate::tables::acpi::{
    spec_find_table,
    AcpiTableFinder,
    RootPointer,
    BGRT_SIGNATURE,
    DMAR_SIGNATURE,
    HPET_SIGNATURE,
    MCFG_SIGNATURE,
};

verus! {

/// ACPI SDT (System Description Table) Header
#[derive(Debug, Copy, Clone)]
pub struct AcpiSdtHeader {
    pub signature: [u8; 4],
    pub length: u32,
    pub revision: u8,
    pub checksum: u8,
    pub oem_id: [u8; 6],
    pub oem_table_id: [u8; 8],
    pub oem_revision: u32,
    pub creator_id: u32,
    pub creator_revision: u32,
}

/// Relies on `core::str::from_utf8`: it returns `Ok` with a view of exactly
/// the input bytes when they are valid UTF-8, and `Err` otherwise.
pub assume_specification[ core::str::from_utf8 ](v: &[u8]) -> (res: Result<
    &str,
    core::str::Utf8Error,
>)
    ensures
        match res {
            Ok(s) => vstd::utf8::valid_utf8(v@) && s.spec_bytes() =~= v@,
            Err(_) => !vstd::utf8::valid_utf8(v@),
        },
;

#[verifier::external_type_specification]
#[verifier::external_body]
pub struct ExUtf8Error(core::str::Utf8Error);

impl AcpiSdtHeader {
    /// Validate the checksum of the whole table this header starts: the
    /// declared `length` bytes of `table` wrap to zero.  The caller hands
    /// in the full table region, header included.
    pub fn validate_checksum(&self, table: &[u8]) -> (r: bool)
        ensures
            r == region_checksum_ok(table@, self.length as int),
    {
        validate_region(table, self.length as usize)
    }

    /// Get signature as string
    pub fn signature_str(&self) -> (r: Result<&str, core::str::Utf8Error>)
        ensures
            match r {
                Ok(s) => vstd::utf8::valid_utf8(self.signature@) && s.spec_bytes()
                    =~= self.signature@,
                Err(_) => !vstd::utf8::valid_utf8(self.signature@),
            },
    {
        core::str::from_utf8(self.signature.as_slice())
    }

    /// Get OEM ID as string
    pub fn oem_id_str(&self) -> (r: Result<&str, core::str::Utf8Error>)
        ensures
            match r {
                Ok(s) => vstd::utf8::valid_utf8(self.oem_id@) && s.spec_bytes()
                    =~= self.oem_id@,
                Err(_) => !vstd::utf8::valid_utf8(self.oem_id@),
            },
    {
        core::str::from_utf8(self.oem_id.as_slice())
    }
}

/// Parse the 36-byte SDT header stored at `off`, or report that it does
/// not fit inside the region.
pub fn parse_sdt_header(memory: &[u8], off: usize) -> (r: Option<AcpiSdtHeader>)
    ensures
        match r {
            Some(h) => {
                &&& off + 36 <= memory@.len()
                &&& forall|k: int| 0 <= k < 4 ==> h.signature[k] == memory@[off + k]
                &&& h.length as int == u32_le(memory@, off + 4)
                &&& h.revision == memory@[off + 8]
                &&& h.checksum == memory@[off + 9]
                &&& forall|k: int| 0 <= k < 6 ==> h.oem_id[k] == memory@[off + 10 + k]
                &&& forall|k: int| 0 <= k < 8 ==> h.oem_table_id[k] == memory@[off + 16 + k]
                &&& h.oem_revision as int == u32_le(memory@, off + 24)
                &&& h.creator_id as int == u32_le(memory@, off + 28)
                &&& h.creator_revision as int == u32_le(memory@, off + 32)
            },
            None => off + 36 > memory@.len(),
        },
{
    let n: usize = memory.len();
    if off > n || n - off < 36 {
        return None;
    }
    Some(
        AcpiSdtHeader {
            signature: [memory[off], memory[off + 1], memory[off + 2], memory[off + 3]],
            length: read_u32_le(memory, off + 4),
            revision: memory[off + 8],
            checksum: memory[off + 9],
            oem_id: [
                memory[off + 10],
                memory[off + 11],
                memory[off + 12],
                memory[off + 13],
                memory[off + 14],
                memory[off + 15],
            ],
            oem_table_id: [
                memory[off + 16],
                memory[off + 17],
                memory[off + 18],
                memory[off + 19],
                memory[off + 20],
                memory[off + 21],
                memory[off + 22],
                memory[off + 23],
            ],
            oem_revision: read_u32_le(memory, off + 24),
            creator_id: read_u32_le(memory, off + 28),
            creator_revision: read_u32_le(memory, off + 32),
        },
    )
}

/// HPET (High Precision Event Timer) Table
#[derive(Debug, Copy, Clone)]
pub struct AcpiHpet {
    pub header: AcpiSdtHeader,
    pub hardware_rev_id: u8,
    pub comparator_count: u8,
    pub counter_size: u8,
    pub reserved: u8,
    pub legacy_replacement: u8,
    pub pci_vendor_id: u16,
    pub address_space_id: u8,
    pub register_bit_width: u8,
    pub register_bit_offset: u8,
    pub reserved2: u8,
    pub address: u64,
    pub hpet_number: u8,
    pub minimum_tick: u16,
    pub page_protection: u8,
}

/// MCFG (PCI Express Memory Mapped Configuration) Table
#[derive(Debug, Copy, Clone)]
pub struct AcpiMcfg {
    pub header: AcpiSdtHeader,
    pub reserved: u64,
}

/// MCFG Configuration Space Entry
#[derive(Debug, Copy, Clone)]
pub struct McfgConfigSpaceEntry {
    pub base_address: u64,
    pub pci_segment_group: u16,
    pub start_bus_number: u8,
    pub end_bus_number: u8,
    pub reserved: u32,
}

/// BGRT (Boot Graphics Resource Table)
#[derive(Debug, Copy, Clone)]
pub struct AcpiBgrt {
    pub header: AcpiSdtHeader,
    pub version: u16,
    pub status: u8,
    pub image_type: u8,
    pub image_address: u64,
    pub image_offset_x: u32,
    pub image_offset_y: u32,
}

/// BERT (Boot Error Record Table)
#[derive(Debug, Copy, Clone)]
pub struct AcpiBert {
    pub header: AcpiSdtHeader,
    pub boot_error_region_length: u32,
    pub boot_error_region: u64,
}

/// EINJ (Error Injection Table)
#[derive(Debug, Copy, Clone)]
pub struct AcpiEinj {
    pub header: AcpiSdtHeader,
    pub injection_header_size: u32,
    pub injection_flags: u8,
    pub reserved: [u8; 3],
    pub injection_entry_count: u32,
}

/// ERST (Error Record Serialization Table)
#[derive(Debug, Copy, Clone)]
pub struct AcpiErst {
    pub header: AcpiSdtHeader,
    pub serialization_header_size: u32,
    pub reserved: u32,
    pub instruction_entry_count: u32,
}

/// FPDT (Firmware Performance Data Table)
#[derive(Debug, Copy, Clone)]
pub struct AcpiFpdt {
    pub header: AcpiSdtHeader,
}

/// GTDT (Generic Timer Description Table)
#[derive(Debug, Copy, Clone)]
pub struct AcpiGtdt {
    pub header: AcpiSdtHeader,
    pub cnt_control_base_physical_address: u64,
    pub reserved: u32,
    pub secure_el1_timer_gsiv: u32,
    pub secure_el1_timer_flags: u32,
    pub non_secure_el1_timer_gsiv: u32,
    pub non_secure_el1_timer_flags: u32,
    pub virtual_timer_gsiv: u32,
    pub virtual_timer_flags: u32,
    pub non_secure_el2_timer_gsiv: u32,
    pub non_secure_el2_timer_flags: u32,
    pub cnt_read_base_physical_address: u64,
    pub platform_timer_count: u32,
    pub platform_timer_offset: u32,
}

/// IORT (I/O Remapping Table)
#[derive(Debug, Copy, Clone)]
pub struct AcpiIort {
    pub header: AcpiSdtHeader,
    pub node_count: u32,
    pub node_offset: u32,
    pub reserved: u32,
}

/// SRAT (System Resource Affinity Table)
#[derive(Debug, Copy, Clone)]
pub struct AcpiSrat {
    pub header: AcpiSdtHeader,
    pub reserved1: u32,
    pub reserved2: u64,
}

/// SLIT (System Locality Information Table)
#[derive(Debug, Copy, Clone)]
pub struct AcpiSlit {
    pub header: AcpiSdtHeader,
    pub number_of_system_localities: u64,
}

/// DMAR (DMA Remapping Table)
#[derive(Debug, Copy, Clone)]
pub struct AcpiDmar {
    pub header: AcpiSdtHeader,
    pub host_address_width: u8,
    pub flags: u8,
    pub reserved: [u8; 10],
}

/// WAET (Windows ACPI Emulated Devices Table)
#[derive(Debug, Copy, Clone)]
pub struct AcpiWaet {
    pub header: AcpiSdtHeader,
    pub flags: u32,
}

/// Walks consecutive system description tables laid end to end inside a
/// region, each advancing the cursor by its own declared length.
#[derive(Debug, Copy, Clone)]
pub struct AcpiTableIterator {
    /// Offset of the next table header to visit.
    pub current: usize,
}

impl AcpiTableIterator {
    /// Start walking tables at byte offset `start`.
    pub fn new(start: usize) -> (it: AcpiTableIterator)
        ensures
            it.current == start,
    {
        AcpiTableIterator { current: start }
    }

    /// Yield the offset of the table at the cursor and advance past its
    /// declared length.  Ends when a header does not fit, declares a
    /// length shorter than itself, or reaches past the region.
    pub fn next(&mut self, memory: &[u8]) -> (r: Option<usize>)
        ensures
            match r {
                Some(off) => {
                    &&& off == old(self).current
                    &&& off + 36 <= memory@.len()
                    &&& 36 <= u32_le(memory@, off + 4)
                    &&& off + u32_le(memory@, off + 4) <= memory@.len()
                    &&& final(self).current == off + u32_le(memory@, off + 4)
                },
                None => {
                    &&& *final(self) == *old(self)
                    &&& (old(self).current + 36 > memory@.len() || u32_le(
                        memory@,
                        old(self).current + 4,
                    ) < 36 || old(self).current + u32_le(memory@, old(self).current + 4)
                        > memory@.len())
                },
            },
{
        let n: usize = memory.len();
        let off = self.current;
        if off > n || n - off < 36 {
            return None;
        }
        let length = read_u32_le(memory, off + 4);
        if length < 36 {
            return None;
        }
        if length as usize > n - off {
            return None;
        }
        self.current = off + length as usize;
        Some(off)
    }
}

/// Parse the HPET table layout stored at `off`: the SDT header followed by
/// the event-timer block fields, packed in declaration order.
pub fn parse_hpet(memory: &[u8], off: usize) -> (r: Option<AcpiHpet>)
    ensures
        match r {
            Some(h) => {
                &&& off + 59 <= memory@.len()
                &&& forall|k: int| 0 <= k < 4 ==> h.header.signature[k] == memory@[off + k]
                &&& h.header.length as int == u32_le(memory@, off + 4)
                &&& h.hardware_rev_id == memory@[off + 36]
                &&& h.comparator_count == memory@[off + 37]
                &&& h.counter_size == memory@[off + 38]
                &&& h.legacy_replacement == memory@[off + 40]
                &&& h.pci_vendor_id as int == u16_le(memory@, off + 41)
                &&& h.address as int == u64_le(memory@, off + 47)
                &&& h.hpet_number == memory@[off + 55]
                &&& h.minimum_tick as int == u16_le(memory@, off + 56)
                &&& h.page_protection == memory@[off + 58]
            },
            None => off + 59 > memory@.len(),
        },
{
    let n: usize = memory.len();
    if off > n || n - off < 59 {
        return None;
    }
    let header = match parse_sdt_header(memory, off) {
        Some(h) => h,
        None => {
            return None;
        },
    };
    Some(
        AcpiHpet {
            header,
            hardware_rev_id: memory[off + 36],
            comparator_count: memory[off + 37],
            counter_size: memory[off + 38],
            reserved: memory[off + 39],
            legacy_replacement: memory[off + 40],
            pci_vendor_id: read_u16_le(memory, off + 41),
            address_space_id: memory[off + 43],
            register_bit_width: memory[off + 44],
            register_bit_offset: memory[off + 45],
            reserved2: memory[off + 46],
            address: read_u64_le(memory, off + 47),
            hpet_number: memory[off + 55],
            minimum_tick: read_u16_le(memory, off + 56),
            page_protection: memory[off + 58],
        },
    )
}

/// Finds well-known tables and hands back their decoded layout.  Each
/// accessor is absent exactly when the locator finds no table of the
/// signature or the found table's fixed part reaches past the region.
impl AcpiTableFinder {
    /// Find the HPET table and decode it.
    pub fn find_hpet(memory: &[u8], rp: &RootPointer) -> (r: Option<AcpiHpet>)
        ensures
            match r {
                Some(h) => exists|off: usize|
                    {
                        &&& #[trigger] spec_find_table(memory@, *rp, HPET_SIGNATURE@, Some(off))
                        &&& off + 59 <= memory@.len()
                        &&& forall|k: int| 0 <= k < 4 ==> h.header.signature[k] == memory@[off + k]
                        &&& forall|k: int|
                            0 <= k < 4 ==> h.header.signature[k] == HPET_SIGNATURE[k]
                        &&& h.header.length as int == u32_le(memory@, off + 4)
                        &&& h.hardware_rev_id == memory@[off + 36]
                        &&& h.comparator_count == memory@[off + 37]
                        &&& h.counter_size == memory@[off + 38]
                        &&& h.legacy_replacement == memory@[off + 40]
                        &&& h.pci_vendor_id as int == u16_le(memory@, off + 41)
                        &&& h.address as int == u64_le(memory@, off + 47)
                        &&& h.hpet_number == memory@[off + 55]
                        &&& h.minimum_tick as int == u16_le(memory@, off + 56)
                        &&& h.page_protection == memory@[off + 58]
                    },
                None => forall|off: usize|
                    #[trigger] spec_find_table(memory@, *rp, HPET_SIGNATURE@, Some(off)) ==> off
                        + 59 > memory@.len(),
            },
    {
        match AcpiTableFinder::find_table(memory, rp, &HPET_SIGNATURE) {
            Some(off) => {
                let r = parse_hpet(memory, off);
                proof {
                    if r is None {
                        assert forall|o: usize|
                            #[trigger] spec_find_table(memory@, *rp, HPET_SIGNATURE@, Some(o))
                                implies o + 59 > memory@.len() by {
                            crate::tables::acpi::lemma_find_table_result_unique(
                                memory@,
                                *rp,
                                HPET_SIGNATURE@,
                                o,
                                off,
                            );
                        }
                    }
                }
                r
            },
            None => {
                proof {
                    assert forall|o: usize|
                        #[trigger] spec_find_table(memory@, *rp, HPET_SIGNATURE@, Some(o)) implies
                        o + 59 > memory@.len() by {}
                }
                None
            },
        }
    }

    /// Find the MCFG table and decode its fixed part, together with its
    /// offset.
    pub fn find_mcfg(memory: &[u8], rp: &RootPointer) -> (r: Option<(usize, AcpiMcfg)>)
        ensures
            match r {
                Some((off, m)) => {
                    &&& spec_find_table(memory@, *rp, MCFG_SIGNATURE@, Some(off))
                    &&& off + 44 <= memory@.len()
                    &&& forall|k: int| 0 <= k < 4 ==> m.header.signature[k] == MCFG_SIGNATURE[k]
                    &&& m.header.length as int == u32_le(memory@, off + 4)
                    &&& m.reserved as int == u64_le(memory@, off + 36)
                },
                None => forall|off: usize|
                    #[trigger] spec_find_table(memory@, *rp, MCFG_SIGNATURE@, Some(off)) ==> off
                        + 44 > memory@.len(),
            },
    {
        match AcpiTableFinder::find_table(memory, rp, &MCFG_SIGNATURE) {
            Some(off) => {
                let n: usize = memory.len();
                if off > n || n - off < 44 {
                    proof {
                        assert forall|o: usize|
                            #[trigger] spec_find_table(memory@, *rp, MCFG_SIGNATURE@, Some(o))
                                implies o + 44 > memory@.len() by {
                            crate::tables::acpi::lemma_find_table_result_unique(
                                memory@,
                                *rp,
                                MCFG_SIGNATURE@,
                                o,
                                off,
                            );
                        }
                    }
                    return None;
                }
                match parse_sdt_header(memory, off) {
                    Some(header) => Some(
                        (off, AcpiMcfg { header, reserved: read_u64_le(memory, off + 36) }),
                    ),
                    None => None,
                }
            },
            None => {
                proof {
                    assert forall|o: usize|
                        #[trigger] spec_find_table(memory@, *rp, MCFG_SIGNATURE@, Some(o)) implies
                        o + 44 > memory@.len() by {}
                }
                None
            },
        }
    }

    /// Find the BGRT table and decode it.
    pub fn find_bgrt(memory: &[u8], rp: &RootPointer) -> (r: Option<AcpiBgrt>)
        ensures
            match r {
                Some(b) => exists|off: usize|
                    {
                        &&& #[trigger] spec_find_table(memory@, *rp, BGRT_SIGNATURE@, Some(off))
                        &&& off + 56 <= memory@.len()
                        &&& forall|k: int|
                            0 <= k < 4 ==> b.header.signature[k] == BGRT_SIGNATURE[k]
                        &&& b.header.length as int == u32_le(memory@, off + 4)
                        &&& b.version as int == u16_le(memory@, off + 36)
                        &&& b.status == memory@[off + 38]
                        &&& b.image_type == memory@[off + 39]
                        &&& b.image_address as int == u64_le(memory@, off + 40)
                        &&& b.image_offset_x as int == u32_le(memory@, off + 48)
                        &&& b.image_offset_y as int == u32_le(memory@, off + 52)
                    },
                None => forall|off: usize|
                    #[trigger] spec_find_table(memory@, *rp, BGRT_SIGNATURE@, Some(off)) ==> off
                        + 56 > memory@.len(),
            },
    {
        match AcpiTableFinder::find_table(memory, rp, &BGRT_SIGNATURE) {
            Some(off) => {
                let n: usize = memory.len();
                if off > n || n - off < 56 {
                    proof {
                        assert forall|o: usize|
                            #[trigger] spec_find_table(memory@, *rp, BGRT_SIGNATURE@, Some(o))
                                implies o + 56 > memory@.len() by {
                            crate::tables::acpi::lemma_find_table_result_unique(
                                memory@,
                                *rp,
                                BGRT_SIGNATURE@,
                                o,
                                off,
                            );
                        }
                    }
                    return None;
                }
                match parse_sdt_header(memory, off) {
                    Some(header) => Some(
                        AcpiBgrt {
                            header,
                            version: read_u16_le(memory, off + 36),
                            status: memory[off + 38],
                            image_type: memory[off + 39],
                            image_address: read_u64_le(memory, off + 40),
                            image_offset_x: read_u32_le(memory, off + 48),
                            image_offset_y: read_u32_le(memory, off + 52),
                        },
                    ),
                    None => None,
                }
            },
            None => {
                proof {
                    assert forall|o: usize|
                        #[trigger] spec_find_table(memory@, *rp, BGRT_SIGNATURE@, Some(o)) implies
                        o + 56 > memory@.len() by {}
                }
                None
            },
        }
    }

    /// Find the DMAR table and decode its fixed part.
    pub fn find_dmar(memory: &[u8], rp: &RootPointer) -> (r: Option<AcpiDmar>)
        ensures
            match r {
                Some(d) => exists|off: usize|
                    {
                        &&& #[trigger] spec_find_table(memory@, *rp, DMAR_SIGNATURE@, Some(off))
                        &&& off + 48 <= memory@.len()
                        &&& forall|k: int|
                            0 <= k < 4 ==> d.header.signature[k] == DMAR_SIGNATURE[k]
                        &&& d.header.length as int == u32_le(memory@, off + 4)
                        &&& d.host_address_width == memory@[off + 36]
                        &&& d.flags == memory@[off + 37]
                    },
                None => forall|off: usize|
                    #[trigger] spec_find_table(memory@, *rp, DMAR_SIGNATURE@, Some(off)) ==> off
                        + 48 > memory@.len(),
            },
    {
        match AcpiTableFinder::find_table(memory, rp, &DMAR_SIGNATURE) {
            Some(off) => {
                let n: usize = memory.len();
                if off > n || n - off < 48 {
                    proof {
                        assert forall|o: usize|
                            #[trigger] spec_find_table(memory@, *rp, DMAR_SIGNATURE@, Some(o))
                                implies o + 48 > memory@.len() by {
                            crate::tables::acpi::lemma_find_table_result_unique(
                                memory@,
                                *rp,
                                DMAR_SIGNATURE@,
                                o,
                                off,
                            );
                        }
                    }
                    return None;
                }
                match parse_sdt_header(memory, off) {
                    Some(header) => Some(
                        AcpiDmar {
                            header,
                            host_address_width: memory[off + 36],
                            flags: memory[off + 37],
                            reserved: [
                                memory[off + 38],
                                memory[off + 39],
                                memory[off + 40],
                                memory[off + 41],
                                memory[off + 42],
                                memory[off + 43],
                                memory[off + 44],
                                memory[off + 45],
                                memory[off + 46],
                                memory[off + 47],
                            ],
                        },
                    ),
                    None => None,
                }
            },
            None => {
                proof {
                    assert forall|o: usize|
                        #[trigger] spec_find_table(memory@, *rp, DMAR_SIGNATURE@, Some(o)) implies
                        o + 48 > memory@.len() by {}
                }
                None
            },
        }
    }
}

/// Number of 16-byte configuration-space entries declared by an MCFG table
/// of the given length, clamped to zero below the 44-byte fixed part.
pub open spec fn mcfg_entry_count(length: int) -> int {
    if length < 44 {
        0
    } else {
        (length - 44) / 16
    }
}

/// Number of whole 16-byte entries the region can hold after the MCFG
/// table's 44-byte fixed part.
pub open spec fn mcfg_fit_count(region_len: int, mcfg_off: int) -> int {
    if mcfg_off + 44 > region_len {
        0
    } else {
        (region_len - mcfg_off - 44) / 16
    }
}

/// Entry `k` of the configuration-space array of the MCFG table at
/// `mcfg_off` lies inside the region and decodes to `e`.
pub open spec fn mcfg_entry_decoded(
    s: Seq<u8>,
    mcfg_off: int,
    k: int,
    e: McfgConfigSpaceEntry,
) -> bool {
    &&& mcfg_off + 44 + 16 * k + 16 <= s.len()
    &&& e.base_address as int == u64_le(s, mcfg_off + 44 + 16 * k)
    &&& e.pci_segment_group as int == u16_le(s, mcfg_off + 44 + 16 * k + 8)
    &&& e.start_bus_number == s[mcfg_off + 44 + 16 * k + 10]
    &&& e.end_bus_number == s[mcfg_off + 44 + 16 * k + 11]
}

/// Decode the configuration-space entries of the MCFG table at `mcfg_off`:
/// exactly the declared count, clamped to the whole entries the region
/// holds.
pub fn get_config_spaces(memory: &[u8], mcfg_off: usize, mcfg: &AcpiMcfg) -> (entries: Vec<
    McfgConfigSpaceEntry,
>)
    ensures
        entries@.len() == if mcfg_entry_count(mcfg.header.length as int) <= mcfg_fit_count(
            memory@.len() as int,
            mcfg_off as int,
        ) {
            mcfg_entry_count(mcfg.header.length as int)
        } else {
            mcfg_fit_count(memory@.len() as int, mcfg_off as int)
        },
        forall|i: int|
            0 <= i < entries@.len() ==> mcfg_entry_decoded(
                memory@,
                mcfg_off as int,
                i,
                #[trigger] entries@[i],
            ),
{
    let n: usize = memory.len();
    let mut entries: Vec<McfgConfigSpaceEntry> = Vec::new();
    let length = mcfg.header.length;
    let count: usize = if length < 44 {
        0
    } else {
        ((length - 44) as usize) / 16
    };
    assert(count as int == mcfg_entry_count(mcfg.header.length as int));
    let mut i: usize = 0;
    let mut e_off: usize = match mcfg_off.checked_add(44) {
        Some(v) => v,
        None => {
            // The fixed part itself lies past every addressable offset.
            assert(mcfg_fit_count(n as int, mcfg_off as int) == 0);
            return entries;
        },
    };
    while i < count && e_off <= n && n - e_off >= 16
        invariant
            memory@.len() == n,
            i <= count,
            i as int <= mcfg_fit_count(n as int, mcfg_off as int),
            count as int == mcfg_entry_count(mcfg.header.length as int),
            e_off == mcfg_off + 44 + 16 * i,
            entries@.len() == i,
            forall|k: int|
                0 <= k < i ==> mcfg_entry_decoded(
                    memory@,
                    mcfg_off as int,
                    k,
                    #[trigger] entries@[k],
                ),
        decreases count - i,
    {
        proof {
            // One more whole entry fits, so the fit count is above `i`.
            let fit_bytes = n as int - mcfg_off as int - 44;
            vstd::arithmetic::div_mod::lemma_fundamental_div_mod(fit_bytes, 16);
            assert(i as int + 1 <= mcfg_fit_count(n as int, mcfg_off as int));
        }
        let entry = McfgConfigSpaceEntry {
            base_address: read_u64_le(memory, e_off),
            pci_segment_group: read_u16_le(memory, e_off + 8),
            start_bus_number: memory[e_off + 10],
            end_bus_number: memory[e_off + 11],
            reserved: read_u32_le(memory, e_off + 12),
        };
        entries.push(entry);
        i = i + 1;
        e_off = e_off + 16;
    }
    proof {
        if i < count {
            // The loop stopped because the next entry reaches past the
            // region, so `i` is exactly the fit count.
            if mcfg_off + 44 <= n {
                let fit_bytes = n as int - mcfg_off as int - 44;
                vstd::arithmetic::div_mod::lemma_fundamental_div_mod(fit_bytes, 16);
            }
            assert(i as int >= mcfg_fit_count(n as int, mcfg_off as int));
        }
    }
    entries
}

/// Get the memory-mapped configuration-space address for a bus, device and
/// function inside one configuration-space segment.  Absent when the bus
/// lies outside the declared range or the device or function exceed the
/// architectural maxima (32 devices, 8 functions).
pub fn get_pcie_address(entry: &McfgConfigSpaceEntry, bus: u8, device: u8, function: u8) -> (r:
    Option<u64>)
    requires
        entry.base_address + 0x1000_0000 <= u64::MAX,
    ensures
        r == if entry.start_bus_number <= bus <= entry.end_bus_number && device < 32 && function
            < 8 {
            Some(
                (entry.base_address + bus as u64 * 0x10_0000 + device as u64 * 0x8000
                    + function as u64 * 0x1000) as u64,
            )
        } else {
            None::<u64>
        },
{
    if bus < entry.start_bus_number || bus > entry.end_bus_number {
        return None;
    }
    if device >= 32 || function >= 8 {
        return None;
    }
    let offset: u64 = (bus as u64) * 0x10_0000 + (device as u64) * 0x8000 + (function as u64)
        * 0x1000;
    Some(entry.base_address + offset)
}

/// Check if the HPET main counter is 64 bits wide.
pub fn is_64bit_counter(hpet: &AcpiHpet) -> (r: bool)
    ensures
        r == (hpet.counter_size != 0),
{
    hpet.counter_size != 0
}

/// Number of comparators of the HPET block: the stored field counts one
/// less than the hardware provides.
pub fn get_comparator_count(hpet: &AcpiHpet) -> (r: u8)
    requires
        hpet.comparator_count < 255,
    ensures
        r == hpet.comparator_count + 1,
{
    hpet.comparator_count + 1
}

/// Check if legacy replacement routing is enabled.
pub fn has_legacy_replacement(hpet: &AcpiHpet) -> (r: bool)
    ensures
        r == (hpet.legacy_replacement != 0),
{
    hpet.legacy_replacement != 0
}

} // verus!
