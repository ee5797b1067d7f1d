//! SMBIOS table parsing: entry-point validation, structure-stream walking
//! and string-table resolution.
//!
//! An SMBIOS structure is a 4-byte header and a formatted area, followed by
//! a string table that ends at the first pair of consecutive zero bytes.
//! Every scan below is capped by the caller-declared region, so walking
//! terminates even on a corrupted table that lacks a terminator.

use vstd::prelude::*;

use crate::bytes::{push_u16_le, push_u32_le, push_u64_le, read_u16_le, read_u32_le, read_u64_le, u16_le, u16_le_bytes, u32_le_bytes, u64_le_bytes};
use crate::checksum::{byte_sum, region_checksum_ok, validate_region};
use crate::ffi::Guid;
use crate::tables::ValidationError;

verus! {

/// Identifier of the legacy SMBIOS entry point in the configuration directory.
pub fn smbios_table_guid() -> (g: Guid)
    ensures
        g == (Guid {
            data1: 0xeb9d2d31,
            data2: 0x2d88,
            data3: 0x11d3,
            data4: [0x9a, 0x16, 0x00, 0x90, 0x27, 0x3f, 0xc1, 0x4d],
        }),
{
    Guid {
        data1: 0xeb9d2d31,
        data2: 0x2d88,
        data3: 0x11d3,
        data4: [0x9a, 0x16, 0x00, 0x90, 0x27, 0x3f, 0xc1, 0x4d],
    }
}

/// Identifier of the 64-bit SMBIOS entry point in the configuration directory.
pub fn smbios3_table_guid() -> (g: Guid)
    ensures
        g == (Guid {
            data1: 0xf2fd1544,
            data2: 0x9794,
            data3: 0x4a2c,
            data4: [0x99, 0x2e, 0xe5, 0xbb, 0xcf, 0x20, 0xe3, 0x94],
        }),
{
    Guid {
        data1: 0xf2fd1544,
        data2: 0x9794,
        data3: 0x4a2c,
        data4: [0x99, 0x2e, 0xe5, 0xbb, 0xcf, 0x20, 0xe3, 0x94],
    }
}

/// Anchor string of the 32-bit entry point: "_SM_"
pub const SMBIOS_ANCHOR: [u8; 4] = [0x5f, 0x53, 0x4d, 0x5f];

/// Anchor string of the 64-bit entry point: "_SM3_"
pub const SMBIOS3_ANCHOR: [u8; 5] = [0x5f, 0x53, 0x4d, 0x33, 0x5f];

// SMBIOS structure type constants
pub const SMBIOS_TYPE_BIOS_INFO: u8 = 0;

pub const SMBIOS_TYPE_SYSTEM_INFO: u8 = 1;

pub const SMBIOS_TYPE_BASEBOARD_INFO: u8 = 2;

pub const SMBIOS_TYPE_SYSTEM_ENCLOSURE: u8 = 3;

pub const SMBIOS_TYPE_PROCESSOR_INFO: u8 = 4;

pub const SMBIOS_TYPE_MEMORY_CONTROLLER: u8 = 5;

pub const SMBIOS_TYPE_MEMORY_MODULE: u8 = 6;

pub const SMBIOS_TYPE_CACHE_INFO: u8 = 7;

pub const SMBIOS_TYPE_PORT_CONNECTOR: u8 = 8;

pub const SMBIOS_TYPE_SYSTEM_SLOTS: u8 = 9;

pub const SMBIOS_TYPE_MEMORY_DEVICE: u8 = 17;

/// The sentinel type that ends structure iteration.
pub const SMBIOS_TYPE_END_OF_TABLE: u8 = 127;

/// SMBIOS structure types by their standard numbering, in order.
#[derive(Debug, Copy, Clone, PartialEq, Eq, Structural)]
pub enum SmbiosStructureType {
    BiosInformation,
    SystemInformation,
    BaseboardInformation,
    SystemEnclosure,
    ProcessorInformation,
    MemoryController,
    MemoryModule,
    CacheInformation,
    PortConnector,
    SystemSlots,
    OnBoardDevices,
    OemStrings,
    SystemConfigurationOptions,
    BiosLanguage,
    GroupAssociations,
    SystemEventLog,
    PhysicalMemoryArray,
    MemoryDevice,
}

/// SMBIOS Entry Point Structure (32-bit), 31 bytes on the wire.
#[derive(Debug, Copy, Clone)]
pub struct SmbiosEntryPoint {
    pub anchor_string: [u8; 4],
    pub checksum: u8,
    pub length: u8,
    pub major_version: u8,
    pub minor_version: u8,
    pub max_structure_size: u16,
    pub entry_point_revision: u8,
    pub formatted_area: [u8; 5],
    pub intermediate_anchor: [u8; 5],
    pub intermediate_checksum: u8,
    pub structure_table_length: u16,
    pub structure_table_address: u32,
    pub number_of_structures: u16,
    pub bcd_revision: u8,
}

/// SMBIOS 3.0 Entry Point Structure (64-bit), 24 bytes on the wire.
#[derive(Debug, Copy, Clone)]
pub struct Smbios3EntryPoint {
    pub anchor_string: [u8; 5],
    pub checksum: u8,
    pub length: u8,
    pub major_version: u8,
    pub minor_version: u8,
    pub docrev: u8,
    pub entry_point_revision: u8,
    pub reserved: u8,
    pub structure_table_max_size: u32,
    pub structure_table_address: u64,
}

/// Size of the 32-bit entry point shape.
pub const SMBIOS_EP_SIZE: usize = 31;

/// Size of the 64-bit entry point shape.
pub const SMBIOS3_EP_SIZE: usize = 24;

/// The wire image of the 32-bit entry point.
pub open spec fn smbios_ep_bytes(e: SmbiosEntryPoint) -> Seq<u8> {
    seq![
        e.anchor_string[0],
        e.anchor_string[1],
        e.anchor_string[2],
        e.anchor_string[3],
        e.checksum,
        e.length,
        e.major_version,
        e.minor_version,
    ] + u16_le_bytes(e.max_structure_size) + seq![
        e.entry_point_revision,
        e.formatted_area[0],
        e.formatted_area[1],
        e.formatted_area[2],
        e.formatted_area[3],
        e.formatted_area[4],
        e.intermediate_anchor[0],
        e.intermediate_anchor[1],
        e.intermediate_anchor[2],
        e.intermediate_anchor[3],
        e.intermediate_anchor[4],
        e.intermediate_checksum,
    ] + u16_le_bytes(e.structure_table_length) + u32_le_bytes(e.structure_table_address)
        + u16_le_bytes(e.number_of_structures) + seq![e.bcd_revision]
}

/// The wire image of the 64-bit entry point.
pub open spec fn smbios3_ep_bytes(e: Smbios3EntryPoint) -> Seq<u8> {
    seq![
        e.anchor_string[0],
        e.anchor_string[1],
        e.anchor_string[2],
        e.anchor_string[3],
        e.anchor_string[4],
        e.checksum,
        e.length,
        e.major_version,
        e.minor_version,
        e.docrev,
        e.entry_point_revision,
        e.reserved,
    ] + u32_le_bytes(e.structure_table_max_size) + u64_le_bytes(e.structure_table_address)
}

impl SmbiosEntryPoint {
    /// The wire image of this entry point, 31 bytes.
    pub fn to_bytes(&self) -> (out: Vec<u8>)
        ensures
            out@ == smbios_ep_bytes(*self),
    {
        let mut out: Vec<u8> = Vec::new();
        out.push(self.anchor_string[0]);
        out.push(self.anchor_string[1]);
        out.push(self.anchor_string[2]);
        out.push(self.anchor_string[3]);
        out.push(self.checksum);
        out.push(self.length);
        out.push(self.major_version);
        out.push(self.minor_version);
        push_u16_le(&mut out, self.max_structure_size);
        out.push(self.entry_point_revision);
        out.push(self.formatted_area[0]);
        out.push(self.formatted_area[1]);
        out.push(self.formatted_area[2]);
        out.push(self.formatted_area[3]);
        out.push(self.formatted_area[4]);
        out.push(self.intermediate_anchor[0]);
        out.push(self.intermediate_anchor[1]);
        out.push(self.intermediate_anchor[2]);
        out.push(self.intermediate_anchor[3]);
        out.push(self.intermediate_anchor[4]);
        out.push(self.intermediate_checksum);
        push_u16_le(&mut out, self.structure_table_length);
        push_u32_le(&mut out, self.structure_table_address);
        push_u16_le(&mut out, self.number_of_structures);
        out.push(self.bcd_revision);
        assert(out@ =~= smbios_ep_bytes(*self));
        out
    }

    /// Verify the checksum: the declared `length` bytes of the shape wrap
    /// to zero.  A declared length past the 31-byte shape fails closed.
    pub fn verify_checksum(&self) -> (r: bool)
        ensures
            r == (self.length <= SMBIOS_EP_SIZE && byte_sum(
                smbios_ep_bytes(*self).take(self.length as int),
            ) % 256 == 0),
    {
        let bytes = self.to_bytes();
        if self.length > SMBIOS_EP_SIZE as u8 {
            return false;
        }
        validate_region(bytes.as_slice(), self.length as usize)
    }

    /// Check if this is a valid SMBIOS entry point: the anchor matches and
    /// the checksum over the declared length wraps to zero.
    pub fn is_valid(&self) -> (r: bool)
        ensures
            r == ((forall|k: int| 0 <= k < 4 ==> self.anchor_string[k] == SMBIOS_ANCHOR[k])
                && self.length <= SMBIOS_EP_SIZE && byte_sum(
                smbios_ep_bytes(*self).take(self.length as int),
            ) % 256 == 0),
    {
        let anchor_ok = self.anchor_string[0] == SMBIOS_ANCHOR[0] && self.anchor_string[1]
            == SMBIOS_ANCHOR[1] && self.anchor_string[2] == SMBIOS_ANCHOR[2]
            && self.anchor_string[3] == SMBIOS_ANCHOR[3];
        anchor_ok && self.verify_checksum()
    }

    /// Get SMBIOS version
    pub fn version(&self) -> (v: (u8, u8))
        ensures
            v.0 == self.major_version,
            v.1 == self.minor_version,
    {
        (self.major_version, self.minor_version)
    }
}

impl Smbios3EntryPoint {
    /// The wire image of this entry point, 24 bytes.
    pub fn to_bytes(&self) -> (out: Vec<u8>)
        ensures
            out@ == smbios3_ep_bytes(*self),
    {
        let mut out: Vec<u8> = Vec::new();
        out.push(self.anchor_string[0]);
        out.push(self.anchor_string[1]);
        out.push(self.anchor_string[2]);
        out.push(self.anchor_string[3]);
        out.push(self.anchor_string[4]);
        out.push(self.checksum);
        out.push(self.length);
        out.push(self.major_version);
        out.push(self.minor_version);
        out.push(self.docrev);
        out.push(self.entry_point_revision);
        out.push(self.reserved);
        push_u32_le(&mut out, self.structure_table_max_size);
        push_u64_le(&mut out, self.structure_table_address);
        assert(out@ =~= smbios3_ep_bytes(*self));
        out
    }

    /// Verify the checksum: the declared `length` bytes of the shape wrap
    /// to zero.  A declared length past the 24-byte shape fails closed.
    pub fn verify_checksum(&self) -> (r: bool)
        ensures
            r == (self.length <= SMBIOS3_EP_SIZE && byte_sum(
                smbios3_ep_bytes(*self).take(self.length as int),
            ) % 256 == 0),
    {
        let bytes = self.to_bytes();
        if self.length > SMBIOS3_EP_SIZE as u8 {
            return false;
        }
        validate_region(bytes.as_slice(), self.length as usize)
    }

    /// Check if this is a valid 64-bit SMBIOS entry point: the anchor
    /// matches and the checksum over the declared length wraps to zero.
    pub fn is_valid(&self) -> (r: bool)
        ensures
            r == ((forall|k: int| 0 <= k < 5 ==> self.anchor_string[k] == SMBIOS3_ANCHOR[k])
                && self.length <= SMBIOS3_EP_SIZE && byte_sum(
                smbios3_ep_bytes(*self).take(self.length as int),
            ) % 256 == 0),
    {
        let anchor_ok = self.anchor_string[0] == SMBIOS3_ANCHOR[0] && self.anchor_string[1]
            == SMBIOS3_ANCHOR[1] && self.anchor_string[2] == SMBIOS3_ANCHOR[2]
            && self.anchor_string[3] == SMBIOS3_ANCHOR[3] && self.anchor_string[4]
            == SMBIOS3_ANCHOR[4];
        anchor_ok && self.verify_checksum()
    }

    /// Get SMBIOS version
    pub fn version(&self) -> (v: (u8, u8))
        ensures
            v.0 == self.major_version,
            v.1 == self.minor_version,
    {
        (self.major_version, self.minor_version)
    }
}

/// The SMBIOS entry point, tagged by the shape selected at parse time.
#[derive(Debug, Copy, Clone)]
pub enum SmbiosEntry {
    /// 32-bit shape, anchored by "_SM_".
    V2(SmbiosEntryPoint),
    /// 64-bit shape, anchored by "_SM3_".
    V3(Smbios3EntryPoint),
}

/// The region starts with the 32-bit anchor "_SM_".
pub open spec fn smbios_has_anchor(s: Seq<u8>) -> bool {
    s.len() >= 4 && (forall|k: int| 0 <= k < 4 ==> s[k] == SMBIOS_ANCHOR[k])
}

/// The region starts with the 64-bit anchor "_SM3_".
pub open spec fn smbios3_has_anchor(s: Seq<u8>) -> bool {
    s.len() >= 5 && (forall|k: int| 0 <= k < 5 ==> s[k] == SMBIOS3_ANCHOR[k])
}

/// Parse and validate an SMBIOS entry point from a byte region.
///
/// The anchor selects between the two historical shapes; the checksum then
/// covers the declared entry-point length.  Each failure surfaces the
/// specific reason so a caller can try the alternative shape.
pub fn parse_entry_point(region: &[u8]) -> (r: Result<SmbiosEntry, ValidationError>)
    ensures
        match r {
            Ok(SmbiosEntry::V2(e)) => {
                &&& smbios_has_anchor(region@)
                &&& region@.len() >= 31
                &&& region@[5] == 31
                &&& region_checksum_ok(region@, region@[5] as int)
                &&& smbios_ep_bytes(e) == region@.take(31)
            },
            Ok(SmbiosEntry::V3(e)) => {
                &&& !smbios_has_anchor(region@)
                &&& smbios3_has_anchor(region@)
                &&& region@.len() >= 24
                &&& region@[6] == 24
                &&& region_checksum_ok(region@, region@[6] as int)
                &&& smbios3_ep_bytes(e) == region@.take(24)
            },
            Err(ValidationError::InvalidAnchor) => !smbios_has_anchor(region@)
                && !smbios3_has_anchor(region@),
            Err(ValidationError::LengthOutOfBounds) => {
                ||| (smbios_has_anchor(region@) && (region@.len() < 31 || region@[5] != 31))
                ||| (!smbios_has_anchor(region@) && smbios3_has_anchor(region@) && (region@.len()
                    < 24 || region@[6] != 24))
            },
            Err(ValidationError::ChecksumMismatch) => {
                ||| (smbios_has_anchor(region@) && region@.len() >= 31 && region@[5] == 31
                    && !region_checksum_ok(region@, region@[5] as int))
                ||| (!smbios_has_anchor(region@) && smbios3_has_anchor(region@) && region@.len()
                    >= 24 && region@[6] == 24 && !region_checksum_ok(
                    region@,
                    region@[6] as int,
                ))
            },
        },
{
    let n: usize = region.len();
    let v2_anchor = n >= 4 && region[0] == SMBIOS_ANCHOR[0] && region[1] == SMBIOS_ANCHOR[1]
        && region[2] == SMBIOS_ANCHOR[2] && region[3] == SMBIOS_ANCHOR[3];
    if v2_anchor {
        if n < SMBIOS_EP_SIZE {
            return Err(ValidationError::LengthOutOfBounds);
        }
        let length = region[5];
        if length as usize != SMBIOS_EP_SIZE {
            return Err(ValidationError::LengthOutOfBounds);
        }
        if !validate_region(region, length as usize) {
            return Err(ValidationError::ChecksumMismatch);
        }
        let e = SmbiosEntryPoint {
            anchor_string: [region[0], region[1], region[2], region[3]],
            checksum: region[4],
            length,
            major_version: region[6],
            minor_version: region[7],
            max_structure_size: read_u16_le(region, 8),
            entry_point_revision: region[10],
            formatted_area: [region[11], region[12], region[13], region[14], region[15]],
            intermediate_anchor: [region[16], region[17], region[18], region[19], region[20]],
            intermediate_checksum: region[21],
            structure_table_length: read_u16_le(region, 22),
            structure_table_address: read_u32_le(region, 24),
            number_of_structures: read_u16_le(region, 28),
            bcd_revision: region[30],
        };
        proof {
            crate::bytes::lemma_u16_le_roundtrip(region@, 8, e.max_structure_size);
            crate::bytes::lemma_u16_le_roundtrip(region@, 22, e.structure_table_length);
            crate::bytes::lemma_u32_le_roundtrip(region@, 24, e.structure_table_address);
            crate::bytes::lemma_u16_le_roundtrip(region@, 28, e.number_of_structures);
            assert(smbios_ep_bytes(e) =~= region@.take(31));
        }
        return Ok(SmbiosEntry::V2(e));
    }
    let v3_anchor = n >= 5 && region[0] == SMBIOS3_ANCHOR[0] && region[1] == SMBIOS3_ANCHOR[1]
        && region[2] == SMBIOS3_ANCHOR[2] && region[3] == SMBIOS3_ANCHOR[3] && region[4]
        == SMBIOS3_ANCHOR[4];
    if v3_anchor {
        if n < SMBIOS3_EP_SIZE {
            return Err(ValidationError::LengthOutOfBounds);
        }
        let length = region[6];
        if length as usize != SMBIOS3_EP_SIZE {
            return Err(ValidationError::LengthOutOfBounds);
        }
        if !validate_region(region, length as usize) {
            return Err(ValidationError::ChecksumMismatch);
        }
        let e = Smbios3EntryPoint {
            anchor_string: [region[0], region[1], region[2], region[3], region[4]],
            checksum: region[5],
            length,
            major_version: region[7],
            minor_version: region[8],
            docrev: region[9],
            entry_point_revision: region[10],
            reserved: region[11],
            structure_table_max_size: read_u32_le(region, 12),
            structure_table_address: read_u64_le(region, 16),
        };
        proof {
            crate::bytes::lemma_u32_le_roundtrip(region@, 12, e.structure_table_max_size);
            crate::bytes::lemma_u64_le_roundtrip(region@, 16, e.structure_table_address);
            assert(smbios3_ep_bytes(e) =~= region@.take(24));
        }
        return Ok(SmbiosEntry::V3(e));
    }
    Err(ValidationError::InvalidAnchor)
}

/// SMBIOS Structure Header
#[derive(Debug, Copy, Clone)]
pub struct SmbiosHeader {
    pub struct_type: u8,
    pub length: u8,
    pub handle: u16,
}

/// Parse the 4-byte structure header stored at `off`.
pub fn parse_smbios_header(table: &[u8], off: usize) -> (r: Option<SmbiosHeader>)
    ensures
        match r {
            Some(h) => {
                &&& off + 4 <= table@.len()
                &&& h.struct_type == table@[off as int]
                &&& h.length == table@[off + 1]
                &&& h.handle as int == u16_le(table@, off + 2)
            },
            None => off + 4 > table@.len(),
        },
{
    let n: usize = table.len();
    if off > n || n - off < 4 {
        return None;
    }
    Some(
        SmbiosHeader {
            struct_type: table[off],
            length: table[off + 1],
            handle: read_u16_le(table, off + 2),
        },
    )
}

/// Position of the first zero byte at or after `p`, or the region's length
/// when no zero byte follows.
pub open spec fn zero_pos(s: Seq<u8>, p: nat) -> nat
    decreases s.len() - p,
    when p <= s.len()
{
    if p >= s.len() {
        s.len()
    } else if s[p as int] == 0 {
        p
    } else {
        zero_pos(s, p + 1)
    }
}

/// The first zero position lies between `p` and the region's length, no
/// byte before it is zero, and the byte there is zero if it is in range.
pub proof fn lemma_zero_pos(s: Seq<u8>, p: nat)
    requires
        p <= s.len(),
    ensures
        p <= zero_pos(s, p) <= s.len(),
        forall|q: int| p <= q < zero_pos(s, p) ==> s[q] != 0,
        zero_pos(s, p) < s.len() ==> s[zero_pos(s, p) as int] == 0,
    decreases s.len() - p,
{
    if p < s.len() && s[p as int] != 0 {
        lemma_zero_pos(s, p + 1);
    }
}

/// Position of the first pair of consecutive zero bytes at or after `p`,
/// or absent when no such pair fits inside the region.
pub open spec fn double_zero_pos(s: Seq<u8>, p: nat) -> Option<nat>
    decreases s.len() - p,
    when p <= s.len()
{
    if p + 2 > s.len() {
        None
    } else if s[p as int] == 0 && s[p + 1 as int] == 0 {
        Some(p)
    } else {
        double_zero_pos(s, p + 1)
    }
}

/// Total size of the structure at `off`: its formatted area plus its
/// string table through the double-zero terminator.  Absent when the
/// header does not fit, the formatted area reaches past the region, or no
/// terminator exists inside the region.
pub open spec fn spec_structure_total_size(s: Seq<u8>, off: nat) -> Option<nat> {
    if off + 4 > s.len() {
        None
    } else {
        let start = off + s[off + 1 as int];
        if start > s.len() {
            None
        } else {
            match double_zero_pos(s, start as nat) {
                Some(j) => Some((j + 2 - off) as nat),
                None => None,
            }
        }
    }
}

/// Find the first pair of consecutive zero bytes at or after `start`.
fn find_double_zero(table: &[u8], start: usize) -> (r: Option<usize>)
    requires
        start <= table@.len(),
    ensures
        match r {
            Some(j) => double_zero_pos(table@, start as nat) == Some(j as nat),
            None => double_zero_pos(table@, start as nat) is None,
        },
{
    let n: usize = table.len();
    let mut p: usize = start;
    while p < n && n - p >= 2
        invariant
            start <= p,
            p <= n,
            n == table@.len(),
            double_zero_pos(table@, start as nat) == double_zero_pos(table@, p as nat),
        decreases n - p,
    {
        if table[p] == 0 && table[p + 1] == 0 {
            return Some(p);
        }
        p = p + 1;
    }
    None
}

/// Compute the total size of the structure at `off`, formatted area and
/// string table included.  The forward scan for the double-zero terminator
/// is capped by the region, so corrupted tables degrade to an absent
/// result instead of running away.
pub fn structure_total_size(table: &[u8], off: usize) -> (r: Option<usize>)
    ensures
        match r {
            Some(t) => spec_structure_total_size(table@, off as nat) == Some(t as nat) && off + t
                <= table@.len() && t >= 2,
            None => spec_structure_total_size(table@, off as nat) is None,
        },
{
    let n: usize = table.len();
    if off > n || n - off < 4 {
        return None;
    }
    let fmt_len = table[off + 1] as usize;
    if fmt_len > n - off {
        return None;
    }
    let start = off + fmt_len;
    match find_double_zero(table, start) {
        Some(j) => {
            proof {
                lemma_double_zero_bounds(table@, start as nat);
            }
            Some(j + 2 - off)
        },
        None => None,
    }
}

/// A found double-zero position lies between the scan start and two bytes
/// short of the region's end.
proof fn lemma_double_zero_bounds(s: Seq<u8>, p: nat)
    requires
        p <= s.len(),
    ensures
        match double_zero_pos(s, p) {
            Some(j) => p <= j && j + 2 <= s.len(),
            None => true,
        },
    decreases s.len() - p,
{
    if p + 2 <= s.len() && !(s[p as int] == 0 && s[p + 1 as int] == 0) {
        lemma_double_zero_bounds(s, p + 1);
    }
}

/// Walks the formatted structures of an SMBIOS structure table, each
/// advancing the cursor past the structure's string table.  The walk ends
/// at the region's end or at the first "end of table" sentinel structure,
/// whichever comes first.
#[derive(Debug, Copy, Clone)]
pub struct SmbiosIterator {
    /// Offset of the next structure header to visit.
    pub current: usize,
}

impl SmbiosIterator {
    /// Start walking at the beginning of the structure table region.
    pub fn new() -> (it: SmbiosIterator)
        ensures
            it.current == 0,
    {
        SmbiosIterator { current: 0 }
    }

    /// Yield the offset of the structure at the cursor and advance past
    /// it.  Ends when the header does not fit, the sentinel type is
    /// reached, or the structure's bounds cannot be determined.
    pub fn next(&mut self, table: &[u8]) -> (r: Option<usize>)
        ensures
            match r {
                Some(off) => {
                    &&& off == old(self).current
                    &&& off + 4 <= table@.len()
                    &&& table@[off as int] != SMBIOS_TYPE_END_OF_TABLE
                    &&& spec_structure_total_size(table@, off as nat) matches Some(t)
                        && final(self).current == off + t
                },
                None => {
                    &&& *final(self) == *old(self)
                    &&& (old(self).current + 4 > table@.len() || table@[old(self).current as int]
                        == SMBIOS_TYPE_END_OF_TABLE || spec_structure_total_size(
                        table@,
                        old(self).current as nat,
                    ) is None)
                },
            },
    {
        let n: usize = table.len();
        let off = self.current;
        if off > n || n - off < 4 {
            return None;
        }
        if table[off] == SMBIOS_TYPE_END_OF_TABLE {
            return None;
        }
        match structure_total_size(table, off) {
            Some(t) => {
                self.current = off + t;
                Some(off)
            },
            None => None,
        }
    }
}

/// The bytes of string number `index` (1-based) of a string table that
/// starts at `p`: walk the null-terminated runs, counting.  Absent at the
/// end-of-table marker, past the end of the region, and for a final run
/// that no zero byte terminates.
pub open spec fn spec_smbios_string(s: Seq<u8>, p: nat, index: nat) -> Option<Seq<u8>>
    decreases index,
    when p <= s.len()
{
    if p >= s.len() || s[p as int] == 0 {
        None
    } else if zero_pos(s, p) >= s.len() {
        None
    } else if index <= 1 {
        Some(s.subrange(p as int, zero_pos(s, p) as int))
    } else {
        spec_smbios_string(s, zero_pos(s, p) + 1, (index - 1) as nat)
    }
}

/// Resolve a string of the string table that starts at `start` by its
/// 1-based index.  Index 0 always yields an absent result, as does an
/// index past the last string of the table.
pub fn smbios_string_at(table: &[u8], start: usize, index: u8) -> (r: Option<Vec<u8>>)
    requires
        start <= table@.len(),
    ensures
        index == 0 ==> r is None,
        index >= 1 ==> match r {
            Some(v) => spec_smbios_string(table@, start as nat, index as nat) == Some(v@),
            None => spec_smbios_string(table@, start as nat, index as nat) is None,
        },
    decreases index,
{
    if index == 0 {
        return None;
    }
    let n: usize = table.len();
    if start >= n || table[start] == 0 {
        return None;
    }
    proof {
        lemma_zero_pos(table@, start as nat);
    }
    let mut q: usize = start;
    while q < n && table[q] != 0
        invariant
            start <= q <= n,
            n == table@.len(),
            zero_pos(table@, start as nat) == zero_pos(table@, q as nat),
        decreases n - q,
    {
        q = q + 1;
    }
    if q >= n {
        return None;
    }
    if index == 1 {
        let mut out: Vec<u8> = Vec::new();
        let mut i: usize = start;
        while i < q
            invariant
                start <= i <= q <= n,
                n == table@.len(),
                out@.len() == i - start,
                forall|k: int| 0 <= k < out@.len() ==> out@[k] == table@[start + k],
            decreases q - i,
        {
            out.push(table[i]);
            i = i + 1;
        }
        proof {
            assert(out@ =~= table@.subrange(start as int, zero_pos(table@, start as nat) as int));
        }
        Some(out)
    } else {
        smbios_string_at(table, q + 1, index - 1)
    }
}

/// Resolve a string of the structure at `off` by its 1-based index: the
/// string table begins right after the structure's formatted area.
pub fn get_structure_string(table: &[u8], off: usize, index: u8) -> (r: Option<Vec<u8>>)
    ensures
        index == 0 ==> r is None,
        r is Some ==> off + 4 <= table@.len() && off + table@[off + 1] <= table@.len(),
        index >= 1 && off + 4 <= table@.len() && off + table@[off + 1] <= table@.len() ==> match r {
            Some(v) => spec_smbios_string(
                table@,
                (off + table@[off + 1]) as nat,
                index as nat,
            ) == Some(v@),
            None => spec_smbios_string(
                table@,
                (off + table@[off + 1]) as nat,
                index as nat,
            ) is None,
        },
{
    let n: usize = table.len();
    if off > n || n - off < 4 {
        return None;
    }
    let fmt_len = table[off + 1] as usize;
    if fmt_len > n - off {
        return None;
    }
    smbios_string_at(table, off + fmt_len, index)
}

/// SMBIOS Type 0: BIOS Information
#[derive(Debug, Copy, Clone)]
pub struct BiosInformation {
    pub header: SmbiosHeader,
    pub vendor: u8,
    pub bios_version: u8,
    pub bios_starting_segment: u16,
    pub bios_release_date: u8,
    pub bios_rom_size: u8,
    pub bios_characteristics: u64,
}

/// SMBIOS Type 1: System Information
#[derive(Debug, Copy, Clone)]
pub struct SystemInformation {
    pub header: SmbiosHeader,
    pub manufacturer: u8,
    pub product_name: u8,
    pub version: u8,
    pub serial_number: u8,
    pub uuid: [u8; 16],
    pub wake_up_type: u8,
    pub sku_number: u8,
    pub family: u8,
}

/// SMBIOS Type 2: Baseboard Information
#[derive(Debug, Copy, Clone)]
pub struct BaseboardInformation {
    pub header: SmbiosHeader,
    pub manufacturer: u8,
    pub product: u8,
    pub version: u8,
    pub serial_number: u8,
    pub asset_tag: u8,
    pub feature_flags: u8,
    pub location_in_chassis: u8,
    pub chassis_handle: u16,
    pub board_type: u8,
    pub number_of_contained_handles: u8,
}

/// SMBIOS Type 4: Processor Information
#[derive(Debug, Copy, Clone)]
pub struct ProcessorInformation {
    pub header: SmbiosHeader,
    pub socket_designation: u8,
    pub processor_type: u8,
    pub processor_family: u8,
    pub processor_manufacturer: u8,
    pub processor_id: u64,
    pub processor_version: u8,
    pub voltage: u8,
    pub external_clock: u16,
    pub max_speed: u16,
    pub current_speed: u16,
    pub status: u8,
    pub processor_upgrade: u8,
}

/// SMBIOS Type 17: Memory Device
#[derive(Debug, Copy, Clone)]
pub struct MemoryDevice {
    pub header: SmbiosHeader,
    pub physical_memory_array_handle: u16,
    pub memory_error_info_handle: u16,
    pub total_width: u16,
    pub data_width: u16,
    pub size: u16,
    pub form_factor: u8,
    pub device_set: u8,
    pub device_locator: u8,
    pub bank_locator: u8,
    pub memory_type: u8,
    pub type_detail: u16,
}

/// An SMBIOS structure header under its standard field names.
#[derive(Debug, Copy, Clone)]
pub struct SmbiosStructureHeader {
    pub structure_type: u8,
    pub length: u8,
    pub handle: u16,
}

/// SMBIOS BIOS information with the version 2.4 extension fields.
#[derive(Debug, Copy, Clone)]
pub struct SmbiosBiosInformation {
    pub header: SmbiosStructureHeader,
    pub vendor: u8,
    pub bios_version: u8,
    pub bios_starting_segment: u16,
    pub bios_release_date: u8,
    pub bios_rom_size: u8,
    pub bios_characteristics: u64,
    pub extension_byte1: u8,
    pub extension_byte2: u8,
    pub bios_major_release: u8,
    pub bios_minor_release: u8,
    pub ec_major_release: u8,
    pub ec_minor_release: u8,
}

} // verus!
