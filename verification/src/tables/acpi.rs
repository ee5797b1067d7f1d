//! ACPI table structures and the root-discovery-pointer validation rules.
//!
//! The root discovery pointer comes in two historical shapes: a 20-byte
//! legacy shape (revision below 2) whose checksum covers those 20 bytes, and
//! an extended shape (revision 2 and above) whose authoritative checksum
//! covers the declared `length` bytes.  Only the extended checksum is
//! validated for the extended shape, matching observed platform behaviour;
//! the legacy sub-checksum is deliberately not re-validated there.

use vstd::prelude::*;

use crate::bytes::{push_u32_le, push_u64_le, read_u32_le, read_u64_le, u32_le, u32_le_bytes, u64_le, u64_le_bytes};
use crate::checksum::{byte_sum, region_checksum_ok, validate_region};
use crate::ffi::Guid;
use crate::tables::ValidationError;

verus! {

/// Identifier of the legacy ACPI root pointer in the configuration directory.
pub fn acpi_table_guid() -> (g: Guid)
    ensures
        g == (Guid {
            data1: 0xeb9d2d30,
            data2: 0x2d88,
            data3: 0x11d3,
            data4: [0x9a, 0x16, 0x00, 0x90, 0x27, 0x3f, 0xc1, 0x4d],
        }),
{
    Guid {
        data1: 0xeb9d2d30,
        data2: 0x2d88,
        data3: 0x11d3,
        data4: [0x9a, 0x16, 0x00, 0x90, 0x27, 0x3f, 0xc1, 0x4d],
    }
}

/// Identifier of the extended ACPI root pointer in the configuration directory.
pub fn acpi_20_table_guid() -> (g: Guid)
    ensures
        g == (Guid {
            data1: 0x8868e871,
            data2: 0xe4f1,
            data3: 0x11d3,
            data4: [0xbc, 0x22, 0x00, 0x80, 0xc7, 0x3c, 0x88, 0x81],
        }),
{
    Guid {
        data1: 0x8868e871,
        data2: 0xe4f1,
        data3: 0x11d3,
        data4: [0xbc, 0x22, 0x00, 0x80, 0xc7, 0x3c, 0x88, 0x81],
    }
}

/// Anchor string of the root discovery pointer: "RSD PTR "
pub const RSDP_SIGNATURE: [u8; 8] = [0x52, 0x53, 0x44, 0x20, 0x50, 0x54, 0x52, 0x20];

/// "RSDT"
pub const RSDT_SIGNATURE: [u8; 4] = [0x52, 0x53, 0x44, 0x54];

/// "XSDT"
pub const XSDT_SIGNATURE: [u8; 4] = [0x58, 0x53, 0x44, 0x54];

/// "FACP"
pub const FADT_SIGNATURE: [u8; 4] = [0x46, 0x41, 0x43, 0x50];

/// "APIC"
pub const MADT_SIGNATURE: [u8; 4] = [0x41, 0x50, 0x49, 0x43];

/// "MCFG"
pub const MCFG_SIGNATURE: [u8; 4] = [0x4d, 0x43, 0x46, 0x47];

/// "HPET"
pub const HPET_SIGNATURE: [u8; 4] = [0x48, 0x50, 0x45, 0x54];

/// "BGRT"
pub const BGRT_SIGNATURE: [u8; 4] = [0x42, 0x47, 0x52, 0x54];

/// "DMAR"
pub const DMAR_SIGNATURE: [u8; 4] = [0x44, 0x4d, 0x41, 0x52];

/// Size of the legacy root discovery pointer shape.
pub const RSDP_V1_SIZE: usize = 20;

/// Size of the extended root discovery pointer shape.
pub const RSDP_V2_SIZE: usize = 36;

/// Size of the common ACPI system description table header.
pub const ACPI_HEADER_SIZE: usize = 36;

/// RSDP (Root System Description Pointer) structure for ACPI 1.0
#[derive(Debug, Copy, Clone)]
pub struct RsdpDescriptor10 {
    pub signature: [u8; 8],
    pub checksum: u8,
    pub oem_id: [u8; 6],
    pub revision: u8,
    pub rsdt_address: u32,
}

/// RSDP structure for ACPI 2.0+
#[derive(Debug, Copy, Clone)]
pub struct RsdpDescriptor20 {
    pub signature: [u8; 8],
    pub checksum: u8,
    pub oem_id: [u8; 6],
    pub revision: u8,
    pub rsdt_address: u32,
    pub length: u32,
    pub xsdt_address: u64,
    pub extended_checksum: u8,
    pub reserved: [u8; 3],
}

/// Type alias for RSDP (uses ACPI 2.0+ structure)
pub type Rsdp = RsdpDescriptor20;

/// ACPI Table Header
#[derive(Debug, Copy, Clone)]
pub struct AcpiTableHeader {
    pub signature: [u8; 4],
    pub length: u32,
    pub revision: u8,
    pub checksum: u8,
    pub oem_id: [u8; 6],
    pub oem_table_id: [u8; 8],
    pub oem_revision: u32,
    pub creator_id: u32,
    pub creator_revision: u32,
}

/// RSDT (Root System Description Table): a header followed in memory by an
/// array of 32-bit table addresses.
#[derive(Debug, Copy, Clone)]
pub struct Rsdt {
    pub header: AcpiTableHeader,
}

/// XSDT (Extended System Description Table): a header followed in memory by
/// an array of 64-bit table addresses.
#[derive(Debug, Copy, Clone)]
pub struct Xsdt {
    pub header: AcpiTableHeader,
}

/// The wire image of the legacy root pointer shape.
pub open spec fn rsdp10_bytes(d: RsdpDescriptor10) -> Seq<u8> {
    seq![
        d.signature[0],
        d.signature[1],
        d.signature[2],
        d.signature[3],
        d.signature[4],
        d.signature[5],
        d.signature[6],
        d.signature[7],
        d.checksum,
        d.oem_id[0],
        d.oem_id[1],
        d.oem_id[2],
        d.oem_id[3],
        d.oem_id[4],
        d.oem_id[5],
        d.revision,
    ] + u32_le_bytes(d.rsdt_address)
}

/// The wire image of the extended root pointer shape.
pub open spec fn rsdp20_bytes(d: RsdpDescriptor20) -> Seq<u8> {
    seq![
        d.signature[0],
        d.signature[1],
        d.signature[2],
        d.signature[3],
        d.signature[4],
        d.signature[5],
        d.signature[6],
        d.signature[7],
        d.checksum,
        d.oem_id[0],
        d.oem_id[1],
        d.oem_id[2],
        d.oem_id[3],
        d.oem_id[4],
        d.oem_id[5],
        d.revision,
    ] + u32_le_bytes(d.rsdt_address) + u32_le_bytes(d.length) + u64_le_bytes(d.xsdt_address)
        + seq![d.extended_checksum, d.reserved[0], d.reserved[1], d.reserved[2]]
}

/// The 8-byte anchor string stands at the start of the region.
pub open spec fn rsdp_has_anchor(s: Seq<u8>) -> bool {
    s.len() >= 8 && (forall|k: int| 0 <= k < 8 ==> s[k] == RSDP_SIGNATURE[k])
}

impl RsdpDescriptor10 {
    /// The wire image of this descriptor, 20 bytes.
    pub fn to_bytes(&self) -> (out: Vec<u8>)
        ensures
            out@ == rsdp10_bytes(*self),
    {
        let mut out: Vec<u8> = Vec::new();
        let mut k: usize = 0;
        while k < 8
            invariant
                k <= 8,
                out@.len() == k,
                forall|j: int| 0 <= j < k ==> out@[j] == self.signature[j],
            decreases 8 - k,
        {
            out.push(self.signature[k]);
            k = k + 1;
        }
        out.push(self.checksum);
        out.push(self.oem_id[0]);
        out.push(self.oem_id[1]);
        out.push(self.oem_id[2]);
        out.push(self.oem_id[3]);
        out.push(self.oem_id[4]);
        out.push(self.oem_id[5]);
        out.push(self.revision);
        push_u32_le(&mut out, self.rsdt_address);
        assert(out@ =~= rsdp10_bytes(*self));
        out
    }

    /// Verify the legacy checksum: all 20 bytes of the shape wrap to zero.
    pub fn verify_checksum(&self) -> (r: bool)
        ensures
            r == (byte_sum(rsdp10_bytes(*self)) % 256 == 0),
    {
        let bytes = self.to_bytes();
        let r = validate_region(bytes.as_slice(), RSDP_V1_SIZE);
        proof {
            assert(bytes@.take(RSDP_V1_SIZE as int) =~= bytes@);
        }
        r
    }

    /// Check if signature is valid: anchor matches and the checksum wraps
    /// to zero.
    pub fn is_valid(&self) -> (r: bool)
        ensures
            r == ((forall|k: int| 0 <= k < 8 ==> self.signature[k] == RSDP_SIGNATURE[k])
                && byte_sum(rsdp10_bytes(*self)) % 256 == 0),
    {
        let mut k: usize = 0;
        let mut anchor_ok = true;
        while k < 8
            invariant
                k <= 8,
                anchor_ok == (forall|j: int| 0 <= j < k ==> self.signature[j] == RSDP_SIGNATURE[j]),
            decreases 8 - k,
        {
            if self.signature[k] != RSDP_SIGNATURE[k] {
                anchor_ok = false;
            }
            k = k + 1;
        }
        anchor_ok && self.verify_checksum()
    }
}

impl RsdpDescriptor20 {
    /// The wire image of this descriptor, 36 bytes.
    pub fn to_bytes(&self) -> (out: Vec<u8>)
        ensures
            out@ == rsdp20_bytes(*self),
    {
        let mut out: Vec<u8> = Vec::new();
        let mut k: usize = 0;
        while k < 8
            invariant
                k <= 8,
                out@.len() == k,
                forall|j: int| 0 <= j < k ==> out@[j] == self.signature[j],
            decreases 8 - k,
        {
            out.push(self.signature[k]);
            k = k + 1;
        }
        out.push(self.checksum);
        out.push(self.oem_id[0]);
        out.push(self.oem_id[1]);
        out.push(self.oem_id[2]);
        out.push(self.oem_id[3]);
        out.push(self.oem_id[4]);
        out.push(self.oem_id[5]);
        out.push(self.revision);
        push_u32_le(&mut out, self.rsdt_address);
        push_u32_le(&mut out, self.length);
        push_u64_le(&mut out, self.xsdt_address);
        out.push(self.extended_checksum);
        out.push(self.reserved[0]);
        out.push(self.reserved[1]);
        out.push(self.reserved[2]);
        assert(out@ =~= rsdp20_bytes(*self));
        out
    }

    /// Verify the extended checksum: the declared `length` bytes of the
    /// shape wrap to zero.  A declared length past the 36-byte shape fails
    /// closed.
    pub fn verify_checksum(&self) -> (r: bool)
        ensures
            r == (self.length <= RSDP_V2_SIZE && byte_sum(
                rsdp20_bytes(*self).take(self.length as int),
            ) % 256 == 0),
    {
        let bytes = self.to_bytes();
        if self.length > RSDP_V2_SIZE as u32 {
            return false;
        }
        validate_region(bytes.as_slice(), self.length as usize)
    }

    /// Check if signature is valid: anchor matches and the extended
    /// checksum wraps to zero.
    pub fn is_valid(&self) -> (r: bool)
        ensures
            r == ((forall|k: int| 0 <= k < 8 ==> self.signature[k] == RSDP_SIGNATURE[k])
                && self.length <= RSDP_V2_SIZE && byte_sum(
                rsdp20_bytes(*self).take(self.length as int),
            ) % 256 == 0),
    {
        let mut k: usize = 0;
        let mut anchor_ok = true;
        while k < 8
            invariant
                k <= 8,
                anchor_ok == (forall|j: int| 0 <= j < k ==> self.signature[j] == RSDP_SIGNATURE[j]),
            decreases 8 - k,
        {
            if self.signature[k] != RSDP_SIGNATURE[k] {
                anchor_ok = false;
            }
            k = k + 1;
        }
        anchor_ok && self.verify_checksum()
    }
}

/// Entry count of a root pointer table: (declared length - header size) /
/// pointer width, clamped to zero when the declared length is smaller than
/// the header.
pub open spec fn root_entry_count(length: int, width: int) -> int
    recommends
        width == 4 || width == 8,
{
    if length < 36 {
        0
    } else {
        (length - 36) / width
    }
}

/// The entry count law of root pointer tables: a declared length of
/// header size plus `k` pointer widths yields exactly `k` entries; a
/// length equal to the header size yields none; a length smaller than the
/// header size also yields none rather than wrapping around.
pub proof fn lemma_root_entry_count(k: int, width: int)
    requires
        0 <= k,
        width == 4 || width == 8,
    ensures
        root_entry_count(36 + width * k, width) == k,
        root_entry_count(36, width) == 0,
        forall|l: int| l < 36 ==> root_entry_count(l, width) == 0,
{
    vstd::arithmetic::div_mod::lemma_div_multiples_vanish(k, width);
    assert(width * k >= 0) by (nonlinear_arith)
        requires
            width > 0,
            k >= 0,
    ;
}

impl AcpiTableHeader {
    /// Check if signature matches
    pub fn has_signature(&self, sig: &[u8; 4]) -> (r: bool)
        ensures
            r == (self.signature == *sig),
    {
        let r = self.signature[0] == sig[0] && self.signature[1] == sig[1] && self.signature[2]
            == sig[2] && self.signature[3] == sig[3];
        proof {
            if r {
                assert(self.signature =~= *sig);
            }
        }
        r
    }

    /// Verify the checksum of the whole table this header starts: the
    /// declared `length` bytes of `table` wrap to zero.  The caller hands
    /// in the full table region, header included.
    pub fn verify_checksum(&self, table: &[u8]) -> (r: bool)
        ensures
            r == region_checksum_ok(table@, self.length as int),
    {
        validate_region(table, self.length as usize)
    }
}

impl Rsdt {
    /// The number of 32-bit table addresses declared by the header,
    /// clamped to zero when the declared length is below the header size.
    pub fn entry_count(&self) -> (count: usize)
        ensures
            count as int == root_entry_count(self.header.length as int, 4),
    {
        if self.header.length < ACPI_HEADER_SIZE as u32 {
            0
        } else {
            ((self.header.length - ACPI_HEADER_SIZE as u32) / 4) as usize
        }
    }
}

impl Xsdt {
    /// The number of 64-bit table addresses declared by the header,
    /// clamped to zero when the declared length is below the header size.
    pub fn entry_count(&self) -> (count: usize)
        ensures
            count as int == root_entry_count(self.header.length as int, 8),
    {
        if self.header.length < ACPI_HEADER_SIZE as u32 {
            0
        } else {
            ((self.header.length - ACPI_HEADER_SIZE as u32) / 8) as usize
        }
    }
}

/// FADT (Fixed ACPI Description Table)
#[derive(Debug, Copy, Clone)]
pub struct Fadt {
    pub header: AcpiTableHeader,
    pub firmware_ctrl: u32,
    pub dsdt: u32,
    pub reserved: u8,
    pub preferred_pm_profile: u8,
    pub sci_int: u16,
    pub smi_cmd: u32,
    pub acpi_enable: u8,
    pub acpi_disable: u8,
    pub s4bios_req: u8,
    pub pstate_cnt: u8,
    pub pm1a_evt_blk: u32,
    pub pm1b_evt_blk: u32,
    pub pm1a_cnt_blk: u32,
    pub pm1b_cnt_blk: u32,
    pub pm2_cnt_blk: u32,
    pub pm_tmr_blk: u32,
    pub gpe0_blk: u32,
    pub gpe1_blk: u32,
    pub pm1_evt_len: u8,
    pub pm1_cnt_len: u8,
    pub pm2_cnt_len: u8,
    pub pm_tmr_len: u8,
    pub gpe0_blk_len: u8,
    pub gpe1_blk_len: u8,
    pub gpe1_base: u8,
    pub cst_cnt: u8,
    pub p_lvl2_lat: u16,
    pub p_lvl3_lat: u16,
    pub flush_size: u16,
    pub flush_stride: u16,
    pub duty_offset: u8,
    pub duty_width: u8,
    pub day_alrm: u8,
    pub mon_alrm: u8,
    pub century: u8,
    pub iapc_boot_arch: u16,
    pub reserved2: u8,
    pub flags: u32,
}

/// MADT (Multiple APIC Description Table)
#[derive(Debug, Copy, Clone)]
pub struct Madt {
    pub header: AcpiTableHeader,
    pub local_apic_address: u32,
    pub flags: u32,
}

/// The root discovery pointer, tagged by the shape selected at parse time.
#[derive(Debug, Copy, Clone)]
pub enum RootPointer {
    /// Legacy shape: revision below 2, 20 bytes, legacy checksum.
    V1(RsdpDescriptor10),
    /// Extended shape: revision 2 or above, extended checksum.
    V2(RsdpDescriptor20),
}

/// Which root pointer table a discovery pointer designates: the narrow
/// table of 32-bit addresses or the wide table of 64-bit addresses.
#[derive(Debug, Copy, Clone, PartialEq, Eq, Structural)]
pub enum RootTableRef {
    Narrow(u32),
    Wide(u64),
}

/// Decode the 20-byte legacy root pointer shape stored at `off`, without
/// validating it.
pub fn parse_rsdp10_at(memory: &[u8], off: usize) -> (r: Option<RsdpDescriptor10>)
    ensures
        match r {
            Some(d) => off + 20 <= memory@.len() && rsdp10_bytes(d) == memory@.subrange(
                off as int,
                off + 20,
            ),
            None => off + 20 > memory@.len(),
        },
{
    let n: usize = memory.len();
    if off > n || n - off < 20 {
        return None;
    }
    let d = RsdpDescriptor10 {
        signature: [
            memory[off],
            memory[off + 1],
            memory[off + 2],
            memory[off + 3],
            memory[off + 4],
            memory[off + 5],
            memory[off + 6],
            memory[off + 7],
        ],
        checksum: memory[off + 8],
        oem_id: [
            memory[off + 9],
            memory[off + 10],
            memory[off + 11],
            memory[off + 12],
            memory[off + 13],
            memory[off + 14],
        ],
        revision: memory[off + 15],
        rsdt_address: read_u32_le(memory, off + 16),
    };
    proof {
        crate::bytes::lemma_u32_le_roundtrip(memory@, off + 16, d.rsdt_address);
        assert(rsdp10_bytes(d) =~= memory@.subrange(off as int, off + 20));
    }
    Some(d)
}

/// Decode the 36-byte extended root pointer shape stored at `off`, without
/// validating it.
pub fn parse_rsdp20_at(memory: &[u8], off: usize) -> (r: Option<RsdpDescriptor20>)
    ensures
        match r {
            Some(d) => off + 36 <= memory@.len() && rsdp20_bytes(d) == memory@.subrange(
                off as int,
                off + 36,
            ),
            None => off + 36 > memory@.len(),
        },
{
    let n: usize = memory.len();
    if off > n || n - off < 36 {
        return None;
    }
    let d = RsdpDescriptor20 {
        signature: [
            memory[off],
            memory[off + 1],
            memory[off + 2],
            memory[off + 3],
            memory[off + 4],
            memory[off + 5],
            memory[off + 6],
            memory[off + 7],
        ],
        checksum: memory[off + 8],
        oem_id: [
            memory[off + 9],
            memory[off + 10],
            memory[off + 11],
            memory[off + 12],
            memory[off + 13],
            memory[off + 14],
        ],
        revision: memory[off + 15],
        rsdt_address: read_u32_le(memory, off + 16),
        length: read_u32_le(memory, off + 20),
        xsdt_address: read_u64_le(memory, off + 24),
        extended_checksum: memory[off + 32],
        reserved: [memory[off + 33], memory[off + 34], memory[off + 35]],
    };
    proof {
        crate::bytes::lemma_u32_le_roundtrip(memory@, off + 16, d.rsdt_address);
        crate::bytes::lemma_u32_le_roundtrip(memory@, off + 20, d.length);
        crate::bytes::lemma_u64_le_roundtrip(memory@, off + 24, d.xsdt_address);
        assert(rsdp20_bytes(d) =~= memory@.subrange(off as int, off + 36));
    }
    Some(d)
}

/// Parse and validate a root discovery pointer from a byte region.
///
/// The anchor string is checked first; then the checksum region is selected
/// by revision: the first 20 bytes for revision below 2, the declared
/// `length` bytes for revision 2 and above.  Each failure surfaces the
/// specific reason so a caller can try an alternative table shape.
pub fn parse_rsdp(region: &[u8]) -> (r: Result<RootPointer, ValidationError>)
    ensures
        match r {
            Ok(RootPointer::V1(d)) => {
                &&& region@.len() >= 20
                &&& rsdp_has_anchor(region@)
                &&& region@[15] < 2
                &&& region_checksum_ok(region@, 20)
                &&& rsdp10_bytes(d) == region@.take(20)
            },
            Ok(RootPointer::V2(d)) => {
                &&& region@.len() >= 36
                &&& rsdp_has_anchor(region@)
                &&& region@[15] >= 2
                &&& 36 <= u32_le(region@, 20) <= region@.len()
                &&& region_checksum_ok(region@, u32_le(region@, 20))
                &&& rsdp20_bytes(d) == region@.take(36)
            },
            Err(ValidationError::LengthOutOfBounds) => region@.len() < 20 || (rsdp_has_anchor(
                region@,
            ) && region@[15] >= 2 && (region@.len() < 36 || !(36 <= u32_le(region@, 20)
                <= region@.len()))),
            Err(ValidationError::InvalidAnchor) => region@.len() >= 20 && !rsdp_has_anchor(region@),
            Err(ValidationError::ChecksumMismatch) => {
                &&& region@.len() >= 20
                &&& rsdp_has_anchor(region@)
                &&& if region@[15] < 2 {
                    !region_checksum_ok(region@, 20)
                } else {
                    region@.len() >= 36 && 36 <= u32_le(region@, 20) <= region@.len()
                        && !region_checksum_ok(region@, u32_le(region@, 20))
                }
            },
        },
{
    let n: usize = region.len();
    if n < RSDP_V1_SIZE {
        return Err(ValidationError::LengthOutOfBounds);
    }
    let mut k: usize = 0;
    while k < 8
        invariant
            k <= 8,
            region@.len() >= 20,
            forall|j: int| 0 <= j < k ==> region@[j] == RSDP_SIGNATURE[j],
        decreases 8 - k,
    {
        if region[k] != RSDP_SIGNATURE[k] {
            return Err(ValidationError::InvalidAnchor);
        }
        k = k + 1;
    }
    let revision = region[15];
    if revision < 2 {
        if !validate_region(region, RSDP_V1_SIZE) {
            return Err(ValidationError::ChecksumMismatch);
        }
        let d = RsdpDescriptor10 {
            signature: [
                region[0],
                region[1],
                region[2],
                region[3],
                region[4],
                region[5],
                region[6],
                region[7],
            ],
            checksum: region[8],
            oem_id: [region[9], region[10], region[11], region[12], region[13], region[14]],
            revision,
            rsdt_address: read_u32_le(region, 16),
        };
        proof {
            crate::bytes::lemma_u32_le_roundtrip(region@, 16, d.rsdt_address);
            assert(rsdp10_bytes(d) =~= region@.take(20));
        }
        Ok(RootPointer::V1(d))
    } else {
        if n < RSDP_V2_SIZE {
            return Err(ValidationError::LengthOutOfBounds);
        }
        let length = read_u32_le(region, 20);
        if length < RSDP_V2_SIZE as u32 {
            return Err(ValidationError::LengthOutOfBounds);
        }
        if length as usize > n {
            return Err(ValidationError::LengthOutOfBounds);
        }
        if !validate_region(region, length as usize) {
            return Err(ValidationError::ChecksumMismatch);
        }
        let d = RsdpDescriptor20 {
            signature: [
                region[0],
                region[1],
                region[2],
                region[3],
                region[4],
                region[5],
                region[6],
                region[7],
            ],
            checksum: region[8],
            oem_id: [region[9], region[10], region[11], region[12], region[13], region[14]],
            revision,
            rsdt_address: read_u32_le(region, 16),
            length,
            xsdt_address: read_u64_le(region, 24),
            extended_checksum: region[32],
            reserved: [region[33], region[34], region[35]],
        };
        proof {
            crate::bytes::lemma_u32_le_roundtrip(region@, 16, d.rsdt_address);
            crate::bytes::lemma_u32_le_roundtrip(region@, 20, d.length);
            crate::bytes::lemma_u64_le_roundtrip(region@, 24, d.xsdt_address);
            assert(rsdp20_bytes(d) =~= region@.take(36));
        }
        Ok(RootPointer::V2(d))
    }
}

/// The table selection policy of the locator, as a spec-level function:
/// prefer the wide table when the pointer's revision is 2 or above and its
/// wide address is non-zero; degrade to the narrow table otherwise.
pub open spec fn spec_select_root_table(rp: RootPointer) -> RootTableRef {
    match rp {
        RootPointer::V1(d) => RootTableRef::Narrow(d.rsdt_address),
        RootPointer::V2(d) => if d.revision >= 2 && d.xsdt_address != 0 {
            RootTableRef::Wide(d.xsdt_address)
        } else {
            RootTableRef::Narrow(d.rsdt_address)
        },
    }
}

/// Select the root pointer table designated by a discovery pointer.
pub fn select_root_table(rp: &RootPointer) -> (r: RootTableRef)
    ensures
        r == spec_select_root_table(*rp),
{
    match rp {
        RootPointer::V1(d) => RootTableRef::Narrow(d.rsdt_address),
        RootPointer::V2(d) => {
            if d.revision >= 2 && d.xsdt_address != 0 {
                RootTableRef::Wide(d.xsdt_address)
            } else {
                RootTableRef::Narrow(d.rsdt_address)
            }
        },
    }
}

/// Offset of entry `i` of a root pointer table that starts at `root`.
pub open spec fn entry_offset(root: int, width: int, i: int) -> int {
    root + 36 + width * i
}

/// The address stored in entry `i` of the root pointer table at `root`.
pub open spec fn entry_addr(s: Seq<u8>, root: int, width: int, i: int) -> int {
    if width == 4 {
        u32_le(s, entry_offset(root, width, i))
    } else {
        u64_le(s, entry_offset(root, width, i))
    }
}

/// Entry `i` is declared by the root table's header and lies fully inside
/// the supplied region.
pub open spec fn entry_present(s: Seq<u8>, root: int, width: int, i: int) -> bool {
    &&& 0 <= i < root_entry_count(u32_le(s, root + 4), width)
    &&& entry_offset(root, width, i) + width <= s.len()
}

/// Entry `i` points at a readable table whose 4-byte signature equals `sig`.
pub open spec fn entry_matches(s: Seq<u8>, root: int, width: int, i: int, sig: Seq<u8>) -> bool {
    &&& entry_present(s, root, width, i)
    &&& entry_addr(s, root, width, i) != 0
    &&& entry_addr(s, root, width, i) + 4 <= s.len()
    &&& s.subrange(entry_addr(s, root, width, i), entry_addr(s, root, width, i) + 4) == sig
}

/// Walk the entries of a root pointer table located at offset `root` of
/// `memory`, and return the offset of the first table whose signature is
/// `signature`.  Entries that reach past the region, hold a zero address,
/// or point at an unreadable signature are skipped.
pub fn find_in_root(memory: &[u8], root: usize, width: usize, signature: &[u8; 4]) -> (r: Option<
    usize,
>)
    requires
        width == 4 || width == 8,
    ensures
        match r {
            Some(off) => exists|i: int|
                #[trigger] entry_matches(memory@, root as int, width as int, i, signature@) && off
                    == entry_addr(memory@, root as int, width as int, i) && (forall|j: int|
                    0 <= j < i ==> !entry_matches(
                        memory@,
                        root as int,
                        width as int,
                        j,
                        signature@,
                    )),
            None => forall|i: int|
                !entry_matches(memory@, root as int, width as int, i, signature@),
        },
{
    let n: usize = memory.len();
    if root > n || n - root < ACPI_HEADER_SIZE {
        proof {
            assert forall|i: int|
                !entry_matches(memory@, root as int, width as int, i, signature@) by {
                if entry_present(memory@, root as int, width as int, i) {
                    assert(width * i >= 0) by (nonlinear_arith)
                        requires
                            width as int > 0,
                            i >= 0,
                    ;
                }
            }
        }
        return None;
    }
    let length = read_u32_le(memory, root + 4);
    let count: usize = if length < 36 {
        0
    } else {
        ((length - 36) as usize) / width
    };
    let ghost gcount = root_entry_count(u32_le(memory@, root as int + 4), width as int);
    assert(count as int == gcount);
    let mut i: usize = 0;
    let mut e_off: usize = root + ACPI_HEADER_SIZE;
    while i < count && e_off <= n - width
        invariant
            memory@.len() == n,
            n >= 36,
            width == 4 || width == 8,
            root + 36 <= n,
            i <= count,
            count == gcount,
            gcount == root_entry_count(u32_le(memory@, root as int + 4), width as int),
            e_off == entry_offset(root as int, width as int, i as int),
            e_off >= root + 36,
            e_off <= n,
            forall|j: int|
                0 <= j < i ==> !entry_matches(memory@, root as int, width as int, j, signature@),
        decreases count - i,
    {
        let a: u64 = if width == 4 {
            read_u32_le(memory, e_off) as u64
        } else {
            read_u64_le(memory, e_off)
        };
        if a != 0 && a <= (n as u64) - 4 {
            let t = a as usize;
            if memory[t] == signature[0] && memory[t + 1] == signature[1] && memory[t + 2]
                == signature[2] && memory[t + 3] == signature[3] {
                proof {
                    assert(memory@.subrange(t as int, t as int + 4) =~= signature@);
                    assert(entry_matches(memory@, root as int, width as int, i as int, signature@));
                }
                return Some(t);
            }
        }
        proof {
            if entry_matches(memory@, root as int, width as int, i as int, signature@) {
                let ga = entry_addr(memory@, root as int, width as int, i as int);
                assert(ga == a as int);
                let t = ga;
                assert(memory@.subrange(t, t + 4)[0] == memory@[t]);
                assert(memory@.subrange(t, t + 4)[1] == memory@[t + 1]);
                assert(memory@.subrange(t, t + 4)[2] == memory@[t + 2]);
                assert(memory@.subrange(t, t + 4)[3] == memory@[t + 3]);
                assert(false);
            }
            assert(width * (i + 1) == width * i + width) by (nonlinear_arith);
        }
        i = i + 1;
        e_off = e_off + width;
    }
    proof {
        assert forall|j: int|
            !entry_matches(memory@, root as int, width as int, j, signature@) by {
            if 0 <= j < i {
            } else if entry_present(memory@, root as int, width as int, j) {
                assert(j >= i);
                if i < count {
                    assert(e_off > n - width);
                    assert(width * j >= width * i) by (nonlinear_arith)
                        requires
                            width as int > 0,
                            j >= i,
                    ;
                    assert(entry_offset(root as int, width as int, j) + width > n);
                } else {
                    assert(j >= gcount);
                }
            }
        }
    }
    None
}

/// Find a root-table entry by signature inside a narrow (32-bit address)
/// root pointer table.
pub fn find_in_rsdt(memory: &[u8], rsdt_addr: u32, signature: &[u8; 4]) -> (r: Option<usize>)
    ensures
        match r {
            Some(off) => exists|i: int|
                #[trigger] entry_matches(memory@, rsdt_addr as int, 4, i, signature@) && off
                    == entry_addr(memory@, rsdt_addr as int, 4, i) && (forall|j: int|
                    0 <= j < i ==> !entry_matches(memory@, rsdt_addr as int, 4, j, signature@)),
            None => forall|i: int| !entry_matches(memory@, rsdt_addr as int, 4, i, signature@),
        },
{
    find_in_root(memory, rsdt_addr as usize, 4, signature)
}

/// Find a root-table entry by signature inside a wide (64-bit address)
/// root pointer table.
pub fn find_in_xsdt(memory: &[u8], xsdt_addr: u64, signature: &[u8; 4]) -> (r: Option<usize>)
    ensures
        xsdt_addr <= usize::MAX ==> match r {
            Some(off) => exists|i: int|
                #[trigger] entry_matches(memory@, xsdt_addr as int, 8, i, signature@) && off
                    == entry_addr(memory@, xsdt_addr as int, 8, i) && (forall|j: int|
                    0 <= j < i ==> !entry_matches(memory@, xsdt_addr as int, 8, j, signature@)),
            None => forall|i: int| !entry_matches(memory@, xsdt_addr as int, 8, i, signature@),
        },
        xsdt_addr > usize::MAX ==> r is None,
{
    if xsdt_addr > usize::MAX as u64 {
        return None;
    }
    find_in_root(memory, xsdt_addr as usize, 8, signature)
}

/// Locates sub-tables of the ACPI table tree by their 4-byte signature.
pub struct AcpiTableFinder;

/// The result of the locator on a whole memory region: the offset of the
/// first entry of the selected root table that matches the signature.
pub open spec fn spec_find_table(
    s: Seq<u8>,
    rp: RootPointer,
    sig: Seq<u8>,
    r: Option<usize>,
) -> bool {
    match spec_select_root_table(rp) {
        RootTableRef::Narrow(a) => if a == 0 {
            r is None
        } else {
            match r {
                Some(off) => exists|i: int|
                    #[trigger] entry_matches(s, a as int, 4, i, sig) && off == entry_addr(
                        s,
                        a as int,
                        4,
                        i,
                    ) && (forall|j: int| 0 <= j < i ==> !entry_matches(s, a as int, 4, j, sig)),
                None => forall|i: int| !entry_matches(s, a as int, 4, i, sig),
            }
        },
        RootTableRef::Wide(a) => if a > usize::MAX {
            r is None
        } else {
            match r {
                Some(off) => exists|i: int|
                    #[trigger] entry_matches(s, a as int, 8, i, sig) && off == entry_addr(
                        s,
                        a as int,
                        8,
                        i,
                    ) && (forall|j: int| 0 <= j < i ==> !entry_matches(s, a as int, 8, j, sig)),
                None => forall|i: int| !entry_matches(s, a as int, 8, i, sig),
            }
        },
    }
}

/// The locator's result is determined: two offsets that both satisfy the
/// locator's success condition are the same offset.
pub proof fn lemma_find_table_result_unique(
    s: Seq<u8>,
    rp: RootPointer,
    sig: Seq<u8>,
    a: usize,
    b: usize,
)
    requires
        spec_find_table(s, rp, sig, Some(a)),
        spec_find_table(s, rp, sig, Some(b)),
    ensures
        a == b,
{
    match spec_select_root_table(rp) {
        RootTableRef::Narrow(root) => {
            let ia = choose|i: int|
                #[trigger] entry_matches(s, root as int, 4, i, sig) && a == entry_addr(
                    s,
                    root as int,
                    4,
                    i,
                ) && (forall|j: int| 0 <= j < i ==> !entry_matches(s, root as int, 4, j, sig));
            let ib = choose|i: int|
                #[trigger] entry_matches(s, root as int, 4, i, sig) && b == entry_addr(
                    s,
                    root as int,
                    4,
                    i,
                ) && (forall|j: int| 0 <= j < i ==> !entry_matches(s, root as int, 4, j, sig));
            if ia < ib {
                assert(!entry_matches(s, root as int, 4, ia, sig));
            } else if ib < ia {
                assert(!entry_matches(s, root as int, 4, ib, sig));
            }
        },
        RootTableRef::Wide(root) => {
            let ia = choose|i: int|
                #[trigger] entry_matches(s, root as int, 8, i, sig) && a == entry_addr(
                    s,
                    root as int,
                    8,
                    i,
                ) && (forall|j: int| 0 <= j < i ==> !entry_matches(s, root as int, 8, j, sig));
            let ib = choose|i: int|
                #[trigger] entry_matches(s, root as int, 8, i, sig) && b == entry_addr(
                    s,
                    root as int,
                    8,
                    i,
                ) && (forall|j: int| 0 <= j < i ==> !entry_matches(s, root as int, 8, j, sig));
            if ia < ib {
                assert(!entry_matches(s, root as int, 8, ia, sig));
            } else if ib < ia {
                assert(!entry_matches(s, root as int, 8, ib, sig));
            }
        },
    }
}

impl AcpiTableFinder {
    /// Find a table by signature: select the root pointer table designated
    /// by `rp`, walk its entries inside `memory`, and return the offset of
    /// the first table whose signature matches.  The checksum of the found
    /// table is not re-validated here; callers who need per-table
    /// integrity run the checksum validation against the returned offset.
    pub fn find_table(memory: &[u8], rp: &RootPointer, signature: &[u8; 4]) -> (r: Option<usize>)
        ensures
            spec_find_table(memory@, *rp, signature@, r),
    {
        match select_root_table(rp) {
            RootTableRef::Narrow(a) => {
                if a == 0 {
                    None
                } else {
                    find_in_rsdt(memory, a, signature)
                }
            },
            RootTableRef::Wide(a) => find_in_xsdt(memory, a, signature),
        }
    }
}

} // verus!
