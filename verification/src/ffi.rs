//! Core firmware interface types: scalar aliases, status codes, identifiers
//! and the common table header.
//!
//! Opaque firmware addresses are modelled as plain integers throughout this
//! crate; all parsing logic works over caller-supplied byte regions instead
//! of dereferencing addresses.

use vstd::prelude::*;

verus! {

/// BOOLEAN type
pub type Boolean = u8;

/// INTN type
pub type Intn = isize;

/// UINTN type
pub type Uintn = usize;

/// INT8
pub type Int8 = i8;

/// UINT8
pub type Uint8 = u8;

/// INT16
pub type Int16 = i16;

/// UINT16
pub type Uint16 = u16;

/// INT32
pub type Int32 = i32;

/// UINT32
pub type Uint32 = u32;

/// INT64
pub type Int64 = i64;

/// UINT64
pub type Uint64 = u64;

/// CHAR8
pub type Char8 = u8;

/// CHAR16
pub type Char16 = u16;

/// EFI_STATUS
pub type Status = usize;

pub const FALSE: Boolean = 0;

pub const TRUE: Boolean = 1;

/// EFI_EVENT, modelled as an opaque address value
pub type Event = usize;

/// EFI_TPL (Task Priority Level)
pub type Tpl = usize;

// Standard TPL levels
pub const TPL_APPLICATION: Tpl = 4;

pub const TPL_CALLBACK: Tpl = 8;

pub const TPL_NOTIFY: Tpl = 16;

pub const TPL_HIGH_LEVEL: Tpl = 31;

/// EFI_PHYSICAL_ADDRESS
pub type PhysicalAddress = u64;

/// EFI_VIRTUAL_ADDRESS
pub type VirtualAddress = u64;

/// EFI_GUID structure
#[derive(Copy, Clone, Debug)]
pub struct Guid {
    pub data1: u32,
    pub data2: u16,
    pub data3: u16,
    pub data4: [u8; 8],
}

impl Guid {
    pub fn new(data1: u32, data2: u16, data3: u16, data4: [u8; 8]) -> (g: Guid)
        ensures
            g == (Guid { data1, data2, data3, data4 }),
    {
        Guid { data1, data2, data3, data4 }
    }
}

impl PartialEq for Guid {
    fn eq(&self, other: &Guid) -> (r: bool) {
        let tail_eq = self.data4[0] == other.data4[0] && self.data4[1] == other.data4[1]
            && self.data4[2] == other.data4[2] && self.data4[3] == other.data4[3]
            && self.data4[4] == other.data4[4] && self.data4[5] == other.data4[5]
            && self.data4[6] == other.data4[6] && self.data4[7] == other.data4[7];
        proof {
            if tail_eq {
                assert(self.data4 =~= other.data4);
            }
        }
        self.data1 == other.data1 && self.data2 == other.data2 && self.data3 == other.data3
            && tail_eq
    }
}

impl vstd::std_specs::cmp::PartialEqSpecImpl for Guid {
    open spec fn obeys_eq_spec() -> bool {
        true
    }

    open spec fn eq_spec(&self, other: &Guid) -> bool {
        self.data1 == other.data1 && self.data2 == other.data2 && self.data3 == other.data3
            && self.data4 == other.data4
    }
}

impl Eq for Guid {

}

/// UEFI Handle, modelled as an opaque address value
#[derive(Copy, Clone, Debug)]
pub struct Handle {
    pub addr: usize,
}

impl Handle {
    /// Wrap a raw handle address handed over by the platform.
    pub fn from_addr(addr: usize) -> (h: Handle)
        ensures
            h.addr == addr,
    {
        Handle { addr }
    }

    /// The raw address value this handle stands for.
    pub fn as_ptr(&self) -> (a: usize)
        ensures
            a == self.addr,
    {
        self.addr
    }
}

/// Memory Type
#[derive(Debug, Copy, Clone, PartialEq, Eq, Structural)]
pub enum MemoryType {
    ReservedMemoryType,
    LoaderCode,
    LoaderData,
    BootServicesCode,
    BootServicesData,
    RuntimeServicesCode,
    RuntimeServicesData,
    ConventionalMemory,
    UnusableMemory,
    ACPIReclaimMemory,
    ACPIMemoryNVS,
    MemoryMappedIO,
    MemoryMappedIOPortSpace,
    PalCode,
    PersistentMemory,
    MaxMemoryType,
}

/// Allocate Type
#[derive(Debug, Copy, Clone, PartialEq, Eq, Structural)]
pub enum AllocateType {
    AllocateAnyPages,
    AllocateMaxAddress,
    AllocateAddress,
    MaxAllocateType,
}

/// EFI_MEMORY_DESCRIPTOR
#[derive(Debug, Copy, Clone)]
pub struct MemoryDescriptor {
    pub memory_type: u32,
    pub physical_start: PhysicalAddress,
    pub virtual_start: VirtualAddress,
    pub number_of_pages: u64,
    pub attribute: u64,
}

// Memory attribute bits
pub const EFI_MEMORY_UC: u64 = 0x0000000000000001;

pub const EFI_MEMORY_WC: u64 = 0x0000000000000002;

pub const EFI_MEMORY_WT: u64 = 0x0000000000000004;

pub const EFI_MEMORY_WB: u64 = 0x0000000000000008;

pub const EFI_MEMORY_UCE: u64 = 0x0000000000000010;

pub const EFI_MEMORY_WP: u64 = 0x0000000000001000;

pub const EFI_MEMORY_RP: u64 = 0x0000000000002000;

pub const EFI_MEMORY_XP: u64 = 0x0000000000004000;

pub const EFI_MEMORY_RUNTIME: u64 = 0x8000000000000000;

// Success codes
pub const EFI_SUCCESS: Status = 0;

// Error bit: the most significant bit of EFI_STATUS
pub const ERROR_BIT: usize = 1 << (usize::BITS - 1);

// Error codes
pub const EFI_LOAD_ERROR: Status = ERROR_BIT | 1;

pub const EFI_INVALID_PARAMETER: Status = ERROR_BIT | 2;

pub const EFI_UNSUPPORTED: Status = ERROR_BIT | 3;

pub const EFI_BAD_BUFFER_SIZE: Status = ERROR_BIT | 4;

pub const EFI_BUFFER_TOO_SMALL: Status = ERROR_BIT | 5;

pub const EFI_NOT_READY: Status = ERROR_BIT | 6;

pub const EFI_DEVICE_ERROR: Status = ERROR_BIT | 7;

pub const EFI_WRITE_PROTECTED: Status = ERROR_BIT | 8;

pub const EFI_OUT_OF_RESOURCES: Status = ERROR_BIT | 9;

pub const EFI_VOLUME_CORRUPTED: Status = ERROR_BIT | 10;

pub const EFI_VOLUME_FULL: Status = ERROR_BIT | 11;

pub const EFI_NO_MEDIA: Status = ERROR_BIT | 12;

pub const EFI_MEDIA_CHANGED: Status = ERROR_BIT | 13;

pub const EFI_NOT_FOUND: Status = ERROR_BIT | 14;

pub const EFI_ACCESS_DENIED: Status = ERROR_BIT | 15;

pub const EFI_NO_RESPONSE: Status = ERROR_BIT | 16;

pub const EFI_NO_MAPPING: Status = ERROR_BIT | 17;

pub const EFI_TIMEOUT: Status = ERROR_BIT | 18;

pub const EFI_NOT_STARTED: Status = ERROR_BIT | 19;

pub const EFI_ALREADY_STARTED: Status = ERROR_BIT | 20;

pub const EFI_ABORTED: Status = ERROR_BIT | 21;

pub const EFI_ICMP_ERROR: Status = ERROR_BIT | 22;

pub const EFI_TFTP_ERROR: Status = ERROR_BIT | 23;

pub const EFI_PROTOCOL_ERROR: Status = ERROR_BIT | 24;

pub const EFI_INCOMPATIBLE_VERSION: Status = ERROR_BIT | 25;

pub const EFI_SECURITY_VIOLATION: Status = ERROR_BIT | 26;

pub const EFI_CRC_ERROR: Status = ERROR_BIT | 27;

pub const EFI_END_OF_MEDIA: Status = ERROR_BIT | 28;

pub const EFI_END_OF_FILE: Status = ERROR_BIT | 31;

pub const EFI_INVALID_LANGUAGE: Status = ERROR_BIT | 32;

pub const EFI_COMPROMISED_DATA: Status = ERROR_BIT | 33;

// Warning codes
pub const EFI_WARN_UNKNOWN_GLYPH: Status = 1;

pub const EFI_WARN_DELETE_FAILURE: Status = 2;

pub const EFI_WARN_WRITE_FAILURE: Status = 3;

pub const EFI_WARN_BUFFER_TOO_SMALL: Status = 4;

pub const EFI_WARN_STALE_DATA: Status = 5;

/// Check if status is an error
pub fn is_error(status: Status) -> (r: bool)
    ensures
        r == ((status & ERROR_BIT) != 0),
{
    (status & ERROR_BIT) != 0
}

/// Check if status is success
pub fn is_success(status: Status) -> (r: bool)
    ensures
        r == (status == EFI_SUCCESS),
{
    status == EFI_SUCCESS
}

/// EFI_TABLE_HEADER
#[derive(Debug, Copy, Clone)]
pub struct TableHeader {
    pub signature: Uint64,
    pub revision: Uint32,
    pub header_size: Uint32,
    pub crc32: Uint32,
    pub reserved: Uint32,
}

impl TableHeader {
    /// Verify the table header signature
    pub fn verify_signature(&self, expected: u64) -> (r: bool)
        ensures
            r == (self.signature == expected),
    {
        self.signature == expected
    }
}

} // verus!
