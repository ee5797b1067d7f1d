//! The system table: the root structure firmware hands to an
//! application.  Every published pointer is an opaque address value.

use vstd::prelude::*;

use crate::ffi::TableHeader;

verus! {

/// "IBI SYST" read as a little-endian 64-bit value.
pub const EFI_SYSTEM_TABLE_SIGNATURE: u64 = 0x5453595320494249;

/// EFI_SYSTEM_TABLE; consoles, service tables and the configuration
/// directory are opaque address values.
#[derive(Debug, Copy, Clone)]
pub struct SystemTable {
    pub hdr: TableHeader,
    pub firmware_vendor: usize,
    pub firmware_revision: u32,
    pub console_in_handle: usize,
    pub con_in: usize,
    pub console_out_handle: usize,
    pub con_out: usize,
    pub standard_error_handle: usize,
    pub std_err: usize,
    pub runtime_services: usize,
    pub boot_services: usize,
    pub number_of_table_entries: usize,
    pub configuration_table: usize,
}

} // verus!
