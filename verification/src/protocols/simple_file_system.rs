//! Simple file system protocol structures.

use vstd::prelude::*;

use crate::ffi::Guid;

verus! {

/// Identifier of the simple file system protocol.
pub fn simple_file_system_protocol_guid() -> (g: Guid)
    ensures
        g == (Guid { data1: 0x964e5b22, data2: 0x6459, data3: 0x11d2, data4: [0x8e, 0x39, 0x00, 0xa0, 0xc9, 0x69, 0x72, 0x3b] }),
{
    Guid { data1: 0x964e5b22, data2: 0x6459, data3: 0x11d2, data4: [0x8e, 0x39, 0x00, 0xa0, 0xc9, 0x69, 0x72, 0x3b] }
}

/// Identifier of the file information structure.
pub fn file_info_guid() -> (g: Guid)
    ensures
        g == (Guid { data1: 0x09576e92, data2: 0x6d3f, data3: 0x11d2, data4: [0x8e, 0x39, 0x00, 0xa0, 0xc9, 0x69, 0x72, 0x3b] }),
{
    Guid { data1: 0x09576e92, data2: 0x6d3f, data3: 0x11d2, data4: [0x8e, 0x39, 0x00, 0xa0, 0xc9, 0x69, 0x72, 0x3b] }
}

pub const EFI_FILE_PROTOCOL_REVISION: u64 = 0x00010000;

pub const EFI_FILE_PROTOCOL_REVISION2: u64 = 0x00020000;

/// EFI_SIMPLE_FILE_SYSTEM_PROTOCOL, its service as an opaque address
/// value.
#[derive(Debug, Copy, Clone)]
pub struct SimpleFileSystemProtocol {
    pub revision: u64,
    pub open_volume: usize,
}

/// EFI_FILE_PROTOCOL, its services as opaque address values.
#[derive(Debug, Copy, Clone)]
pub struct FileProtocol {
    pub revision: u64,
    pub open: usize,
    pub close: usize,
    pub delete: usize,
    pub read: usize,
    pub write: usize,
    pub get_position: usize,
    pub set_position: usize,
    pub get_info: usize,
    pub set_info: usize,
    pub flush: usize,
}

/// EFI_FILE_INFO without its trailing variable-length name.
#[derive(Debug, Copy, Clone)]
pub struct FileInfo {
    pub size: u64,
    pub file_size: u64,
    pub physical_size: u64,
    pub create_time: crate::runtime_services::time::Time,
    pub last_access_time: crate::runtime_services::time::Time,
    pub modification_time: crate::runtime_services::time::Time,
    pub attribute: u64,
}

} // verus!
