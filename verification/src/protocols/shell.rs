//! Shell protocol structures, status codes and file attribute bits.

use vstd::prelude::*;

use crate::ffi::Guid;

verus! {

/// Identifier of the shell protocol.
pub fn shell_protocol_guid() -> (g: Guid)
    ensures
        g == (Guid { data1: 0x6302d008, data2: 0x7f9b, data3: 0x4f30, data4: [0x87, 0xac, 0x60, 0xc9, 0xfe, 0xf5, 0xda, 0x4e] }),
{
    Guid { data1: 0x6302d008, data2: 0x7f9b, data3: 0x4f30, data4: [0x87, 0xac, 0x60, 0xc9, 0xfe, 0xf5, 0xda, 0x4e] }
}

/// Identifier of the shell parameters protocol.
pub fn shell_parameters_protocol_guid() -> (g: Guid)
    ensures
        g == (Guid { data1: 0x752f3136, data2: 0x4e16, data3: 0x4fdc, data4: [0xa2, 0x2a, 0xe5, 0xf4, 0x68, 0x12, 0xf4, 0xca] }),
{
    Guid { data1: 0x752f3136, data2: 0x4e16, data3: 0x4fdc, data4: [0xa2, 0x2a, 0xe5, 0xf4, 0x68, 0x12, 0xf4, 0xca] }
}

/// A shell file handle, an opaque address value.
pub type ShellFileHandle = usize;

/// A shell status code.
pub type ShellStatus = usize;

// File open modes
pub const EFI_FILE_MODE_READ: u64 = 0x0000000000000001;

pub const EFI_FILE_MODE_WRITE: u64 = 0x0000000000000002;

pub const EFI_FILE_MODE_CREATE: u64 = 0x8000000000000000;

// File attributes
pub const EFI_FILE_READ_ONLY: u64 = 0x0000000000000001;

pub const EFI_FILE_HIDDEN: u64 = 0x0000000000000002;

pub const EFI_FILE_SYSTEM: u64 = 0x0000000000000004;

pub const EFI_FILE_RESERVED: u64 = 0x0000000000000008;

pub const EFI_FILE_DIRECTORY: u64 = 0x0000000000000010;

pub const EFI_FILE_ARCHIVE: u64 = 0x0000000000000020;

pub const EFI_FILE_VALID_ATTR: u64 = 0x0000000000000037;

// Shell status codes
pub const SHELL_SUCCESS: ShellStatus = 0;

pub const SHELL_LOAD_ERROR: ShellStatus = 1;

pub const SHELL_INVALID_PARAMETER: ShellStatus = 2;

pub const SHELL_UNSUPPORTED: ShellStatus = 3;

pub const SHELL_BAD_BUFFER_SIZE: ShellStatus = 4;

pub const SHELL_BUFFER_TOO_SMALL: ShellStatus = 5;

pub const SHELL_NOT_READY: ShellStatus = 6;

pub const SHELL_DEVICE_ERROR: ShellStatus = 7;

pub const SHELL_WRITE_PROTECTED: ShellStatus = 8;

pub const SHELL_OUT_OF_RESOURCES: ShellStatus = 9;

pub const SHELL_VOLUME_CORRUPTED: ShellStatus = 10;

pub const SHELL_VOLUME_FULL: ShellStatus = 11;

pub const SHELL_NO_MEDIA: ShellStatus = 12;

pub const SHELL_MEDIA_CHANGED: ShellStatus = 13;

pub const SHELL_NOT_FOUND: ShellStatus = 14;

pub const SHELL_ACCESS_DENIED: ShellStatus = 15;

pub const SHELL_TIMEOUT: ShellStatus = 16;

pub const SHELL_NOT_STARTED: ShellStatus = 17;

pub const SHELL_ALREADY_STARTED: ShellStatus = 18;

pub const SHELL_ABORTED: ShellStatus = 19;

/// A doubly linked list entry; the links are opaque address values.
#[derive(Debug, Copy, Clone)]
pub struct ListEntry {
    pub forward_link: usize,
    pub back_link: usize,
}

/// File timestamps and sizes as the shell reports them.
#[derive(Debug, Copy, Clone)]
pub struct FileInfo {
    pub size: u64,
    pub file_size: u64,
    pub physical_size: u64,
    pub create_time: crate::runtime_services::time::Time,
    pub last_access_time: crate::runtime_services::time::Time,
    pub modification_time: crate::runtime_services::time::Time,
    pub attribute: u64,
}

/// One file of a shell file list; names and info are opaque address
/// values.
#[derive(Debug, Copy, Clone)]
pub struct ShellFileInfo {
    pub link: ListEntry,
    pub status: usize,
    pub full_name: usize,
    pub file_name: usize,
    pub handle: ShellFileHandle,
    pub info: usize,
}

/// EFI_SHELL_PROTOCOL, its services as opaque address values.
#[derive(Debug, Copy, Clone)]
pub struct ShellProtocol {
    pub execute: usize,
    pub get_env: usize,
    pub set_env: usize,
    pub get_alias: usize,
    pub set_alias: usize,
    pub get_help_text: usize,
    pub get_device_path_from_map: usize,
    pub get_map_from_device_path: usize,
    pub get_device_path_from_file_path: usize,
    pub get_file_path_from_device_path: usize,
    pub set_map: usize,
    pub get_cur_dir: usize,
    pub set_cur_dir: usize,
    pub open_file_list: usize,
    pub free_file_list: usize,
    pub remove_dup_in_file_list: usize,
    pub batch_is_active: usize,
    pub is_root_shell: usize,
}

/// EFI_SHELL_PARAMETERS_PROTOCOL; the argument vector is an opaque
/// address value.
#[derive(Debug, Copy, Clone)]
pub struct ShellParametersProtocol {
    pub argv: usize,
    pub argc: usize,
    pub std_in: ShellFileHandle,
    pub std_out: ShellFileHandle,
    pub std_err: ShellFileHandle,
}

impl ShellParametersProtocol {
    /// Number of command line arguments
    pub fn arg_count(&self) -> (r: usize)
        ensures
            r == self.argc,
    {
        self.argc
    }
}

} // verus!
