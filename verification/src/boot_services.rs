//! The boot services table and its safe wrapper.  Service entry points
//! published by firmware are opaque; they are modelled as plain address
//! values, and nothing in this crate calls through them.

use vstd::prelude::*;

use crate::ffi::TableHeader;

pub mod events;
pub mod tpl;

verus! {

/// EFI_BOOT_SERVICES table: the common header followed by the service
/// entry points, each an opaque address value.
#[derive(Debug, Copy, Clone)]
pub struct BootServices {
    pub hdr: TableHeader,
    pub raise_tpl: usize,
    pub restore_tpl: usize,
    pub allocate_pages: usize,
    pub free_pages: usize,
    pub get_memory_map: usize,
    pub allocate_pool: usize,
    pub free_pool: usize,
    pub create_event: usize,
    pub set_timer: usize,
    pub wait_for_event: usize,
    pub signal_event: usize,
    pub close_event: usize,
    pub check_event: usize,
    pub install_protocol_interface: usize,
    pub reinstall_protocol_interface: usize,
    pub uninstall_protocol_interface: usize,
    pub handle_protocol: usize,
    pub reserved: usize,
    pub register_protocol_notify: usize,
    pub locate_handle: usize,
    pub locate_device_path: usize,
    pub install_configuration_table: usize,
    pub load_image: usize,
    pub start_image: usize,
    pub exit: usize,
    pub unload_image: usize,
    pub exit_boot_services: usize,
    pub get_next_monotonic_count: usize,
    pub stall: usize,
    pub set_watchdog_timer: usize,
    pub connect_controller: usize,
    pub disconnect_controller: usize,
    pub open_protocol: usize,
    pub close_protocol: usize,
    pub open_protocol_information: usize,
    pub protocols_per_handle: usize,
    pub locate_handle_buffer: usize,
    pub locate_protocol: usize,
    pub install_multiple_protocol_interfaces: usize,
    pub uninstall_multiple_protocol_interfaces: usize,
    pub calculate_crc32: usize,
    pub copy_mem: usize,
    pub set_mem: usize,
    pub create_event_ex: usize,
}

// Open protocol attributes
pub const EFI_OPEN_PROTOCOL_BY_HANDLE_PROTOCOL: u32 = 0x00000001;

pub const EFI_OPEN_PROTOCOL_GET_PROTOCOL: u32 = 0x00000002;

pub const EFI_OPEN_PROTOCOL_TEST_PROTOCOL: u32 = 0x00000004;

pub const EFI_OPEN_PROTOCOL_BY_CHILD_CONTROLLER: u32 = 0x00000008;

pub const EFI_OPEN_PROTOCOL_BY_DRIVER: u32 = 0x00000010;

pub const EFI_OPEN_PROTOCOL_EXCLUSIVE: u32 = 0x00000020;

/// How a handle search selects handles, in its architectural order.
#[derive(Debug, Copy, Clone, PartialEq, Eq, Structural)]
pub enum LocateSearchType {
    AllHandles,
    ByRegisterNotify,
    ByProtocol,
}

/// "BOOTSERV" read as a little-endian 64-bit value.
pub const EFI_BOOT_SERVICES_SIGNATURE: u64 = 0x56524553544f4f42;

/// Safe wrapper for Boot Services
pub struct BootServicesWrapper<'a> {
    bs: &'a BootServices,
}

impl<'a> BootServicesWrapper<'a> {
    /// The boot services table this wrapper stands over.
    pub closed spec fn spec_bs(&self) -> BootServices {
        *self.bs
    }

    /// Create a new wrapper from a reference to Boot Services
    pub fn new(bs: &'a BootServices) -> (w: BootServicesWrapper<'a>)
        ensures
            w.spec_bs() == *bs,
    {
        BootServicesWrapper { bs }
    }
}

} // verus!
