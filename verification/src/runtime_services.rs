//! The runtime services table, its safe wrapper and the identifiers of
//! the variable store.  Service entry points are opaque address values.

use vstd::prelude::*;

use crate::ffi::{Guid, TableHeader};

pub mod time;
pub mod variables;

verus! {

/// EFI_RESET_TYPE, in its architectural order.
#[derive(Debug, Copy, Clone, PartialEq, Eq, Structural)]
pub enum ResetType {
    EfiResetCold,
    EfiResetWarm,
    EfiResetShutdown,
    EfiResetPlatformSpecific,
}

/// EFI_RUNTIME_SERVICES table: the common header followed by the service
/// entry points, each an opaque address value.
#[derive(Debug, Copy, Clone)]
pub struct RuntimeServices {
    pub hdr: TableHeader,
    pub get_time: usize,
    pub set_time: usize,
    pub get_wakeup_time: usize,
    pub set_wakeup_time: usize,
    pub set_virtual_address_map: usize,
    pub convert_pointer: usize,
    pub get_variable: usize,
    pub get_next_variable_name: usize,
    pub set_variable: usize,
    pub get_next_high_mono_count: usize,
    pub reset_system: usize,
    pub update_capsule: usize,
    pub query_capsule_capabilities: usize,
    pub query_variable_info: usize,
}

/// "RUNTSERV" read as a little-endian 64-bit value.
pub const EFI_RUNTIME_SERVICES_SIGNATURE: u64 = 0x56524553544e5552;

/// Identifier of the global variable namespace.
pub fn efi_global_variable_guid() -> (g: Guid)
    ensures
        g == (Guid {
            data1: 0x8BE4DF61,
            data2: 0x93CA,
            data3: 0x11d2,
            data4: [0xAA, 0x0D, 0x00, 0xE0, 0x98, 0x03, 0x2B, 0x8C],
        }),
{
    Guid {
        data1: 0x8BE4DF61,
        data2: 0x93CA,
        data3: 0x11d2,
        data4: [0xAA, 0x0D, 0x00, 0xE0, 0x98, 0x03, 0x2B, 0x8C],
    }
}

/// Identifier of the image security database namespace.
pub fn efi_image_security_database_guid() -> (g: Guid)
    ensures
        g == (Guid {
            data1: 0xd719b2cb,
            data2: 0x3d3a,
            data3: 0x4596,
            data4: [0xa3, 0xbc, 0xda, 0xd0, 0x0e, 0x67, 0x65, 0x6f],
        }),
{
    Guid {
        data1: 0xd719b2cb,
        data2: 0x3d3a,
        data3: 0x4596,
        data4: [0xa3, 0xbc, 0xda, 0xd0, 0x0e, 0x67, 0x65, 0x6f],
    }
}

/// Safe wrapper for Runtime Services
pub struct RuntimeServicesWrapper<'a> {
    rt: &'a RuntimeServices,
}

impl<'a> RuntimeServicesWrapper<'a> {
    /// The runtime services table this wrapper stands over.
    pub closed spec fn spec_rt(&self) -> RuntimeServices {
        *self.rt
    }

    /// Create a new wrapper from a reference to Runtime Services
    pub fn new(rt: &'a RuntimeServices) -> (w: RuntimeServicesWrapper<'a>)
        ensures
            w.spec_rt() == *rt,
    {
        RuntimeServicesWrapper { rt }
    }
}

} // verus!
