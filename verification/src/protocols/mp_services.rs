//! Multi-processor service structures and processor status flag tests.

use vstd::prelude::*;

use crate::ffi::Guid;

verus! {

/// Identifier of the multi-processor services protocol.
pub fn mp_services_protocol_guid() -> (g: Guid)
    ensures
        g == (Guid { data1: 0x3fdda605, data2: 0xa76e, data3: 0x4f46, data4: [0xad, 0x29, 0x12, 0xf4, 0x53, 0x1b, 0x3d, 0x08] }),
{
    Guid { data1: 0x3fdda605, data2: 0xa76e, data3: 0x4f46, data4: [0xad, 0x29, 0x12, 0xf4, 0x53, 0x1b, 0x3d, 0x08] }
}

/// Processor ID
pub type ProcessorId = usize;

/// Extended Topology
#[derive(Debug, Copy, Clone)]
pub struct ExtendedProcessorInformation {
    pub location: ProcessorLocation,
}

/// Processor Location
#[derive(Debug, Copy, Clone)]
pub struct ProcessorLocation {
    pub package: u32,
    pub core: u32,
    pub thread: u32,
}

/// Processor Information
#[derive(Debug, Copy, Clone)]
pub struct ProcessorInformation {
    pub processor_id: u64,
    pub status_flag: u32,
    pub location: ProcessorLocation,
    pub extended_information: ExtendedProcessorInformation,
}

/// Processor Status Flags
pub const PROCESSOR_AS_BSP_BIT: u32 = 0x00000001;

pub const PROCESSOR_ENABLED_BIT: u32 = 0x00000002;

pub const PROCESSOR_HEALTH_STATUS_BIT: u32 = 0x00000004;

/// End of Procedure Type, in its architectural order.
#[derive(Debug, Copy, Clone, PartialEq, Eq, Structural)]
pub enum EndOfProcedureType {
    Blocking,
    NonBlocking,
}

/// EFI_MP_SERVICES_PROTOCOL, its services as opaque address values.
#[derive(Debug, Copy, Clone)]
pub struct MpServicesProtocol {
    pub get_number_of_processors: usize,
    pub get_processor_info: usize,
    pub startup_all_aps: usize,
    pub startup_this_ap: usize,
    pub switch_bsp: usize,
    pub enable_disable_ap: usize,
    pub who_am_i: usize,
}

impl MpServicesProtocol {
    /// The processor information names the boot-strap processor.
    pub fn is_bsp(info: &ProcessorInformation) -> (r: bool)
        ensures
            r == ((info.status_flag & PROCESSOR_AS_BSP_BIT) != 0),
    {
        (info.status_flag & PROCESSOR_AS_BSP_BIT) != 0
    }

    /// The processor information names an enabled processor.
    pub fn is_enabled(info: &ProcessorInformation) -> (r: bool)
        ensures
            r == ((info.status_flag & PROCESSOR_ENABLED_BIT) != 0),
    {
        (info.status_flag & PROCESSOR_ENABLED_BIT) != 0
    }

    /// The processor information names a healthy processor.
    pub fn is_healthy(info: &ProcessorInformation) -> (r: bool)
        ensures
            r == ((info.status_flag & PROCESSOR_HEALTH_STATUS_BIT) != 0),
    {
        (info.status_flag & PROCESSOR_HEALTH_STATUS_BIT) != 0
    }
}

} // verus!
