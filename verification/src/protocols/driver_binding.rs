//! Driver binding, component name, diagnostics and configuration
//! protocol structures.

use vstd::prelude::*;

use crate::ffi::Guid;

verus! {

/// Identifier of the driver binding protocol.
pub fn driver_binding_protocol_guid() -> (g: Guid)
    ensures
        g == (Guid { data1: 0x18A031AB, data2: 0xB443, data3: 0x4D1A, data4: [0xa5, 0xc0, 0x0c, 0x09, 0x26, 0x1e, 0x9f, 0x71] }),
{
    Guid { data1: 0x18A031AB, data2: 0xB443, data3: 0x4D1A, data4: [0xa5, 0xc0, 0x0c, 0x09, 0x26, 0x1e, 0x9f, 0x71] }
}

/// Identifier of the second component name protocol.
pub fn component_name2_protocol_guid() -> (g: Guid)
    ensures
        g == (Guid { data1: 0x6A7A5CFF, data2: 0xE8D9, data3: 0x4F70, data4: [0xba, 0xda, 0x75, 0xab, 0x30, 0x25, 0xce, 0x14] }),
{
    Guid { data1: 0x6A7A5CFF, data2: 0xE8D9, data3: 0x4F70, data4: [0xba, 0xda, 0x75, 0xab, 0x30, 0x25, 0xce, 0x14] }
}

/// Identifier of the second driver diagnostics protocol.
pub fn driver_diagnostics2_protocol_guid() -> (g: Guid)
    ensures
        g == (Guid { data1: 0x4D330321, data2: 0x025F, data3: 0x4AAC, data4: [0x90, 0xd8, 0x5e, 0xd9, 0x00, 0x17, 0x3b, 0x63] }),
{
    Guid { data1: 0x4D330321, data2: 0x025F, data3: 0x4AAC, data4: [0x90, 0xd8, 0x5e, 0xd9, 0x00, 0x17, 0x3b, 0x63] }
}

/// EFI_DRIVER_BINDING_PROTOCOL, its services as opaque address values.
#[derive(Debug, Copy, Clone)]
pub struct DriverBindingProtocol {
    pub supported: usize,
    pub start: usize,
    pub stop: usize,
    pub version: u32,
    pub image_handle: usize,
    pub driver_binding_handle: usize,
}

/// EFI_COMPONENT_NAME2_PROTOCOL, its services as opaque address values.
#[derive(Debug, Copy, Clone)]
pub struct ComponentName2Protocol {
    pub get_driver_name: usize,
    pub get_controller_name: usize,
    pub supported_languages: usize,
}

/// Diagnostics depth, in its architectural order.
#[derive(Debug, Copy, Clone, PartialEq, Eq, Structural)]
pub enum DiagnosticsType {
    Standard,
    Extended,
    Manufacturing,
}

/// EFI_DRIVER_DIAGNOSTICS2_PROTOCOL, its service as an opaque address
/// value.
#[derive(Debug, Copy, Clone)]
pub struct DriverDiagnostics2Protocol {
    pub run_diagnostics: usize,
    pub supported_languages: usize,
}

/// What a configuration action asks the platform to do next, in order.
#[derive(Debug, Copy, Clone, PartialEq, Eq, Structural)]
pub enum ConfigurationAction {
    ConfigurationActionNone,
    ConfigurationActionStopController,
    ConfigurationActionRestartController,
    ConfigurationActionRestartPlatform,
    ConfigurationActionMaximum,
}

/// EFI_DRIVER_CONFIGURATION2_PROTOCOL, its services as opaque address
/// values.
#[derive(Debug, Copy, Clone)]
pub struct DriverConfiguration2Protocol {
    pub set_options: usize,
    pub options_valid: usize,
    pub force_defaults: usize,
    pub supported_languages: usize,
}

} // verus!
