//! Firmware management protocol structures and image attribute tests.

use vstd::prelude::*;

use crate::ffi::Guid;

verus! {

/// Identifier of the firmware management protocol.
pub fn firmware_management_protocol_guid() -> (g: Guid)
    ensures
        g == (Guid { data1: 0x86c77a67, data2: 0x0b97, data3: 0x4633, data4: [0xa1, 0x87, 0x49, 0x10, 0x4d, 0x06, 0x85, 0xc7] }),
{
    Guid { data1: 0x86c77a67, data2: 0x0b97, data3: 0x4633, data4: [0xa1, 0x87, 0x49, 0x10, 0x4d, 0x06, 0x85, 0xc7] }
}

pub const IMAGE_ATTRIBUTE_IMAGE_UPDATABLE: u64 = 0x0000000000000001;

pub const IMAGE_ATTRIBUTE_RESET_REQUIRED: u64 = 0x0000000000000002;

pub const IMAGE_ATTRIBUTE_AUTHENTICATION_REQUIRED: u64 = 0x0000000000000004;

pub const IMAGE_ATTRIBUTE_IN_USE: u64 = 0x0000000000000008;

pub const IMAGE_ATTRIBUTE_UEFI_IMAGE: u64 = 0x0000000000000010;

/// One firmware image the platform can update; names are opaque address
/// values.
#[derive(Debug, Copy, Clone)]
pub struct FirmwareImageDescriptor {
    pub image_index: u8,
    pub image_type_id: Guid,
    pub image_id: u64,
    pub image_id_name: usize,
    pub version: u32,
    pub version_name: usize,
    pub size: usize,
    pub attributes_supported: u64,
    pub attributes_setting: u64,
    pub compatibilities: u64,
    pub lowest_supported_image_version: u32,
    pub last_attempt_version: u32,
    pub last_attempt_status: u32,
    pub hardware_instance: u64,
}

impl FirmwareImageDescriptor {
    /// The image can be updated in place.
    pub fn is_updatable(&self) -> (r: bool)
        ensures
            r == ((self.attributes_setting & IMAGE_ATTRIBUTE_IMAGE_UPDATABLE) != 0),
    {
        (self.attributes_setting & IMAGE_ATTRIBUTE_IMAGE_UPDATABLE) != 0
    }

    /// Updating the image requires a platform reset.
    pub fn requires_reset(&self) -> (r: bool)
        ensures
            r == ((self.attributes_setting & IMAGE_ATTRIBUTE_RESET_REQUIRED) != 0),
    {
        (self.attributes_setting & IMAGE_ATTRIBUTE_RESET_REQUIRED) != 0
    }

    /// Updating the image requires authentication.
    pub fn requires_authentication(&self) -> (r: bool)
        ensures
            r == ((self.attributes_setting & IMAGE_ATTRIBUTE_AUTHENTICATION_REQUIRED) != 0),
    {
        (self.attributes_setting & IMAGE_ATTRIBUTE_AUTHENTICATION_REQUIRED) != 0
    }

    /// The image is in use.
    pub fn is_in_use(&self) -> (r: bool)
        ensures
            r == ((self.attributes_setting & IMAGE_ATTRIBUTE_IN_USE) != 0),
    {
        (self.attributes_setting & IMAGE_ATTRIBUTE_IN_USE) != 0
    }

    /// The image is an ordinary firmware image.
    pub fn is_uefi_image(&self) -> (r: bool)
        ensures
            r == ((self.attributes_setting & IMAGE_ATTRIBUTE_UEFI_IMAGE) != 0),
    {
        (self.attributes_setting & IMAGE_ATTRIBUTE_UEFI_IMAGE) != 0
    }
}

/// EFI_FIRMWARE_MANAGEMENT_PROTOCOL, its services as opaque address
/// values.
#[derive(Debug, Copy, Clone)]
pub struct FirmwareManagementProtocol {
    pub get_image_info: usize,
    pub get_image: usize,
    pub set_image: usize,
    pub check_image: usize,
    pub get_package_info: usize,
    pub set_package_info: usize,
}

} // verus!
