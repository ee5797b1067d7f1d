//! Loaded image protocol structure.

use vstd::prelude::*;

use crate::ffi::Guid;

verus! {

/// Identifier of the loaded image protocol.
pub fn loaded_image_protocol_guid() -> (g: Guid)
    ensures
        g == (Guid { data1: 0x5B1B31A1, data2: 0x9562, data3: 0x11d2, data4: [0x8e, 0x3f, 0x00, 0xa0, 0xc9, 0x69, 0x72, 0x3b] }),
{
    Guid { data1: 0x5B1B31A1, data2: 0x9562, data3: 0x11d2, data4: [0x8e, 0x3f, 0x00, 0xa0, 0xc9, 0x69, 0x72, 0x3b] }
}

pub const EFI_LOADED_IMAGE_PROTOCOL_REVISION: u32 = 0x1000;

/// EFI_LOADED_IMAGE_PROTOCOL; handles, paths and the image base are
/// opaque address values.
#[derive(Debug, Copy, Clone)]
pub struct LoadedImageProtocol {
    pub revision: u32,
    pub parent_handle: usize,
    pub system_table: usize,
    pub device_handle: usize,
    pub file_path: usize,
    pub reserved: usize,
    pub load_options_size: u32,
    pub load_options: usize,
    pub image_base: usize,
    pub image_size: u64,
    pub image_code_type: crate::ffi::MemoryType,
    pub image_data_type: crate::ffi::MemoryType,
    pub unload: usize,
}

impl LoadedImageProtocol {
    /// The image's base address and size.
    pub fn image_location(&self) -> (r: (usize, u64))
        ensures
            r.0 == self.image_base,
            r.1 == self.image_size,
    {
        (self.image_base, self.image_size)
    }
}

} // verus!
