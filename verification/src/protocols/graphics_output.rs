//! Graphics output protocol structures.  Frame buffers and service entry
//! points are opaque address values.

use vstd::prelude::*;

use crate::ffi::{Guid, PhysicalAddress};

verus! {

/// Identifier of the graphics output protocol.
pub fn graphics_output_protocol_guid() -> (g: Guid)
    ensures
        g == (Guid {
            data1: 0x9042a9de,
            data2: 0x23dc,
            data3: 0x4a38,
            data4: [0x96, 0xfb, 0x7a, 0xde, 0xd0, 0x80, 0x51, 0x6a],
        }),
{
    Guid {
        data1: 0x9042a9de,
        data2: 0x23dc,
        data3: 0x4a38,
        data4: [0x96, 0xfb, 0x7a, 0xde, 0xd0, 0x80, 0x51, 0x6a],
    }
}

/// EFI_GRAPHICS_PIXEL_FORMAT, in its architectural order.
#[derive(Debug, Copy, Clone, PartialEq, Eq, Structural)]
pub enum GraphicsPixelFormat {
    PixelRedGreenBlueReserved8BitPerColor,
    PixelBlueGreenRedReserved8BitPerColor,
    PixelBitMask,
    PixelBltOnly,
    PixelFormatMax,
}

/// EFI_PIXEL_BITMASK
#[derive(Debug, Copy, Clone)]
pub struct PixelBitmask {
    pub red_mask: u32,
    pub green_mask: u32,
    pub blue_mask: u32,
    pub reserved_mask: u32,
}

/// EFI_GRAPHICS_OUTPUT_MODE_INFORMATION
#[derive(Debug, Copy, Clone)]
pub struct GraphicsOutputModeInformation {
    pub version: u32,
    pub horizontal_resolution: u32,
    pub vertical_resolution: u32,
    pub pixel_format: GraphicsPixelFormat,
    pub pixel_information: PixelBitmask,
    pub pixels_per_scan_line: u32,
}

/// EFI_GRAPHICS_OUTPUT_PROTOCOL_MODE; the mode information address is an
/// opaque address value.
#[derive(Debug, Copy, Clone)]
pub struct GraphicsOutputProtocolMode {
    pub max_mode: u32,
    pub mode: u32,
    pub info: usize,
    pub size_of_info: usize,
    pub frame_buffer_base: PhysicalAddress,
    pub frame_buffer_size: usize,
}

/// EFI_GRAPHICS_OUTPUT_BLT_PIXEL
#[derive(Debug, Copy, Clone, PartialEq, Eq, Structural)]
pub struct GraphicsOutputBltPixel {
    pub blue: u8,
    pub green: u8,
    pub red: u8,
    pub reserved: u8,
}

/// EFI_GRAPHICS_OUTPUT_BLT_OPERATION, in its architectural order.
#[derive(Debug, Copy, Clone, PartialEq, Eq, Structural)]
pub enum GraphicsOutputBltOperation {
    EfiBltVideoFill,
    EfiBltVideoToBltBuffer,
    EfiBltBufferToVideo,
    EfiBltVideoToVideo,
    EfiGraphicsOutputBltOperationMax,
}

/// EFI_GRAPHICS_OUTPUT_PROTOCOL, its services as opaque address values.
#[derive(Debug, Copy, Clone)]
pub struct GraphicsOutputProtocol {
    pub query_mode: usize,
    pub set_mode: usize,
    pub blt: usize,
    pub mode: usize,
}

} // verus!
