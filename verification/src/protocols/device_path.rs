//! Device path node structures and the end-of-path tests.

use vstd::prelude::*;

use crate::ffi::Guid;

verus! {

/// Identifier of the device path protocol.
pub fn device_path_protocol_guid() -> (g: Guid)
    ensures
        g == (Guid { data1: 0x09576e91, data2: 0x6d3f, data3: 0x11d2, data4: [0x8e, 0x39, 0x00, 0xa0, 0xc9, 0x69, 0x72, 0x3b] }),
{
    Guid { data1: 0x09576e91, data2: 0x6d3f, data3: 0x11d2, data4: [0x8e, 0x39, 0x00, 0xa0, 0xc9, 0x69, 0x72, 0x3b] }
}

pub const HARDWARE_DEVICE_PATH: u8 = 0x01;

pub const ACPI_DEVICE_PATH: u8 = 0x02;

pub const MESSAGING_DEVICE_PATH: u8 = 0x03;

pub const MEDIA_DEVICE_PATH: u8 = 0x04;

pub const BBS_DEVICE_PATH: u8 = 0x05;

pub const END_DEVICE_PATH_TYPE: u8 = 0x7F;

pub const END_ENTIRE_DEVICE_PATH_SUBTYPE: u8 = 0xFF;

pub const END_INSTANCE_DEVICE_PATH_SUBTYPE: u8 = 0x01;

pub const MEDIA_HARDDRIVE_DP: u8 = 0x01;

pub const MEDIA_FILEPATH_DP: u8 = 0x04;

pub const HW_PCI_DP: u8 = 0x01;

/// A device path node header: type, sub-type and 16-bit length stored as
/// two bytes.
#[derive(Debug, Copy, Clone)]
pub struct DevicePathProtocol {
    pub path_type: u8,
    pub sub_type: u8,
    pub length: [u8; 2],
}

impl DevicePathProtocol {
    /// The node's declared length in bytes.
    pub fn length(&self) -> (r: u16)
        ensures
            r == self.length[0] + self.length[1] * 0x100,
    {
        self.length[0] as u16 + self.length[1] as u16 * 0x100
    }

    /// The node is an end node.
    pub fn is_end(&self) -> (r: bool)
        ensures
            r == (self.path_type == END_DEVICE_PATH_TYPE),
    {
        self.path_type == END_DEVICE_PATH_TYPE
    }

    /// The node ends the entire device path.
    pub fn is_end_entire(&self) -> (r: bool)
        ensures
            r == (self.path_type == END_DEVICE_PATH_TYPE && self.sub_type
                == END_ENTIRE_DEVICE_PATH_SUBTYPE),
    {
        self.path_type == END_DEVICE_PATH_TYPE && self.sub_type == END_ENTIRE_DEVICE_PATH_SUBTYPE
    }
}

/// A PCI device path node.
#[derive(Debug, Copy, Clone)]
pub struct PciDevicePath {
    pub header: DevicePathProtocol,
    pub function: u8,
    pub device: u8,
}

/// A file path media device path node header.
#[derive(Debug, Copy, Clone)]
pub struct FilePathDevicePath {
    pub header: DevicePathProtocol,
}

/// A hard drive media device path node.
#[derive(Debug, Copy, Clone)]
pub struct HardDriveDevicePath {
    pub header: DevicePathProtocol,
    pub partition_number: u32,
    pub partition_start: u64,
    pub partition_size: u64,
    pub signature: [u8; 16],
    pub mbr_type: u8,
    pub signature_type: u8,
}

} // verus!
