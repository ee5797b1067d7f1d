//! Block I/O protocol structures.

use vstd::prelude::*;

use crate::ffi::Guid;

verus! {

/// Identifier of the block I/O protocol.
pub fn block_io_protocol_guid() -> (g: Guid)
    ensures
        g == (Guid { data1: 0x964e5b21, data2: 0x6459, data3: 0x11d2, data4: [0x8e, 0x39, 0x00, 0xa0, 0xc9, 0x69, 0x72, 0x3b] }),
{
    Guid { data1: 0x964e5b21, data2: 0x6459, data3: 0x11d2, data4: [0x8e, 0x39, 0x00, 0xa0, 0xc9, 0x69, 0x72, 0x3b] }
}

pub const EFI_BLOCK_IO_PROTOCOL_REVISION: u64 = 0x00010000;

pub const EFI_BLOCK_IO_PROTOCOL_REVISION2: u64 = 0x00020001;

pub const EFI_BLOCK_IO_PROTOCOL_REVISION3: u64 = 0x0002001F;

/// The media a block device currently exposes.
#[derive(Debug, Copy, Clone)]
pub struct BlockIoMedia {
    pub media_id: u32,
    pub removable_media: u8,
    pub media_present: u8,
    pub logical_partition: u8,
    pub read_only: u8,
    pub write_caching: u8,
    pub block_size: u32,
    pub io_align: u32,
    pub last_block: u64,
    pub lowest_aligned_lba: u64,
    pub logical_blocks_per_physical_block: u32,
    pub optimal_transfer_length_granularity: u32,
}

/// EFI_BLOCK_IO_PROTOCOL, its services as opaque address values.
#[derive(Debug, Copy, Clone)]
pub struct BlockIoProtocol {
    pub revision: u64,
    pub media: usize,
    pub reset: usize,
    pub read_blocks: usize,
    pub write_blocks: usize,
    pub flush_blocks: usize,
}

} // verus!
