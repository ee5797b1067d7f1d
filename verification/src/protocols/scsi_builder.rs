//! SCSI command packet builders: pure functions from a transfer
//! description to a request packet and its command descriptor block.
//!
//! The caller's transfer buffer is described by its address and length;
//! the builders only place those values into the packet, they never touch
//! the buffer.

use vstd::prelude::*;

use crate::protocols::scsi_commands::{SCSI_INQUIRY, SCSI_READ_10, SCSI_WRITE_10};
use crate::protocols::storage::{ScsiPassThruRequestPacket, SCSI_DATA_IN, SCSI_DATA_OUT};

verus! {

/// Build a SCSI INQUIRY command packet for a response buffer of
/// `buffer_len` bytes at `buffer_addr`.  The allocation length field of
/// the descriptor block carries the low byte of the buffer length.
pub fn build_inquiry(buffer_addr: usize, buffer_len: usize, timeout: u64) -> (r: (
    ScsiPassThruRequestPacket,
    [u8; 6],
))
    ensures
        r.0 == (ScsiPassThruRequestPacket {
            timeout,
            in_data_buffer: buffer_addr,
            out_data_buffer: 0,
            sense_data: 0,
            cdb: 0,
            in_transfer_length: (buffer_len as int % 0x1_0000_0000) as u32,
            out_transfer_length: 0,
            cdb_length: 6,
            data_direction: SCSI_DATA_IN,
            host_adapter_status: 0,
            target_status: 0,
            sense_data_length: 0,
        }),
        r.1 == [SCSI_INQUIRY, 0u8, 0u8, 0u8, (buffer_len as int % 0x100) as u8, 0u8],
{
    let cdb: [u8; 6] = [SCSI_INQUIRY, 0x00, 0x00, 0x00, (buffer_len % 0x100) as u8, 0x00];
    let packet = ScsiPassThruRequestPacket {
        timeout,
        in_data_buffer: buffer_addr,
        out_data_buffer: 0,
        sense_data: 0,
        cdb: 0,
        in_transfer_length: ((buffer_len as u64 % 0x1_0000_0000) as u32),
        out_transfer_length: 0,
        cdb_length: 6,
        data_direction: SCSI_DATA_IN,
        host_adapter_status: 0,
        target_status: 0,
        sense_data_length: 0,
    };
    (packet, cdb)
}

/// The big-endian block-address and transfer-length bytes of a 10-byte
/// read or write descriptor block for `lba` and a buffer of `buffer_len`
/// bytes of 512-byte blocks.
pub open spec fn spec_cdb10(opcode: u8, lba: u32, buffer_len: int) -> Seq<u8> {
    let blocks = buffer_len / 512 % 0x1_0000;
    seq![
        opcode,
        0u8,
        (lba as int / 0x100_0000) as u8,
        (lba as int / 0x1_0000 % 0x100) as u8,
        (lba as int / 0x100 % 0x100) as u8,
        (lba as int % 0x100) as u8,
        0u8,
        (blocks / 0x100) as u8,
        (blocks % 0x100) as u8,
        0u8,
    ]
}

/// Build a SCSI READ(10) command packet reading whole 512-byte blocks
/// into the buffer at `buffer_addr`.
pub fn build_read10(lba: u32, buffer_addr: usize, buffer_len: usize, timeout: u64) -> (r: (
    ScsiPassThruRequestPacket,
    [u8; 10],
))
    ensures
        r.0 == (ScsiPassThruRequestPacket {
            timeout,
            in_data_buffer: buffer_addr,
            out_data_buffer: 0,
            sense_data: 0,
            cdb: 0,
            in_transfer_length: (buffer_len as int % 0x1_0000_0000) as u32,
            out_transfer_length: 0,
            cdb_length: 10,
            data_direction: SCSI_DATA_IN,
            host_adapter_status: 0,
            target_status: 0,
            sense_data_length: 0,
        }),
        r.1@ == spec_cdb10(SCSI_READ_10, lba, buffer_len as int),
{
    let blocks: u16 = (buffer_len / 512 % 0x1_0000) as u16;
    let cdb: [u8; 10] = [
        SCSI_READ_10,
        0x00,
        (lba / 0x100_0000) as u8,
        (lba / 0x1_0000 % 0x100) as u8,
        (lba / 0x100 % 0x100) as u8,
        (lba % 0x100) as u8,
        0x00,
        (blocks / 0x100) as u8,
        (blocks % 0x100) as u8,
        0x00,
    ];
    proof {
        assert(cdb@ =~= spec_cdb10(SCSI_READ_10, lba, buffer_len as int));
    }
    let packet = ScsiPassThruRequestPacket {
        timeout,
        in_data_buffer: buffer_addr,
        out_data_buffer: 0,
        sense_data: 0,
        cdb: 0,
        in_transfer_length: ((buffer_len as u64 % 0x1_0000_0000) as u32),
        out_transfer_length: 0,
        cdb_length: 10,
        data_direction: SCSI_DATA_IN,
        host_adapter_status: 0,
        target_status: 0,
        sense_data_length: 0,
    };
    (packet, cdb)
}

/// Build a SCSI WRITE(10) command packet writing whole 512-byte blocks
/// from the buffer at `buffer_addr`.
pub fn build_write10(lba: u32, buffer_addr: usize, buffer_len: usize, timeout: u64) -> (r: (
    ScsiPassThruRequestPacket,
    [u8; 10],
))
    ensures
        r.0 == (ScsiPassThruRequestPacket {
            timeout,
            in_data_buffer: 0,
            out_data_buffer: buffer_addr,
            sense_data: 0,
            cdb: 0,
            in_transfer_length: 0,
            out_transfer_length: (buffer_len as int % 0x1_0000_0000) as u32,
            cdb_length: 10,
            data_direction: SCSI_DATA_OUT,
            host_adapter_status: 0,
            target_status: 0,
            sense_data_length: 0,
        }),
        r.1@ == spec_cdb10(SCSI_WRITE_10, lba, buffer_len as int),
{
    let blocks: u16 = (buffer_len / 512 % 0x1_0000) as u16;
    let cdb: [u8; 10] = [
        SCSI_WRITE_10,
        0x00,
        (lba / 0x100_0000) as u8,
        (lba / 0x1_0000 % 0x100) as u8,
        (lba / 0x100 % 0x100) as u8,
        (lba % 0x100) as u8,
        0x00,
        (blocks / 0x100) as u8,
        (blocks % 0x100) as u8,
        0x00,
    ];
    proof {
        assert(cdb@ =~= spec_cdb10(SCSI_WRITE_10, lba, buffer_len as int));
    }
    let packet = ScsiPassThruRequestPacket {
        timeout,
        in_data_buffer: 0,
        out_data_buffer: buffer_addr,
        sense_data: 0,
        cdb: 0,
        in_transfer_length: 0,
        out_transfer_length: ((buffer_len as u64 % 0x1_0000_0000) as u32),
        cdb_length: 10,
        data_direction: SCSI_DATA_OUT,
        host_adapter_status: 0,
        target_status: 0,
        sense_data_length: 0,
    };
    (packet, cdb)
}

} // verus!
