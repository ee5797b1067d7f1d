//! Common SCSI command operation codes.

use vstd::prelude::*;

verus! {

pub const SCSI_TEST_UNIT_READY: u8 = 0x00;

pub const SCSI_REQUEST_SENSE: u8 = 0x03;

pub const SCSI_INQUIRY: u8 = 0x12;

pub const SCSI_MODE_SELECT_6: u8 = 0x15;

pub const SCSI_MODE_SENSE_6: u8 = 0x1A;

pub const SCSI_START_STOP_UNIT: u8 = 0x1B;

pub const SCSI_READ_CAPACITY_10: u8 = 0x25;

pub const SCSI_READ_10: u8 = 0x28;

pub const SCSI_WRITE_10: u8 = 0x2A;

pub const SCSI_READ_CAPACITY_16: u8 = 0x9E;

pub const SCSI_READ_16: u8 = 0x88;

pub const SCSI_WRITE_16: u8 = 0x8A;

} // verus!
