//! Console input protocol structures and scan codes.

use vstd::prelude::*;

use crate::ffi::Guid;

verus! {

/// Identifier of the console input protocol.
pub fn simple_text_input_protocol_guid() -> (g: Guid)
    ensures
        g == (Guid { data1: 0x387477c1, data2: 0x69c7, data3: 0x11d2, data4: [0x8e, 0x39, 0x00, 0xa0, 0xc9, 0x69, 0x72, 0x3b] }),
{
    Guid { data1: 0x387477c1, data2: 0x69c7, data3: 0x11d2, data4: [0x8e, 0x39, 0x00, 0xa0, 0xc9, 0x69, 0x72, 0x3b] }
}

/// One key stroke: scan code and its character, if any.
#[derive(Debug, Copy, Clone)]
pub struct InputKey {
    pub scan_code: u16,
    pub unicode_char: u16,
}

/// EFI_SIMPLE_TEXT_INPUT_PROTOCOL, its services as opaque address values.
#[derive(Debug, Copy, Clone)]
pub struct SimpleTextInputProtocol {
    pub reset: usize,
    pub read_key_stroke: usize,
    pub wait_for_key: usize,
}

pub const SCAN_NULL: u16 = 0x0000;

pub const SCAN_UP: u16 = 0x0001;

pub const SCAN_DOWN: u16 = 0x0002;

pub const SCAN_RIGHT: u16 = 0x0003;

pub const SCAN_LEFT: u16 = 0x0004;

pub const SCAN_HOME: u16 = 0x0005;

pub const SCAN_END: u16 = 0x0006;

pub const SCAN_INSERT: u16 = 0x0007;

pub const SCAN_DELETE: u16 = 0x0008;

pub const SCAN_ESC: u16 = 0x0017;

} // verus!
