//! Console output protocol structures, colours and the attribute
//! composition.

use vstd::prelude::*;

use crate::ffi::Guid;

verus! {

/// Identifier of the console output protocol.
pub fn simple_text_output_protocol_guid() -> (g: Guid)
    ensures
        g == (Guid { data1: 0x387477c2, data2: 0x69c7, data3: 0x11d2, data4: [0x8e, 0x39, 0x00, 0xa0, 0xc9, 0x69, 0x72, 0x3b] }),
{
    Guid { data1: 0x387477c2, data2: 0x69c7, data3: 0x11d2, data4: [0x8e, 0x39, 0x00, 0xa0, 0xc9, 0x69, 0x72, 0x3b] }
}

/// The cursor and mode state of a console.
#[derive(Debug, Copy, Clone)]
pub struct SimpleTextOutputMode {
    pub max_mode: i32,
    pub mode: i32,
    pub attribute: i32,
    pub cursor_column: i32,
    pub cursor_row: i32,
    pub cursor_visible: u8,
}

/// EFI_SIMPLE_TEXT_OUTPUT_PROTOCOL, its services as opaque address
/// values.
#[derive(Debug, Copy, Clone)]
pub struct SimpleTextOutputProtocol {
    pub reset: usize,
    pub output_string: usize,
    pub test_string: usize,
    pub query_mode: usize,
    pub set_mode: usize,
    pub set_attribute: usize,
    pub clear_screen: usize,
    pub set_cursor_position: usize,
    pub enable_cursor: usize,
    pub mode: usize,
}

pub const EFI_BLACK: usize = 0x00;

pub const EFI_BLUE: usize = 0x01;

pub const EFI_GREEN: usize = 0x02;

pub const EFI_CYAN: usize = 0x03;

pub const EFI_RED: usize = 0x04;

pub const EFI_MAGENTA: usize = 0x05;

pub const EFI_BROWN: usize = 0x06;

pub const EFI_LIGHTGRAY: usize = 0x07;

pub const EFI_DARKGRAY: usize = 0x08;

pub const EFI_LIGHTBLUE: usize = 0x09;

pub const EFI_LIGHTGREEN: usize = 0x0A;

pub const EFI_LIGHTCYAN: usize = 0x0B;

pub const EFI_LIGHTRED: usize = 0x0C;

pub const EFI_LIGHTMAGENTA: usize = 0x0D;

pub const EFI_YELLOW: usize = 0x0E;

pub const EFI_WHITE: usize = 0x0F;

pub const EFI_BACKGROUND_BLACK: usize = 0x00;

pub const EFI_BACKGROUND_BLUE: usize = 0x10;

pub const EFI_BACKGROUND_GREEN: usize = 0x20;

pub const EFI_BACKGROUND_CYAN: usize = 0x30;

pub const EFI_BACKGROUND_RED: usize = 0x40;

pub const EFI_BACKGROUND_MAGENTA: usize = 0x50;

pub const EFI_BACKGROUND_BROWN: usize = 0x60;

pub const EFI_BACKGROUND_LIGHTGRAY: usize = 0x70;

/// Compose a console attribute from a foreground colour and a pre-shifted
/// background colour.
pub fn efi_text_attr(foreground: usize, background: usize) -> (r: usize)
    ensures
        r == (foreground | background),
{
    foreground | background
}

} // verus!
