//! Human interface infrastructure structures: package lists, strings,
//! fonts and configuration access.

use vstd::prelude::*;

use crate::ffi::Guid;

verus! {

/// Identifier of the HII database protocol.
pub fn hii_database_protocol_guid() -> (g: Guid)
    ensures
        g == (Guid { data1: 0xef9fc172, data2: 0xa1b2, data3: 0x4693, data4: [0xb3, 0x27, 0x6d, 0x32, 0xfc, 0x41, 0x60, 0x42] }),
{
    Guid { data1: 0xef9fc172, data2: 0xa1b2, data3: 0x4693, data4: [0xb3, 0x27, 0x6d, 0x32, 0xfc, 0x41, 0x60, 0x42] }
}

/// Identifier of the HII string protocol.
pub fn hii_string_protocol_guid() -> (g: Guid)
    ensures
        g == (Guid { data1: 0x0fd96974, data2: 0x23aa, data3: 0x4cdc, data4: [0xb9, 0xcb, 0x98, 0xd1, 0x77, 0x50, 0x32, 0x2a] }),
{
    Guid { data1: 0x0fd96974, data2: 0x23aa, data3: 0x4cdc, data4: [0xb9, 0xcb, 0x98, 0xd1, 0x77, 0x50, 0x32, 0x2a] }
}

/// Identifier of the HII font protocol.
pub fn hii_font_protocol_guid() -> (g: Guid)
    ensures
        g == (Guid { data1: 0xe9ca4775, data2: 0x8657, data3: 0x47fc, data4: [0x97, 0xe7, 0x7e, 0xd6, 0x5a, 0x08, 0x43, 0x24] }),
{
    Guid { data1: 0xe9ca4775, data2: 0x8657, data3: 0x47fc, data4: [0x97, 0xe7, 0x7e, 0xd6, 0x5a, 0x08, 0x43, 0x24] }
}

/// A string identifier inside a package list.
pub type StringId = u16;

/// Font style bits.
pub type HiiFontStyle = u32;

/// Which font fields of a display description are meaningful.
pub type HiiFontInfoMask = u32;

pub const HII_FONT_STYLE_NORMAL: HiiFontStyle = 0x00000000;

pub const HII_FONT_STYLE_BOLD: HiiFontStyle = 0x00000001;

pub const HII_FONT_STYLE_ITALIC: HiiFontStyle = 0x00000002;

pub const HII_FONT_STYLE_EMBOSS: HiiFontStyle = 0x00010000;

pub const HII_FONT_STYLE_OUTLINE: HiiFontStyle = 0x00020000;

pub const HII_FONT_STYLE_SHADOW: HiiFontStyle = 0x00040000;

pub const HII_FONT_STYLE_UNDERLINE: HiiFontStyle = 0x00080000;

pub const HII_FONT_STYLE_DBL_UNDER: HiiFontStyle = 0x00100000;

/// The header of a package list.
#[derive(Debug, Copy, Clone)]
pub struct HiiPackageListHeader {
    pub package_list_guid: Guid,
    pub package_length: u32,
}

/// The header of one package inside a list.
#[derive(Debug, Copy, Clone)]
pub struct HiiPackageHeader {
    pub length: u32,
    pub package_type: u8,
}

/// The kinds of packages a list can carry.
#[derive(Debug, Copy, Clone, PartialEq, Eq, Structural)]
pub enum HiiPackageType {
    All,
    Guid,
    Forms,
    Strings,
    Fonts,
    Images,
    SimpleFonts,
    DevicePath,
    KeyboardLayout,
    Animations,
    End,
    SystemBegin,
    SystemEnd,
}

/// EFI_HII_DATABASE_PROTOCOL, its services as opaque address values.
#[derive(Debug, Copy, Clone)]
pub struct HiiDatabaseProtocol {
    pub new_package_list: usize,
    pub remove_package_list: usize,
    pub update_package_list: usize,
    pub list_package_lists: usize,
    pub export_package_lists: usize,
    pub register_package_notify: usize,
    pub unregister_package_notify: usize,
    pub find_keyboard_layouts: usize,
    pub get_keyboard_layout: usize,
    pub set_keyboard_layout: usize,
    pub get_package_list_handle: usize,
}

/// EFI_HII_STRING_PROTOCOL, its services as opaque address values.
#[derive(Debug, Copy, Clone)]
pub struct HiiStringProtocol {
    pub new_string: usize,
    pub get_string: usize,
    pub set_string: usize,
    pub get_languages: usize,
    pub get_secondary_languages: usize,
}

/// A font request: style, size and the first character of its name.
#[derive(Debug, Copy, Clone)]
pub struct HiiFontInfo {
    pub font_style: HiiFontStyle,
    pub font_size: u16,
    pub font_name: [u16; 1],
}

/// EFI_HII_IMAGE_PROTOCOL, its services as opaque address values.
#[derive(Debug, Copy, Clone)]
pub struct HiiImageProtocol {
    pub new_image: usize,
    pub get_image: usize,
    pub set_image: usize,
    pub draw_image: usize,
    pub draw_image_id: usize,
}

/// EFI_HII_FONT_PROTOCOL, its services as opaque address values.
#[derive(Debug, Copy, Clone)]
pub struct HiiFontProtocol {
    pub string_to_image: usize,
    pub string_id_to_image: usize,
    pub get_glyph: usize,
    pub get_font_info: usize,
}

/// How a string is drawn: colours and font selection.
#[derive(Debug, Copy, Clone)]
pub struct HiiFontDisplayInfo {
    pub foreground_color: crate::protocols::graphics_output::GraphicsOutputBltPixel,
    pub background_color: crate::protocols::graphics_output::GraphicsOutputBltPixel,
    pub font_info_mask: HiiFontInfoMask,
    pub font_info: HiiFontInfo,
}

/// Geometry of one rendered text row.
#[derive(Debug, Copy, Clone)]
pub struct HiiRowInfo {
    pub start_index: usize,
    pub end_index: usize,
    pub line_height: usize,
    pub line_width: usize,
    pub baseline_offset: usize,
}

/// EFI_HII_CONFIG_ACCESS_PROTOCOL, its services as opaque address values.
#[derive(Debug, Copy, Clone)]
pub struct HiiConfigAccessProtocol {
    pub extract_config: usize,
    pub route_config: usize,
    pub callback: usize,
}

/// EFI_HII_CONFIG_ROUTING_PROTOCOL, its services as opaque address
/// values.
#[derive(Debug, Copy, Clone)]
pub struct HiiConfigRoutingProtocol {
    pub extract_config: usize,
    pub export_config: usize,
    pub route_config: usize,
    pub block_to_config: usize,
    pub config_to_block: usize,
    pub get_alt_config: usize,
}

} // verus!
