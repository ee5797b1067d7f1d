//! BMP image decoding and encoding against the graphics output pixel
//! format.  Only uncompressed 24-bit images are converted; every pixel
//! read is bounded by the caller-supplied buffer.

use vstd::prelude::*;

use crate::bytes::{read_u16_le, read_u32_le, u16_le, u16_le_bytes, u32_le, u32_le_bytes};
use crate::protocols::graphics_output::GraphicsOutputBltPixel;

verus! {

// BMP Compression types
pub const BI_RGB: u32 = 0;

pub const BI_RLE8: u32 = 1;

pub const BI_RLE4: u32 = 2;

pub const BI_BITFIELDS: u32 = 3;

/// BMP conversion errors.
#[derive(Debug, Copy, Clone, PartialEq, Eq, Structural)]
pub enum BmpError {
    InvalidSignature,
    InvalidHeader,
    UnsupportedFormat,
    InvalidDimensions,
    BufferTooSmall,
    CompressionNotSupported,
}

/// BMP File Header; 14 bytes on the wire.
#[derive(Debug, Copy, Clone)]
pub struct BmpFileHeader {
    /// "BM" read little-endian: 0x4D42
    pub signature: u16,
    pub file_size: u32,
    pub reserved1: u16,
    pub reserved2: u16,
    pub data_offset: u32,
}

/// BMP Info Header; 40 bytes on the wire.
#[derive(Debug, Copy, Clone)]
pub struct BmpInfoHeader {
    pub header_size: u32,
    pub width: i32,
    pub height: i32,
    pub planes: u16,
    pub bits_per_pixel: u16,
    pub compression: u32,
    pub image_size: u32,
    pub x_pixels_per_meter: i32,
    pub y_pixels_per_meter: i32,
    pub colors_used: u32,
    pub important_colors: u32,
}

/// One BMP pixel as stored on the wire: blue, green, red.
#[derive(Debug, Copy, Clone, PartialEq, Eq, Structural)]
pub struct BmpPixel {
    pub blue: u8,
    pub green: u8,
    pub red: u8,
}

/// BMP Color Palette Entry
#[derive(Debug, Copy, Clone)]
pub struct BmpColorMap {
    pub blue: u8,
    pub green: u8,
    pub red: u8,
    pub reserved: u8,
}

/// The 32-bit field at `off` read as a signed value.
pub open spec fn i32_le(s: Seq<u8>, off: int) -> int {
    if u32_le(s, off) < 0x8000_0000 {
        u32_le(s, off)
    } else {
        u32_le(s, off) - 0x1_0000_0000
    }
}

fn read_i32_le(b: &[u8], off: usize) -> (r: i32)
    requires
        off + 4 <= b@.len(),
    ensures
        r as int == i32_le(b@, off as int),
{
    let u = read_u32_le(b, off);
    if u < 0x8000_0000 {
        u as i32
    } else {
        -((0xFFFF_FFFFu32 - u) as i32) - 1
    }
}

/// A decoded BMP image: its two headers and the whole file buffer the
/// pixel data lives in.
pub struct BmpImage<'a> {
    pub file_header: BmpFileHeader,
    pub info_header: BmpInfoHeader,
    pub data: &'a [u8],
}

/// Bytes of one pixel row, padded to a multiple of four.
pub open spec fn bmp_row_size(width: int) -> int {
    ((24 * width + 31) / 32) * 4
}

/// The magnitude of a signed dimension.
pub open spec fn abs_dim(v: int) -> int {
    if v >= 0 {
        v
    } else {
        -v
    }
}

/// The row of the file that holds display row `y`: files are stored
/// bottom-up when the declared height is positive.
pub open spec fn bmp_source_row(bottom_up: bool, height: int, y: int) -> int {
    if bottom_up {
        height - 1 - y
    } else {
        y
    }
}

/// Offset of the 3-byte pixel (y, x) inside the file buffer.
pub open spec fn bmp_pixel_off(
    data_offset: int,
    width: int,
    bottom_up: bool,
    height: int,
    y: int,
    x: int,
) -> int {
    data_offset + bmp_source_row(bottom_up, height, y) * bmp_row_size(width) + 3 * x
}

/// Offset of the source pixel that nearest-neighbour sampling picks for
/// target pixel (y, x) when scaling to `target_width` by `target_height`.
pub open spec fn bmp_scaled_source_off(
    data_offset: int,
    width: int,
    bottom_up: bool,
    height: int,
    target_width: int,
    target_height: int,
    y: int,
    x: int,
) -> int {
    bmp_pixel_off(
        data_offset,
        width,
        bottom_up,
        height,
        y * height / target_height,
        x * width / target_width,
    )
}

/// The graphics pixel decoded from the blue, green and red bytes at `off`.
pub open spec fn bmp_pixel_at(s: Seq<u8>, off: int) -> GraphicsOutputBltPixel {
    GraphicsOutputBltPixel { blue: s[off], green: s[off + 1], red: s[off + 2], reserved: 0 }
}

/// Every pixel of the image lies inside the file buffer.
pub open spec fn bmp_pixels_in_bounds(
    s: Seq<u8>,
    data_offset: int,
    width: int,
    bottom_up: bool,
    height: int,
) -> bool {
    forall|y: int, x: int|
        0 <= y < height && 0 <= x < width ==> #[trigger] bmp_pixel_off(
            data_offset,
            width,
            bottom_up,
            height,
            y,
            x,
        ) + 3 <= s.len()
}

/// Row-major indexing stays below the rows already emitted.
proof fn lemma_row_major_bound(yy: int, xx: int, y: int, gw: int)
    requires
        0 <= yy < y,
        0 <= xx < gw,
    ensures
        yy * gw + xx < y * gw,
{
    assert(yy * gw + gw <= y * gw) by (nonlinear_arith)
        requires
            yy + 1 <= y,
            gw >= 0,
    ;
}

impl<'a> BmpImage<'a> {
    /// The file buffer this image was decoded from.
    pub open spec fn spec_data(&self) -> Seq<u8> {
        self.data@
    }

    /// The image width: the magnitude of the declared signed width.
    pub open spec fn spec_width(&self) -> int {
        abs_dim(self.info_header.width as int)
    }

    /// The image height: the magnitude of the declared signed height.
    pub open spec fn spec_height(&self) -> int {
        abs_dim(self.info_header.height as int)
    }

    /// The file stores rows bottom-up when the declared height is
    /// positive.
    pub open spec fn spec_bottom_up(&self) -> bool {
        self.info_header.height > 0
    }

    /// Parse a BMP file from a buffer: check the signature, decode both
    /// headers and validate the declared dimensions.
    pub fn from_buffer(buffer: &'a [u8]) -> (r: Result<BmpImage<'a>, BmpError>)
        ensures
            match r {
                Ok(img) => {
                    &&& buffer@.len() >= 54
                    &&& u16_le(buffer@, 0) == 0x4D42
                    &&& i32_le(buffer@, 18) > 0
                    &&& i32_le(buffer@, 22) != 0
                    &&& img.spec_data() == buffer@
                    &&& img.file_header.signature == 0x4D42
                    &&& img.file_header.file_size as int == u32_le(buffer@, 2)
                    &&& img.file_header.data_offset as int == u32_le(buffer@, 10)
                    &&& img.info_header.header_size as int == u32_le(buffer@, 14)
                    &&& img.info_header.width as int == i32_le(buffer@, 18)
                    &&& img.info_header.height as int == i32_le(buffer@, 22)
                    &&& img.info_header.planes as int == u16_le(buffer@, 26)
                    &&& img.info_header.bits_per_pixel as int == u16_le(buffer@, 28)
                    &&& img.info_header.compression as int == u32_le(buffer@, 30)
                    &&& img.info_header.image_size as int == u32_le(buffer@, 34)
                },
                Err(BmpError::BufferTooSmall) => buffer@.len() < 54,
                Err(BmpError::InvalidSignature) => buffer@.len() >= 54 && u16_le(buffer@, 0)
                    != 0x4D42,
                Err(BmpError::InvalidDimensions) => buffer@.len() >= 54 && u16_le(buffer@, 0)
                    == 0x4D42 && (i32_le(buffer@, 18) <= 0 || i32_le(buffer@, 22) == 0),
                _ => false,
            },
    {
        let n: usize = buffer.len();
        if n < 54 {
            return Err(BmpError::BufferTooSmall);
        }
        let signature = read_u16_le(buffer, 0);
        if signature != 0x4D42 {
            return Err(BmpError::InvalidSignature);
        }
        let file_header = BmpFileHeader {
            signature,
            file_size: read_u32_le(buffer, 2),
            reserved1: read_u16_le(buffer, 6),
            reserved2: read_u16_le(buffer, 8),
            data_offset: read_u32_le(buffer, 10),
        };
        let info_header = BmpInfoHeader {
            header_size: read_u32_le(buffer, 14),
            width: read_i32_le(buffer, 18),
            height: read_i32_le(buffer, 22),
            planes: read_u16_le(buffer, 26),
            bits_per_pixel: read_u16_le(buffer, 28),
            compression: read_u32_le(buffer, 30),
            image_size: read_u32_le(buffer, 34),
            x_pixels_per_meter: read_i32_le(buffer, 38),
            y_pixels_per_meter: read_i32_le(buffer, 42),
            colors_used: read_u32_le(buffer, 46),
            important_colors: read_u32_le(buffer, 50),
        };
        if info_header.width <= 0 || info_header.height == 0 {
            return Err(BmpError::InvalidDimensions);
        }
        Ok(BmpImage { file_header, info_header, data: buffer })
    }

    /// Get image width
    pub fn width(&self) -> (w: u32)
        ensures
            w as int == self.spec_width(),
    {
        let v = self.info_header.width;
        if v >= 0 {
            v as u32
        } else {
            ((-(v as i64)) as u32)
        }
    }

    /// Get image height
    pub fn height(&self) -> (h: u32)
        ensures
            h as int == self.spec_height(),
    {
        let v = self.info_header.height;
        if v >= 0 {
            v as u32
        } else {
            ((-(v as i64)) as u32)
        }
    }

    /// Check if image is bottom-up (positive height) or top-down
    /// (negative height).
    pub fn is_bottom_up(&self) -> (r: bool)
        ensures
            r == self.spec_bottom_up(),
    {
        self.info_header.height > 0
    }

    /// Get bits per pixel
    pub fn bits_per_pixel(&self) -> (b: u16)
        ensures
            b == self.info_header.bits_per_pixel,
    {
        self.info_header.bits_per_pixel
    }

    /// Convert the image to a graphics blt buffer in row-major display
    /// order, together with its width and height.  Only uncompressed
    /// 24-bit files convert; a pixel reaching past the file buffer
    /// degrades to an error rather than a wild read.
    pub fn to_blt_buffer(&self) -> (r: Result<(Vec<GraphicsOutputBltPixel>, u32, u32), BmpError>)
        ensures
            match r {
                Ok((v, w, h)) => {
                    &&& self.info_header.bits_per_pixel == 24
                    &&& self.info_header.compression == BI_RGB
                    &&& w as int == self.spec_width()
                    &&& h as int == self.spec_height()
                    &&& v@.len() == self.spec_width() * self.spec_height()
                    &&& bmp_pixels_in_bounds(
                        self.spec_data(),
                        self.file_header.data_offset as int,
                        self.spec_width(),
                        self.spec_bottom_up(),
                        self.spec_height(),
                    )
                    &&& forall|y: int, x: int|
                        0 <= y < h as int && 0 <= x < w as int ==> v@[y * w + x] == bmp_pixel_at(
                            self.spec_data(),
                            #[trigger] bmp_pixel_off(
                                self.file_header.data_offset as int,
                                w as int,
                                self.spec_bottom_up(),
                                h as int,
                                y,
                                x,
                            ),
                        )
                },
                Err(BmpError::UnsupportedFormat) => self.info_header.bits_per_pixel != 24,
                Err(BmpError::CompressionNotSupported) => self.info_header.bits_per_pixel == 24
                    && self.info_header.compression != BI_RGB,
                Err(BmpError::BufferTooSmall) => self.info_header.bits_per_pixel == 24
                    && self.info_header.compression == BI_RGB && !bmp_pixels_in_bounds(
                    self.spec_data(),
                    self.file_header.data_offset as int,
                    self.spec_width(),
                    self.spec_bottom_up(),
                    self.spec_height(),
                ),
                _ => false,
            },
    {
        if self.info_header.bits_per_pixel != 24 {
            return Err(BmpError::UnsupportedFormat);
        }
        if self.info_header.compression != BI_RGB {
            return Err(BmpError::CompressionNotSupported);
        }
        let n: usize = self.data.len();
        let width = self.width();
        let height = self.height();
        let bottom_up = self.is_bottom_up();
        let row_size: u64 = (24 * (width as u64) + 31) / 32 * 4;
        let data_offset: u64 = self.file_header.data_offset as u64;
        let mut v: Vec<GraphicsOutputBltPixel> = Vec::new();
        let ghost gw = self.spec_width();
        let ghost gh = self.spec_height();
        let mut y: u32 = 0;
        while y < height
            invariant
                0 <= y <= height,
                width as int == gw,
                height as int == gh,
                gw == self.spec_width(),
                gh == self.spec_height(),
                bottom_up == self.spec_bottom_up(),
                n == self.spec_data().len(),
                row_size == bmp_row_size(gw),
                data_offset == self.file_header.data_offset,
                v@.len() == y * gw,
                self.info_header.bits_per_pixel == 24,
                self.info_header.compression == BI_RGB,
                forall|yy: int, x: int|
                    0 <= yy < y as int && 0 <= x < gw ==> #[trigger] bmp_pixel_off(
                        data_offset as int,
                        gw,
                        bottom_up,
                        gh,
                        yy,
                        x,
                    ) + 3 <= n,
                forall|yy: int, x: int|
                    0 <= yy < y as int && 0 <= x < gw ==> v@[yy * gw + x] == bmp_pixel_at(
                        self.spec_data(),
                        #[trigger] bmp_pixel_off(
                            data_offset as int,
                            gw,
                            bottom_up,
                            gh,
                            yy,
                            x,
                        ),
                    ),
            decreases height - y,
        {
            let bmp_y: u32 = if bottom_up {
                height - 1 - y
            } else {
                y
            };
            proof {
                assert(bmp_y as u128 * row_size as u128 <= 0xFFFF_FFFFu128
                    * 0xFFFF_FFFF_FFFF_FFFFu128) by (nonlinear_arith)
                    requires
                        bmp_y as u128 <= 0xFFFF_FFFFu128,
                        row_size as u128 <= 0xFFFF_FFFF_FFFF_FFFFu128,
                ;
            }
            let row_base: u128 = data_offset as u128 + (bmp_y as u128) * (row_size as u128);
            assert(row_base <= 0xFFFF_FFFFu128 + 0xFFFF_FFFFu128 * 0xFFFF_FFFF_FFFF_FFFFu128);
            let mut x: u32 = 0;
            while x < width
                invariant
                    0 <= x <= width,
                    0 <= y < height,
                    width as int == gw,
                    height as int == gh,
                    gw == self.spec_width(),
                    gh == self.spec_height(),
                    bottom_up == self.spec_bottom_up(),
                    n == self.spec_data().len(),
                    row_size == bmp_row_size(gw),
                    data_offset == self.file_header.data_offset,
                    bmp_y as int == bmp_source_row(bottom_up, gh, y as int),
                    row_base == data_offset as int + bmp_y as int * row_size as int,
                    row_base <= 0xFFFF_FFFFu128 + 0xFFFF_FFFFu128 * 0xFFFF_FFFF_FFFF_FFFFu128,
                    v@.len() == y * gw + x,
                    self.info_header.bits_per_pixel == 24,
                    self.info_header.compression == BI_RGB,
                    forall|yy: int, xx: int|
                        0 <= yy < y as int && 0 <= xx < gw ==> #[trigger] bmp_pixel_off(
                            data_offset as int,
                            gw,
                            bottom_up,
                            gh,
                            yy,
                            xx,
                        ) + 3 <= n,
                    forall|xx: int|
                        0 <= xx < x as int ==> #[trigger] bmp_pixel_off(
                            data_offset as int,
                            gw,
                            bottom_up,
                            gh,
                            y as int,
                            xx,
                        ) + 3 <= n,
                    forall|yy: int, xx: int|
                        0 <= yy < y as int && 0 <= xx < gw ==> v@[yy * gw + xx] == bmp_pixel_at(
                            self.spec_data(),
                            #[trigger] bmp_pixel_off(
                                data_offset as int,
                                gw,
                                bottom_up,
                                gh,
                                yy,
                                xx,
                            ),
                        ),
                    forall|xx: int|
                        0 <= xx < x as int ==> v@[y as int * gw + xx] == bmp_pixel_at(
                            self.spec_data(),
                            #[trigger] bmp_pixel_off(
                                data_offset as int,
                                gw,
                                bottom_up,
                                gh,
                                y as int,
                                xx,
                            ),
                        ),
                decreases width - x,
            {
                let pixel_off: u128 = row_base + 3 * (x as u128);
                proof {
                    assert(pixel_off == bmp_pixel_off(
                        data_offset as int,
                        gw,
                        bottom_up,
                        gh,
                        y as int,
                        x as int,
                    ));
                }
                if pixel_off >= n as u128 || (n as u128) - pixel_off < 3 {
                    proof {
                        assert(!bmp_pixels_in_bounds(
                            self.spec_data(),
                            data_offset as int,
                            gw,
                            bottom_up,
                            gh,
                        ));
                    }
                    return Err(BmpError::BufferTooSmall);
                }
                let off = pixel_off as usize;
                let pixel = GraphicsOutputBltPixel {
                    blue: self.data[off],
                    green: self.data[off + 1],
                    red: self.data[off + 2],
                    reserved: 0,
                };
                v.push(pixel);
                proof {
                    assert(y as int * gw + (x as int + 1) == y as int * gw + x as int + 1);
                    assert forall|yy: int, xx: int|
                        0 <= yy < y as int && 0 <= xx < gw implies v@[yy * gw + xx]
                        == bmp_pixel_at(
                        self.spec_data(),
                        #[trigger] bmp_pixel_off(data_offset as int, gw, bottom_up, gh, yy, xx),
                    ) by {
                        lemma_row_major_bound(yy, xx, y as int, gw);
                    }
                }
                x = x + 1;
            }
            proof {
                assert((y as int + 1) * gw == y as int * gw + gw) by (nonlinear_arith);
                assert forall|yy: int, xx: int|
                    0 <= yy < y as int + 1 && 0 <= xx < gw implies v@[yy * gw + xx]
                    == bmp_pixel_at(
                    self.spec_data(),
                    #[trigger] bmp_pixel_off(data_offset as int, gw, bottom_up, gh, yy, xx),
                ) by {
                    if yy == y as int {
                        assert(v@[y as int * gw + xx] == bmp_pixel_at(
                            self.spec_data(),
                            bmp_pixel_off(data_offset as int, gw, bottom_up, gh, y as int, xx),
                        ));
                    }
                }
            }
            y = y + 1;
        }
        proof {
            assert(v@.len() == gh * gw);
            assert(gh * gw == gw * gh) by (nonlinear_arith);
        }
        Ok((v, width, height))
    }

    /// Convert to a blt buffer of the requested dimensions by
    /// nearest-neighbour sampling.
    pub fn to_blt_buffer_scaled(&self, target_width: u32, target_height: u32) -> (r: Result<
        Vec<GraphicsOutputBltPixel>,
        BmpError,
    >)
        ensures
            match r {
                Ok(v) => {
                    &&& v@.len() == target_width as int * target_height as int
                    &&& forall|y: int, x: int|
                        0 <= y < target_height as int && 0 <= x < target_width as int ==> v@[y
                            * target_width + x] == bmp_pixel_at(
                            self.spec_data(),
                            #[trigger] bmp_scaled_source_off(
                                self.file_header.data_offset as int,
                                self.spec_width(),
                                self.spec_bottom_up(),
                                self.spec_height(),
                                target_width as int,
                                target_height as int,
                                y,
                                x,
                            ),
                        )
                },
                Err(BmpError::UnsupportedFormat) => self.info_header.bits_per_pixel != 24,
                Err(BmpError::CompressionNotSupported) => self.info_header.bits_per_pixel == 24
                    && self.info_header.compression != BI_RGB,
                Err(BmpError::BufferTooSmall) => self.info_header.bits_per_pixel == 24
                    && self.info_header.compression == BI_RGB && !bmp_pixels_in_bounds(
                    self.spec_data(),
                    self.file_header.data_offset as int,
                    self.spec_width(),
                    self.spec_bottom_up(),
                    self.spec_height(),
                ),
                Err(BmpError::InvalidDimensions) => {
                    &&& self.info_header.bits_per_pixel == 24
                    &&& self.info_header.compression == BI_RGB
                    &&& bmp_pixels_in_bounds(
                        self.spec_data(),
                        self.file_header.data_offset as int,
                        self.spec_width(),
                        self.spec_bottom_up(),
                        self.spec_height(),
                    )
                    &&& !(self.spec_width() == target_width as int && self.spec_height()
                        == target_height as int)
                    &&& (self.spec_width() == 0 || self.spec_height() == 0 || target_width == 0
                        || target_height == 0)
                },
                _ => false,
            },
    {
        let (blt_buffer, width, height) = match self.to_blt_buffer() {
            Ok(t) => t,
            Err(e) => {
                return Err(e);
            },
        };
        if width == target_width && height == target_height {
            proof {
                let gw = self.spec_width();
                let gh = self.spec_height();
                assert forall|y: int, x: int|
                    0 <= y < target_height as int && 0 <= x < target_width as int implies
                    blt_buffer@[y * target_width + x] == bmp_pixel_at(
                    self.spec_data(),
                    #[trigger] bmp_scaled_source_off(
                        self.file_header.data_offset as int,
                        gw,
                        self.spec_bottom_up(),
                        gh,
                        target_width as int,
                        target_height as int,
                        y,
                        x,
                    ),
                ) by {
                    assert(y * gh / gh == y) by (nonlinear_arith)
                        requires
                            0 <= y,
                            gh >= 1,
                    ;
                    assert(x * gw / gw == x) by (nonlinear_arith)
                        requires
                            0 <= x,
                            gw >= 1,
                    ;
                }
            }
            return Ok(blt_buffer);
        }
        if width == 0 || height == 0 || target_width == 0 || target_height == 0 {
            return Err(BmpError::InvalidDimensions);
        }
        let mut scaled: Vec<GraphicsOutputBltPixel> = Vec::new();
        let ghost gw = width as int;
        let ghost gh = height as int;
        let mut y: u32 = 0;
        while y < target_height
            invariant
                y <= target_height,
                width >= 1,
                height >= 1,
                target_width >= 1,
                target_height >= 1,
                width as int == gw,
                height as int == gh,
                blt_buffer@.len() == gw * gh,
                scaled@.len() == y * target_width as int,
                gw == self.spec_width(),
                gh == self.spec_height(),
                forall|yy: int, xx: int|
                    0 <= yy < y as int && 0 <= xx < target_width as int ==> scaled@[yy
                        * target_width + xx] == bmp_pixel_at(
                        self.spec_data(),
                        #[trigger] bmp_scaled_source_off(
                            self.file_header.data_offset as int,
                            gw,
                            self.spec_bottom_up(),
                            gh,
                            target_width as int,
                            target_height as int,
                            yy,
                            xx,
                        ),
                    ),
                forall|yy: int, xx: int|
                    0 <= yy < gh && 0 <= xx < gw ==> blt_buffer@[yy * gw + xx] == bmp_pixel_at(
                        self.spec_data(),
                        #[trigger] bmp_pixel_off(
                            self.file_header.data_offset as int,
                            gw,
                            self.spec_bottom_up(),
                            gh,
                            yy,
                            xx,
                        ),
                    ),
            decreases target_height - y,
        {
            proof {
                assert(y as u64 * height as u64 <= 0xFFFF_FFFFu64 * 0xFFFF_FFFFu64)
                    by (nonlinear_arith)
                    requires
                        y as u64 <= 0xFFFF_FFFFu64,
                        height as u64 <= 0xFFFF_FFFFu64,
                ;
                assert((y as int * gh / (target_height as int)) < gh) by (nonlinear_arith)
                    requires
                        0 <= (y as int) < (target_height as int),
                        gh >= 1,
                ;
            }
            let src_y: u32 = ((y as u64 * height as u64) / target_height as u64) as u32;
            let mut x: u32 = 0;
            while x < target_width
                invariant
                    x <= target_width,
                    y < target_height,
                    width >= 1,
                    height >= 1,
                    target_width >= 1,
                    target_height >= 1,
                    width as int == gw,
                    height as int == gh,
                    blt_buffer@.len() == gw * gh,
                    src_y as int == y as int * gh / (target_height as int),
                    (src_y as int) < gh,
                    scaled@.len() == y * target_width as int + x,
                    gw == self.spec_width(),
                    gh == self.spec_height(),
                    forall|yy: int, xx: int|
                        0 <= yy < y as int && 0 <= xx < target_width as int ==> scaled@[yy
                            * target_width + xx] == bmp_pixel_at(
                            self.spec_data(),
                            #[trigger] bmp_scaled_source_off(
                                self.file_header.data_offset as int,
                                gw,
                                self.spec_bottom_up(),
                                gh,
                                target_width as int,
                                target_height as int,
                                yy,
                                xx,
                            ),
                        ),
                    forall|xx: int|
                        0 <= xx < x as int ==> scaled@[y as int * target_width + xx]
                            == bmp_pixel_at(
                            self.spec_data(),
                            #[trigger] bmp_scaled_source_off(
                                self.file_header.data_offset as int,
                                gw,
                                self.spec_bottom_up(),
                                gh,
                                target_width as int,
                                target_height as int,
                                y as int,
                                xx,
                            ),
                        ),
                    forall|yy: int, xx: int|
                        0 <= yy < gh && 0 <= xx < gw ==> blt_buffer@[yy * gw + xx] == bmp_pixel_at(
                            self.spec_data(),
                            #[trigger] bmp_pixel_off(
                                self.file_header.data_offset as int,
                                gw,
                                self.spec_bottom_up(),
                                gh,
                                yy,
                                xx,
                            ),
                        ),
                decreases target_width - x,
            {
                proof {
                    assert(x as u64 * width as u64 <= 0xFFFF_FFFFu64 * 0xFFFF_FFFFu64)
                        by (nonlinear_arith)
                        requires
                            x as u64 <= 0xFFFF_FFFFu64,
                            width as u64 <= 0xFFFF_FFFFu64,
                    ;
                    assert((x as int * gw / (target_width as int)) < gw) by (nonlinear_arith)
                        requires
                            0 <= (x as int) < (target_width as int),
                            gw >= 1,
                    ;
                }
                let src_x: u32 = ((x as u64 * width as u64) / target_width as u64) as u32;
                proof {
                    assert((src_y as int * gw + src_x as int) < gh * gw) by (nonlinear_arith)
                        requires
                            0 <= (src_y as int) < gh,
                            0 <= (src_x as int) < gw,
                    ;
                    assert(gh * gw == gw * gh) by (nonlinear_arith);
                    assert(src_y as u64 * width as u64 <= 0xFFFF_FFFFu64 * 0xFFFF_FFFFu64)
                        by (nonlinear_arith)
                        requires
                            src_y as u64 <= 0xFFFF_FFFFu64,
                            width as u64 <= 0xFFFF_FFFFu64,
                    ;
                }
                let src_index: usize = ((src_y as u64 * width as u64 + src_x as u64)) as usize;
                scaled.push(blt_buffer[src_index]);
                proof {
                    assert(src_x as int == x as int * gw / (target_width as int));
                    assert(bmp_scaled_source_off(
                        self.file_header.data_offset as int,
                        gw,
                        self.spec_bottom_up(),
                        gh,
                        target_width as int,
                        target_height as int,
                        y as int,
                        x as int,
                    ) == bmp_pixel_off(
                        self.file_header.data_offset as int,
                        gw,
                        self.spec_bottom_up(),
                        gh,
                        src_y as int,
                        src_x as int,
                    ));
                    assert forall|yy: int, xx: int|
                        0 <= yy < y as int && 0 <= xx < target_width as int implies scaled@[yy
                        * target_width + xx] == bmp_pixel_at(
                        self.spec_data(),
                        #[trigger] bmp_scaled_source_off(
                            self.file_header.data_offset as int,
                            gw,
                            self.spec_bottom_up(),
                            gh,
                            target_width as int,
                            target_height as int,
                            yy,
                            xx,
                        ),
                    ) by {
                        lemma_row_major_bound(yy, xx, y as int, target_width as int);
                    }
                }
                x = x + 1;
            }
            proof {
                assert((y as int + 1) * target_width as int == y as int * target_width as int
                    + target_width as int) by (nonlinear_arith);
            }
            y = y + 1;
        }
        proof {
            assert(scaled@.len() == target_height as int * target_width as int);
            assert(target_height as int * target_width as int == target_width as int
                * target_height as int) by (nonlinear_arith);
        }
        Ok(scaled)
    }
}

/// Write the 54 header bytes of an uncompressed 24-bit BMP file.
#[verifier::rlimit(60)]
fn push_bmp_headers(v: &mut Vec<u8>, width: u32, height: u32, file_size_low: u32, image_size_low: u32)
    requires
        old(v)@.len() == 0,
    ensures
        final(v)@.len() == 54,
        u16_le(final(v)@, 0) == 0x4D42,
        u32_le(final(v)@, 2) == file_size_low as int,
        u32_le(final(v)@, 10) == 54,
        u32_le(final(v)@, 14) == 40,
        u32_le(final(v)@, 18) == width as int,
        u32_le(final(v)@, 22) == height as int,
        u16_le(final(v)@, 26) == 1,
        u16_le(final(v)@, 28) == 24,
        u32_le(final(v)@, 30) == BI_RGB,
        u32_le(final(v)@, 34) == image_size_low as int,
{
    v.push(0x42);
    v.push(0x4D);
    crate::bytes::push_u32_le(v, file_size_low);
    crate::bytes::push_u16_le(v, 0);
    crate::bytes::push_u16_le(v, 0);
    crate::bytes::push_u32_le(v, 54);
    crate::bytes::push_u32_le(v, 40);
    crate::bytes::push_u32_le(v, width);
    crate::bytes::push_u32_le(v, height);
    crate::bytes::push_u16_le(v, 1);
    crate::bytes::push_u16_le(v, 24);
    crate::bytes::push_u32_le(v, BI_RGB);
    crate::bytes::push_u32_le(v, image_size_low);
    crate::bytes::push_u32_le(v, 0);
    crate::bytes::push_u32_le(v, 0);
    crate::bytes::push_u32_le(v, 0);
    crate::bytes::push_u32_le(v, 0);
    proof {
        let s = v@;
        assert(s.subrange(0, 2) =~= u16_le_bytes(0x4D42));
        assert(s.subrange(2, 6) =~= u32_le_bytes(file_size_low));
        assert(s.subrange(10, 14) =~= u32_le_bytes(54));
        assert(s.subrange(14, 18) =~= u32_le_bytes(40));
        assert(s.subrange(18, 22) =~= u32_le_bytes(width));
        assert(s.subrange(22, 26) =~= u32_le_bytes(height));
        assert(s.subrange(26, 28) =~= u16_le_bytes(1));
        assert(s.subrange(28, 30) =~= u16_le_bytes(24));
        assert(s.subrange(30, 34) =~= u32_le_bytes(BI_RGB));
        assert(s.subrange(34, 38) =~= u32_le_bytes(image_size_low));
        crate::bytes::lemma_u16_le_at(s, 0, 0x4D42);
        crate::bytes::lemma_u32_le_at(s, 2, file_size_low);
        crate::bytes::lemma_u32_le_at(s, 10, 54);
        crate::bytes::lemma_u32_le_at(s, 14, 40);
        crate::bytes::lemma_u32_le_at(s, 18, width);
        crate::bytes::lemma_u32_le_at(s, 22, height);
        crate::bytes::lemma_u16_le_at(s, 26, 1);
        crate::bytes::lemma_u16_le_at(s, 28, 24);
        crate::bytes::lemma_u32_le_at(s, 30, BI_RGB);
        crate::bytes::lemma_u32_le_at(s, 34, image_size_low);
    }
}

/// Create an uncompressed 24-bit BMP file from a blt buffer: both headers
/// followed by the rows bottom-up, each padded to a multiple of four
/// bytes.
#[verifier::rlimit(60)]
pub fn blt_to_bmp(blt_buffer: &Vec<GraphicsOutputBltPixel>, width: u32, height: u32) -> (r: Result<
    Vec<u8>,
    BmpError,
>)
    ensures
        match r {
            Ok(v) => {
                &&& width >= 1 && height >= 1
                &&& blt_buffer@.len() == width as int * height as int
                &&& v@.len() == 54 + bmp_row_size(width as int) * height as int
                &&& u16_le(v@, 0) == 0x4D42
                &&& u32_le(v@, 10) == 54
                &&& u32_le(v@, 14) == 40
                &&& u32_le(v@, 18) == width as int
                &&& u32_le(v@, 22) == height as int
                &&& u16_le(v@, 28) == 24
                &&& u32_le(v@, 30) == BI_RGB
            },
            Err(BmpError::InvalidDimensions) => width == 0 || height == 0,
            Err(BmpError::BufferTooSmall) => width >= 1 && height >= 1 && blt_buffer@.len()
                != width as int * height as int,
            _ => false,
        },
{
    if width == 0 || height == 0 {
        return Err(BmpError::InvalidDimensions);
    }
    let len = blt_buffer.len();
    let ghost gw = width as int;
    let ghost gh = height as int;
    proof {
        assert(width as u64 * height as u64 <= 0xFFFF_FFFFu64 * 0xFFFF_FFFFu64)
            by (nonlinear_arith)
            requires
                width as u64 <= 0xFFFF_FFFFu64,
                height as u64 <= 0xFFFF_FFFFu64,
        ;
    }
    let expected: u64 = width as u64 * height as u64;
    if len as u64 != expected {
        proof {
            assert(blt_buffer@.len() != gw * gh);
        }
        return Err(BmpError::BufferTooSmall);
    }
    let row_size: u64 = (24 * (width as u64) + 31) / 32 * 4;
    proof {
        assert(row_size as u128 * height as u128 <= 0xFFFF_FFFF_FFFF_FFFFu128 * 0xFFFF_FFFFu128)
            by (nonlinear_arith)
            requires
                row_size as u128 <= 0xFFFF_FFFF_FFFF_FFFFu128,
                height as u128 <= 0xFFFF_FFFFu128,
        ;
    }
    let image_size: u128 = row_size as u128 * height as u128;
    let file_size: u128 = 54 + image_size;
    let mut v: Vec<u8> = Vec::new();
    push_bmp_headers(
        &mut v,
        width,
        height,
        (file_size % 0x1_0000_0000) as u32,
        (image_size % 0x1_0000_0000) as u32,
    );
    let ghost header = v@;
    // Pixel rows, bottom-up: display row (height - 1 - row) is written at
    // file row `row`.
    let mut row: u32 = 0;
    while row < height
        invariant
            row <= height,
            width >= 1,
            height >= 1,
            gw == width as int,
            gh == height as int,
            blt_buffer@.len() == gw * gh,
            row_size == bmp_row_size(gw),
            v@.len() == 54 + row as int * row_size,
            header == v@.take(54),
            header.len() == 54,
        decreases height - row,
    {
        let y: u32 = height - 1 - row;
        let ghost row_start = v@.len() as int;
        let mut x: u32 = 0;
        while x < width
            invariant
                x <= width,
                row < height,
                y == height - 1 - row,
                width >= 1,
                height >= 1,
                gw == width as int,
                gh == height as int,
                blt_buffer@.len() == gw * gh,
                row_size == bmp_row_size(gw),
                row_start == 54 + row as int * row_size,
                v@.len() == row_start + 3 * x as int,
                header == v@.take(54),
                header.len() == 54,
            decreases width - x,
        {
            proof {
                assert((y as int * gw + x as int) < gw * gh) by (nonlinear_arith)
                    requires
                        0 <= (y as int) < gh,
                        0 <= (x as int) < gw,
                ;
                assert(y as u64 * width as u64 <= 0xFFFF_FFFFu64 * 0xFFFF_FFFFu64)
                    by (nonlinear_arith)
                    requires
                        y as u64 <= 0xFFFF_FFFFu64,
                        width as u64 <= 0xFFFF_FFFFu64,
                ;
            }
            let idx: usize = (y as u64 * width as u64 + x as u64) as usize;
            let pixel = blt_buffer[idx];
            v.push(pixel.blue);
            v.push(pixel.green);
            v.push(pixel.red);
            proof {
                assert(header =~= v@.take(54));
            }
            x = x + 1;
        }
        // Pad the row to a multiple of four bytes.
        let padding: u32 = (4 - ((width % 4) * 3) % 4) % 4;
        proof {
            assert(3 * gw + ((4 - ((gw % 4) * 3) % 4) % 4) == bmp_row_size(gw))
                by (nonlinear_arith)
                requires
                    gw >= 1,
            ;
        }
        let mut p: u32 = 0;
        while p < padding
            invariant
                p <= padding,
                v@.len() == row_start + 3 * gw + p as int,
                header == v@.take(54),
                header.len() == 54,
                row_start == 54 + row as int * row_size,
                gw == width as int,
                blt_buffer@.len() == gw * gh,
                gh == height as int,
                height >= 1,
                width >= 1,
                row < height,
                row_size == bmp_row_size(gw),
                padding as int == (4 - ((gw % 4) * 3) % 4) % 4,
            decreases padding - p,
        {
            v.push(0);
            proof {
                assert(header =~= v@.take(54));
            }
            p = p + 1;
        }
        proof {
            assert((row as int + 1) * row_size == row as int * row_size + row_size)
                by (nonlinear_arith);
        }
        row = row + 1;
    }
    proof {
        assert(forall|k: int| 0 <= k < 54 ==> v@[k] == header[k]);
        assert(u16_le(v@, 0) == u16_le(header, 0));
        assert(u32_le(v@, 10) == u32_le(header, 10));
        assert(u32_le(v@, 14) == u32_le(header, 14));
        assert(u32_le(v@, 18) == u32_le(header, 18));
        assert(u32_le(v@, 22) == u32_le(header, 22));
        assert(u16_le(v@, 28) == u16_le(header, 28));
        assert(u32_le(v@, 30) == u32_le(header, 30));
        assert(row == height);
        assert(row_size as int == bmp_row_size(width as int));
        assert(row as int * (row_size as int) == bmp_row_size(width as int) * (height as int))
            by (nonlinear_arith)
            requires
                row as int == height as int,
                row_size as int == bmp_row_size(width as int),
        ;
        assert(v@.len() == 54 + bmp_row_size(width as int) * height as int);
    }
    Ok(v)
}

} // verus!
