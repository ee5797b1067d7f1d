//! Graphics format conversions.

pub mod bmp;
