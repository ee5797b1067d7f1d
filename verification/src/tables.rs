//! Firmware-published metadata tables: ACPI discovery, SMBIOS structure
//! streams, and the platform configuration table directory.

use vstd::prelude::*;

pub mod acpi;
pub mod acpi_advanced;
pub mod configuration;
pub mod smbios;

verus! {

/// Why a top-level table validation failed.
///
/// Only the two explicit validation points (root-discovery-pointer parsing
/// and SMBIOS entry-point parsing) surface these; every other operation
/// folds malformed input into an absent or empty result.
#[derive(Debug, Copy, Clone, PartialEq, Eq, Structural)]
pub enum ValidationError {
    /// The fixed anchor string of the structure did not match.
    InvalidAnchor,
    /// The declared region did not sum to zero modulo 256.
    ChecksumMismatch,
    /// A declared length reaches past the end of the supplied region.
    LengthOutOfBounds,
}

} // verus!
