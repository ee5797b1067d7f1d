//! Firmware interface data structures and verified parsing of the
//! self-describing binary metadata tables the platform publishes: ACPI
//! discovery and system-description tables, SMBIOS structure streams, and
//! secure-boot signature databases.
//!
//! Every walker and locator works over caller-supplied bytes; firmware
//! addresses and service entry points are carried as opaque integers and
//! never dereferenced here.  Malformed size or length fields never cause
//! a fault: operations degrade to an absent or empty result, and no
//! function reads past the caller-declared bound of its input.

pub mod allocator;
pub mod boot_services;
pub mod bytes;
pub mod checksum;
pub mod ffi;
pub mod graphics;
pub mod guid;
pub mod logger;
pub mod protocols;
pub mod runtime_services;
pub mod string;
pub mod system_table;
pub mod tables;
