//! PCI I/O protocol structures.

use vstd::prelude::*;

use crate::ffi::Guid;

verus! {

/// Identifier of the PCI I/O protocol.
pub fn pci_io_protocol_guid() -> (g: Guid)
    ensures
        g == (Guid { data1: 0x4cf5b200, data2: 0x68b8, data3: 0x4ca5, data4: [0x9e, 0xec, 0xb2, 0x3e, 0x3f, 0x50, 0x02, 0x9a] }),
{
    Guid { data1: 0x4cf5b200, data2: 0x68b8, data3: 0x4ca5, data4: [0x9e, 0xec, 0xb2, 0x3e, 0x3f, 0x50, 0x02, 0x9a] }
}

/// Access widths, in their architectural order.
#[derive(Debug, Copy, Clone, PartialEq, Eq, Structural)]
pub enum PciIoWidth {
    PciIoWidthUint8,
    PciIoWidthUint16,
    PciIoWidthUint32,
    PciIoWidthUint64,
    PciIoWidthFifoUint8,
    PciIoWidthFifoUint16,
    PciIoWidthFifoUint32,
    PciIoWidthFifoUint64,
    PciIoWidthFillUint8,
    PciIoWidthFillUint16,
    PciIoWidthFillUint32,
    PciIoWidthFillUint64,
    PciIoWidthMaximum,
}

/// Attribute operations, in their architectural order.
#[derive(Debug, Copy, Clone, PartialEq, Eq, Structural)]
pub enum PciIoAttributeOperation {
    EfiPciIoAttributeOperationGet,
    EfiPciIoAttributeOperationSet,
    EfiPciIoAttributeOperationEnable,
    EfiPciIoAttributeOperationDisable,
    EfiPciIoAttributeOperationSupported,
    EfiPciIoAttributeOperationMaximum,
}

/// A read and write pair of access services, as opaque address values.
#[derive(Debug, Copy, Clone)]
pub struct PciIoProtocolAccess {
    pub read: usize,
    pub write: usize,
}

/// A read and write pair of configuration services, as opaque address
/// values.
#[derive(Debug, Copy, Clone)]
pub struct PciIoProtocolConfigAccess {
    pub read: usize,
    pub write: usize,
}

/// EFI_PCI_IO_PROTOCOL, its services as opaque address values.
#[derive(Debug, Copy, Clone)]
pub struct PciIoProtocol {
    pub poll_mem: usize,
    pub poll_io: usize,
    pub mem: PciIoProtocolAccess,
    pub io: PciIoProtocolAccess,
    pub pci: PciIoProtocolConfigAccess,
    pub copy_mem: usize,
    pub map: usize,
    pub unmap: usize,
    pub allocate_buffer: usize,
    pub free_buffer: usize,
    pub flush: usize,
    pub get_location: usize,
    pub attributes: usize,
    pub get_bar_attributes: usize,
    pub set_bar_attributes: usize,
    pub rom_size: u64,
    pub rom_image: usize,
}

// PCI BAR indexes
pub const PCI_BAR_IDX0: u8 = 0;

pub const PCI_BAR_IDX1: u8 = 1;

pub const PCI_BAR_IDX2: u8 = 2;

pub const PCI_BAR_IDX3: u8 = 3;

pub const PCI_BAR_IDX4: u8 = 4;

pub const PCI_BAR_IDX5: u8 = 5;

// PCI attribute bits
pub const EFI_PCI_IO_ATTRIBUTE_IO: u64 = 0x0100;

pub const EFI_PCI_IO_ATTRIBUTE_MEMORY: u64 = 0x0200;

pub const EFI_PCI_IO_ATTRIBUTE_BUS_MASTER: u64 = 0x0400;

} // verus!
