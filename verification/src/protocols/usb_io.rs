//! USB I/O protocol structures and standard descriptor layouts.

use vstd::prelude::*;

use crate::ffi::Guid;

verus! {

/// Identifier of the USB I/O protocol.
pub fn usb_io_protocol_guid() -> (g: Guid)
    ensures
        g == (Guid { data1: 0x2B2F68D6, data2: 0x0CD2, data3: 0x44cf, data4: [0x8e, 0x8b, 0xbb, 0xa2, 0x0b, 0x1b, 0x5b, 0x75] }),
{
    Guid { data1: 0x2B2F68D6, data2: 0x0CD2, data3: 0x44cf, data4: [0x8e, 0x8b, 0xbb, 0xa2, 0x0b, 0x1b, 0x5b, 0x75] }
}

/// Transfer direction, in its architectural order.
#[derive(Debug, Copy, Clone, PartialEq, Eq, Structural)]
pub enum UsbDataDirection {
    UsbDataIn,
    UsbDataOut,
    UsbNoData,
}

/// A control transfer setup packet.
#[derive(Debug, Copy, Clone)]
pub struct UsbDeviceRequest {
    pub request_type: u8,
    pub request: u8,
    pub value: u16,
    pub index: u16,
    pub length: u16,
}

/// The standard device descriptor.
#[derive(Debug, Copy, Clone)]
pub struct UsbDeviceDescriptor {
    pub length: u8,
    pub descriptor_type: u8,
    pub bcd_usb: u16,
    pub device_class: u8,
    pub device_sub_class: u8,
    pub device_protocol: u8,
    pub max_packet_size0: u8,
    pub id_vendor: u16,
    pub id_product: u16,
    pub bcd_device: u16,
    pub str_manufacturer: u8,
    pub str_product: u8,
    pub str_serial_number: u8,
    pub num_configurations: u8,
}

/// The standard configuration descriptor.
#[derive(Debug, Copy, Clone)]
pub struct UsbConfigDescriptor {
    pub length: u8,
    pub descriptor_type: u8,
    pub total_length: u16,
    pub num_interfaces: u8,
    pub configuration_value: u8,
    pub configuration: u8,
    pub attributes: u8,
    pub max_power: u8,
}

/// The standard interface descriptor.
#[derive(Debug, Copy, Clone)]
pub struct UsbInterfaceDescriptor {
    pub length: u8,
    pub descriptor_type: u8,
    pub interface_number: u8,
    pub alternate_setting: u8,
    pub num_endpoints: u8,
    pub interface_class: u8,
    pub interface_sub_class: u8,
    pub interface_protocol: u8,
    pub interface: u8,
}

/// The standard endpoint descriptor.
#[derive(Debug, Copy, Clone)]
pub struct UsbEndpointDescriptor {
    pub length: u8,
    pub descriptor_type: u8,
    pub endpoint_address: u8,
    pub attributes: u8,
    pub max_packet_size: u16,
    pub interval: u8,
}

/// EFI_USB_IO_PROTOCOL, its services as opaque address values.
#[derive(Debug, Copy, Clone)]
pub struct UsbIoProtocol {
    pub usb_control_transfer: usize,
    pub usb_bulk_transfer: usize,
    pub usb_async_interrupt_transfer: usize,
    pub usb_sync_interrupt_transfer: usize,
    pub usb_isochronous_transfer: usize,
    pub usb_async_isochronous_transfer: usize,
    pub usb_get_device_descriptor: usize,
    pub usb_get_config_descriptor: usize,
    pub usb_get_interface_descriptor: usize,
    pub usb_get_endpoint_descriptor: usize,
    pub usb_get_string_descriptor: usize,
    pub usb_get_supported_languages: usize,
    pub usb_port_reset: usize,
}

} // verus!
