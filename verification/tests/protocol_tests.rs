//! Protocol constant and structure tests.

use uefi_rust::protocols::block_io::{block_io_protocol_guid, BlockIoMedia};
use uefi_rust::protocols::device_path::{
    ACPI_DEVICE_PATH, END_DEVICE_PATH_TYPE, HARDWARE_DEVICE_PATH, MEDIA_DEVICE_PATH,
    MESSAGING_DEVICE_PATH,
};
use uefi_rust::protocols::graphics_output::{
    graphics_output_protocol_guid, GraphicsOutputBltOperation, GraphicsOutputBltPixel,
};
use uefi_rust::protocols::hii::{
    HII_FONT_STYLE_BOLD, HII_FONT_STYLE_ITALIC, HII_FONT_STYLE_NORMAL, HII_FONT_STYLE_UNDERLINE,
};
use uefi_rust::protocols::http::{HttpMethod, HttpStatusCode, HttpVersion};
use uefi_rust::protocols::loaded_image::loaded_image_protocol_guid;
use uefi_rust::protocols::misc::{
    rng_algorithm_sp800_90_ctr_256_guid, rng_algorithm_sp800_90_hash_256_guid,
    rng_algorithm_sp800_90_hmac_256_guid,
};
use uefi_rust::protocols::mp_services::{
    ExtendedProcessorInformation, MpServicesProtocol, ProcessorInformation, ProcessorLocation,
    PROCESSOR_AS_BSP_BIT, PROCESSOR_ENABLED_BIT, PROCESSOR_HEALTH_STATUS_BIT,
};
use uefi_rust::protocols::pci_io::{
    PCI_BAR_IDX0, PCI_BAR_IDX1, PCI_BAR_IDX2, PCI_BAR_IDX3, PCI_BAR_IDX4, PCI_BAR_IDX5,
};
use uefi_rust::protocols::pxe::{
    PXE_TFTP_OPCODE_ACK, PXE_TFTP_OPCODE_DATA, PXE_TFTP_OPCODE_ERROR, PXE_TFTP_OPCODE_RRQ,
    PXE_TFTP_OPCODE_WRQ,
};
use uefi_rust::protocols::scsi_commands::{SCSI_INQUIRY, SCSI_READ_10, SCSI_WRITE_10};
use uefi_rust::protocols::security::{
    cert_rsa2048_guid, cert_sha256_guid, cert_x509_guid, hash_algorithm_sha1_guid,
    hash_algorithm_sha256_guid, hash_algorithm_sha384_guid, hash_algorithm_sha512_guid,
};
use uefi_rust::protocols::shell::{
    EFI_FILE_ARCHIVE, EFI_FILE_DIRECTORY, EFI_FILE_HIDDEN, EFI_FILE_MODE_CREATE,
    EFI_FILE_MODE_READ, EFI_FILE_MODE_WRITE, EFI_FILE_READ_ONLY, EFI_FILE_SYSTEM,
    SHELL_ACCESS_DENIED, SHELL_INVALID_PARAMETER, SHELL_NOT_FOUND, SHELL_SUCCESS,
};
use uefi_rust::protocols::simple_file_system::simple_file_system_protocol_guid;
use uefi_rust::protocols::simple_network::{
    EFI_SIMPLE_NETWORK_RECEIVE_BROADCAST, EFI_SIMPLE_NETWORK_RECEIVE_MULTICAST,
    EFI_SIMPLE_NETWORK_RECEIVE_PROMISCUOUS, EFI_SIMPLE_NETWORK_RECEIVE_UNICAST,
};
use uefi_rust::protocols::simple_text_input::simple_text_input_protocol_guid;
use uefi_rust::protocols::simple_text_output::simple_text_output_protocol_guid;
use uefi_rust::protocols::storage::{PartitionType, SCSI_DATA_IN, SCSI_DATA_OUT};
use uefi_rust::protocols::tcp_udp::{
    tcp4_protocol_guid, tcp4_service_binding_protocol_guid, udp4_protocol_guid,
    udp4_service_binding_protocol_guid, Ipv4Address, Tcp4ConnectionState,
};
use uefi_rust::protocols::ip::{ip4_protocol_guid, ip4_service_binding_protocol_guid};
use uefi_rust::protocols::usb_io::UsbDataDirection;

#[test]
fn test_graphics_output_blt_operation() {
    // Test BLT operation constants
    assert_eq!(GraphicsOutputBltOperation::EfiBltVideoFill as u32, 0);
    assert_eq!(GraphicsOutputBltOperation::EfiBltVideoToBltBuffer as u32, 1);
    assert_eq!(GraphicsOutputBltOperation::EfiBltBufferToVideo as u32, 2);
    assert_eq!(GraphicsOutputBltOperation::EfiBltVideoToVideo as u32, 3);
}

#[test]
fn test_graphics_output_pixel() {
    let pixel = GraphicsOutputBltPixel {
        blue: 255,
        green: 128,
        red: 64,
        reserved: 0,
    };

    assert_eq!(pixel.blue, 255);
    assert_eq!(pixel.green, 128);
    assert_eq!(pixel.red, 64);
    assert_eq!(pixel.reserved, 0);
}

#[test]
fn test_block_io_media() {
    let media = BlockIoMedia {
        media_id: 1,
        removable_media: 0,
        media_present: 1,
        logical_partition: 0,
        read_only: 0,
        write_caching: 0,
        block_size: 512,
        io_align: 1,
        last_block: 1000,
        lowest_aligned_lba: 0,
        logical_blocks_per_physical_block: 1,
        optimal_transfer_length_granularity: 1,
    };

    assert_eq!(media.block_size, 512);
    assert_eq!(media.last_block, 1000);
    assert_eq!(media.media_present, 1);
}

#[test]
fn test_file_open_modes() {
    assert_eq!(EFI_FILE_MODE_READ, 0x0000000000000001);
    assert_eq!(EFI_FILE_MODE_WRITE, 0x0000000000000002);
    assert_eq!(EFI_FILE_MODE_CREATE, 0x8000000000000000);
}

#[test]
fn test_file_attributes() {
    assert_eq!(EFI_FILE_READ_ONLY, 0x01);
    assert_eq!(EFI_FILE_HIDDEN, 0x02);
    assert_eq!(EFI_FILE_SYSTEM, 0x04);
    assert_eq!(EFI_FILE_DIRECTORY, 0x10);
    assert_eq!(EFI_FILE_ARCHIVE, 0x20);
}

#[test]
fn test_device_path_type() {
    assert_eq!(HARDWARE_DEVICE_PATH, 0x01);
    assert_eq!(ACPI_DEVICE_PATH, 0x02);
    assert_eq!(MESSAGING_DEVICE_PATH, 0x03);
    assert_eq!(MEDIA_DEVICE_PATH, 0x04);
    assert_eq!(END_DEVICE_PATH_TYPE, 0x7f);
}

#[test]
fn test_pci_bar_constants() {
    assert_eq!(PCI_BAR_IDX0, 0);
    assert_eq!(PCI_BAR_IDX1, 1);
    assert_eq!(PCI_BAR_IDX2, 2);
    assert_eq!(PCI_BAR_IDX3, 3);
    assert_eq!(PCI_BAR_IDX4, 4);
    assert_eq!(PCI_BAR_IDX5, 5);
}

#[test]
fn test_usb_data_direction() {
    assert_eq!(UsbDataDirection::UsbDataIn as u32, 0);
    assert_eq!(UsbDataDirection::UsbDataOut as u32, 1);
    assert_eq!(UsbDataDirection::UsbNoData as u32, 2);
}

#[test]
fn test_network_receive_filters() {
    assert_eq!(EFI_SIMPLE_NETWORK_RECEIVE_UNICAST, 0x01);
    assert_eq!(EFI_SIMPLE_NETWORK_RECEIVE_MULTICAST, 0x02);
    assert_eq!(EFI_SIMPLE_NETWORK_RECEIVE_BROADCAST, 0x04);
    assert_eq!(EFI_SIMPLE_NETWORK_RECEIVE_PROMISCUOUS, 0x08);
}

#[test]
fn test_http_version() {
    assert_eq!(HttpVersion::Http10 as u32, 0);
    assert_eq!(HttpVersion::Http11 as u32, 1);
    assert_eq!(HttpVersion::Http20 as u32, 2);
}

#[test]
fn test_http_method() {
    assert_eq!(HttpMethod::HttpMethodGet as u32, 0);
    assert_eq!(HttpMethod::HttpMethodPost as u32, 1);
    assert_eq!(HttpMethod::HttpMethodPut as u32, 6);
    assert_eq!(HttpMethod::HttpMethodDelete as u32, 7);
}

#[test]
fn test_http_status_code() {
    assert_eq!(HttpStatusCode::Http200Ok as u32, 1);
    assert_eq!(HttpStatusCode::Http404NotFound as u32, 10);
    assert_eq!(HttpStatusCode::Http500InternalServerError as u32, 11);
}

#[test]
fn test_tcp_connection_state() {
    assert_eq!(Tcp4ConnectionState::Closed as u32, 0);
    assert_eq!(Tcp4ConnectionState::Listen as u32, 1);
    assert_eq!(Tcp4ConnectionState::Established as u32, 4);
}

#[test]
fn test_ipv4_address() {
    let addr = Ipv4Address {
        addr: [192, 168, 1, 1],
    };

    assert_eq!(addr.addr[0], 192);
    assert_eq!(addr.addr[1], 168);
    assert_eq!(addr.addr[2], 1);
    assert_eq!(addr.addr[3], 1);
}

#[test]
fn protocol_tests_test_scsi_data_direction() {
    assert_eq!(SCSI_DATA_IN, 0);
    assert_eq!(SCSI_DATA_OUT, 1);
}

#[test]
fn protocol_tests_test_scsi_commands() {
    assert_eq!(SCSI_INQUIRY, 0x12);
    assert_eq!(SCSI_READ_10, 0x28);
    assert_eq!(SCSI_WRITE_10, 0x2A);
}

#[test]
fn protocol_tests_test_partition_type() {
    assert_eq!(PartitionType::Other as u32, 0);
    assert_eq!(PartitionType::Mbr as u32, 1);
    assert_eq!(PartitionType::Gpt as u32, 2);
}

#[test]
fn protocol_tests_test_processor_flags() {
    assert_eq!(PROCESSOR_AS_BSP_BIT, 0x01);
    assert_eq!(PROCESSOR_ENABLED_BIT, 0x02);
    assert_eq!(PROCESSOR_HEALTH_STATUS_BIT, 0x04);
}

#[test]
fn test_processor_info_flags() {
    let info = ProcessorInformation {
        processor_id: 0,
        status_flag: PROCESSOR_AS_BSP_BIT | PROCESSOR_ENABLED_BIT,
        location: ProcessorLocation {
            package: 0,
            core: 0,
            thread: 0,
        },
        extended_information: ExtendedProcessorInformation {
            location: ProcessorLocation {
                package: 0,
                core: 0,
                thread: 0,
            },
        },
    };

    assert!(MpServicesProtocol::is_bsp(&info));
    assert!(MpServicesProtocol::is_enabled(&info));
    assert!(!MpServicesProtocol::is_healthy(&info));
}

#[test]
fn protocol_tests_test_shell_status_codes() {
    assert_eq!(SHELL_SUCCESS, 0);
    assert_eq!(SHELL_INVALID_PARAMETER, 2);
    assert_eq!(SHELL_NOT_FOUND, 14);
    assert_eq!(SHELL_ACCESS_DENIED, 15);
}

#[test]
fn protocol_tests_test_pxe_tftp_opcodes() {
    assert_eq!(PXE_TFTP_OPCODE_RRQ, 1);
    assert_eq!(PXE_TFTP_OPCODE_WRQ, 2);
    assert_eq!(PXE_TFTP_OPCODE_DATA, 3);
    assert_eq!(PXE_TFTP_OPCODE_ACK, 4);
    assert_eq!(PXE_TFTP_OPCODE_ERROR, 5);
}

#[test]
fn test_hii_font_styles() {
    assert_eq!(HII_FONT_STYLE_NORMAL, 0x00000000);
    assert_eq!(HII_FONT_STYLE_BOLD, 0x00000001);
    assert_eq!(HII_FONT_STYLE_ITALIC, 0x00000002);
    assert_eq!(HII_FONT_STYLE_UNDERLINE, 0x00080000);
}

#[test]
fn test_hash_algorithm_guids() {
    // Ensure GUIDs are properly defined and unique
    assert_ne!(hash_algorithm_sha1_guid(), hash_algorithm_sha256_guid());
    assert_ne!(hash_algorithm_sha256_guid(), hash_algorithm_sha384_guid());
    assert_ne!(hash_algorithm_sha384_guid(), hash_algorithm_sha512_guid());
}

#[test]
fn test_cert_type_guids() {
    assert_ne!(cert_sha256_guid(), cert_rsa2048_guid());
    assert_ne!(cert_rsa2048_guid(), cert_x509_guid());
}

#[test]
fn protocol_tests_test_rng_algorithm_guids() {
    assert_ne!(
        rng_algorithm_sp800_90_hash_256_guid(),
        rng_algorithm_sp800_90_hmac_256_guid()
    );
    assert_ne!(
        rng_algorithm_sp800_90_hmac_256_guid(),
        rng_algorithm_sp800_90_ctr_256_guid()
    );
}

#[test]
fn test_protocol_guids_unique() {
    // Ensure all major protocol GUIDs are unique
    assert_ne!(
        simple_text_input_protocol_guid(),
        simple_text_output_protocol_guid()
    );
    assert_ne!(graphics_output_protocol_guid(), block_io_protocol_guid());
    assert_ne!(
        simple_file_system_protocol_guid(),
        loaded_image_protocol_guid()
    );
}

#[test]
fn test_service_binding_guids() {
    assert_ne!(tcp4_service_binding_protocol_guid(), tcp4_protocol_guid());
    assert_ne!(udp4_service_binding_protocol_guid(), udp4_protocol_guid());
    assert_ne!(ip4_service_binding_protocol_guid(), ip4_protocol_guid());
}
