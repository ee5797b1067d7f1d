//! Protocol-level data structures and the logic that interprets the byte
//! formats they carry.

pub mod block_io;
pub mod device_path;
pub mod driver_binding;
pub mod firmware_management;
pub mod hii;
pub mod loaded_image;
pub mod pci_io;
pub mod pxe;
pub mod shell;
pub mod simple_file_system;
pub mod simple_network;
pub mod simple_text_input;
pub mod simple_text_output;
pub mod tcp_udp;
pub mod usb_io;
pub mod gpt_partition_types;
pub mod http;
pub mod ip;
pub mod misc;
pub mod mp_services;
pub mod graphics_output;
pub mod scsi_builder;
pub mod scsi_commands;
pub mod security;
pub mod storage;
