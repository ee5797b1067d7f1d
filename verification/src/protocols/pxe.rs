//! PXE base code structures and TFTP operation codes.

use vstd::prelude::*;

use crate::ffi::Guid;

verus! {

/// Identifier of the PXE base code protocol.
pub fn pxe_base_code_protocol_guid() -> (g: Guid)
    ensures
        g == (Guid { data1: 0x03c4e603, data2: 0xac28, data3: 0x11d3, data4: [0x9a, 0x2d, 0x00, 0x90, 0x27, 0x3f, 0xc1, 0x4d] }),
{
    Guid { data1: 0x03c4e603, data2: 0xac28, data3: 0x11d3, data4: [0x9a, 0x2d, 0x00, 0x90, 0x27, 0x3f, 0xc1, 0x4d] }
}

/// Identifier of the PXE base code callback protocol.
pub fn pxe_base_code_callback_protocol_guid() -> (g: Guid)
    ensures
        g == (Guid { data1: 0x245dca21, data2: 0xfb7b, data3: 0x11d3, data4: [0x8f, 0x01, 0x00, 0xa0, 0xc9, 0x69, 0x72, 0x3b] }),
{
    Guid { data1: 0x245dca21, data2: 0xfb7b, data3: 0x11d3, data4: [0x8f, 0x01, 0x00, 0xa0, 0xc9, 0x69, 0x72, 0x3b] }
}

/// The two DHCP packet roles of PXE discovery, in order.
#[derive(Debug, Copy, Clone, PartialEq, Eq, Structural)]
pub enum PxePacketType {
    Dhcp,
    ProxyDhcp,
}

/// An IP address of either family, stored as 16 bytes.
#[derive(Debug, Copy, Clone)]
pub struct PxeIpAddress {
    pub addr: [u8; 16],
}

/// A hardware address, stored as 32 bytes.
#[derive(Debug, Copy, Clone)]
pub struct PxeMacAddress {
    pub addr: [u8; 32],
}

/// A BOOTP/DHCP packet as PXE carries it.
#[derive(Debug, Copy, Clone)]
pub struct PxeDhcpPacket {
    pub bootp_opcode: u8,
    pub bootp_hw_type: u8,
    pub bootp_hw_addr_len: u8,
    pub bootp_gate_hops: u8,
    pub bootp_ident: u32,
    pub bootp_seconds: u16,
    pub bootp_flags: u16,
    pub bootp_ci_addr: [u8; 4],
    pub bootp_yi_addr: [u8; 4],
    pub bootp_si_addr: [u8; 4],
    pub bootp_gi_addr: [u8; 4],
    pub bootp_hw_addr: [u8; 16],
    pub bootp_srv_name: [u8; 64],
    pub bootp_boot_file: [u8; 128],
    pub dhcp_magik: u32,
    pub dhcp_options: [u8; 56],
}

/// The mode flags and addresses of a PXE base code instance.
#[derive(Debug, Copy, Clone)]
pub struct PxeMode {
    pub started: u8,
    pub ipv6_available: u8,
    pub ipv6_supported: u8,
    pub using_ipv6: u8,
    pub bis_supported: u8,
    pub bis_detected: u8,
    pub auto_arp: u8,
    pub send_guid: u8,
    pub dhcp_discover_valid: u8,
    pub dhcp_ack_received: u8,
    pub proxy_offer_received: u8,
    pub pxe_discover_valid: u8,
    pub pxe_reply_received: u8,
    pub pxe_bis_reply_received: u8,
    pub icmp_error_received: u8,
    pub tftp_error_received: u8,
    pub make_callbacks: u8,
    pub ttl: u8,
    pub tos: u8,
    pub station_ip: PxeIpAddress,
    pub subnet_mask: PxeIpAddress,
}

/// The receive filter of a PXE base code instance.
#[derive(Debug, Copy, Clone)]
pub struct PxeIpFilter {
    pub filters: u8,
    pub ip_count: u8,
    pub reserved: u16,
    pub ip_list: [PxeIpAddress; 8],
}

/// One resolved neighbour of the PXE ARP cache.
#[derive(Debug, Copy, Clone)]
pub struct PxeArpEntry {
    pub ip_addr: PxeIpAddress,
    pub mac_addr: PxeMacAddress,
}

/// One route of the PXE routing table.
#[derive(Debug, Copy, Clone)]
pub struct PxeRouteEntry {
    pub ip_addr: PxeIpAddress,
    pub subnet_mask: PxeIpAddress,
    pub gw_addr: PxeIpAddress,
}

/// The last ICMP error a PXE instance received.
#[derive(Debug, Copy, Clone)]
pub struct PxeIcmpError {
    pub error_type: u8,
    pub error_code: u8,
    pub reserved: [u16; 7],
    pub data: [u8; 494],
}

/// The last TFTP error a PXE instance received.
#[derive(Debug, Copy, Clone)]
pub struct PxeTftpError {
    pub error_code: u8,
    pub error_string: [u8; 127],
}

/// Multicast TFTP session parameters.
#[derive(Debug, Copy, Clone)]
pub struct PxeMtftpInfo {
    pub mcast_ip: PxeIpAddress,
    pub cport: u16,
    pub sport: u16,
    pub listen_timeout: u16,
    pub transmit_timeout: u16,
}

/// EFI_PXE_BASE_CODE_PROTOCOL, its services as opaque address values.
#[derive(Debug, Copy, Clone)]
pub struct PxeBaseCodeProtocol {
    pub revision: u64,
    pub start: usize,
    pub stop: usize,
    pub dhcp: usize,
    pub discover: usize,
    pub mtftp: usize,
    pub udp_write: usize,
    pub udp_read: usize,
    pub set_ip_filter: usize,
    pub arp: usize,
    pub set_parameters: usize,
    pub set_station_ip: usize,
    pub set_packets: usize,
    pub mode: usize,
}

/// Callback events of PXE transfers, in their architectural order.
#[derive(Debug, Copy, Clone, PartialEq, Eq, Structural)]
pub enum PxeBaseCodeCallbackEvent {
    First,
    Dhcp,
    Discover,
    MtftpGetFileSize,
    MtftpReadDirectory,
    MtftpReadFile,
    MtftpSendFile,
    MtftpReadFileReceived,
    MtftpReadFileFailed,
    MtftpReadFileDone,
    SendFileReceived,
    SendFileFailed,
    SendFileDone,
}

/// Callback verdicts, in their architectural order.
#[derive(Debug, Copy, Clone, PartialEq, Eq, Structural)]
pub enum PxeBaseCodeCallbackStatus {
    Continue,
    Abort,
}

/// EFI_PXE_BASE_CODE_CALLBACK_PROTOCOL, its service as an opaque address
/// value.
#[derive(Debug, Copy, Clone)]
pub struct PxeBaseCodeCallbackProtocol {
    pub revision: u64,
    pub callback: usize,
}

// TFTP operation codes
pub const PXE_TFTP_OPCODE_RRQ: u16 = 1;

pub const PXE_TFTP_OPCODE_WRQ: u16 = 2;

pub const PXE_TFTP_OPCODE_DATA: u16 = 3;

pub const PXE_TFTP_OPCODE_ACK: u16 = 4;

pub const PXE_TFTP_OPCODE_ERROR: u16 = 5;

pub const PXE_TFTP_OPCODE_OACK: u16 = 6;

// Multicast TFTP operations
pub const PXE_MTFTP_GET_FILE_SIZE: u32 = 0;

pub const PXE_MTFTP_READ_DIRECTORY: u32 = 1;

pub const PXE_MTFTP_READ_FILE: u32 = 2;

pub const PXE_MTFTP_WRITE_FILE: u32 = 3;

} // verus!
