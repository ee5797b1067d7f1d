//! Simple network protocol structures and receive filter bits.

use vstd::prelude::*;

use crate::ffi::Guid;

verus! {

/// Identifier of the simple network protocol.
pub fn simple_network_protocol_guid() -> (g: Guid)
    ensures
        g == (Guid { data1: 0xA19832B9, data2: 0xAC25, data3: 0x11D3, data4: [0x9a, 0x2d, 0x00, 0x90, 0x27, 0x3f, 0xc1, 0x4d] }),
{
    Guid { data1: 0xA19832B9, data2: 0xAC25, data3: 0x11D3, data4: [0x9a, 0x2d, 0x00, 0x90, 0x27, 0x3f, 0xc1, 0x4d] }
}

/// Number of multicast filter slots of a network mode.
pub const MAX_MCAST_FILTER_CNT: usize = 16;

pub const EFI_SIMPLE_NETWORK_RECEIVE_UNICAST: u32 = 0x01;

pub const EFI_SIMPLE_NETWORK_RECEIVE_MULTICAST: u32 = 0x02;

pub const EFI_SIMPLE_NETWORK_RECEIVE_BROADCAST: u32 = 0x04;

pub const EFI_SIMPLE_NETWORK_RECEIVE_PROMISCUOUS: u32 = 0x08;

pub const EFI_SIMPLE_NETWORK_RECEIVE_PROMISCUOUS_MULTICAST: u32 = 0x10;

/// Interface states, in their architectural order.
#[derive(Debug, Copy, Clone, PartialEq, Eq, Structural)]
pub enum SimpleNetworkState {
    EfiSimpleNetworkStopped,
    EfiSimpleNetworkStarted,
    EfiSimpleNetworkInitialized,
    EfiSimpleNetworkMaxState,
}

/// A hardware address, stored as 32 bytes.
#[derive(Debug, Copy, Clone)]
pub struct MacAddress {
    pub addr: [u8; 32],
}

/// Frame counters of an interface.
#[derive(Debug, Copy, Clone, Default)]
pub struct NetworkStatistics {
    pub rx_total_frames: u64,
    pub rx_good_frames: u64,
    pub rx_undersize_frames: u64,
    pub rx_oversize_frames: u64,
    pub rx_dropped_frames: u64,
    pub rx_unicast_frames: u64,
    pub rx_broadcast_frames: u64,
    pub rx_multicast_frames: u64,
    pub rx_crc_error_frames: u64,
    pub rx_total_bytes: u64,
    pub tx_total_frames: u64,
    pub tx_good_frames: u64,
    pub tx_undersize_frames: u64,
    pub tx_oversize_frames: u64,
    pub tx_dropped_frames: u64,
    pub tx_unicast_frames: u64,
    pub tx_broadcast_frames: u64,
    pub tx_multicast_frames: u64,
    pub tx_crc_error_frames: u64,
    pub tx_total_bytes: u64,
    pub collisions: u64,
    pub unsupported_protocol: u64,
}

/// The mode of an interface.
#[derive(Debug, Copy, Clone)]
pub struct SimpleNetworkMode {
    pub state: u32,
    pub hw_address_size: u32,
    pub media_header_size: u32,
    pub max_packet_size: u32,
    pub nvram_size: u32,
    pub nvram_access_size: u32,
    pub receive_filter_mask: u32,
    pub receive_filter_setting: u32,
    pub max_mcast_filter_count: u32,
    pub mcast_filter_count: u32,
    pub mcast_filter: [MacAddress; 16],
    pub current_address: MacAddress,
    pub broadcast_address: MacAddress,
    pub permanent_address: MacAddress,
    pub if_type: u8,
    pub mac_address_changeable: u8,
    pub multiple_tx_supported: u8,
    pub media_present_supported: u8,
    pub media_present: u8,
}

/// EFI_SIMPLE_NETWORK_PROTOCOL, its services as opaque address values.
#[derive(Debug, Copy, Clone)]
pub struct SimpleNetworkProtocol {
    pub revision: u64,
    pub start: usize,
    pub stop: usize,
    pub initialize: usize,
    pub reset: usize,
    pub shutdown: usize,
    pub receive_filters: usize,
    pub station_address: usize,
    pub statistics: usize,
    pub mcast_ip_to_mac: usize,
    pub nvdata: usize,
    pub get_status: usize,
    pub transmit: usize,
    pub receive: usize,
    pub wait_for_packet: usize,
    pub mode: usize,
}

} // verus!
