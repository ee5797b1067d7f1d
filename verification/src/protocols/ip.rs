//! IP, ARP, DHCP and DNS protocol structures.

use vstd::prelude::*;

use crate::protocols::tcp_udp::{Ipv4Address, Ipv6Address};

verus! {

/// Identifier of the IPv4 service binding protocol.
pub fn ip4_service_binding_protocol_guid() -> (g: crate::ffi::Guid)
    ensures
        g == (crate::ffi::Guid { data1: 0xc51711e7, data2: 0xb4bf, data3: 0x404a, data4: [0xbf, 0xb8, 0x0a, 0x04, 0x8e, 0xf1, 0xff, 0xe4] }),
{
    crate::ffi::Guid { data1: 0xc51711e7, data2: 0xb4bf, data3: 0x404a, data4: [0xbf, 0xb8, 0x0a, 0x04, 0x8e, 0xf1, 0xff, 0xe4] }
}

/// Identifier of the IPv4 protocol.
pub fn ip4_protocol_guid() -> (g: crate::ffi::Guid)
    ensures
        g == (crate::ffi::Guid { data1: 0x41d94cd2, data2: 0x35b6, data3: 0x455a, data4: [0x82, 0x58, 0xd4, 0xe5, 0x13, 0x34, 0xaa, 0xdd] }),
{
    crate::ffi::Guid { data1: 0x41d94cd2, data2: 0x35b6, data3: 0x455a, data4: [0x82, 0x58, 0xd4, 0xe5, 0x13, 0x34, 0xaa, 0xdd] }
}

/// Identifier of the IPv6 service binding protocol.
pub fn ip6_service_binding_protocol_guid() -> (g: crate::ffi::Guid)
    ensures
        g == (crate::ffi::Guid { data1: 0xec835dd3, data2: 0xfe0f, data3: 0x617b, data4: [0xa6, 0x21, 0xb3, 0x50, 0xc3, 0xe1, 0x33, 0x88] }),
{
    crate::ffi::Guid { data1: 0xec835dd3, data2: 0xfe0f, data3: 0x617b, data4: [0xa6, 0x21, 0xb3, 0x50, 0xc3, 0xe1, 0x33, 0x88] }
}

/// Identifier of the IPv6 protocol.
pub fn ip6_protocol_guid() -> (g: crate::ffi::Guid)
    ensures
        g == (crate::ffi::Guid { data1: 0x2c8759d5, data2: 0x5c2d, data3: 0x66ef, data4: [0x92, 0x5f, 0xb6, 0x6c, 0x10, 0x19, 0x57, 0xe2] }),
{
    crate::ffi::Guid { data1: 0x2c8759d5, data2: 0x5c2d, data3: 0x66ef, data4: [0x92, 0x5f, 0xb6, 0x6c, 0x10, 0x19, 0x57, 0xe2] }
}

/// IPv4 configuration.
#[derive(Debug, Copy, Clone)]
pub struct Ip4ConfigData {
    pub default_protocol: u8,
    pub accept_any_protocol: u8,
    pub accept_icmp_errors: u8,
    pub accept_broadcast: u8,
    pub accept_promiscuous: u8,
    pub use_default_address: u8,
    pub station_address: Ipv4Address,
    pub subnet_mask: Ipv4Address,
    pub type_of_service: u8,
    pub time_to_live: u8,
    pub do_not_fragment: u8,
    pub raw_data: u8,
    pub receive_timeout: u32,
    pub transmit_timeout: u32,
}

/// IPv6 configuration.
#[derive(Debug, Copy, Clone)]
pub struct Ip6ConfigData {
    pub default_protocol: u8,
    pub accept_any_protocol: u8,
    pub accept_icmp_errors: u8,
    pub accept_promiscuous: u8,
    pub destination_address: Ipv6Address,
    pub station_address: Ipv6Address,
    pub traffic_class: u8,
    pub hop_limit: u8,
    pub flow_label: u32,
    pub receive_timeout: u32,
    pub transmit_timeout: u32,
}

/// One route of an IPv4 routing table.
#[derive(Debug, Copy, Clone)]
pub struct Ip4RouteTable {
    pub subnet_address: Ipv4Address,
    pub subnet_mask: Ipv4Address,
    pub gateway_address: Ipv4Address,
}

/// One route of an IPv6 routing table.
#[derive(Debug, Copy, Clone)]
pub struct Ip6RouteTable {
    pub gateway: Ipv6Address,
    pub destination: Ipv6Address,
    pub prefix_length: u8,
}

/// One configured IPv6 address and its prefix.
#[derive(Debug, Copy, Clone)]
pub struct Ip6AddressInfo {
    pub address: Ipv6Address,
    pub prefix_length: u8,
}

/// Reachability states of a neighbour cache entry, in order.
#[derive(Debug, Copy, Clone, PartialEq, Eq, Structural)]
pub enum Ip6NeighborState {
    Incomplete,
    Reachable,
    Stale,
    Delay,
    Probe,
}

/// One entry of the IPv6 neighbour cache.
#[derive(Debug, Copy, Clone)]
pub struct Ip6NeighborCache {
    pub neighbor: Ipv6Address,
    pub link_address: [u8; 32],
    pub state: Ip6NeighborState,
}

/// One ICMPv4 message type an instance accepts.
#[derive(Debug, Copy, Clone)]
pub struct Ip4IcmpType {
    pub icmp_type: u8,
    pub icmp_code: u8,
}

/// One ICMPv6 message type an instance accepts.
#[derive(Debug, Copy, Clone)]
pub struct Ip6IcmpType {
    pub icmp_type: u8,
    pub icmp_code: u8,
}

/// The mode of an IPv4 instance; tables are opaque address values.
#[derive(Debug, Copy, Clone)]
pub struct Ip4ModeData {
    pub is_started: u8,
    pub max_packet_size: u32,
    pub config_data: Ip4ConfigData,
    pub is_configured: u8,
    pub group_count: u32,
    pub group_table: usize,
    pub route_count: u32,
    pub route_table: usize,
    pub icmp_type_count: u32,
    pub icmp_type_list: usize,
}

/// The mode of an IPv6 instance; tables are opaque address values.
#[derive(Debug, Copy, Clone)]
pub struct Ip6ModeData {
    pub is_started: u8,
    pub max_packet_size: u32,
    pub config_data: Ip6ConfigData,
    pub is_configured: u8,
    pub address_count: u32,
    pub address_list: usize,
    pub group_count: u32,
    pub group_table: usize,
    pub route_count: u32,
    pub route_table: usize,
    pub neighbor_count: u32,
    pub neighbor_cache: usize,
    pub prefix_count: u32,
    pub prefix_table: usize,
    pub icmp_type_count: u32,
    pub icmp_type_list: usize,
}

/// An IPv4 fragment; the buffer is an opaque address value.
#[derive(Debug, Copy, Clone)]
pub struct Ip4FragmentData {
    pub fragment_length: u32,
    pub fragment_buffer: usize,
}

/// An IPv6 fragment; the buffer is an opaque address value.
#[derive(Debug, Copy, Clone)]
pub struct Ip6FragmentData {
    pub fragment_length: u32,
    pub fragment_buffer: usize,
}

/// An IPv4 packet header as the instance reports it.
#[derive(Debug, Copy, Clone)]
pub struct Ip4Header {
    pub header_length_and_version: u8,
    pub type_of_service: u8,
    pub total_length: u16,
    pub identification: u16,
    pub fragmentation: u16,
    pub time_to_live: u8,
    pub protocol: u8,
    pub checksum: u16,
    pub source_address: Ipv4Address,
    pub destination_address: Ipv4Address,
}

/// A received IPv4 datagram; header and fragments are opaque address
/// values.
#[derive(Debug, Copy, Clone)]
pub struct Ip4ReceiveData {
    pub time_stamp: crate::runtime_services::time::Time,
    pub recycle_signal: usize,
    pub header_length: u32,
    pub header: usize,
    pub options_length: u32,
    pub options: usize,
    pub data_length: u32,
    pub fragment_count: u32,
    pub fragment_table: [Ip4FragmentData; 1],
}

/// A received IPv6 datagram; header and fragments are opaque address
/// values.
#[derive(Debug, Copy, Clone)]
pub struct Ip6ReceiveData {
    pub time_stamp: crate::runtime_services::time::Time,
    pub recycle_signal: usize,
    pub header_length: u32,
    pub header: usize,
    pub data_length: u32,
    pub fragment_count: u32,
    pub fragment_table: [Ip6FragmentData; 1],
}

/// An outgoing IPv4 datagram; override data is an opaque address value.
#[derive(Debug, Copy, Clone)]
pub struct Ip4TransmitData {
    pub destination_address: Ipv4Address,
    pub override_data: usize,
    pub options_length: u32,
    pub options_buffer: usize,
    pub total_data_length: u32,
    pub fragment_count: u32,
    pub fragment_table: [Ip4FragmentData; 1],
}

/// An outgoing IPv6 datagram; override data is an opaque address value.
#[derive(Debug, Copy, Clone)]
pub struct Ip6TransmitData {
    pub destination_address: Ipv6Address,
    pub override_data: usize,
    pub ext_hdrs_length: u32,
    pub ext_hdrs: usize,
    pub data_length: u32,
    pub fragment_count: u32,
    pub fragment_table: [Ip6FragmentData; 1],
}

/// Per-datagram overrides of an IPv4 instance's defaults.
#[derive(Debug, Copy, Clone)]
pub struct Ip4OverrideData {
    pub source_address: Ipv4Address,
    pub gateway_address: Ipv4Address,
    pub protocol: u8,
    pub type_of_service: u8,
    pub time_to_live: u8,
    pub do_not_fragment: u8,
}

/// Per-datagram overrides of an IPv6 instance's defaults.
#[derive(Debug, Copy, Clone)]
pub struct Ip6OverrideData {
    pub protocol: u8,
    pub hop_limit: u8,
    pub flow_label: u32,
}

/// The completion state of an asynchronous IPv4 operation; the packet is
/// an opaque address value.
#[derive(Debug, Copy, Clone)]
pub struct Ip4CompletionToken {
    pub event: usize,
    pub status: usize,
    pub packet: usize,
}

/// The completion state of an asynchronous IPv6 operation; the packet is
/// an opaque address value.
#[derive(Debug, Copy, Clone)]
pub struct Ip6CompletionToken {
    pub event: usize,
    pub status: usize,
    pub packet: usize,
}

/// EFI_IP4_PROTOCOL, its services as opaque address values.
#[derive(Debug, Copy, Clone)]
pub struct Ip4Protocol {
    pub get_mode_data: usize,
    pub configure: usize,
    pub groups: usize,
    pub routes: usize,
    pub transmit: usize,
    pub receive: usize,
    pub cancel: usize,
    pub poll: usize,
}

/// EFI_IP6_PROTOCOL, its services as opaque address values.
#[derive(Debug, Copy, Clone)]
pub struct Ip6Protocol {
    pub get_mode_data: usize,
    pub configure: usize,
    pub groups: usize,
    pub routes: usize,
    pub neighbors: usize,
    pub transmit: usize,
    pub receive: usize,
    pub cancel: usize,
    pub poll: usize,
}

/// ARP configuration; the station address is an opaque address value.
#[derive(Debug, Copy, Clone)]
pub struct ArpConfigData {
    pub sw_address_type: u16,
    pub sw_address_length: u8,
    pub station_address: usize,
    pub entry_timeout: u32,
    pub retry_count: u32,
    pub retry_timeout: u32,
}

/// EFI_ARP_PROTOCOL, its services as opaque address values.
#[derive(Debug, Copy, Clone)]
pub struct ArpProtocol {
    pub configure: usize,
    pub add: usize,
    pub find: usize,
    pub delete: usize,
    pub flush: usize,
    pub request: usize,
    pub cancel: usize,
}

/// DHCPv4 client states, in their architectural order.
#[derive(Debug, Copy, Clone, PartialEq, Eq, Structural)]
pub enum Dhcp4State {
    Stopped,
    Init,
    Selecting,
    Requesting,
    Bound,
    Renewing,
    Rebinding,
    InitReboot,
    Rebooting,
}

/// DHCPv4 configuration; callbacks and option lists are opaque address
/// values.
#[derive(Debug, Copy, Clone)]
pub struct Dhcp4ConfigData {
    pub discover_try_count: u32,
    pub discover_timeout: usize,
    pub request_try_count: u32,
    pub request_timeout: usize,
    pub client_address: Ipv4Address,
    pub callback: usize,
    pub callback_context: usize,
    pub option_count: u32,
    pub option_list: usize,
}

/// EFI_DHCP4_PROTOCOL, its services as opaque address values.
#[derive(Debug, Copy, Clone)]
pub struct Dhcp4Protocol {
    pub get_mode_data: usize,
    pub configure: usize,
    pub start: usize,
    pub renew_rebind: usize,
    pub release: usize,
    pub stop: usize,
    pub build: usize,
    pub transmit_receive: usize,
    pub parse: usize,
}

/// A host address of either family, stored as 16 bytes.
#[derive(Debug, Copy, Clone)]
pub struct DnsHostAddress {
    pub addr: [u8; 16],
}

/// DNSv4 configuration; the server list is an opaque address value.
#[derive(Debug, Copy, Clone)]
pub struct Dns4ConfigData {
    pub dns_server_list_count: u32,
    pub dns_server_list: usize,
    pub use_default_setting: u8,
    pub enable_dns_cache: u8,
    pub protocol: u8,
    pub station_ip: Ipv4Address,
    pub subnet_mask: Ipv4Address,
    pub local_port: u16,
    pub retry_count: u32,
    pub retry_interval: u32,
}

/// EFI_DNS4_PROTOCOL, its services as opaque address values.
#[derive(Debug, Copy, Clone)]
pub struct Dns4Protocol {
    pub get_mode_data: usize,
    pub configure: usize,
    pub host_name_to_ip: usize,
    pub ip_to_host_name: usize,
    pub general_lookup: usize,
    pub update_dns_cache: usize,
    pub poll: usize,
    pub cancel: usize,
}

} // verus!
