//! TCP and UDP protocol structures.

use vstd::prelude::*;

use crate::ffi::Guid;

verus! {

/// Identifier of the TCPv4 service binding protocol.
pub fn tcp4_service_binding_protocol_guid() -> (g: Guid)
    ensures
        g == (Guid { data1: 0x00720665, data2: 0x67EB, data3: 0x4a99, data4: [0xba, 0xf7, 0xd3, 0xc3, 0x3a, 0x1c, 0x7c, 0xc9] }),
{
    Guid { data1: 0x00720665, data2: 0x67EB, data3: 0x4a99, data4: [0xba, 0xf7, 0xd3, 0xc3, 0x3a, 0x1c, 0x7c, 0xc9] }
}

/// Identifier of the TCPv4 protocol.
pub fn tcp4_protocol_guid() -> (g: Guid)
    ensures
        g == (Guid { data1: 0x65530BC7, data2: 0xA359, data3: 0x410f, data4: [0xb0, 0x10, 0x5a, 0xad, 0xc7, 0xec, 0x2b, 0x62] }),
{
    Guid { data1: 0x65530BC7, data2: 0xA359, data3: 0x410f, data4: [0xb0, 0x10, 0x5a, 0xad, 0xc7, 0xec, 0x2b, 0x62] }
}

/// Identifier of the TCPv6 service binding protocol.
pub fn tcp6_service_binding_protocol_guid() -> (g: Guid)
    ensures
        g == (Guid { data1: 0xec20eb79, data2: 0x6c1a, data3: 0x4664, data4: [0x9a, 0x0d, 0xd2, 0xe4, 0xcc, 0x16, 0xd6, 0x64] }),
{
    Guid { data1: 0xec20eb79, data2: 0x6c1a, data3: 0x4664, data4: [0x9a, 0x0d, 0xd2, 0xe4, 0xcc, 0x16, 0xd6, 0x64] }
}

/// Identifier of the TCPv6 protocol.
pub fn tcp6_protocol_guid() -> (g: Guid)
    ensures
        g == (Guid { data1: 0x46e44855, data2: 0xbd60, data3: 0x4ab7, data4: [0xab, 0x0d, 0xa6, 0x79, 0xb9, 0x44, 0x7d, 0x77] }),
{
    Guid { data1: 0x46e44855, data2: 0xbd60, data3: 0x4ab7, data4: [0xab, 0x0d, 0xa6, 0x79, 0xb9, 0x44, 0x7d, 0x77] }
}

/// Identifier of the UDPv4 service binding protocol.
pub fn udp4_service_binding_protocol_guid() -> (g: Guid)
    ensures
        g == (Guid { data1: 0x83f01464, data2: 0x99bd, data3: 0x45e5, data4: [0xb3, 0x83, 0xaf, 0x63, 0x05, 0xd8, 0xe9, 0xe6] }),
{
    Guid { data1: 0x83f01464, data2: 0x99bd, data3: 0x45e5, data4: [0xb3, 0x83, 0xaf, 0x63, 0x05, 0xd8, 0xe9, 0xe6] }
}

/// Identifier of the UDPv4 protocol.
pub fn udp4_protocol_guid() -> (g: Guid)
    ensures
        g == (Guid { data1: 0x3ad9df29, data2: 0x4501, data3: 0x478d, data4: [0xb1, 0xf8, 0x7f, 0x7f, 0xe7, 0x0e, 0x50, 0xf3] }),
{
    Guid { data1: 0x3ad9df29, data2: 0x4501, data3: 0x478d, data4: [0xb1, 0xf8, 0x7f, 0x7f, 0xe7, 0x0e, 0x50, 0xf3] }
}

/// Identifier of the UDPv6 service binding protocol.
pub fn udp6_service_binding_protocol_guid() -> (g: Guid)
    ensures
        g == (Guid { data1: 0x66ed4721, data2: 0x3c98, data3: 0x4d3e, data4: [0x81, 0xe3, 0xd0, 0x3d, 0xd3, 0x9a, 0x72, 0x54] }),
{
    Guid { data1: 0x66ed4721, data2: 0x3c98, data3: 0x4d3e, data4: [0x81, 0xe3, 0xd0, 0x3d, 0xd3, 0x9a, 0x72, 0x54] }
}

/// Identifier of the UDPv6 protocol.
pub fn udp6_protocol_guid() -> (g: Guid)
    ensures
        g == (Guid { data1: 0x4f948815, data2: 0xb4b9, data3: 0x43cb, data4: [0x8a, 0x33, 0x90, 0xe0, 0x60, 0xb3, 0x49, 0x55] }),
{
    Guid { data1: 0x4f948815, data2: 0xb4b9, data3: 0x43cb, data4: [0x8a, 0x33, 0x90, 0xe0, 0x60, 0xb3, 0x49, 0x55] }
}

/// TCP connection states, in their architectural order.
#[derive(Debug, Copy, Clone, PartialEq, Eq, Structural)]
pub enum Tcp4ConnectionState {
    Closed,
    Listen,
    SynSent,
    SynReceived,
    Established,
    FinWait1,
    FinWait2,
    Closing,
    TimeWait,
    CloseWait,
    LastAck,
}

/// An IPv4 address.
#[derive(Debug, Copy, Clone)]
pub struct Ipv4Address {
    pub addr: [u8; 4],
}

/// An IPv6 address.
#[derive(Debug, Copy, Clone)]
pub struct Ipv6Address {
    pub addr: [u8; 16],
}

/// The local and remote endpoints of a TCPv4 connection.
#[derive(Debug, Copy, Clone)]
pub struct Tcp4AccessPoint {
    pub use_default_address: u8,
    pub station_address: Ipv4Address,
    pub subnet_mask: Ipv4Address,
    pub station_port: u16,
    pub remote_address: Ipv4Address,
    pub remote_port: u16,
    pub active_flag: u8,
}

/// The local and remote endpoints of a TCPv6 connection.
#[derive(Debug, Copy, Clone)]
pub struct Tcp6AccessPoint {
    pub station_address: Ipv6Address,
    pub station_port: u16,
    pub remote_address: Ipv6Address,
    pub remote_port: u16,
    pub active_flag: u8,
}

/// TCPv4 tuning options.
#[derive(Debug, Copy, Clone)]
pub struct Tcp4Option {
    pub receive_buffer_size: u32,
    pub send_buffer_size: u32,
    pub max_syn_back_log: u32,
    pub connection_timeout: u32,
    pub data_retries: u32,
    pub fin_timeout: u32,
    pub time_wait_timeout: u32,
    pub keep_alive_probes: u32,
    pub keep_alive_time: u32,
    pub keep_alive_interval: u32,
    pub enable_nagle: u8,
    pub enable_time_stamp: u8,
    pub enable_window_scaling: u8,
    pub enable_selective_ack: u8,
    pub enable_path_mtu_discovery: u8,
}

/// TCPv6 tuning options.
#[derive(Debug, Copy, Clone)]
pub struct Tcp6Option {
    pub receive_buffer_size: u32,
    pub send_buffer_size: u32,
    pub max_syn_back_log: u32,
    pub connection_timeout: u32,
    pub data_retries: u32,
    pub fin_timeout: u32,
    pub time_wait_timeout: u32,
    pub keep_alive_probes: u32,
    pub keep_alive_time: u32,
    pub keep_alive_interval: u32,
    pub enable_nagle: u8,
    pub enable_time_stamp: u8,
    pub enable_window_scaling: u8,
    pub enable_selective_ack: u8,
    pub enable_path_mtu_discovery: u8,
}

/// TCPv4 configuration; the option block is an opaque address value.
#[derive(Debug, Copy, Clone)]
pub struct Tcp4ConfigData {
    pub type_of_service: u8,
    pub time_to_live: u8,
    pub access_point: Tcp4AccessPoint,
    pub control_option: usize,
}

/// TCPv6 configuration; the option block is an opaque address value.
#[derive(Debug, Copy, Clone)]
pub struct Tcp6ConfigData {
    pub traffic_class: u8,
    pub hop_limit: u8,
    pub access_point: Tcp6AccessPoint,
    pub control_option: usize,
}

/// One fragment of a TCPv4 transfer; the buffer is an opaque address
/// value.
#[derive(Debug, Copy, Clone)]
pub struct Tcp4FragmentData {
    pub fragment_length: u32,
    pub fragment_buffer: usize,
}

/// One fragment of a TCPv6 transfer; the buffer is an opaque address
/// value.
#[derive(Debug, Copy, Clone)]
pub struct Tcp6FragmentData {
    pub fragment_length: u32,
    pub fragment_buffer: usize,
}

/// Received TCPv4 data and its first fragment.
#[derive(Debug, Copy, Clone)]
pub struct Tcp4ReceiveData {
    pub urgent_flag: u8,
    pub data_length: u32,
    pub fragment_count: u32,
    pub fragment_table: [Tcp4FragmentData; 1],
}

/// Received TCPv6 data and its first fragment.
#[derive(Debug, Copy, Clone)]
pub struct Tcp6ReceiveData {
    pub urgent_flag: u8,
    pub data_length: u32,
    pub fragment_count: u32,
    pub fragment_table: [Tcp6FragmentData; 1],
}

/// Outgoing TCPv4 data and its first fragment.
#[derive(Debug, Copy, Clone)]
pub struct Tcp4TransmitData {
    pub push: u8,
    pub urgent: u8,
    pub data_length: u32,
    pub fragment_count: u32,
    pub fragment_table: [Tcp4FragmentData; 1],
}

/// Outgoing TCPv6 data and its first fragment.
#[derive(Debug, Copy, Clone)]
pub struct Tcp6TransmitData {
    pub push: u8,
    pub urgent: u8,
    pub data_length: u32,
    pub fragment_count: u32,
    pub fragment_table: [Tcp6FragmentData; 1],
}

/// The completion state of an asynchronous TCPv4 operation.
#[derive(Debug, Copy, Clone)]
pub struct Tcp4CompletionToken {
    pub event: usize,
    pub status: usize,
}

/// The completion state of an asynchronous TCPv6 operation.
#[derive(Debug, Copy, Clone)]
pub struct Tcp6CompletionToken {
    pub event: usize,
    pub status: usize,
}

/// A TCPv4 transfer: its completion token and the packet it moves, the
/// latter an opaque address value.
#[derive(Debug, Copy, Clone)]
pub struct Tcp4IoToken {
    pub completion_token: Tcp4CompletionToken,
    pub packet: usize,
}

/// A TCPv6 transfer: its completion token and the packet it moves, the
/// latter an opaque address value.
#[derive(Debug, Copy, Clone)]
pub struct Tcp6IoToken {
    pub completion_token: Tcp6CompletionToken,
    pub packet: usize,
}

/// EFI_TCP4_PROTOCOL, its services as opaque address values.
#[derive(Debug, Copy, Clone)]
pub struct Tcp4Protocol {
    pub get_mode_data: usize,
    pub configure: usize,
    pub routes: usize,
    pub connect: usize,
    pub accept: usize,
    pub transmit: usize,
    pub receive: usize,
    pub close: usize,
    pub cancel: usize,
    pub poll: usize,
}

/// EFI_TCP6_PROTOCOL, its services as opaque address values.
#[derive(Debug, Copy, Clone)]
pub struct Tcp6Protocol {
    pub get_mode_data: usize,
    pub configure: usize,
    pub connect: usize,
    pub accept: usize,
    pub transmit: usize,
    pub receive: usize,
    pub close: usize,
    pub cancel: usize,
    pub poll: usize,
}

/// UDPv4 configuration.
#[derive(Debug, Copy, Clone)]
pub struct Udp4ConfigData {
    pub accept_broadcast: u8,
    pub accept_promiscuous: u8,
    pub accept_any_port: u8,
    pub allow_duplicate_port: u8,
    pub type_of_service: u8,
    pub time_to_live: u8,
    pub do_not_fragment: u8,
    pub receive_timeout: u32,
    pub transmit_timeout: u32,
    pub use_default_address: u8,
    pub station_address: Ipv4Address,
    pub subnet_mask: Ipv4Address,
    pub station_port: u16,
    pub remote_address: Ipv4Address,
    pub remote_port: u16,
}

/// UDPv6 configuration.
#[derive(Debug, Copy, Clone)]
pub struct Udp6ConfigData {
    pub accept_promiscuous: u8,
    pub accept_any_port: u8,
    pub allow_duplicate_port: u8,
    pub traffic_class: u8,
    pub hop_limit: u8,
    pub receive_timeout: u32,
    pub transmit_timeout: u32,
    pub station_address: Ipv6Address,
    pub station_port: u16,
    pub remote_address: Ipv6Address,
    pub remote_port: u16,
}

/// One fragment of a UDPv4 transfer; the buffer is an opaque address
/// value.
#[derive(Debug, Copy, Clone)]
pub struct Udp4FragmentData {
    pub fragment_length: u32,
    pub fragment_buffer: usize,
}

/// One fragment of a UDPv6 transfer; the buffer is an opaque address
/// value.
#[derive(Debug, Copy, Clone)]
pub struct Udp6FragmentData {
    pub fragment_length: u32,
    pub fragment_buffer: usize,
}

/// The endpoints of one UDPv4 datagram.
#[derive(Debug, Copy, Clone)]
pub struct Udp4SessionData {
    pub source_address: Ipv4Address,
    pub source_port: u16,
    pub destination_address: Ipv4Address,
    pub destination_port: u16,
}

/// The endpoints of one UDPv6 datagram.
#[derive(Debug, Copy, Clone)]
pub struct Udp6SessionData {
    pub source_address: Ipv6Address,
    pub source_port: u16,
    pub destination_address: Ipv6Address,
    pub destination_port: u16,
}

/// A received UDPv4 datagram and its first fragment.
#[derive(Debug, Copy, Clone)]
pub struct Udp4ReceiveData {
    pub time_stamp: crate::runtime_services::time::Time,
    pub recycle_signal: usize,
    pub udp4_session: Udp4SessionData,
    pub data_length: u32,
    pub fragment_count: u32,
    pub fragment_table: [Udp4FragmentData; 1],
}

/// A received UDPv6 datagram and its first fragment.
#[derive(Debug, Copy, Clone)]
pub struct Udp6ReceiveData {
    pub time_stamp: crate::runtime_services::time::Time,
    pub recycle_signal: usize,
    pub udp6_session: Udp6SessionData,
    pub data_length: u32,
    pub fragment_count: u32,
    pub fragment_table: [Udp6FragmentData; 1],
}

/// An outgoing UDPv4 datagram; session and gateway are opaque address
/// values.
#[derive(Debug, Copy, Clone)]
pub struct Udp4TransmitData {
    pub udp4_session_data: usize,
    pub gateway_address: usize,
    pub data_length: u32,
    pub fragment_count: u32,
    pub fragment_table: [Udp4FragmentData; 1],
}

/// An outgoing UDPv6 datagram; the session is an opaque address value.
#[derive(Debug, Copy, Clone)]
pub struct Udp6TransmitData {
    pub udp6_session_data: usize,
    pub data_length: u32,
    pub fragment_count: u32,
    pub fragment_table: [Udp6FragmentData; 1],
}

/// The completion state of an asynchronous UDPv4 operation; the packet is
/// an opaque address value.
#[derive(Debug, Copy, Clone)]
pub struct Udp4CompletionToken {
    pub event: usize,
    pub status: usize,
    pub packet: usize,
}

/// The completion state of an asynchronous UDPv6 operation; the packet is
/// an opaque address value.
#[derive(Debug, Copy, Clone)]
pub struct Udp6CompletionToken {
    pub event: usize,
    pub status: usize,
    pub packet: usize,
}

/// EFI_UDP4_PROTOCOL, its services as opaque address values.
#[derive(Debug, Copy, Clone)]
pub struct Udp4Protocol {
    pub get_mode_data: usize,
    pub configure: usize,
    pub groups: usize,
    pub routes: usize,
    pub transmit: usize,
    pub receive: usize,
    pub cancel: usize,
    pub poll: usize,
}

/// EFI_UDP6_PROTOCOL, its services as opaque address values.
#[derive(Debug, Copy, Clone)]
pub struct Udp6Protocol {
    pub get_mode_data: usize,
    pub configure: usize,
    pub groups: usize,
    pub transmit: usize,
    pub receive: usize,
    pub cancel: usize,
    pub poll: usize,
}

} // verus!
