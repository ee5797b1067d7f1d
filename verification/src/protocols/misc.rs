//! Timestamp and random-number protocol structures.

use vstd::prelude::*;

use crate::ffi::Guid;

verus! {

/// Identifier of the timestamp protocol.
pub fn timestamp_protocol_guid() -> (g: Guid)
    ensures
        g == (Guid { data1: 0xafbfde41, data2: 0x2e6e, data3: 0x4262, data4: [0xba, 0x65, 0x62, 0xb9, 0x23, 0x6e, 0x54, 0x95] }),
{
    Guid { data1: 0xafbfde41, data2: 0x2e6e, data3: 0x4262, data4: [0xba, 0x65, 0x62, 0xb9, 0x23, 0x6e, 0x54, 0x95] }
}

/// Identifier of the random-number protocol.
pub fn rng_protocol_guid() -> (g: Guid)
    ensures
        g == (Guid { data1: 0x3152bca5, data2: 0xeade, data3: 0x433d, data4: [0x86, 0x2e, 0xc0, 0x1c, 0xdc, 0x29, 0x1f, 0x44] }),
{
    Guid { data1: 0x3152bca5, data2: 0xeade, data3: 0x433d, data4: [0x86, 0x2e, 0xc0, 0x1c, 0xdc, 0x29, 0x1f, 0x44] }
}

/// Identifier of the SP800-90 Hash-256 algorithm.
pub fn rng_algorithm_sp800_90_hash_256_guid() -> (g: Guid)
    ensures
        g == (Guid { data1: 0xa7af67cb, data2: 0x603b, data3: 0x4d42, data4: [0xba, 0x21, 0x70, 0xbf, 0xb6, 0x29, 0x3f, 0x96] }),
{
    Guid { data1: 0xa7af67cb, data2: 0x603b, data3: 0x4d42, data4: [0xba, 0x21, 0x70, 0xbf, 0xb6, 0x29, 0x3f, 0x96] }
}

/// Identifier of the SP800-90 HMAC-256 algorithm.
pub fn rng_algorithm_sp800_90_hmac_256_guid() -> (g: Guid)
    ensures
        g == (Guid { data1: 0xc5149b43, data2: 0xae85, data3: 0x4f53, data4: [0x99, 0x82, 0xb9, 0x43, 0x35, 0xd3, 0xa9, 0xe7] }),
{
    Guid { data1: 0xc5149b43, data2: 0xae85, data3: 0x4f53, data4: [0x99, 0x82, 0xb9, 0x43, 0x35, 0xd3, 0xa9, 0xe7] }
}

/// Identifier of the SP800-90 CTR-256 algorithm.
pub fn rng_algorithm_sp800_90_ctr_256_guid() -> (g: Guid)
    ensures
        g == (Guid { data1: 0x44f0de6e, data2: 0x4d8c, data3: 0x4045, data4: [0xa8, 0xc7, 0x4d, 0xd1, 0x68, 0x85, 0x6b, 0x9e] }),
{
    Guid { data1: 0x44f0de6e, data2: 0x4d8c, data3: 0x4045, data4: [0xa8, 0xc7, 0x4d, 0xd1, 0x68, 0x85, 0x6b, 0x9e] }
}

/// Identifier of the X9.31 3DES algorithm.
pub fn rng_algorithm_x9_31_3des_guid() -> (g: Guid)
    ensures
        g == (Guid { data1: 0x63c4785a, data2: 0xca34, data3: 0x4012, data4: [0xa3, 0xc8, 0x0b, 0x6a, 0x32, 0x4f, 0x55, 0x46] }),
{
    Guid { data1: 0x63c4785a, data2: 0xca34, data3: 0x4012, data4: [0xa3, 0xc8, 0x0b, 0x6a, 0x32, 0x4f, 0x55, 0x46] }
}

/// Identifier of the X9.31 AES algorithm.
pub fn rng_algorithm_x9_31_aes_guid() -> (g: Guid)
    ensures
        g == (Guid { data1: 0xacd03321, data2: 0x777e, data3: 0x4d3d, data4: [0xb1, 0xc8, 0x20, 0xcf, 0xd8, 0x88, 0x20, 0xc9] }),
{
    Guid { data1: 0xacd03321, data2: 0x777e, data3: 0x4d3d, data4: [0xb1, 0xc8, 0x20, 0xcf, 0xd8, 0x88, 0x20, 0xc9] }
}

/// Identifier of the raw entropy source.
pub fn rng_algorithm_raw_guid() -> (g: Guid)
    ensures
        g == (Guid { data1: 0xe43176d7, data2: 0xb6e8, data3: 0x4827, data4: [0xb7, 0x84, 0x7f, 0xfd, 0xc4, 0xb6, 0x85, 0x61] }),
{
    Guid { data1: 0xe43176d7, data2: 0xb6e8, data3: 0x4827, data4: [0xb7, 0x84, 0x7f, 0xfd, 0xc4, 0xb6, 0x85, 0x61] }
}

/// Timestamp Properties
#[derive(Debug, Copy, Clone)]
pub struct TimestampProperties {
    pub frequency: u64,
    pub end_value: u64,
}

/// EFI_TIMESTAMP_PROTOCOL, its services as opaque address values.
#[derive(Debug, Copy, Clone)]
pub struct TimestampProtocol {
    pub get_timestamp: usize,
    pub get_properties: usize,
}

/// EFI_RNG_PROTOCOL, its services as opaque address values.
#[derive(Debug, Copy, Clone)]
pub struct RngProtocol {
    pub get_info: usize,
    pub get_rng: usize,
}

/// A started elapsed-time measurement over the timestamp counter.
#[derive(Debug, Copy, Clone)]
pub struct TimestampMeasure {
    pub start: u64,
    pub protocol: usize,
}

/// Nanoseconds elapsed between two counter values at a given frequency.
pub fn elapsed_ns(start: u64, end: u64, frequency: u64) -> (r: u64)
    requires
        start <= end,
        frequency >= 1,
        (end - start) * 1_000_000_000 / (frequency as int) <= u64::MAX,
    ensures
        r == (end - start) * 1_000_000_000 / (frequency as int),
{
    let ticks: u128 = (end - start) as u128;
    proof {
        assert(ticks * 1_000_000_000 <= 0xFFFF_FFFF_FFFF_FFFFu128 * 1_000_000_000u128)
            by (nonlinear_arith)
            requires
                ticks <= 0xFFFF_FFFF_FFFF_FFFFu128,
        ;
    }
    ((ticks * 1_000_000_000) / (frequency as u128)) as u64
}

} // verus!
