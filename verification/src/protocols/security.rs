//! Secure-boot data structures and the signature database enumerator.
//!
//! A signature database is a sequence of variable-sized signature-list
//! records, each a 28-byte header followed by a homogeneous array of
//! fixed-size entries.  The membership test walks the lists, filters by
//! certificate type and entry width, and compares the probe hash byte for
//! byte, never reading past the caller-declared buffer even when the size
//! fields are self-inconsistent.

use vstd::prelude::*;

use crate::bytes::{push_u16_be, push_u32_be, read_u32_be, read_u16_le, read_u32_le, u16_be_bytes, u32_be, u32_be_bytes, u16_le, u32_le};
use crate::ffi::Guid;

verus! {

/// Identifier of the security architectural protocol.
pub fn security_arch_protocol_guid() -> (g: Guid)
    ensures
        g == (Guid {
            data1: 0xA46423E3,
            data2: 0x4617,
            data3: 0x49f1,
            data4: [0xB9, 0xFF, 0xD1, 0xBF, 0xA9, 0x11, 0x58, 0x39],
        }),
{
    Guid {
        data1: 0xA46423E3,
        data2: 0x4617,
        data3: 0x49f1,
        data4: [0xB9, 0xFF, 0xD1, 0xBF, 0xA9, 0x11, 0x58, 0x39],
    }
}

/// Identifier of the second security architectural protocol.
pub fn security2_arch_protocol_guid() -> (g: Guid)
    ensures
        g == (Guid {
            data1: 0x94ab2f58,
            data2: 0x1438,
            data3: 0x4ef1,
            data4: [0x91, 0x52, 0x18, 0x94, 0x1a, 0x3a, 0x0e, 0x68],
        }),
{
    Guid {
        data1: 0x94ab2f58,
        data2: 0x1438,
        data3: 0x4ef1,
        data4: [0x91, 0x52, 0x18, 0x94, 0x1a, 0x3a, 0x0e, 0x68],
    }
}

/// Identifier of the SHA-1 hash algorithm.
pub fn hash_algorithm_sha1_guid() -> (g: Guid)
    ensures
        g == (Guid {
            data1: 0x2ae9d80f,
            data2: 0x3fb2,
            data3: 0x4095,
            data4: [0xb7, 0xb1, 0xe9, 0x31, 0x57, 0xb9, 0x46, 0xb6],
        }),
{
    Guid {
        data1: 0x2ae9d80f,
        data2: 0x3fb2,
        data3: 0x4095,
        data4: [0xb7, 0xb1, 0xe9, 0x31, 0x57, 0xb9, 0x46, 0xb6],
    }
}

/// Identifier of the SHA-256 hash algorithm.
pub fn hash_algorithm_sha256_guid() -> (g: Guid)
    ensures
        g == (Guid {
            data1: 0x51aa59de,
            data2: 0xfdf2,
            data3: 0x4ea3,
            data4: [0xbc, 0x63, 0x87, 0x5f, 0xb7, 0x84, 0x2e, 0xe9],
        }),
{
    Guid {
        data1: 0x51aa59de,
        data2: 0xfdf2,
        data3: 0x4ea3,
        data4: [0xbc, 0x63, 0x87, 0x5f, 0xb7, 0x84, 0x2e, 0xe9],
    }
}

/// Identifier of the SHA-384 hash algorithm.
pub fn hash_algorithm_sha384_guid() -> (g: Guid)
    ensures
        g == (Guid {
            data1: 0xefa96432,
            data2: 0xde33,
            data3: 0x4dd2,
            data4: [0xae, 0xe6, 0x32, 0x8c, 0x33, 0xdf, 0x77, 0x7a],
        }),
{
    Guid {
        data1: 0xefa96432,
        data2: 0xde33,
        data3: 0x4dd2,
        data4: [0xae, 0xe6, 0x32, 0x8c, 0x33, 0xdf, 0x77, 0x7a],
    }
}

/// Identifier of the SHA-512 hash algorithm.
pub fn hash_algorithm_sha512_guid() -> (g: Guid)
    ensures
        g == (Guid {
            data1: 0xcaa4381e,
            data2: 0x750c,
            data3: 0x4770,
            data4: [0xb8, 0x70, 0x7a, 0x23, 0xb4, 0xe4, 0x21, 0x30],
        }),
{
    Guid {
        data1: 0xcaa4381e,
        data2: 0x750c,
        data3: 0x4770,
        data4: [0xb8, 0x70, 0x7a, 0x23, 0xb4, 0xe4, 0x21, 0x30],
    }
}

/// Identifier of the hash protocol.
pub fn hash_protocol_guid() -> (g: Guid)
    ensures
        g == (Guid {
            data1: 0xC5184932,
            data2: 0xDBA5,
            data3: 0x46DB,
            data4: [0xA5, 0xBA, 0xCC, 0x0B, 0xDA, 0x9C, 0x14, 0x35],
        }),
{
    Guid {
        data1: 0xC5184932,
        data2: 0xDBA5,
        data3: 0x46DB,
        data4: [0xA5, 0xBA, 0xCC, 0x0B, 0xDA, 0x9C, 0x14, 0x35],
    }
}

/// Identifier of the PKCS7 verification protocol.
pub fn pkcs7_verify_protocol_guid() -> (g: Guid)
    ensures
        g == (Guid {
            data1: 0x47889fb2,
            data2: 0xd671,
            data3: 0x4fab,
            data4: [0xa0, 0xca, 0xdf, 0x0e, 0x44, 0xdf, 0x70, 0xd6],
        }),
{
    Guid {
        data1: 0x47889fb2,
        data2: 0xd671,
        data3: 0x4fab,
        data4: [0xa0, 0xca, 0xdf, 0x0e, 0x44, 0xdf, 0x70, 0xd6],
    }
}

/// Identifier of the TPM 2.0 protocol.
pub fn tpm2_protocol_guid() -> (g: Guid)
    ensures
        g == (Guid {
            data1: 0x607f766c,
            data2: 0x7455,
            data3: 0x42be,
            data4: [0x93, 0x0b, 0xe4, 0xd7, 0x6d, 0xb2, 0x72, 0x0f],
        }),
{
    Guid {
        data1: 0x607f766c,
        data2: 0x7455,
        data3: 0x42be,
        data4: [0x93, 0x0b, 0xe4, 0xd7, 0x6d, 0xb2, 0x72, 0x0f],
    }
}

/// The SHA-256 certificate-type identifier of signature lists.
pub open spec fn spec_cert_sha256_guid() -> Guid {
    Guid {
        data1: 0xc1c41626,
        data2: 0x504c,
        data3: 0x4092,
        data4: [0xac, 0xa9, 0x41, 0xf9, 0x36, 0x93, 0x43, 0x28],
    }
}

/// Certificate type: SHA-256 hash entries.
pub fn cert_sha256_guid() -> (g: Guid)
    ensures
        g == spec_cert_sha256_guid(),
{
    Guid {
        data1: 0xc1c41626,
        data2: 0x504c,
        data3: 0x4092,
        data4: [0xac, 0xa9, 0x41, 0xf9, 0x36, 0x93, 0x43, 0x28],
    }
}

/// Certificate type: RSA-2048 key entries.
pub fn cert_rsa2048_guid() -> (g: Guid)
    ensures
        g == (Guid {
            data1: 0x3c5766e8,
            data2: 0x269c,
            data3: 0x4e34,
            data4: [0xaa, 0x14, 0xed, 0x77, 0x6e, 0x85, 0xb3, 0xb6],
        }),
{
    Guid {
        data1: 0x3c5766e8,
        data2: 0x269c,
        data3: 0x4e34,
        data4: [0xaa, 0x14, 0xed, 0x77, 0x6e, 0x85, 0xb3, 0xb6],
    }
}

/// Certificate type: X.509 certificate entries.
pub fn cert_x509_guid() -> (g: Guid)
    ensures
        g == (Guid {
            data1: 0xa5c059a1,
            data2: 0x94e4,
            data3: 0x4aa7,
            data4: [0x87, 0xb5, 0xab, 0x15, 0x5c, 0x2b, 0xf0, 0x72],
        }),
{
    Guid {
        data1: 0xa5c059a1,
        data2: 0x94e4,
        data3: 0x4aa7,
        data4: [0x87, 0xb5, 0xab, 0x15, 0x5c, 0x2b, 0xf0, 0x72],
    }
}

/// "db\0" as UCS-2
pub const IMAGE_SECURITY_DATABASE_VARIABLE: [u16; 3] = [0x0064, 0x0062, 0x0000];

/// "dbx\0" as UCS-2
pub const IMAGE_SECURITY_DATABASE1_VARIABLE: [u16; 4] = [0x0064, 0x0062, 0x0078, 0x0000];

/// "dbt\0" as UCS-2
pub const IMAGE_SECURITY_DATABASE2_VARIABLE: [u16; 4] = [0x0064, 0x0062, 0x0074, 0x0000];

/// "PK\0" as UCS-2
pub const PLATFORM_KEY_VARIABLE: [u16; 3] = [0x0050, 0x004B, 0x0000];

/// "KEK\0" as UCS-2
pub const KEY_EXCHANGE_KEY_VARIABLE: [u16; 4] = [0x004B, 0x0045, 0x004B, 0x0000];

/// "SecureBoot\0" as UCS-2
pub const SECURE_BOOT_MODE_VARIABLE: [u16; 11] = [
    0x0053,
    0x0065,
    0x0063,
    0x0075,
    0x0072,
    0x0065,
    0x0042,
    0x006F,
    0x006F,
    0x0074,
    0x0000,
];

/// EFI_SECURITY2_ARCH_PROTOCOL, its service as an opaque address value.
#[derive(Debug, Copy, Clone)]
pub struct Security2ArchProtocol {
    pub file_authentication: usize,
}

/// EFI_HASH_PROTOCOL, its services as opaque address values.
#[derive(Debug, Copy, Clone)]
pub struct HashProtocol {
    pub get_hash_size: usize,
    pub hash: usize,
}

/// EFI_PKCS7_VERIFY_PROTOCOL, its services as opaque address values.
#[derive(Debug, Copy, Clone)]
pub struct Pkcs7VerifyProtocol {
    pub verify_buffer: usize,
    pub verify_signature: usize,
}

/// EFI_SIGNATURE_DATA: the owner identifier that starts each entry.
#[derive(Debug, Copy, Clone)]
pub struct SignatureData {
    pub signature_owner: Guid,
}

/// EFI_SIGNATURE_LIST: the 28-byte record header of one signature list.
#[derive(Debug, Copy, Clone)]
pub struct SignatureList {
    pub signature_type: Guid,
    pub signature_list_size: u32,
    pub signature_header_size: u32,
    pub signature_size: u32,
}

/// Size of the signature-list record header.
pub const SIGNATURE_LIST_HEADER_SIZE: usize = 28;

/// The identifier stored at `off` in wire order: little-endian scalar
/// fields followed by the 8 tail bytes.
pub open spec fn guid_at(s: Seq<u8>, off: int) -> Guid {
    Guid {
        data1: u32_le(s, off) as u32,
        data2: u16_le(s, off + 4) as u16,
        data3: u16_le(s, off + 6) as u16,
        data4: [
            s[off + 8],
            s[off + 9],
            s[off + 10],
            s[off + 11],
            s[off + 12],
            s[off + 13],
            s[off + 14],
            s[off + 15],
        ],
    }
}

/// Read the identifier stored at `off`.
pub fn read_guid(b: &[u8], off: usize) -> (g: Guid)
    requires
        off + 16 <= b@.len(),
    ensures
        g == guid_at(b@, off as int),
{
    let _n: usize = b.len();
    Guid {
        data1: read_u32_le(b, off),
        data2: read_u16_le(b, off + 4),
        data3: read_u16_le(b, off + 6),
        data4: [
            b[off + 8],
            b[off + 9],
            b[off + 10],
            b[off + 11],
            b[off + 12],
            b[off + 13],
            b[off + 14],
            b[off + 15],
        ],
    }
}

/// Decode the signature-list record header stored at `off`.
pub fn parse_signature_list(data: &[u8], off: usize) -> (r: Option<SignatureList>)
    ensures
        match r {
            Some(l) => {
                &&& off + 28 <= data@.len()
                &&& l.signature_type == guid_at(data@, off as int)
                &&& l.signature_list_size as int == u32_le(data@, off + 16)
                &&& l.signature_header_size as int == u32_le(data@, off + 20)
                &&& l.signature_size as int == u32_le(data@, off + 24)
            },
            None => off + 28 > data@.len(),
        },
{
    let n: usize = data.len();
    if off > n || n - off < 28 {
        return None;
    }
    Some(
        SignatureList {
            signature_type: read_guid(data, off),
            signature_list_size: read_u32_le(data, off + 16),
            signature_header_size: read_u32_le(data, off + 20),
            signature_size: read_u32_le(data, off + 24),
        },
    )
}

/// Walks the signature-list records of a database buffer, each advancing
/// the cursor by its declared total size.  A record whose declared size is
/// zero or reaches past the buffer ends the sequence.
pub struct SignatureListIter<'a> {
    data: &'a [u8],
    offset: usize,
}

impl<'a> SignatureListIter<'a> {
    /// The database buffer this walk covers.
    pub closed spec fn spec_data(&self) -> Seq<u8> {
        self.data@
    }

    /// The cursor position of this walk.
    pub closed spec fn spec_offset(&self) -> int {
        self.offset as int
    }

    /// Start walking at offset 0 of the database buffer.
    pub fn new(data: &'a [u8]) -> (it: SignatureListIter<'a>)
        ensures
            it.spec_data() == data@,
            it.spec_offset() == 0,
    {
        SignatureListIter { data, offset: 0 }
    }

    /// Yield the record at the cursor together with its offset, and
    /// advance by its declared total size.
    pub fn next(&mut self) -> (r: Option<(usize, SignatureList)>)
        ensures
            final(self).spec_data() == old(self).spec_data(),
            match r {
                Some((off, l)) => {
                    &&& off == old(self).spec_offset()
                    &&& off + 28 <= old(self).spec_data().len()
                    &&& l.signature_type == guid_at(old(self).spec_data(), off as int)
                    &&& l.signature_list_size as int == u32_le(old(self).spec_data(), off + 16)
                    &&& l.signature_header_size as int == u32_le(old(self).spec_data(), off + 20)
                    &&& l.signature_size as int == u32_le(old(self).spec_data(), off + 24)
                    &&& l.signature_list_size != 0
                    &&& off + l.signature_list_size <= old(self).spec_data().len()
                    &&& final(self).spec_offset() == off + l.signature_list_size
                },
                None => {
                    &&& final(self).spec_offset() == old(self).spec_offset()
                    &&& (old(self).spec_offset() + 28 > old(self).spec_data().len() || u32_le(
                        old(self).spec_data(),
                        old(self).spec_offset() + 16,
                    ) == 0 || old(self).spec_offset() + u32_le(
                        old(self).spec_data(),
                        old(self).spec_offset() + 16,
                    ) > old(self).spec_data().len())
                },
            },
    {
        let n: usize = self.data.len();
        let off = self.offset;
        if off > n || n - off < 28 {
            return None;
        }
        let l = match parse_signature_list(self.data, off) {
            Some(l) => l,
            None => {
                return None;
            },
        };
        let size = l.signature_list_size as usize;
        if size == 0 || size > n - off {
            return None;
        }
        self.offset = off + size;
        Some((off, l))
    }
}

/// Number of fixed-size entries a signature list holds: the bytes after
/// the record header and the optional header, divided by the per-entry
/// size.  A zero per-entry size yields zero entries rather than a division
/// fault, as does a total size smaller than its headers.
pub open spec fn spec_signature_entry_count(size: int, header_size: int, entry_size: int) -> int {
    if entry_size <= 0 || size < 28 + header_size {
        0
    } else {
        (size - 28 - header_size) / entry_size
    }
}

/// Number of entries of a signature-list record.
pub fn signature_entry_count(list: &SignatureList) -> (count: usize)
    ensures
        count as int == spec_signature_entry_count(
            list.signature_list_size as int,
            list.signature_header_size as int,
            list.signature_size as int,
        ),
{
    if list.signature_size == 0 {
        return 0;
    }
    if list.signature_list_size < 28 {
        return 0;
    }
    if list.signature_header_size > list.signature_list_size - 28 {
        return 0;
    }
    (((list.signature_list_size - 28) - list.signature_header_size) / list.signature_size) as usize
}

/// The bytes `data[start .. start + hash.len()]` equal the probe hash.
fn span_matches(data: &[u8], start: usize, hash: &[u8]) -> (r: bool)
    requires
        start + hash@.len() <= data@.len(),
    ensures
        r == (data@.subrange(start as int, start as int + hash@.len() as int) == hash@),
{
    let n: usize = data.len();
    let m = hash.len();
    let mut j: usize = 0;
    while j < m
        invariant
            j <= m,
            m == hash@.len(),
            n == data@.len(),
            start + m <= data@.len(),
            forall|k: int| 0 <= k < j ==> data@[start + k] == hash@[k],
        decreases m - j,
    {
        if data[start + j] != hash[j] {
            proof {
                assert(data@.subrange(start as int, start as int + m as int)[j as int] != hash@[
                    j as int
                ]);
            }
            return false;
        }
        j = j + 1;
    }
    proof {
        assert(data@.subrange(start as int, start as int + m as int) =~= hash@);
    }
    true
}

/// The signature list at `o` carries SHA-256 hash entries and one of its
/// entries' data equals the probe hash.
pub open spec fn list_has_hash(s: Seq<u8>, o: int, h: Seq<u8>) -> bool {
    let size = u32_le(s, o + 16);
    let hdr = u32_le(s, o + 20);
    let esize = u32_le(s, o + 24);
    &&& guid_at(s, o) == spec_cert_sha256_guid()
    &&& h.len() == 32
    &&& esize == 48
    &&& exists|i: int|
        0 <= i < spec_signature_entry_count(size, hdr, esize) && #[trigger] s.subrange(
            o + 28 + hdr + 48 * i + 16,
            o + 28 + hdr + 48 * i + 48,
        ) == h
}

/// The certificate-type filter of the membership test: a signature list
/// whose type identifier differs from the requested SHA-256 certificate
/// type never contributes a match, whatever bytes its entries hold.
pub proof fn lemma_mismatched_list_ignored(s: Seq<u8>, o: int, h: Seq<u8>)
    requires
        guid_at(s, o) != spec_cert_sha256_guid(),
    ensures
        !list_has_hash(s, o, h),
{
}

/// The probe hash is a member of some signature list of the database at or
/// after offset `o`: the walk of the membership test, as a spec-level
/// recursion over record offsets.
pub open spec fn hash_in_db_from(s: Seq<u8>, o: int, h: Seq<u8>) -> bool
    decreases s.len() - o,
    when 0 <= o <= s.len()
{
    if o + 28 > s.len() {
        false
    } else {
        let size = u32_le(s, o + 16);
        if size == 0 || o + size > s.len() {
            false
        } else {
            list_has_hash(s, o, h) || hash_in_db_from(s, o + size, h)
        }
    }
}

/// Check the entries of the signature list at `o` for the probe hash.
fn list_contains_hash(data: &[u8], o: usize, hash: &[u8]) -> (r: bool)
    requires
        o + 28 <= data@.len(),
        u32_le(data@, o as int + 16) <= data@.len() - o,
    ensures
        r == list_has_hash(data@, o as int, hash@),
{
    let n: usize = data.len();
    let size = read_u32_le(data, o + 16) as usize;
    let hdr32 = read_u32_le(data, o + 20);
    let esize = read_u32_le(data, o + 24);
    let g = read_guid(data, o);
    let cert = cert_sha256_guid();
    if !(g == cert) || hash.len() != 32 || esize != 48 {
        return false;
    }
    if size < 28 {
        return false;
    }
    let hdr = hdr32 as usize;
    if hdr > size - 28 {
        return false;
    }
    let count: usize = (size - 28 - hdr) / 48;
    proof {
        assert(count as int == spec_signature_entry_count(
            u32_le(data@, o as int + 16),
            u32_le(data@, o as int + 20),
            u32_le(data@, o as int + 24),
        ));
        vstd::arithmetic::div_mod::lemma_fundamental_div_mod((size - 28 - hdr) as int, 48);
    }
    let base = o + 28 + hdr;
    let mut i: usize = 0;
    let mut e: usize = base;
    while i < count
        invariant
            i <= count,
            base == o + 28 + hdr,
            e == base + 48 * i,
            n == data@.len(),
            o + 28 <= data@.len(),
            hash@.len() == 32,
            guid_at(data@, o as int) == spec_cert_sha256_guid(),
            u32_le(data@, o as int + 24) == 48,
            base + 48 * count <= o + size,
            o + size <= data@.len(),
            count as int == spec_signature_entry_count(
                u32_le(data@, o as int + 16),
                u32_le(data@, o as int + 20),
                u32_le(data@, o as int + 24),
            ),
            hdr as int == u32_le(data@, o as int + 20),
            forall|j: int|
                0 <= j < i ==> #[trigger] data@.subrange(
                    o + 28 + hdr + 48 * j + 16,
                    o + 28 + hdr + 48 * j + 48,
                ) != hash@,
        decreases count - i,
    {
        proof {
            assert(48 * (i + 1) <= 48 * count);
        }
        if span_matches(data, e + 16, hash) {
            proof {
                let wi = i as int;
                assert(0 <= wi < spec_signature_entry_count(
                    u32_le(data@, o as int + 16),
                    u32_le(data@, o as int + 20),
                    u32_le(data@, o as int + 24),
                ) && #[trigger] data@.subrange(
                    o as int + 28 + hdr + 48 * wi + 16,
                    o as int + 28 + hdr + 48 * wi + 48,
                ) == hash@);
            }
            return true;
        }
        i = i + 1;
        e = e + 48;
    }
    false
}

/// Check if a probe hash exists in a signature database buffer: walk the
/// signature lists, filter to SHA-256 hash lists whose entry width matches
/// the 32-byte probe, and report true on the first byte-exact match.
pub fn is_hash_in_database(data: &[u8], hash: &[u8]) -> (r: bool)
    ensures
        r == hash_in_db_from(data@, 0, hash@),
{
    let n: usize = data.len();
    let mut offset: usize = 0;
    let mut result = false;
    let mut stop = false;
    while !stop
        invariant
            offset <= n,
            n == data@.len(),
            !stop ==> result == false,
            !stop ==> hash_in_db_from(data@, 0, hash@) == hash_in_db_from(
                data@,
                offset as int,
                hash@,
            ),
            stop ==> result == hash_in_db_from(data@, 0, hash@),
        decreases (if stop {
            0int
        } else {
            n - offset + 1
        }),
    {
        if offset > n || n - offset < 28 {
            stop = true;
        } else {
            let size32 = read_u32_le(data, offset + 16);
            let size = size32 as usize;
            if size == 0 || size > n - offset {
                stop = true;
            } else {
                if list_contains_hash(data, offset, hash) {
                    result = true;
                    stop = true;
                } else {
                    offset = offset + size;
                }
            }
        }
    }
    result
}

// TPM 2.0 command constants
pub const TPM_ST_NO_SESSIONS: u16 = 0x8001;

pub const TPM_CC_STARTUP: u32 = 0x00000144;

pub const TPM_CC_SELF_TEST: u32 = 0x00000143;

pub const TPM_CC_GET_CAPABILITY: u32 = 0x0000017A;

pub const TPM_CC_PCR_READ: u32 = 0x0000017E;

pub const TPM_CC_PCR_EXTEND: u32 = 0x00000182;

pub const TPM_CC_GET_RANDOM: u32 = 0x0000017B;

pub const TPM_SU_CLEAR: u16 = 0x0000;

pub const TPM_SU_STATE: u16 = 0x0001;

/// EFI_TPM2_PROTOCOL, its services as opaque address values.
#[derive(Debug, Copy, Clone)]
pub struct Tpm2Protocol {
    pub get_capability: usize,
    pub get_event_log: usize,
    pub hash_log_extend_event: usize,
    pub submit_command: usize,
    pub get_active_pcr_banks: usize,
}

/// TPM2 Boot Service Capability
#[derive(Debug, Copy, Clone)]
pub struct Tpm2BootServiceCapability {
    pub size: u8,
    pub structure_version: Tpm2Version,
    pub protocol_version: Tpm2Version,
    pub hash_algorithm_bitmap: u32,
    pub supported_event_logs: u32,
    pub tpm_present_flag: u8,
    pub max_command_size: u16,
    pub max_response_size: u16,
    pub manufacturer_id: u32,
    pub number_of_pcr_banks: u32,
    pub active_pcr_banks: u32,
}

/// TPM2 Version
#[derive(Debug, Copy, Clone)]
pub struct Tpm2Version {
    pub major: u8,
    pub minor: u8,
}

/// TPM2 Command Header
#[derive(Debug, Copy, Clone)]
pub struct Tpm2CommandHeader {
    pub tag: u16,
    pub param_size: u32,
    pub command_code: u32,
}

/// TPM2 Response Header
#[derive(Debug, Copy, Clone)]
pub struct Tpm2ResponseHeader {
    pub tag: u16,
    pub param_size: u32,
    pub response_code: u32,
}

/// Build the 12-byte TPM2 startup command: tag, total size, command code
/// and startup type, all big-endian.
pub fn build_tpm2_startup_command(startup_type: u16) -> (cmd: Vec<u8>)
    ensures
        cmd@ == u16_be_bytes(TPM_ST_NO_SESSIONS) + u32_be_bytes(12) + u32_be_bytes(TPM_CC_STARTUP)
            + u16_be_bytes(startup_type),
        cmd@.len() == 12,
{
    let mut cmd: Vec<u8> = Vec::new();
    push_u16_be(&mut cmd, TPM_ST_NO_SESSIONS);
    push_u32_be(&mut cmd, 12);
    push_u32_be(&mut cmd, TPM_CC_STARTUP);
    push_u16_be(&mut cmd, startup_type);
    assert(cmd@ =~= u16_be_bytes(TPM_ST_NO_SESSIONS) + u32_be_bytes(12) + u32_be_bytes(
        TPM_CC_STARTUP,
    ) + u16_be_bytes(startup_type));
    cmd
}

/// Build the 20-byte TPM2 PCR-read command for one SHA-256 PCR selection.
pub fn build_tpm2_pcr_read_command(pcr_index: u32) -> (cmd: Vec<u8>)
    requires
        pcr_index < 2048,
    ensures
        cmd@ == u16_be_bytes(TPM_ST_NO_SESSIONS) + u32_be_bytes(20) + u32_be_bytes(TPM_CC_PCR_READ)
            + u32_be_bytes(1) + u16_be_bytes(0x000B) + seq![
            3u8,
            (pcr_index / 8) as u8,
            0u8,
            0u8,
        ],
        cmd@.len() == 20,
{
    let mut cmd: Vec<u8> = Vec::new();
    push_u16_be(&mut cmd, TPM_ST_NO_SESSIONS);
    push_u32_be(&mut cmd, 20);
    push_u32_be(&mut cmd, TPM_CC_PCR_READ);
    push_u32_be(&mut cmd, 1);
    push_u16_be(&mut cmd, 0x000B);
    cmd.push(3);
    cmd.push((pcr_index / 8) as u8);
    cmd.push(0);
    cmd.push(0);
    assert(cmd@ =~= u16_be_bytes(TPM_ST_NO_SESSIONS) + u32_be_bytes(20) + u32_be_bytes(
        TPM_CC_PCR_READ,
    ) + u32_be_bytes(1) + u16_be_bytes(0x000B) + seq![3u8, (pcr_index / 8) as u8, 0u8, 0u8]);
    cmd
}

/// The size a TPM2 response declares in its header, or the whole buffer's
/// length when it is too short to hold a header.
pub fn tpm2_response_size(output: &[u8]) -> (r: usize)
    ensures
        output@.len() >= 10 ==> r as int == u32_be(output@, 2),
        output@.len() < 10 ==> r == output@.len(),
{
    if output.len() >= 10 {
        read_u32_be(output, 2) as usize
    } else {
        output.len()
    }
}

/// The response code a TPM2 response declares, or absent when the buffer
/// is too short to hold a response header.
pub fn tpm2_response_code(response: &[u8]) -> (r: Option<u32>)
    ensures
        match r {
            Some(code) => response@.len() >= 10 && code as int == u32_be(response@, 6),
            None => response@.len() < 10,
        },
{
    if response.len() >= 10 {
        Some(read_u32_be(response, 6))
    } else {
        None
    }
}

/// Decisions of the PKCS7 verification services, with the firmware calls
/// left to the caller; holds the protocol's service addresses.
pub struct SafePkcs7Verify<'a> {
    pub protocol: &'a Pkcs7VerifyProtocol,
}

impl<'a> SafePkcs7Verify<'a> {
    /// Create a new safe wrapper
    pub fn new(protocol: &'a Pkcs7VerifyProtocol) -> (s: SafePkcs7Verify<'a>)
        ensures
            s.protocol == protocol,
    {
        SafePkcs7Verify { protocol }
    }
}

/// Decisions of the hash protocol, with the firmware calls left to the
/// caller; holds the protocol's service addresses.
pub struct SafeHashProtocol<'a> {
    pub protocol: &'a HashProtocol,
}

impl<'a> SafeHashProtocol<'a> {
    /// Create a new safe wrapper
    pub fn new(protocol: &'a HashProtocol) -> (s: SafeHashProtocol<'a>)
        ensures
            s.protocol == protocol,
    {
        SafeHashProtocol { protocol }
    }
}

/// Decisions of the TPM 2.0 protocol: command building and response
/// checking, with the firmware exchange left to the caller.
pub struct SafeTpm2<'a> {
    pub protocol: &'a Tpm2Protocol,
}

impl<'a> SafeTpm2<'a> {
    /// Create a new safe wrapper
    pub fn new(protocol: &'a Tpm2Protocol) -> (s: SafeTpm2<'a>)
        ensures
            s.protocol == protocol,
    {
        SafeTpm2 { protocol }
    }
}

} // verus!
