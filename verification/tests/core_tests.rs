//! Tests of the verified table-parsing core: checksum validation, root
//! pointer discovery, table location, SMBIOS walking and signature
//! database membership.

use uefi_rust::checksum::validate_region;
use uefi_rust::protocols::security::{is_hash_in_database, SignatureListIter};
use uefi_rust::tables::acpi::{
    parse_rsdp, select_root_table, AcpiTableFinder, AcpiTableHeader, RootPointer, RootTableRef,
    Rsdt, Xsdt,
};
use uefi_rust::tables::configuration::{ConfigurationTable, ConfigurationTableIter};
use uefi_rust::tables::smbios::{
    get_structure_string, parse_entry_point, structure_total_size, SmbiosEntry, SmbiosIterator,
};
use uefi_rust::tables::ValidationError;
use uefi_rust::ffi::Guid;
use uefi_rust::protocols::security::{signature_entry_count, SignatureList};
use uefi_rust::graphics::bmp::{blt_to_bmp, BmpError, BmpImage};
use uefi_rust::protocols::graphics_output::GraphicsOutputBltPixel;
use uefi_rust::tables::acpi::acpi_20_table_guid;
use uefi_rust::tables::acpi_advanced::{get_config_spaces, parse_sdt_header, AcpiMcfg};
use uefi_rust::tables::configuration::{
    find_acpi_10_table, find_acpi_20_table, find_smbios3_table, find_smbios_table,
};
use uefi_rust::tables::smbios::smbios_table_guid;
use uefi_rust::protocols::storage::{NvmExpressPassThruProtocol, SafeNvmePassThru};

/// Fix the checksum byte at `idx` so the first `len` bytes sum to zero.
fn fix_checksum(buf: &mut [u8], idx: usize, len: usize) {
    buf[idx] = 0;
    let mut sum: u8 = 0;
    for &b in &buf[..len] {
        sum = sum.wrapping_add(b);
    }
    buf[idx] = 0u8.wrapping_sub(sum);
}

fn make_rsdp_v1(rsdt_address: u32) -> Vec<u8> {
    let mut buf = vec![0u8; 20];
    buf[0..8].copy_from_slice(b"RSD PTR ");
    buf[9..15].copy_from_slice(b"UEFI  ");
    buf[15] = 0; // revision
    buf[16..20].copy_from_slice(&rsdt_address.to_le_bytes());
    fix_checksum(&mut buf, 8, 20);
    buf
}

fn make_rsdp_v2(rsdt_address: u32, xsdt_address: u64) -> Vec<u8> {
    let mut buf = vec![0u8; 36];
    buf[0..8].copy_from_slice(b"RSD PTR ");
    buf[9..15].copy_from_slice(b"UEFI  ");
    buf[15] = 2; // revision
    buf[16..20].copy_from_slice(&rsdt_address.to_le_bytes());
    buf[20..24].copy_from_slice(&36u32.to_le_bytes());
    buf[24..32].copy_from_slice(&xsdt_address.to_le_bytes());
    fix_checksum(&mut buf, 8, 20);
    fix_checksum(&mut buf, 32, 36);
    buf
}

/// Write a 36-byte table header with the given signature and length.
fn write_sdt_header(buf: &mut [u8], off: usize, sig: &[u8; 4], length: u32) {
    buf[off..off + 4].copy_from_slice(sig);
    buf[off + 4..off + 8].copy_from_slice(&length.to_le_bytes());
}

#[test]
fn checksum_accepts_zero_sum_and_rejects_any_flip() {
    let mut region = vec![0x10u8, 0x20, 0x30, 0x40, 0x50, 0x00];
    fix_checksum(&mut region, 5, 6);
    assert!(validate_region(&region, 6));

    // Flipping any single byte makes the sum non-zero.
    for i in 0..region.len() {
        for delta in [1u8, 0x55, 0xFF] {
            let mut corrupt = region.clone();
            corrupt[i] = corrupt[i].wrapping_add(delta);
            if corrupt[i] != region[i] {
                assert!(
                    !validate_region(&corrupt, 6),
                    "flip at {} by {} must invalidate",
                    i,
                    delta
                );
            }
        }
    }
}

#[test]
fn checksum_fails_closed_on_short_region() {
    let region = [0u8; 4];
    assert!(!validate_region(&region, 5));
    assert!(validate_region(&region, 4));
    assert!(validate_region(&region, 0));
}

#[test]
fn rsdp_revision_zero_selects_narrow_table() {
    let buf = make_rsdp_v1(0x1234);
    let rp = parse_rsdp(&buf).unwrap();
    match rp {
        RootPointer::V1(d) => assert_eq!(d.rsdt_address, 0x1234),
        RootPointer::V2(_) => panic!("revision 0 must parse as the legacy shape"),
    }
    assert_eq!(select_root_table(&rp), RootTableRef::Narrow(0x1234));
}

#[test]
fn rsdp_revision_two_selects_wide_table() {
    let buf = make_rsdp_v2(0x1234, 0x5678);
    let rp = parse_rsdp(&buf).unwrap();
    assert_eq!(select_root_table(&rp), RootTableRef::Wide(0x5678));

    // With a zero wide address the locator degrades to the narrow table.
    let buf = make_rsdp_v2(0x1234, 0);
    let rp = parse_rsdp(&buf).unwrap();
    assert_eq!(select_root_table(&rp), RootTableRef::Narrow(0x1234));
}

#[test]
fn rsdp_parse_reports_specific_errors() {
    // Too short
    assert_eq!(
        parse_rsdp(&[0u8; 10]).unwrap_err(),
        ValidationError::LengthOutOfBounds
    );

    // Wrong anchor
    let mut buf = make_rsdp_v1(0);
    buf[0] = b'X';
    assert_eq!(parse_rsdp(&buf).unwrap_err(), ValidationError::InvalidAnchor);

    // Bad checksum
    let mut buf = make_rsdp_v1(0);
    buf[8] = buf[8].wrapping_add(1);
    assert_eq!(
        parse_rsdp(&buf).unwrap_err(),
        ValidationError::ChecksumMismatch
    );
}

#[test]
fn entry_count_follows_header_length() {
    let mut header = AcpiTableHeader {
        signature: *b"RSDT",
        length: 36 + 4 * 3,
        revision: 1,
        checksum: 0,
        oem_id: [0; 6],
        oem_table_id: [0; 8],
        oem_revision: 0,
        creator_id: 0,
        creator_revision: 0,
    };
    assert_eq!(Rsdt { header }.entry_count(), 3);

    header.length = 36;
    assert_eq!(Rsdt { header }.entry_count(), 0);

    // Smaller than the header: clamped to zero, no underflow.
    header.length = 20;
    assert_eq!(Rsdt { header }.entry_count(), 0);

    header.length = 36 + 8 * 5;
    assert_eq!(Xsdt { header }.entry_count(), 5);
}

#[test]
fn find_table_locates_first_match_through_narrow_table() {
    // Memory layout: RSDP at 0, RSDT at 64, two sub-tables at 128 and 192.
    let mut memory = vec![0u8; 256];
    let rsdp = make_rsdp_v1(64);
    memory[..20].copy_from_slice(&rsdp);
    write_sdt_header(&mut memory, 64, b"RSDT", 36 + 8);
    memory[100..104].copy_from_slice(&128u32.to_le_bytes());
    memory[104..108].copy_from_slice(&192u32.to_le_bytes());
    write_sdt_header(&mut memory, 128, b"APIC", 40);
    write_sdt_header(&mut memory, 192, b"HPET", 59);

    let rp = parse_rsdp(&memory[..20]).unwrap();
    assert_eq!(AcpiTableFinder::find_table(&memory, &rp, b"HPET"), Some(192));
    assert_eq!(AcpiTableFinder::find_table(&memory, &rp, b"APIC"), Some(128));
    assert_eq!(AcpiTableFinder::find_table(&memory, &rp, b"FACP"), None);
}

#[test]
fn find_table_locates_match_through_wide_table() {
    let mut memory = vec![0u8; 256];
    let rsdp = make_rsdp_v2(0, 64);
    memory[..36].copy_from_slice(&rsdp);
    write_sdt_header(&mut memory, 64, b"XSDT", 36 + 8);
    memory[100..108].copy_from_slice(&160u64.to_le_bytes());
    write_sdt_header(&mut memory, 160, b"MCFG", 60);

    let rp = parse_rsdp(&memory[..36]).unwrap();
    assert_eq!(AcpiTableFinder::find_table(&memory, &rp, b"MCFG"), Some(160));
}

#[test]
fn find_table_survives_corrupt_lengths() {
    // A root table whose declared length reaches far past the buffer.
    let mut memory = vec![0u8; 128];
    let rsdp = make_rsdp_v1(64);
    memory[..20].copy_from_slice(&rsdp);
    write_sdt_header(&mut memory, 64, b"RSDT", 0xFFFF_FFF0);

    let rp = parse_rsdp(&memory[..20]).unwrap();
    // Degrades to no result instead of reading out of range.
    assert_eq!(AcpiTableFinder::find_table(&memory, &rp, b"APIC"), None);
}

#[test]
fn configuration_directory_returns_first_match() {
    let a = uefi_rust::tables::acpi::acpi_table_guid();
    let b = uefi_rust::tables::acpi::acpi_20_table_guid();
    let tables = [
        ConfigurationTable {
            vendor_guid: b,
            vendor_table: 100,
        },
        ConfigurationTable {
            vendor_guid: a,
            vendor_table: 200,
        },
        ConfigurationTable {
            vendor_guid: a,
            vendor_table: 300,
        },
    ];

    let it = ConfigurationTableIter::new(&tables);
    let hit = it.find_by_guid(&a).unwrap();
    assert_eq!(hit.vendor_table, 200);

    let miss = it.find_by_guid(&uefi_rust::tables::smbios::smbios_table_guid());
    assert!(miss.is_none());

    let mut it = ConfigurationTableIter::new(&tables);
    assert_eq!(it.next().unwrap().vendor_table, 100);
    assert_eq!(it.next().unwrap().vendor_table, 200);
    assert_eq!(it.next().unwrap().vendor_table, 300);
    assert!(it.next().is_none());
}

/// Build one SMBIOS structure: a 4-byte header, padding to the formatted
/// length, then the given strings and the double-zero terminator.
fn make_structure(struct_type: u8, fmt_len: u8, strings: &[&[u8]]) -> Vec<u8> {
    let mut buf = vec![0u8; fmt_len as usize];
    buf[0] = struct_type;
    buf[1] = fmt_len;
    for s in strings {
        buf.extend_from_slice(s);
        buf.push(0);
    }
    buf.push(0);
    if strings.is_empty() {
        // An empty string table still carries two zero bytes.
        buf.push(0);
    }
    buf
}

#[test]
fn smbios_string_resolution_by_index() {
    let table = make_structure(1, 8, &[b"Alpha", b"Beta"]);

    assert_eq!(get_structure_string(&table, 0, 1).unwrap().as_slice(), b"Alpha");
    assert_eq!(get_structure_string(&table, 0, 2).unwrap().as_slice(), b"Beta");
    assert!(get_structure_string(&table, 0, 0).is_none());
    assert!(get_structure_string(&table, 0, 3).is_none());
}

#[test]
fn smbios_structure_sizes_include_string_table() {
    let table = make_structure(1, 8, &[b"Alpha", b"Beta"]);
    // 8 formatted + "Alpha\0" + "Beta\0" + final 0
    assert_eq!(structure_total_size(&table, 0), Some(8 + 6 + 5 + 1));

    // A table without a terminator degrades to an absent result.
    let unterminated = vec![4u8, 4, 0, 0, b'A', b'B'];
    assert_eq!(structure_total_size(&unterminated, 0), None);
}

#[test]
fn smbios_iteration_stops_at_sentinel() {
    let mut table = make_structure(1, 8, &[b"Alpha"]);
    let first_len = table.len();
    table.extend_from_slice(&make_structure(127, 4, &[]));

    let mut it = SmbiosIterator::new();
    assert_eq!(it.next(&table), Some(0));
    // The sentinel "end of table" structure ends the walk.
    assert_eq!(it.next(&table), None);
    assert!(first_len > 0);
}

#[test]
fn smbios_entry_point_parse_and_errors() {
    // 32-bit shape
    let mut ep = vec![0u8; 31];
    ep[0..4].copy_from_slice(b"_SM_");
    ep[5] = 31; // length
    ep[6] = 2; // major
    ep[7] = 8; // minor
    ep[16..21].copy_from_slice(b"_DMI_");
    fix_checksum(&mut ep, 4, 31);
    match parse_entry_point(&ep).unwrap() {
        SmbiosEntry::V2(e) => {
            assert!(e.is_valid());
            assert_eq!(e.version(), (2, 8));
        },
        SmbiosEntry::V3(_) => panic!("expected the 32-bit shape"),
    }

    // 64-bit shape
    let mut ep3 = vec![0u8; 24];
    ep3[0..5].copy_from_slice(b"_SM3_");
    ep3[6] = 24; // length
    ep3[7] = 3; // major
    ep3[8] = 0; // minor
    fix_checksum(&mut ep3, 5, 24);
    match parse_entry_point(&ep3).unwrap() {
        SmbiosEntry::V3(e) => {
            assert!(e.is_valid());
            assert_eq!(e.version(), (3, 0));
        },
        SmbiosEntry::V2(_) => panic!("expected the 64-bit shape"),
    }

    // Anchor mismatch
    assert_eq!(
        parse_entry_point(b"_XX_ nothing here").unwrap_err(),
        ValidationError::InvalidAnchor
    );

    // Checksum mismatch
    let mut bad = ep.clone();
    bad[4] = bad[4].wrapping_add(1);
    assert_eq!(
        parse_entry_point(&bad).unwrap_err(),
        ValidationError::ChecksumMismatch
    );
}

/// Build one signature list of SHA-256 hash entries.
fn make_sha256_list(hashes: &[[u8; 32]]) -> Vec<u8> {
    let g = uefi_rust::protocols::security::cert_sha256_guid();
    let mut buf = Vec::new();
    buf.extend_from_slice(&g.data1.to_le_bytes());
    buf.extend_from_slice(&g.data2.to_le_bytes());
    buf.extend_from_slice(&g.data3.to_le_bytes());
    buf.extend_from_slice(&g.data4);
    let total = 28 + 48 * hashes.len() as u32;
    buf.extend_from_slice(&total.to_le_bytes());
    buf.extend_from_slice(&0u32.to_le_bytes()); // header size
    buf.extend_from_slice(&48u32.to_le_bytes()); // entry size
    for h in hashes {
        buf.extend_from_slice(&[0u8; 16]); // owner
        buf.extend_from_slice(h);
    }
    buf
}

/// Build one signature list with an arbitrary certificate-type identifier.
fn make_typed_list(type_guid: &uefi_rust::ffi::Guid, hashes: &[[u8; 32]]) -> Vec<u8> {
    let mut buf = Vec::new();
    buf.extend_from_slice(&type_guid.data1.to_le_bytes());
    buf.extend_from_slice(&type_guid.data2.to_le_bytes());
    buf.extend_from_slice(&type_guid.data3.to_le_bytes());
    buf.extend_from_slice(&type_guid.data4);
    let total = 28 + 48 * hashes.len() as u32;
    buf.extend_from_slice(&total.to_le_bytes());
    buf.extend_from_slice(&0u32.to_le_bytes());
    buf.extend_from_slice(&48u32.to_le_bytes());
    for h in hashes {
        buf.extend_from_slice(&[0u8; 16]);
        buf.extend_from_slice(h);
    }
    buf
}

#[test]
fn signature_list_iteration_yields_each_record() {
    let mut db = make_sha256_list(&[[0xAA; 32]]);
    db.extend_from_slice(&make_sha256_list(&[[0xBB; 32], [0xCC; 32]]));

    let mut it = SignatureListIter::new(&db);
    let (off1, l1) = it.next().unwrap();
    assert_eq!(off1, 0);
    assert_eq!(l1.signature_list_size, 76);
    let (off2, l2) = it.next().unwrap();
    assert_eq!(off2, 76);
    assert_eq!(l2.signature_list_size, 28 + 96);
    assert!(it.next().is_none());
}

#[test]
fn signature_entry_counts_follow_sizes() {

    // Total 76 with entry size 48: exactly one entry.
    let one = SignatureList {
        signature_type: uefi_rust::protocols::security::cert_sha256_guid(),
        signature_list_size: 76,
        signature_header_size: 0,
        signature_size: 48,
    };
    assert_eq!(signature_entry_count(&one), 1);

    // Header only: zero entries.
    let empty = SignatureList {
        signature_type: uefi_rust::protocols::security::cert_sha256_guid(),
        signature_list_size: 28,
        signature_header_size: 0,
        signature_size: 48,
    };
    assert_eq!(signature_entry_count(&empty), 0);

    // A zero entry size yields zero entries rather than a division fault.
    let degenerate = SignatureList {
        signature_type: uefi_rust::protocols::security::cert_sha256_guid(),
        signature_list_size: 76,
        signature_header_size: 0,
        signature_size: 0,
    };
    assert_eq!(signature_entry_count(&degenerate), 0);
}

#[test]
fn hash_membership_finds_match() {
    let needle = [0x5A; 32];
    let mut db = make_sha256_list(&[[0x11; 32], needle]);
    db.extend_from_slice(&make_sha256_list(&[[0x22; 32]]));

    assert!(is_hash_in_database(&db, &needle));
    assert!(!is_hash_in_database(&db, &[0x33; 32]));
    assert!(!is_hash_in_database(&db, &[0x5A; 16])); // wrong width
}

#[test]
fn hash_membership_ignores_mismatched_list_type() {
    let needle = [0x77; 32];
    // The bytes match, but the list's certificate type is X.509, not the
    // requested SHA-256 hash type.
    let other = uefi_rust::protocols::security::cert_x509_guid();
    let mut db = make_typed_list(&other, &[needle]);
    assert!(!is_hash_in_database(&db, &needle));

    // Appending a matching SHA-256 list makes the probe a member.
    db.extend_from_slice(&make_sha256_list(&[needle]));
    assert!(is_hash_in_database(&db, &needle));
}

#[test]
fn operations_survive_corrupt_buffers() {
    // A deterministic pseudo-random generator; no operation may read out
    // of range or fail to return on any of these buffers.
    let mut state: u64 = 0x243F_6A88_85A3_08D3;
    for len in [0usize, 1, 7, 19, 27, 28, 54, 64, 200] {
        let mut buf = vec![0u8; len];
        for b in buf.iter_mut() {
            state = state.wrapping_mul(6364136223846793005).wrapping_add(1442695040888963407);
            *b = (state >> 33) as u8;
        }

        let _ = validate_region(&buf, len);
        let _ = validate_region(&buf, len + 1);
        let _ = parse_rsdp(&buf);
        let _ = parse_entry_point(&buf);
        let _ = structure_total_size(&buf, 0);
        let _ = get_structure_string(&buf, 0, 1);
        let _ = is_hash_in_database(&buf, &[0xAB; 32]);
        let mut it = SmbiosIterator::new();
        while let Some(_) = it.next(&buf) {}
        let mut sit = SignatureListIter::new(&buf);
        while let Some(_) = sit.next() {}
        if let Ok(rp) = parse_rsdp(&buf) {
            let _ = AcpiTableFinder::find_table(&buf, &rp, b"APIC");
        }
    }
}

#[test]
fn rsdp_struct_checksum_round_trip() {
    let buf = make_rsdp_v1(0xCAFE);
    let rp = parse_rsdp(&buf).unwrap();
    if let RootPointer::V1(d) = rp {
        assert!(d.is_valid());
        assert!(d.verify_checksum());
        assert_eq!(d.to_bytes(), buf);
    } else {
        panic!("expected the legacy shape");
    }

    let buf = make_rsdp_v2(0xCAFE, 0xF00D);
    let rp = parse_rsdp(&buf).unwrap();
    if let RootPointer::V2(d) = rp {
        assert!(d.is_valid());
        assert_eq!(d.to_bytes(), buf);
    } else {
        panic!("expected the extended shape");
    }
}

#[test]
fn rsdp10_fields_survive_parsing() {
    let buf = make_rsdp_v1(0xDEAD_BEEF);
    match parse_rsdp(&buf).unwrap() {
        RootPointer::V1(d) => {
            assert_eq!(&d.signature, b"RSD PTR ");
            assert_eq!(&d.oem_id, b"UEFI  ");
            assert_eq!(d.revision, 0);
            assert_eq!(d.rsdt_address, 0xDEAD_BEEF);
        },
        _ => panic!("expected the legacy shape"),
    }
}

#[test]
fn guid_text_round_trip() {

    let g = Guid::new(
        0x8868e871,
        0xe4f1,
        0x11d3,
        [0xbc, 0x22, 0x00, 0x80, 0xc7, 0x3c, 0x88, 0x81],
    );
    let s = g.to_string();
    let parsed = Guid::from_str(&s).unwrap();
    assert_eq!(parsed, g);

    // Lower case parses too.
    let lower = s.to_lowercase();
    assert_eq!(Guid::from_str(&lower).unwrap(), g);

    // Malformed text is rejected.
    assert!(Guid::from_str("not-a-guid").is_none());
    assert!(Guid::from_str("8868e871e4f111d3bc220080c73c8881").is_none());
    assert!(Guid::from_str("8868e871-e4f1-11d3-bc22-0080c73c888X").is_none());
}

#[test]
fn configuration_helpers_decode_published_tables() {
    let mut memory = vec![0u8; 128];
    let rsdp = make_rsdp_v2(0x1000, 0x2000);
    memory[40..76].copy_from_slice(&rsdp);

    let tables = [
        ConfigurationTable {
            vendor_guid: acpi_20_table_guid(),
            vendor_table: 40,
        },
        ConfigurationTable {
            vendor_guid: smbios_table_guid(),
            vendor_table: 90,
        },
    ];

    let d = find_acpi_20_table(&tables, &memory).unwrap();
    assert_eq!(d.rsdt_address, 0x1000);
    assert_eq!(d.xsdt_address, 0x2000);
    assert_eq!(d.revision, 2);

    assert!(find_acpi_10_table(&tables, &memory).is_none());
    assert_eq!(find_smbios_table(&tables), Some(90));
    assert!(find_smbios3_table(&tables).is_none());

    // A directory entry whose offset reaches past the region decodes to
    // nothing.
    let broken = [ConfigurationTable {
        vendor_guid: acpi_20_table_guid(),
        vendor_table: 120,
    }];
    assert!(find_acpi_20_table(&broken, &memory).is_none());
}

#[test]
fn mcfg_entries_decode_from_table_bytes() {

    // An MCFG table at offset 0: 44-byte fixed part plus two entries.
    let mut memory = vec![0u8; 44 + 32];
    write_sdt_header(&mut memory, 0, b"MCFG", (44 + 32) as u32);
    memory[44..52].copy_from_slice(&0xE000_0000u64.to_le_bytes());
    memory[52..54].copy_from_slice(&0u16.to_le_bytes());
    memory[54] = 0; // first bus
    memory[55] = 127; // last bus
    memory[60..68].copy_from_slice(&0xF000_0000u64.to_le_bytes());
    memory[70] = 128;
    memory[71] = 255;

    let header = parse_sdt_header(&memory, 0).unwrap();
    let mcfg = AcpiMcfg { header, reserved: 0 };
    let entries = get_config_spaces(&memory, 0, &mcfg);
    assert_eq!(entries.len(), 2);
    assert_eq!(entries[0].base_address, 0xE000_0000);
    assert_eq!(entries[0].start_bus_number, 0);
    assert_eq!(entries[0].end_bus_number, 127);
    assert_eq!(entries[1].base_address, 0xF000_0000);
    assert_eq!(entries[1].start_bus_number, 128);
    assert_eq!(entries[1].end_bus_number, 255);
}

#[test]
fn bmp_scaling_doubles_each_pixel() {

    let px = |b: u8, g: u8, r: u8| GraphicsOutputBltPixel {
        blue: b,
        green: g,
        red: r,
        reserved: 0,
    };
    let blt = vec![px(1, 0, 0), px(0, 2, 0), px(0, 0, 3), px(4, 4, 4)];
    let data = blt_to_bmp(&blt, 2, 2).unwrap();
    let img = BmpImage::from_buffer(&data).unwrap();

    let scaled = img.to_blt_buffer_scaled(4, 4).unwrap();
    assert_eq!(scaled.len(), 16);
    // Each source pixel covers a 2-by-2 block of the target.
    assert_eq!(scaled[0], px(1, 0, 0));
    assert_eq!(scaled[1], px(1, 0, 0));
    assert_eq!(scaled[2], px(0, 2, 0));
    assert_eq!(scaled[4], px(1, 0, 0));
    assert_eq!(scaled[8], px(0, 0, 3));
    assert_eq!(scaled[10], px(4, 4, 4));
    assert_eq!(scaled[15], px(4, 4, 4));
}

#[test]
fn nvme_identify_packet_binds_buffer() {
    let protocol = NvmExpressPassThruProtocol {
        mode: 0,
        pass_thru: 0,
        get_next_namespace: 0,
        build_device_path: 0,
        get_namespace: 0,
    };
    let safe = SafeNvmePassThru::new(&protocol);

    let buffer = [0u8; 4096];
    let cmd = safe.identify_controller_command();
    let buffer_addr = buffer.as_ptr() as usize;
    let cmd_addr = 0x2000;
    let completion_addr = 0x3000;
    let packet = safe.identify_command_packet(buffer_addr, cmd_addr, completion_addr);

    assert_eq!(packet.command_timeout, 1_000_000);
    assert_eq!(packet.transfer_buffer, buffer_addr);
    assert_eq!(packet.transfer_length, 4096);
    assert_eq!(packet.metadata_buffer, 0);
    assert_eq!(packet.metadata_length, 0);
    assert_eq!(packet.queue_type, 0); // admin queue
    assert_eq!(packet.nvme_cmd, cmd_addr);
    assert_eq!(packet.nvme_completion, completion_addr);
    assert_eq!(cmd.cdw0, 0x06);
    assert_eq!(cmd.cdw10, 0x01);
}

#[test]
fn typed_accessors_decode_or_degrade() {
    // RSDP at 0, narrow root table at 64 with one entry: an HPET at 128.
    let mut memory = vec![0u8; 256];
    let rsdp = make_rsdp_v1(64);
    memory[..20].copy_from_slice(&rsdp);
    write_sdt_header(&mut memory, 64, b"RSDT", 36 + 4);
    memory[100..104].copy_from_slice(&128u32.to_le_bytes());
    write_sdt_header(&mut memory, 128, b"HPET", 59);
    memory[128 + 37] = 2; // comparators
    memory[128 + 38] = 1; // 64-bit counter
    memory[175..183].copy_from_slice(&0xFED0_0000u64.to_le_bytes()); // block address

    let rp = parse_rsdp(&memory[..20]).unwrap();
    let hpet = AcpiTableFinder::find_hpet(&memory, &rp).unwrap();
    assert_eq!(&hpet.header.signature, b"HPET");
    assert_eq!(hpet.comparator_count, 2);
    assert_eq!(hpet.counter_size, 1);
    assert_eq!(hpet.address, 0xFED0_0000);

    // No MCFG is published at all.
    assert!(AcpiTableFinder::find_mcfg(&memory, &rp).is_none());

    // The same HPET found near the end of a short region degrades to an
    // absent result once its fixed part no longer fits.
    let short = &memory[..150];
    let rp_short = parse_rsdp(&short[..20]).unwrap();
    assert!(AcpiTableFinder::find_hpet(short, &rp_short).is_none());
}

#[test]
fn mcfg_entries_clamp_to_region() {
    // The table declares three entries but the region holds only one.
    let mut memory = vec![0u8; 44 + 16];
    write_sdt_header(&mut memory, 0, b"MCFG", (44 + 48) as u32);
    memory[44..52].copy_from_slice(&0xE000_0000u64.to_le_bytes());

    let header = parse_sdt_header(&memory, 0).unwrap();
    let mcfg = AcpiMcfg { header, reserved: 0 };
    let entries = get_config_spaces(&memory, 0, &mcfg);
    assert_eq!(entries.len(), 1);
    assert_eq!(entries[0].base_address, 0xE000_0000);
}

#[test]
fn scaled_conversion_owes_success() {
    let px = |v: u8| GraphicsOutputBltPixel { blue: v, green: v, red: v, reserved: 0 };
    let blt = vec![px(1), px(2), px(3), px(4)];
    let data = blt_to_bmp(&blt, 2, 2).unwrap();
    let img = BmpImage::from_buffer(&data).unwrap();

    // Equal dimensions hand the decoded buffer back unchanged.
    let same = img.to_blt_buffer_scaled(2, 2).unwrap();
    assert_eq!(same.len(), 4);
    assert_eq!(same[0], px(1));

    // Positive target dimensions must succeed.
    assert!(img.to_blt_buffer_scaled(3, 5).is_ok());

    // A zero target dimension is the one rejected shape.
    assert_eq!(
        img.to_blt_buffer_scaled(0, 4).unwrap_err(),
        BmpError::InvalidDimensions
    );
}
