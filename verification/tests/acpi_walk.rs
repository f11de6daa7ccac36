//! Tests for the checksum, the RSDP scan and the RSDT/MADT walks.

use r4boot::arch::x86_64::vspace::BootLowWindow;
use r4boot::mem::PhysMem;
use r4boot::plat::pc99::acpi::{
    checksum, extract_madt, find_rsdp, ACPI, MADT, MADTTable, RSDTTable,
};
use r4boot::vspace::window::materialize_at;
use r4boot::types::PAddr;

fn put_u32(buf: &mut Vec<u8>, off: usize, v: u32) {
    let b = v.to_le_bytes();
    buf[off..off + 4].copy_from_slice(&b);
}

/// Fill in a valid RSDP at offset `off` of a buffer based at `base`,
/// pointing at `rsdt_address`.
fn write_rsdp(buf: &mut Vec<u8>, off: usize, rsdt_address: u32) {
    buf[off..off + 8].copy_from_slice(b"RSD PTR ");
    put_u32(buf, off + 16, rsdt_address);
    // balance the checksum over the first 20 bytes
    buf[off + 8] = 0;
    let sum: u32 = buf[off..off + 20].iter().map(|b| *b as u32).sum();
    buf[off + 8] = ((256 - (sum % 256)) % 256) as u8;
}

/// Fill in an ACPI header at offset `off`: signature and declared length.
fn write_header(buf: &mut Vec<u8>, off: usize, sig: &[u8; 4], length: u32) {
    buf[off..off + 4].copy_from_slice(sig);
    put_u32(buf, off + 4, length);
}

#[test]
fn checksum_accepts_iff_sum_is_zero_mod_256() {
    // sum 0
    let mem = PhysMem::new(0x1000, vec![0u8; 8]).unwrap();
    assert!(checksum(&mem, 0x1000, 8));
    // 1 + 255 = 256
    let mem = PhysMem::new(0x1000, vec![1, 255, 0, 0]).unwrap();
    assert!(checksum(&mem, 0x1000, 4));
    // 128 + 128 = 256
    let mem = PhysMem::new(0x1000, vec![128, 128]).unwrap();
    assert!(checksum(&mem, 0x1000, 2));
    // sum 3
    let mem = PhysMem::new(0x1000, vec![1, 2]).unwrap();
    assert!(!checksum(&mem, 0x1000, 2));
    // an empty range sums to zero
    let mem = PhysMem::new(0x1000, vec![9]).unwrap();
    assert!(checksum(&mem, 0x1000, 0));
}

#[test]
fn rsdp_scan_finds_valid_candidate() {
    // cover the whole legacy scan range
    let mut buf = vec![0u8; 0x20000];
    write_rsdp(&mut buf, 0x300, 0xE1000);
    let mem = PhysMem::new(0xE0000, buf).unwrap();
    let low = BootLowWindow;
    let (at, rsdp) = find_rsdp(&low, &mem).unwrap();
    assert_eq!(at, PAddr(0xE0300));
    assert_eq!(rsdp.rsdt_address, 0xE1000);
    assert_eq!(rsdp.signature, u64::from_le_bytes(*b"RSD PTR "));
}

#[test]
fn rsdp_scan_signature_plus_balancing_byte_validates() {
    // signature "RSD PTR " plus 19 further bytes whose sum balances the
    // signature's: the candidate must validate
    let mut buf = vec![0u8; 0x20000];
    buf[0..8].copy_from_slice(b"RSD PTR ");
    let sig_sum: u32 = b"RSD PTR ".iter().map(|b| *b as u32).sum();
    buf[8] = ((256 - (sig_sum % 256)) % 256) as u8;
    let mem = PhysMem::new(0xE0000, buf).unwrap();
    let low = BootLowWindow;
    let found = find_rsdp(&low, &mem).unwrap();
    assert_eq!(found.0, PAddr(0xE0000));
}

#[test]
fn rsdp_scan_rejects_flipped_bit() {
    // the same candidate with one bit flipped in its checksummed range
    // must not validate
    for flip_byte in [0usize, 5, 8, 19] {
        for bit in [0u8, 3, 7] {
            let mut buf = vec![0u8; 0x20000];
            write_rsdp(&mut buf, 0x40, 0xE1000);
            buf[0x40 + flip_byte] ^= 1 << bit;
            let mem = PhysMem::new(0xE0000, buf).unwrap();
            let low = BootLowWindow;
            assert!(find_rsdp(&low, &mem).is_none());
        }
    }
}

#[test]
fn rsdp_scan_first_match_wins() {
    let mut buf = vec![0u8; 0x20000];
    write_rsdp(&mut buf, 0x100, 0x1111);
    write_rsdp(&mut buf, 0x200, 0x2222);
    let mem = PhysMem::new(0xE0000, buf).unwrap();
    let low = BootLowWindow;
    let (at, rsdp) = find_rsdp(&low, &mem).unwrap();
    assert_eq!(at, PAddr(0xE0100));
    assert_eq!(rsdp.rsdt_address, 0x1111);
}

#[test]
fn rsdp_scan_without_candidate_finds_nothing() {
    let buf = vec![0u8; 0x20000];
    let mem = PhysMem::new(0xE0000, buf).unwrap();
    let low = BootLowWindow;
    assert!(find_rsdp(&low, &mem).is_none());
}

/// Build the synthetic firmware memory of the table-walk scenario: a valid
/// RSDP at 0xE0000 pointing at an RSDT with three entries — one MADT, one
/// unrecognized table, and one pointer leading outside the window.
fn synthetic_tables() -> PhysMem {
    let mut buf = vec![0u8; 0x20000];
    // RSDT at 0xE8000 with three 32-bit entries
    write_rsdp(&mut buf, 0, 0xE8000);
    write_header(&mut buf, 0x8000, b"RSDT", 36 + 3 * 4);
    put_u32(&mut buf, 0x8024, 0xE9000); // entry 1: the MADT
    put_u32(&mut buf, 0x8028, 0xEA000); // entry 2: unrecognized
    put_u32(&mut buf, 0x802C, 0xF000_0000); // entry 3: outside the held memory
    // the MADT at 0xE9000: fixed part plus one CPU entry and one
    // interrupt source override
    write_header(&mut buf, 0x9000, b"APIC", 44 + 8 + 10);
    put_u32(&mut buf, 0x9024, 0xFEE0_0000); // local apic address
    put_u32(&mut buf, 0x9028, 1); // flags
    // sub-entry: CPU local APIC, type 0, length 8
    buf[0x902C] = 0;
    buf[0x902D] = 8;
    buf[0x902E] = 3; // cpu id
    buf[0x902F] = 7; // apic id
    put_u32(&mut buf, 0x9030, 1); // flags
    // sub-entry: interrupt source override, type 2, length 10
    buf[0x9034] = 2;
    buf[0x9035] = 10;
    buf[0x9036] = 0; // bus
    buf[0x9037] = 9; // source
    put_u32(&mut buf, 0x9038, 2); // gsi
    buf[0x903C] = 5; // flags low byte
    buf[0x903D] = 0;
    // the unrecognized table at 0xEA000
    write_header(&mut buf, 0xA000, b"DSDT", 36);
    PhysMem::new(0xE0000, buf).unwrap()
}

#[test]
fn rsdt_walk_classifies_and_stops_cleanly() {
    let mem = synthetic_tables();
    let low = BootLowWindow;
    let acpi = ACPI::new(&low, &mem).unwrap();
    let mut iter = acpi.rsdt_iter();
    // entry 1 resolves to the MADT view
    let first = iter.next().unwrap();
    assert!(matches!(first, RSDTTable::MADT(_)));
    if let RSDTTable::MADT(madt) = first {
        assert_eq!(madt.base, PAddr(0xE9000));
        assert_eq!(madt.apic_addr, 0xFEE0_0000);
        assert_eq!(madt.header.length, 62);
    }
    // entry 2 is an unrecognized header
    let second = iter.next().unwrap();
    assert!(matches!(second, RSDTTable::Unknown(_)));
    if let RSDTTable::Unknown(h) = second {
        assert_eq!(h.signature, u32::from_le_bytes(*b"DSDT"));
    }
    // entry 3 fails to materialize: the walk stops cleanly without a third
    assert!(iter.next().is_none());
}

#[test]
fn madt_only_walk_yields_exactly_one() {
    let mem = synthetic_tables();
    let low = BootLowWindow;
    let acpi = ACPI::new(&low, &mem).unwrap();
    let mut iter = acpi.madt_iter();
    let madt = iter.next().unwrap();
    assert_eq!(madt.base, PAddr(0xE9000));
    assert!(iter.next().is_none());
}

#[test]
fn madt_subentry_walk() {
    let mem = synthetic_tables();
    let low = BootLowWindow;
    let acpi = ACPI::new(&low, &mem).unwrap();
    let mut rsdt = acpi.rsdt_iter();
    let madt = extract_madt(rsdt.next().unwrap()).unwrap();
    let mut sub = madt.iter(&low, &mem);
    let first = sub.next().unwrap();
    assert!(matches!(first, MADTTable::APIC(_)));
    if let MADTTable::APIC(apic) = first {
        assert_eq!(apic.cpu_id, 3);
        assert_eq!(apic.apic_id, 7);
        assert_eq!(apic.flags, 1);
    }
    let second = sub.next().unwrap();
    assert!(matches!(second, MADTTable::ISO(_)));
    if let MADTTable::ISO(iso) = second {
        assert_eq!(iso.bus, 0);
        assert_eq!(iso.source, 9);
        assert_eq!(iso.gsi, 2);
        assert_eq!(iso.flags, 5);
    }
    assert!(sub.next().is_none());
}

/// A standalone MADT whose tail holds an I/O APIC entry, an entry of an
/// unrecognized type, and a final entry whose declared record runs past
/// the held memory.
fn synthetic_madt_tail() -> PhysMem {
    // fixed part 44 bytes, then 12 + 4 + 2 bytes of sub-entries; the held
    // memory ends right after the last 2-byte header, whose type declares
    // a 8-byte record
    let mut buf = vec![0u8; 62];
    write_header(&mut buf, 0, b"APIC", 44 + 12 + 4 + 8);
    // I/O APIC, type 1, length 12
    buf[44] = 1;
    buf[45] = 12;
    buf[46] = 4; // ioapic id
    put_u32(&mut buf, 48, 0xFEC0_0000); // address
    put_u32(&mut buf, 52, 24); // global system interrupt base
    // unrecognized type 9, length 4
    buf[56] = 9;
    buf[57] = 4;
    // CPU entry header at the very end: its 8-byte record does not fit
    buf[60] = 0;
    buf[61] = 8;
    PhysMem::new(0x5000, buf).unwrap()
}

#[test]
fn madt_subentry_dispatch_and_degrade() {
    let mem = synthetic_madt_tail();
    let low = BootLowWindow;
    let madt: MADT = materialize_at(&low, &mem, PAddr(0x5000)).unwrap();
    let mut sub = madt.iter(&low, &mem);
    let first = sub.next().unwrap();
    assert!(matches!(first, MADTTable::IOAPIC(_)));
    if let MADTTable::IOAPIC(io) = first {
        assert_eq!(io.ioapic_id, 4);
        assert_eq!(io.addr, 0xFEC0_0000);
        assert_eq!(io.gsib, 24);
    }
    // an unrecognized type surfaces as its raw header
    let second = sub.next().unwrap();
    assert!(matches!(second, MADTTable::Unknown(_)));
    if let MADTTable::Unknown(h) = second {
        assert_eq!(h.madt_type, 9);
        assert_eq!(h.length, 4);
    }
    // the last entry's declared record would exceed the held memory:
    // discovery degrades to no further entries
    assert!(sub.next().is_none());
}

#[test]
fn madt_zero_length_subentry_degrades_instead_of_stalling() {
    // a sub-entry that declares a length shorter than its own header is
    // malformed: the walk must end there, not yield the same entry forever
    let mut buf = vec![0u8; 52];
    write_header(&mut buf, 0, b"APIC", 44 + 8);
    // CPU entry header with a declared length of 0
    buf[44] = 0;
    buf[45] = 0;
    let mem = PhysMem::new(0x6000, buf).unwrap();
    let low = BootLowWindow;
    let madt: MADT = materialize_at(&low, &mem, PAddr(0x6000)).unwrap();
    let mut sub = madt.iter(&low, &mem);
    assert!(sub.next().is_none());
    assert!(sub.next().is_none());
    // the same with a declared length of 1
    let mut buf = vec![0u8; 52];
    write_header(&mut buf, 0, b"APIC", 44 + 8);
    buf[44] = 0;
    buf[45] = 1;
    let mem = PhysMem::new(0x6000, buf).unwrap();
    let madt: MADT = materialize_at(&low, &mem, PAddr(0x6000)).unwrap();
    let mut sub = madt.iter(&low, &mem);
    assert!(sub.next().is_none());
}

#[test]
fn extract_madt_filters() {
    let mem = synthetic_tables();
    let low = BootLowWindow;
    let acpi = ACPI::new(&low, &mem).unwrap();
    let mut rsdt = acpi.rsdt_iter();
    let first = rsdt.next().unwrap();
    assert!(extract_madt(first).is_some());
    let second = rsdt.next().unwrap();
    assert!(extract_madt(second).is_none());
}

#[test]
fn missing_rsdp_means_no_topology() {
    let buf = vec![0u8; 0x20000];
    let mem = PhysMem::new(0xE0000, buf).unwrap();
    let low = BootLowWindow;
    assert!(ACPI::new(&low, &mem).is_none());
}
