//! Tests for the physical memory model, the vspace windows and the
//! materialization bounds checks.

use r4boot::arch::x86_64::vspace::{
    BootHighWindow, BootLowWindow, KernelWindow, HIGH_BOOT_BASE, HIGH_BOOT_SIZE, KERNEL_BASE,
    KERNEL_SIZE, LOW_BOOT_BASE, LOW_BOOT_SIZE,
};
use r4boot::mem::PhysMem;
use r4boot::plat::pc99::acpi::{ACPIHeader, MADTHeader, RSDP};
use r4boot::types::PAddr;
use r4boot::vspace::window::{materialize_at, subwindow, VSpaceWindow, WireRecord};

fn put_u16(buf: &mut Vec<u8>, off: usize, v: u16) {
    let b = v.to_le_bytes();
    buf[off..off + 2].copy_from_slice(&b);
}

fn put_u32(buf: &mut Vec<u8>, off: usize, v: u32) {
    let b = v.to_le_bytes();
    buf[off..off + 4].copy_from_slice(&b);
}

fn put_u64(buf: &mut Vec<u8>, off: usize, v: u64) {
    let b = v.to_le_bytes();
    buf[off..off + 8].copy_from_slice(&b);
}

#[test]
fn window_parameters() {
    let low = BootLowWindow;
    let high = BootHighWindow;
    let kernel = KernelWindow;
    assert_eq!(low.base(), 1);
    assert_eq!(low.size(), 4 * 1024 * 1024 * 1024 - 1);
    assert_eq!(high.base(), 0xffff_ffff_8000_0000);
    assert_eq!(high.size(), 1024 * 1024 * 1024);
    assert_eq!(kernel.base(), 0xffff_ff80_0000_0000);
    assert_eq!(kernel.size(), 1u64 << 39);
    assert_eq!(LOW_BOOT_BASE, 1);
    assert_eq!(LOW_BOOT_SIZE, 0xffff_ffff);
    assert_eq!(HIGH_BOOT_BASE, 0xffff_ffff_8000_0000);
    assert_eq!(HIGH_BOOT_SIZE, 0x4000_0000);
    assert_eq!(KERNEL_BASE, 0xffff_ff80_0000_0000);
    assert_eq!(KERNEL_SIZE, 0x80_0000_0000);
}

#[test]
fn to_addr_validates_bounds() {
    let low = BootLowWindow;
    // address 0 is excluded by construction
    assert!(low.to_addr(0).is_none());
    assert!(low.to_addr(1).is_some());
    assert!(low.to_addr(0xffff_ffff).is_some());
    // one past base + size
    assert!(low.to_addr(0x1_0000_0001).is_none());
    let high = BootHighWindow;
    assert!(high.to_addr(0xffff_ffff_7fff_ffff).is_none());
    assert!(high.to_addr(0xffff_ffff_8000_0000).is_some());
}

#[test]
fn range_valid_exact_bounds_no_overflow() {
    let kernel = KernelWindow;
    // the kernel window's base + size is exactly one past the last
    // representable address: the full window is in range, one byte past is
    // not, and the overflowing sum never produces a false positive
    assert!(kernel.range_valid(KERNEL_BASE, KERNEL_SIZE));
    assert!(!kernel.range_valid(KERNEL_BASE + 1, KERNEL_SIZE));
    assert!(!kernel.range_valid(KERNEL_BASE - 1, 1));
    assert!(kernel.range_valid(0xffff_ffff_ffff_ffff, 1));
    let low = BootLowWindow;
    assert!(low.range_valid(1, 0xffff_ffff));
    assert!(!low.range_valid(2, 0xffff_ffff));
    assert!(!low.range_valid(0, 1));
}

#[test]
fn translation_round_trip() {
    let low = BootLowWindow;
    let a = low.to_addr(0x1234).unwrap();
    assert_eq!(low.to_paddr(a), PAddr(0x1234));
    assert_eq!(low.from_paddr(PAddr(0x1234)).unwrap().value(), 0x1234);

    let high = BootHighWindow;
    let b = high.from_paddr(PAddr(0x1000)).unwrap();
    assert_eq!(b.value(), 0xffff_ffff_8000_1000);
    assert_eq!(high.to_paddr(b), PAddr(0x1000));

    let kernel = KernelWindow;
    let c = kernel.from_paddr(PAddr(0x2000)).unwrap();
    assert_eq!(c.value(), 0xffff_ff80_0000_2000);
    assert_eq!(kernel.to_paddr(c), PAddr(0x2000));

    // a physical address past what the high window can reach
    assert!(high.from_paddr(PAddr(0x4000_0001)).is_none());
}

#[test]
fn subwindow_containment() {
    let kernel = KernelWindow;
    // the high boot window is wholly inside the kernel window
    assert!(subwindow(&kernel, BootHighWindow).is_some());
    // the low window is not inside the high window
    let high = BootHighWindow;
    assert!(subwindow(&high, BootLowWindow).is_none());
    // nor is the kernel window inside its own one-gigabyte slice
    assert!(subwindow(&high, KernelWindow).is_none());
}

#[test]
fn physmem_bounds() {
    let mem = PhysMem::new(0x1000, vec![1, 2, 3, 4]).unwrap();
    assert_eq!(mem.base(), 0x1000);
    assert_eq!(mem.len(), 4);
    assert!(mem.covers(0x1000, 4));
    assert!(!mem.covers(0x1000, 5));
    assert!(!mem.covers(0xfff, 1));
    assert_eq!(mem.read_u8(0x1002), 3);
    // a buffer that would run past the end of the address space is refused
    assert!(PhysMem::new(0xffff_ffff_ffff_ffff, vec![0, 0]).is_none());
    assert!(PhysMem::new(0xffff_ffff_ffff_ffff, vec![7]).is_some());
}

#[test]
fn physmem_little_endian_reads() {
    let mem = PhysMem::new(0, vec![0x11, 0x22, 0x33, 0x44, 0x55, 0x66, 0x77, 0x88]).unwrap();
    assert_eq!(mem.read_u16(0), 0x2211);
    assert_eq!(mem.read_u32(0), 0x4433_2211);
    assert_eq!(mem.read_u64(0), 0x8877_6655_4433_2211);
    assert_eq!(mem.read_u16(6), 0x8877);
}

#[test]
fn materialize_respects_window_and_memory() {
    // 64 bytes of physical memory at 0x2000, reachable through the low
    // window
    let mut bytes = vec![0u8; 64];
    put_u32(&mut bytes, 0, 0x4349_5041); // "APIC"
    put_u32(&mut bytes, 4, 44);
    bytes[8] = 3; // revision
    bytes[9] = 0xab; // checksum byte as stored
    put_u32(&mut bytes, 24, 7); // oem revision
    put_u32(&mut bytes, 28, 0x2020_2020);
    put_u32(&mut bytes, 32, 9);
    let mem = PhysMem::new(0x2000, bytes).unwrap();
    let low = BootLowWindow;
    let hdr: ACPIHeader = materialize_at(&low, &mem, PAddr(0x2000)).unwrap();
    assert_eq!(hdr.signature, 0x4349_5041);
    assert_eq!(hdr.length, 44);
    assert_eq!(hdr.revision, 3);
    assert_eq!(hdr.checksum, 0xab);
    assert_eq!(hdr.oem_revision, 7);
    assert_eq!(hdr.creator_id, 0x2020_2020);
    assert_eq!(hdr.creator_revision, 9);
    // 36 bytes starting at 0x2020 would run past the held memory
    let past: Option<ACPIHeader> = materialize_at(&low, &mem, PAddr(0x2020));
    assert!(past.is_none());
    // bytes past the high window's one-gigabyte extent cannot be
    // materialized through it even though the memory holds them
    let high = BootHighWindow;
    let far = PhysMem::new(0x4000_0000, vec![0u8; 64]).unwrap();
    let out: Option<ACPIHeader> = materialize_at(&high, &far, PAddr(0x4000_0000));
    assert!(out.is_none());
    let low_far: Option<ACPIHeader> = materialize_at(&low, &far, PAddr(0x4000_0000));
    assert!(low_far.is_some());
}

#[test]
fn materialize_slice_counts() {
    let mut bytes = vec![0u8; 8];
    put_u16(&mut bytes, 0, 0x0102);
    bytes[2] = 0;
    bytes[3] = 2;
    let mem = PhysMem::new(0x3000, bytes).unwrap();
    let low = BootLowWindow;
    let b = low.to_addr(0x3000).unwrap();
    let v: Vec<MADTHeader> = low.make_slice(&mem, b, 4).unwrap();
    assert_eq!(v.len(), 4);
    assert_eq!(v[0].madt_type, 0x02);
    assert_eq!(v[0].length, 0x01);
    assert_eq!(v[1].madt_type, 0);
    assert_eq!(v[1].length, 2);
    let too_many: Option<Vec<MADTHeader>> = low.make_slice(&mem, b, 5);
    assert!(too_many.is_none());
}

#[test]
fn rsdp_decode_fields() {
    let mut bytes = vec![0u8; 36];
    bytes[0..8].copy_from_slice(b"RSD PTR ");
    bytes[8] = 0x55;
    bytes[9..15].copy_from_slice(b"OEMIDX");
    bytes[15] = 2;
    put_u32(&mut bytes, 16, 0xF0000);
    put_u32(&mut bytes, 20, 36);
    put_u64(&mut bytes, 24, 0x1_0000_0000);
    bytes[32] = 0x77;
    let mem = PhysMem::new(0xE0000, bytes).unwrap();
    let rsdp = RSDP::decode_at(&mem, 0xE0000);
    assert_eq!(rsdp.signature, u64::from_le_bytes(*b"RSD PTR "));
    assert_eq!(rsdp.checksum, 0x55);
    assert_eq!(rsdp.oem_id, u64::from_le_bytes(*b"OEMIDX\0\0"));
    assert_eq!(rsdp.revision, 2);
    assert_eq!(rsdp.rsdt_address, 0xF0000);
    assert_eq!(rsdp.length, 36);
    assert_eq!(rsdp.xsdt_address, 0x1_0000_0000);
    assert_eq!(rsdp.extended_checksum, 0x77);
    assert_eq!(RSDP::wire_size(), 36);
    assert_eq!(ACPIHeader::wire_size(), 36);
}
