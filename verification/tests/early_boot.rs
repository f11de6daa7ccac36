//! Tests for the early boot orchestration: signature validation, memory
//! map filtering and the linear early boot sequence.

use r4boot::arch::x86_64::boot::{
    check_boot_signature, collect_usable_ranges, try_early_boot_system, BIMemIterator,
    EarlyBootState, MemRegion, MultibootInfo, MULTIBOOT_SIGNATURE_EAX,
};
use r4boot::arch::x86_64::vspace::{BootHighWindow, BootLowWindow, HIGH_BOOT_BASE};
use r4boot::plat::PortAction;
use r4boot::types::{BootError, PAddr};

fn windows() -> (BootHighWindow, BootLowWindow) {
    (BootHighWindow, BootLowWindow)
}

fn entry_state<'a>(
    high: &'a BootHighWindow,
    low: &'a BootLowWindow,
    magic: u64,
) -> EarlyBootState<'a> {
    EarlyBootState {
        high_window: high,
        low_window: low,
        mbi_magic: magic,
        mbi: PAddr(0x10000),
        kernel_image_start: HIGH_BOOT_BASE + 0x10_0000,
        kernel_image_end: HIGH_BOOT_BASE + 0x20_0000,
    }
}

fn good_info() -> MultibootInfo {
    MultibootInfo {
        command_line: b"--debug-port=0x2f8".to_vec(),
        regions: Some(vec![
            MemRegion { base: PAddr(0), length: 0x40_0000, ram: true },
            MemRegion { base: PAddr(0x100_0000), length: 0x1000, ram: false },
            MemRegion { base: PAddr(0x200_0000), length: 0x10_0000, ram: true },
        ]),
    }
}

#[test]
fn signature_check_exact() {
    assert!(check_boot_signature(MULTIBOOT_SIGNATURE_EAX as u64).is_ok());
    // only the 32-bit register word matters
    assert!(check_boot_signature(0xdead_beef_0000_0000 | MULTIBOOT_SIGNATURE_EAX as u64).is_ok());
    assert_eq!(
        check_boot_signature(0x2BAD_B003),
        Err(BootError::BootSignatureMismatch)
    );
    assert_eq!(check_boot_signature(0), Err(BootError::BootSignatureMismatch));
}

#[test]
fn wrong_magic_rejected_without_any_memory_access() {
    // a mismatching signature is rejected outright: the loader info is not
    // even required to exist
    let (high, low) = windows();
    let state = entry_state(&high, &low, 0x1111_2222);
    let r = try_early_boot_system(state, None, None);
    match r {
        Err(BootError::BootSignatureMismatch) => {},
        _ => panic!("a bad signature must be the mismatch outcome"),
    }
}

#[test]
fn missing_loader_info_is_firmware_structure_missing() {
    let (high, low) = windows();
    let state = entry_state(&high, &low, MULTIBOOT_SIGNATURE_EAX as u64);
    match try_early_boot_system(state, None, Some(true)) {
        Err(BootError::FirmwareStructureMissing) => {},
        _ => panic!("missing loader info must be a missing firmware structure"),
    }
}

#[test]
fn missing_memory_map_is_firmware_structure_missing() {
    let (high, low) = windows();
    let state = entry_state(&high, &low, MULTIBOOT_SIGNATURE_EAX as u64);
    let info = MultibootInfo { command_line: Vec::new(), regions: None };
    match try_early_boot_system(state, Some(&info), Some(true)) {
        Err(BootError::FirmwareStructureMissing) => {},
        _ => panic!("a missing memory map must be a missing firmware structure"),
    }
}

#[test]
fn kernel_image_outside_high_window_rejected() {
    let (high, low) = windows();
    let mut state = entry_state(&high, &low, MULTIBOOT_SIGNATURE_EAX as u64);
    state.kernel_image_start = 0x10_0000;
    state.kernel_image_end = 0x20_0000;
    let info = good_info();
    match try_early_boot_system(state, Some(&info), Some(true)) {
        Err(BootError::OutOfWindowAccess) => {},
        _ => panic!("a kernel image outside the high window must be rejected"),
    }
}

#[test]
fn missing_pat_fails_platform_init() {
    let (high, low) = windows();
    let state = entry_state(&high, &low, MULTIBOOT_SIGNATURE_EAX as u64);
    let info = good_info();
    match try_early_boot_system(state, Some(&info), Some(false)) {
        Err(BootError::PlatformOrCpuInitFailure) => {},
        _ => panic!("a CPU without PAT must fail early init"),
    }
}

#[test]
fn successful_early_boot_hands_off_platform_and_arena() {
    let (high, low) = windows();
    let state = entry_state(&high, &low, MULTIBOOT_SIGNATURE_EAX as u64);
    let info = good_info();
    let post = try_early_boot_system(state, Some(&info), Some(true)).unwrap();
    // the platform took the command line override and its serial is live
    assert_eq!(post.plat.debug_port, Some((true, 0x2f8)));
    // serial bring-up comes first, then the PIC shutdown
    assert_eq!(post.actions.len(), 10 + 12);
    assert_eq!(post.actions[0], PortAction::WaitTxReady(0x2f8));
    assert_eq!(post.actions[10], PortAction::Out8(0x20, 0x11));
    assert_eq!(post.actions[21], PortAction::Out8(0xa1, 0xff));
    // the arena holds the RAM regions above the kernel image, clamped and
    // in supplied order: the image ends at physical 0x20_0000
    let mut arena = post.early_alloc;
    assert_eq!(arena.alloc_raw(0x10_0000, 1).unwrap(), PAddr(0x20_0000));
    assert_eq!(arena.alloc_raw(0x10_0000, 1).unwrap(), PAddr(0x30_0000));
    // the first region is spent; the non-RAM region is skipped entirely
    assert_eq!(arena.alloc_raw(0x10_0000, 1).unwrap(), PAddr(0x200_0000));
    assert_eq!(arena.alloc_raw(1, 1), Err(BootError::BootstrapArenaExhausted));
}

#[test]
fn collect_usable_ranges_filters_and_clamps() {
    let regions = vec![
        MemRegion { base: PAddr(0), length: 0x1000, ram: true },
        MemRegion { base: PAddr(0x8000), length: 0x1000, ram: false },
        MemRegion { base: PAddr(0x2000), length: 0x1000, ram: true },
    ];
    // the floor cuts into the first region and the second is not RAM
    let ranges = collect_usable_ranges(&regions, 0, PAddr(0x800));
    assert_eq!(
        ranges,
        vec![(PAddr(0x800), PAddr(0x1000)), (PAddr(0x2000), PAddr(0x3000))]
    );
    // a region wholly below the floor contributes nothing
    let ranges = collect_usable_ranges(&regions, 0, PAddr(0x1000));
    assert_eq!(ranges, vec![(PAddr(0x2000), PAddr(0x3000))]);
}

#[test]
fn bi_mem_iterator_yields_usable_regions() {
    let regions = vec![
        MemRegion { base: PAddr(0), length: 0x1000, ram: true },
        MemRegion { base: PAddr(0x8000), length: 0x1000, ram: false },
        MemRegion { base: PAddr(0x2000), length: 0x1000, ram: true },
        // a region whose end would leave the address space is skipped
        MemRegion { base: PAddr(u64::MAX - 5), length: 100, ram: true },
    ];
    let mut iter = BIMemIterator::new(regions, PAddr(0x800));
    assert_eq!(iter.next(), Some((PAddr(0x800), PAddr(0x1000))));
    assert_eq!(iter.next(), Some((PAddr(0x2000), PAddr(0x3000))));
    assert_eq!(iter.next(), None);
    assert_eq!(iter.next(), None);
}
