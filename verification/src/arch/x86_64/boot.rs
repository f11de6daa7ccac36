//! Early boot orchestration.
//!
//! Boot is strictly linear: the loader handoff is validated, the boot
//! windows are constructed, the loader-provided information is consumed,
//! the platform and CPU are brought up, and the final kernel window plus
//! the memory-stealing arena are handed off. A signature mismatch rejects
//! the handoff before anything else is touched; any later failure surfaces
//! as the error of the step that failed, and the unverified shell halts on
//! it after best-effort diagnostics.
//!
//! The multiboot information structure itself is read by the unverified
//! shell through the multiboot crate, which hands the decisions here the
//! plain values they run on: the magic word, the command line bytes and the
//! memory map regions.

use vstd::prelude::*;

use crate::arch::x86_64::cpu;
use crate::arch::x86_64::cpu::Features;
use crate::arch::x86_64::vspace::{BootHighWindow, BootLowWindow, KernelWindow};
use crate::config::BootConfig;
use crate::plat::pc99::{spec_platform_for, PC99Interface};
use crate::plat::{get_platform, PlatInterface, PortAction};
use crate::steal_mem::StealMem;
use crate::types::{BootError, PAddr};
use crate::vspace::window::{spec_range_in_window, subwindow, VSpaceWindow};

verus! {

/// The magic the boot loader leaves in EAX under the multiboot handoff
/// contract.
pub const MULTIBOOT_SIGNATURE_EAX: u32 = 0x2BAD_B002;

/// One region of the loader's memory map, as plain values: its physical
/// base, its length in bytes, and whether the loader reported it as usable
/// RAM.
#[derive(Clone, Copy, Debug, PartialEq, Eq, Structural)]
pub struct MemRegion {
    pub base: PAddr,
    pub length: u64,
    pub ram: bool,
}

/// The loader-provided boot information, reduced to the plain values the
/// boot decisions run on.
pub struct MultibootInfo {
    /// Command line handed over by the loader; empty when none was given.
    pub command_line: Vec<u8>,
    /// The loader's memory map, when one was given.
    pub regions: Option<Vec<MemRegion>>,
}

/// Package of state that is passed to the early boot function.
pub struct EarlyBootState<'a> {
    /// The high window: objects created from here can persist forever.
    pub high_window: &'a BootHighWindow,
    /// The low window: for boot data that dies with early boot.
    pub low_window: &'a BootLowWindow,
    /// The register value passed from the assembly entry, checked to
    /// ensure the kernel was multiboot loaded.
    pub mbi_magic: u64,
    /// Physical pointer that should point to the multiboot structure.
    pub mbi: PAddr,
    /// Virtual address where the kernel image starts, from the linker.
    pub kernel_image_start: u64,
    /// Virtual address where the kernel image ends, from the linker.
    pub kernel_image_end: u64,
}

/// Package of state that is returned as a result of early boot.
pub struct PostEarlyBootState<'a> {
    /// The initialized platform interface.
    pub plat: PC99Interface,
    /// Witness to the CPU features early boot confirmed.
    pub features: Features,
    /// The port operations the shell performs, in order: the serial
    /// bring-up followed by the legacy interrupt controller shutdown.
    pub actions: Vec<PortAction>,
    /// The memory stealing allocator over the usable regions, handed off.
    pub early_alloc: StealMem<'a, BootHighWindow>,
    /// The final kernel window, of which the high boot window is a part.
    pub kernel_window: KernelWindow,
}

/// A memory map region is usable: reported as RAM, contained in the
/// address space, and ending above the floor below which memory belongs to
/// the kernel image.
pub open spec fn spec_region_usable(r: MemRegion, floor: int) -> bool {
    r.ram && r.base.0 + r.length <= u64::MAX && r.base.0 + r.length > floor
}

/// The `(start, end)` pair a usable region contributes: its base clamped
/// up to the floor, and its end.
pub open spec fn spec_region_range(r: MemRegion, floor: int) -> (int, int) {
    (if r.base.0 >= floor {
        r.base.0 as int
    } else {
        floor
    }, r.base.0 + r.length)
}

/// The first usable region at or after `idx`, as its contributed range,
/// together with the region index after it.
pub open spec fn spec_bi_next(regions: Seq<MemRegion>, idx: int, floor: int) -> (Option<
    (int, int),
>, int)
    decreases regions.len() - idx,
{
    if !(0 <= idx < regions.len()) {
        (None, idx)
    } else if spec_region_usable(regions[idx], floor) {
        (Some(spec_region_range(regions[idx], floor)), idx + 1)
    } else {
        spec_bi_next(regions, idx + 1, floor)
    }
}

/// The ranges all the usable regions from `idx` on contribute, in supplied
/// order.
pub open spec fn spec_usable_ranges(regions: Seq<MemRegion>, idx: int, floor: int) -> Seq<
    (PAddr, PAddr),
>
    decreases regions.len() - idx,
{
    if !(0 <= idx < regions.len()) {
        Seq::empty()
    } else if spec_region_usable(regions[idx], floor) {
        seq![
            (
                PAddr(spec_region_range(regions[idx], floor).0 as u64),
                PAddr(spec_region_range(regions[idx], floor).1 as u64),
            ),
        ] + spec_usable_ranges(regions, idx + 1, floor)
    } else {
        spec_usable_ranges(regions, idx + 1, floor)
    }
}

/// Wrapper around the loader's memory map that yields only the usable RAM
/// regions: regions below `floor` — coarse-grained cover for the memory the
/// kernel image sits in — are skipped or clamped.
pub struct BIMemIterator {
    /// The raw memory map regions.
    regions: Vec<MemRegion>,
    /// Index of the next region to inspect.
    idx: usize,
    /// Physical memory above which memory is actually considered usable.
    start: PAddr,
}

impl BIMemIterator {
    /// The raw memory map regions.
    pub closed spec fn spec_regions(&self) -> Seq<MemRegion> {
        self.regions@
    }

    /// Index of the next region to inspect.
    pub closed spec fn spec_idx(&self) -> int {
        self.idx as int
    }

    /// Physical memory above which memory is actually considered usable.
    pub closed spec fn spec_start(&self) -> int {
        self.start.0 as int
    }

    /// The index stays within the regions.
    pub closed spec fn wf(&self) -> bool {
        self.idx <= self.regions@.len()
    }

    /// Wrap a memory map, considering only memory above `start` usable.
    pub fn new(regions: Vec<MemRegion>, start: PAddr) -> (r: BIMemIterator)
        ensures
            r.wf(),
            r.spec_regions() == regions@,
            r.spec_idx() == 0,
            r.spec_start() == start.0,
    {
        BIMemIterator { regions, idx: 0, start }
    }

    /// Yield the range of the next usable RAM region.
    pub fn next(&mut self) -> (r: Option<(PAddr, PAddr)>)
        requires
            old(self).wf(),
        ensures
            final(self).wf(),
            final(self).spec_regions() == old(self).spec_regions(),
            final(self).spec_start() == old(self).spec_start(),
            ({
                let s = spec_bi_next(
                    old(self).spec_regions(),
                    old(self).spec_idx(),
                    old(self).spec_start(),
                );
                final(self).spec_idx() == s.1 && (match r {
                    Some(pair) => s.0 == Some((pair.0.0 as int, pair.1.0 as int)),
                    None => s.0 is None,
                })
            }),
    {
        loop
            invariant
                self.wf(),
                self.spec_regions() == old(self).spec_regions(),
                self.spec_start() == old(self).spec_start(),
                spec_bi_next(self.spec_regions(), self.spec_idx(), self.spec_start())
                    == spec_bi_next(
                    old(self).spec_regions(),
                    old(self).spec_idx(),
                    old(self).spec_start(),
                ),
            decreases self.spec_regions().len() - self.spec_idx(),
        {
            if self.idx >= self.regions.len() {
                return None;
            }
            let region = self.regions[self.idx];
            self.idx = self.idx + 1;
            if region.ram && region.length <= u64::MAX - region.base.0 {
                let end = region.base.0 + region.length;
                if end > self.start.0 {
                    let base = if region.base.0 >= self.start.0 {
                        region.base.0
                    } else {
                        self.start.0
                    };
                    return Some((PAddr(base), PAddr(end)));
                }
            }
        }
    }
}

/// Collect the ranges of all usable RAM regions, in supplied order. Every
/// returned range is a proper `(start, end)` pair, ready to construct the
/// memory stealing arena from.
pub fn collect_usable_ranges(regions: &Vec<MemRegion>, idx: usize, floor: PAddr) -> (r: Vec<
    (PAddr, PAddr),
>)
    requires
        idx <= regions@.len(),
    ensures
        r@ == spec_usable_ranges(regions@, idx as int, floor.0 as int),
        forall|i: int| 0 <= i < r@.len() ==> (#[trigger] r@[i]).0.0 <= r@[i].1.0,
    decreases regions@.len() - idx,
{
    if idx >= regions.len() {
        proof {
            assert(Seq::<(PAddr, PAddr)>::empty() =~= spec_usable_ranges(
                regions@,
                idx as int,
                floor.0 as int,
            ));
        }
        Vec::new()
    } else {
        let region = regions[idx];
        let mut rest = collect_usable_ranges(regions, idx + 1, floor);
        if region.ram && region.length <= u64::MAX - region.base.0 && region.base.0
            + region.length > floor.0 {
            let base = if region.base.0 >= floor.0 {
                region.base.0
            } else {
                floor.0
            };
            let end = region.base.0 + region.length;
            rest.insert(0, (PAddr(base), PAddr(end)));
            proof {
                assert(rest@ =~= spec_usable_ranges(regions@, idx as int, floor.0 as int));
            }
            rest
        } else {
            rest
        }
    }
}

/// Check the loader handoff signature. Succeeds exactly when the register
/// value, as the 32-bit word the loader actually sets, equals the
/// multiboot magic; on mismatch nothing else of the handoff can be
/// trusted.
pub fn check_boot_signature(magic: u64) -> (r: Result<(), BootError>)
    ensures
        r is Ok <==> magic % 0x1_0000_0000 == MULTIBOOT_SIGNATURE_EAX,
        r is Err ==> r->Err_0 == BootError::BootSignatureMismatch,
{
    if magic % 0x1_0000_0000 == MULTIBOOT_SIGNATURE_EAX as u64 {
        Ok(())
    } else {
        Err(BootError::BootSignatureMismatch)
    }
}

/// Try to boot the system up to the final address-space handoff,
/// returning the failure of the first step that goes wrong.
///
/// The steps are strictly linear: the loader signature is checked first —
/// a mismatch is rejected without performing any memory access at all —
/// then the loader information is required, the platform is configured
/// from the command line and its serial bring-up and interrupt controller
/// shutdown are scheduled, the kernel image region is validated against
/// the high window, the memory map is turned into the arena, the CPU
/// features are confirmed, and the final kernel window is constructed with
/// the high boot window as a sub-window of it.
pub fn try_early_boot_system<'a>(
    init: EarlyBootState<'a>,
    info: Option<&MultibootInfo>,
    has_pat: Option<bool>,
) -> (r: Result<PostEarlyBootState<'a>, BootError>)
    ensures
        init.mbi_magic % 0x1_0000_0000 != MULTIBOOT_SIGNATURE_EAX ==> (r matches Err(e) && e
            == BootError::BootSignatureMismatch),
        init.mbi_magic % 0x1_0000_0000 == MULTIBOOT_SIGNATURE_EAX && info is None ==> (r matches Err(
            e,
        ) && e == BootError::FirmwareStructureMissing),
        info matches Some(mi) ==> (init.mbi_magic % 0x1_0000_0000 == MULTIBOOT_SIGNATURE_EAX
            ==> {
                let ki_ok = spec_range_in_window(
                    init.high_window.spec_base() as int,
                    init.high_window.spec_size() as int,
                    init.kernel_image_start as int,
                    0,
                ) && spec_range_in_window(
                    init.high_window.spec_base() as int,
                    init.high_window.spec_size() as int,
                    init.kernel_image_end as int,
                    0,
                );
                let floor = init.kernel_image_end - init.high_window.spec_offset();
                if !ki_ok {
                    r matches Err(e) && e == BootError::OutOfWindowAccess
                } else if mi.regions is None {
                    r matches Err(e) && e == BootError::FirmwareStructureMissing
                } else if has_pat != Some(true) {
                    r matches Err(e) && e == BootError::PlatformOrCpuInitFailure
                } else {
                    r matches Ok(post) && ({
                        let plat0 = spec_platform_for(mi.command_line@);
                        let serial = PC99Interface::spec_init_serial(plat0);
                        &&& post.plat == serial.0
                        &&& post.actions@ == serial.1
                            + crate::plat::pc99::pic::spec_disable_actions()
                        &&& post.early_alloc.spec_ranges() == spec_usable_ranges(
                            mi.regions->0@,
                            0,
                            floor,
                        )
                        &&& post.early_alloc.spec_next() == 0
                        &&& post.early_alloc.spec_cursor() == 0
                        &&& post.early_alloc.spec_end() == 0
                        &&& post.early_alloc.wf()
                        &&& post.early_alloc.spec_window() == init.high_window
                    })
                }
            }),
{
    // check that we were multi-booted: on mismatch nothing else can be
    // trusted, so no memory is touched
    if let Err(e) = check_boot_signature(init.mbi_magic) {
        return Err(e);
    }
    // the multiboot structure itself is consumed by the unverified shell;
    // its absence means the handoff carried no usable information
    let mi = match info {
        Some(mi) => mi,
        None => {
            return Err(BootError::FirmwareStructureMissing);
        },
    };
    // configure the platform from the command line, and bring the serial
    // up first so that debugging output is possible
    let config = BootConfig::from_bytes(mi.command_line.clone());
    let mut plat = get_platform(&config);
    let mut actions = plat.init_serial();
    // convert the linker's kernel image bounds into high window addresses
    let ki_start = match init.high_window.to_addr(init.kernel_image_start) {
        Some(a) => a,
        None => {
            return Err(BootError::OutOfWindowAccess);
        },
    };
    let ki_end = match init.high_window.to_addr(init.kernel_image_end) {
        Some(a) => a,
        None => {
            return Err(BootError::OutOfWindowAccess);
        },
    };
    proof {
        init.high_window.lemma_window_wf();
    }
    let ki_end_paddr = init.high_window.to_paddr(ki_end);
    // construct the early kernel allocator for memory stealing; for
    // simplicity any memory before the end of the kernel image is ignored
    let regions = match &mi.regions {
        Some(regions) => regions,
        None => {
            return Err(BootError::FirmwareStructureMissing);
        },
    };
    let ranges = collect_usable_ranges(regions, 0, ki_end_paddr);
    let early_alloc = StealMem::new(ranges, init.high_window);
    // perform early platform specific system initialization
    let mut pic_actions = match plat.early_init() {
        Ok(acts) => acts,
        Err(e) => {
            return Err(e);
        },
    };
    actions.append(&mut pic_actions);
    // do any platform device discovery
    if let Err(e) = plat.early_device_discovery(init.low_window) {
        return Err(e);
    }
    // do early CPU initialization
    let features = match cpu::features_from_query(has_pat) {
        Ok(f) => f,
        Err(e) => {
            return Err(e);
        },
    };
    // construct the final kernel window; the high boot window is wholly
    // inside it, so references made through the high window live on
    let kernel_window = KernelWindow::new();
    let checked: Option<BootHighWindow> = subwindow(&kernel_window, BootHighWindow::new());
    if checked.is_none() {
        return Err(BootError::OutOfWindowAccess);
    }
    Ok(PostEarlyBootState { plat, features, actions, early_alloc, kernel_window })
}

} // verus!
