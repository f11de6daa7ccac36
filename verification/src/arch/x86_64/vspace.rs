//! Virtual address space definitions.
//!
//! Three window kinds exist, each with fixed parameters. The low boot window
//! is an identity-mapped view of the bottom 4GB of memory, used on entry to
//! reach boot data structures; it starts at address 1 so that no object can
//! ever be made at address 0. The high boot window is a one-gigabyte slice
//! of the final kernel window, enough to run the kernel at its final
//! address. The final kernel window covers the top 2^39 bytes of the
//! address space and persists forever once installed.

use vstd::prelude::*;

use crate::types::PAddr;
use crate::util::constants::GB;
use crate::vspace::window::VSpaceWindow;

verus! {

/// Base of the low boot window: address 0 is excluded.
pub const LOW_BOOT_BASE: u64 = 1;

/// Size of the low boot window: one byte short of 4GB, matching the base.
pub const LOW_BOOT_SIZE: u64 = 4 * GB - 1;

/// Base of the high boot window.
pub const HIGH_BOOT_BASE: u64 = 0xffff_ffff_8000_0000;

/// Size of the high boot window: a single gigabyte.
pub const HIGH_BOOT_SIZE: u64 = GB;

/// Base of the final kernel window.
pub const KERNEL_BASE: u64 = 0xffff_ff80_0000_0000;

/// Size of the final kernel window: the top 2^39 bytes of memory.
pub const KERNEL_SIZE: u64 = 0x80_0000_0000;

/// The low boot window: a 1-1 mapped 4GB window at the bottom of memory.
/// It is used as where the boot code initially runs before virtual
/// addresses are set up, and is kept through early kernel init to access
/// boot data structures; it is abandoned once the kernel window is
/// installed.
pub struct BootLowWindow;

/// The high boot window: valid initially on boot. It is a sub-window of
/// the final kernel window, so references made through it stay valid once
/// the kernel window is installed.
pub struct BootHighWindow;

/// The final kernel window: installed once early boot has happened and
/// valid forever after.
pub struct KernelWindow;

/// Wrapper for an address in the low boot window.
#[derive(Clone, Copy, Debug, PartialEq, Eq, Structural)]
pub struct LowWindowAddr(u64);

/// Wrapper for an address in the high boot window.
#[derive(Clone, Copy, Debug, PartialEq, Eq, Structural)]
pub struct HighWindowAddr(u64);

/// Wrapper for an address in the kernel window.
#[derive(Clone, Copy, Debug, PartialEq, Eq, Structural)]
pub struct KernelWindowAddr(u64);

impl LowWindowAddr {
    /// The raw virtual value.
    pub closed spec fn spec_value(&self) -> u64 {
        self.0
    }

    /// The raw virtual value.
    pub fn value(&self) -> (r: u64)
        ensures
            r == self.spec_value(),
    {
        self.0
    }
}

impl HighWindowAddr {
    /// The raw virtual value.
    pub closed spec fn spec_value(&self) -> u64 {
        self.0
    }

    /// The raw virtual value.
    pub fn value(&self) -> (r: u64)
        ensures
            r == self.spec_value(),
    {
        self.0
    }
}

impl KernelWindowAddr {
    /// The raw virtual value.
    pub closed spec fn spec_value(&self) -> u64 {
        self.0
    }

    /// The raw virtual value.
    pub fn value(&self) -> (r: u64)
        ensures
            r == self.spec_value(),
    {
        self.0
    }
}

impl VSpaceWindow for BootLowWindow {
    type Addr = LowWindowAddr;

    open spec fn spec_base(&self) -> u64 {
        LOW_BOOT_BASE
    }

    open spec fn spec_size(&self) -> u64 {
        LOW_BOOT_SIZE
    }

    open spec fn spec_offset(&self) -> u64 {
        0
    }

    open spec fn spec_addr(a: LowWindowAddr) -> u64 {
        a.spec_value()
    }

    proof fn lemma_window_wf(&self) {
        assert(self.spec_offset() <= self.spec_base());
    }

    fn base(&self) -> u64 {
        LOW_BOOT_BASE
    }

    fn size(&self) -> u64 {
        LOW_BOOT_SIZE
    }

    fn phys_offset(&self) -> u64 {
        0
    }

    fn addr_value(a: LowWindowAddr) -> u64 {
        a.value()
    }

    fn new() -> Self {
        BootLowWindow
    }

    fn to_addr(&self, addr: u64) -> Option<LowWindowAddr> {
        if self.range_valid(addr, 0) {
            Some(LowWindowAddr(addr))
        } else {
            None
        }
    }

    fn from_paddr(&self, paddr: PAddr) -> Option<LowWindowAddr> {
        self.to_addr(paddr.0)
    }

    fn to_paddr(&self, a: LowWindowAddr) -> PAddr {
        PAddr(a.value())
    }
}

impl VSpaceWindow for BootHighWindow {
    type Addr = HighWindowAddr;

    open spec fn spec_base(&self) -> u64 {
        HIGH_BOOT_BASE
    }

    open spec fn spec_size(&self) -> u64 {
        HIGH_BOOT_SIZE
    }

    open spec fn spec_offset(&self) -> u64 {
        HIGH_BOOT_BASE
    }

    open spec fn spec_addr(a: HighWindowAddr) -> u64 {
        a.spec_value()
    }

    proof fn lemma_window_wf(&self) {
        assert(self.spec_offset() <= self.spec_base());
    }

    fn base(&self) -> u64 {
        HIGH_BOOT_BASE
    }

    fn size(&self) -> u64 {
        HIGH_BOOT_SIZE
    }

    fn phys_offset(&self) -> u64 {
        HIGH_BOOT_BASE
    }

    fn addr_value(a: HighWindowAddr) -> u64 {
        a.value()
    }

    fn new() -> Self {
        BootHighWindow
    }

    fn to_addr(&self, addr: u64) -> Option<HighWindowAddr> {
        if self.range_valid(addr, 0) {
            Some(HighWindowAddr(addr))
        } else {
            None
        }
    }

    fn from_paddr(&self, paddr: PAddr) -> Option<HighWindowAddr> {
        if paddr.0 <= u64::MAX - HIGH_BOOT_BASE {
            self.to_addr(paddr.0 + HIGH_BOOT_BASE)
        } else {
            None
        }
    }

    fn to_paddr(&self, a: HighWindowAddr) -> PAddr {
        PAddr(a.value() - HIGH_BOOT_BASE)
    }
}

impl VSpaceWindow for KernelWindow {
    type Addr = KernelWindowAddr;

    open spec fn spec_base(&self) -> u64 {
        KERNEL_BASE
    }

    open spec fn spec_size(&self) -> u64 {
        KERNEL_SIZE
    }

    open spec fn spec_offset(&self) -> u64 {
        KERNEL_BASE
    }

    open spec fn spec_addr(a: KernelWindowAddr) -> u64 {
        a.spec_value()
    }

    proof fn lemma_window_wf(&self) {
        assert(self.spec_offset() <= self.spec_base());
    }

    fn base(&self) -> u64 {
        KERNEL_BASE
    }

    fn size(&self) -> u64 {
        KERNEL_SIZE
    }

    fn phys_offset(&self) -> u64 {
        KERNEL_BASE
    }

    fn addr_value(a: KernelWindowAddr) -> u64 {
        a.value()
    }

    fn new() -> Self {
        KernelWindow
    }

    fn to_addr(&self, addr: u64) -> Option<KernelWindowAddr> {
        if self.range_valid(addr, 0) {
            Some(KernelWindowAddr(addr))
        } else {
            None
        }
    }

    fn from_paddr(&self, paddr: PAddr) -> Option<KernelWindowAddr> {
        if paddr.0 <= u64::MAX - KERNEL_BASE {
            self.to_addr(paddr.0 + KERNEL_BASE)
        } else {
            None
        }
    }

    fn to_paddr(&self, a: KernelWindowAddr) -> PAddr {
        PAddr(a.value() - KERNEL_BASE)
    }
}

/// The high boot window is wholly contained in the final kernel window, so
/// constructing it as a sub-window of the kernel window always succeeds.
pub proof fn lemma_high_window_inside_kernel_window(high: BootHighWindow, kernel: KernelWindow)
    ensures
        crate::vspace::window::spec_range_in_window(
            kernel.spec_base() as int,
            kernel.spec_size() as int,
            high.spec_base() as int,
            high.spec_size() as int,
        ),
{
}

} // verus!
