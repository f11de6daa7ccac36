//! Custom type wrappers for doing static checking.

use vstd::prelude::*;

verus! {

/// Wrapper for a physical address.
#[derive(PartialEq, Eq, Structural, Debug, Copy, Clone)]
pub struct PAddr(pub u64);

/// The failure kinds of the bootstrap core.
///
/// Signature mismatch, arena exhaustion and platform/CPU init failure are
/// fatal and lead straight to a halt; a missing or malformed firmware
/// structure and an out-of-window access are ordinary "absent" results that
/// are threaded through normal control flow.
#[derive(PartialEq, Eq, Structural, Debug, Copy, Clone)]
pub enum BootError {
    /// The loader handoff signature did not match the expected magic.
    BootSignatureMismatch,
    /// A firmware structure (multiboot info, RSDP, memory map) is absent or
    /// fails its checksum.
    FirmwareStructureMissing,
    /// A materialization would exceed the bounds of the window it goes
    /// through.
    OutOfWindowAccess,
    /// No remaining free range satisfies an allocation request.
    BootstrapArenaExhausted,
    /// A required hardware bring-up step failed.
    PlatformOrCpuInitFailure,
}

} // verus!
