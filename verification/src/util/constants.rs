//! Miscellaneous constants.

use vstd::prelude::*;

verus! {

/// Bytes in a KibiByte (2^10).
pub const KB: u64 = 1024;

/// Bytes in a MibiByte (2^20).
pub const MB: u64 = 1024 * 1024;

/// Bytes in a GibiByte (2^30).
pub const GB: u64 = 1024 * 1024 * 1024;

} // verus!
