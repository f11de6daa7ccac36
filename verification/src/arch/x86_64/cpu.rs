//! Module for various CPU routines that do not fit in anywhere else.
//!
//! Early CPU bring-up confirms the features the kernel requires — the page
//! attribute table — and computes the PAT register value to install. The
//! actual model-specific-register access is a privileged instruction and is
//! performed by the unverified shell, which reads the register, transforms
//! the value with [`pat_value`], and writes it back.

use vstd::prelude::*;

use crate::types::BootError;

verus! {

/// PAT memory type: uncacheable.
pub const IA32_PAT_MT_UNCACHEABLE: u8 = 0x00;

/// PAT memory type: write combining.
pub const IA32_PAT_MT_WRITE_COMBINING: u8 = 0x01;

/// PAT memory type: write through.
pub const IA32_PAT_MT_WRITE_THROUGH: u8 = 0x04;

/// PAT memory type: write back.
pub const IA32_PAT_MT_WRITE_BACK: u8 = 0x06;

/// PAT memory type: uncached.
pub const IA32_PAT_MT_UNCACHED: u8 = 0x07;

/// PAT entry used for write-back mappings.
pub const PAT_INDEX_WRITE_BACK: u64 = 0;

/// PAT entry used for write-through mappings.
pub const PAT_INDEX_WRITE_THROUGH: u64 = 1;

/// PAT entry used for uncached mappings.
pub const PAT_INDEX_UNCACHED: u64 = 2;

/// PAT entry used for uncacheable mappings.
pub const PAT_INDEX_UNCACHEABLE: u64 = 3;

/// PAT entry used for write-combining mappings.
pub const PAT_INDEX_WRITE_COMBINING: u64 = 4;

/// Witness that the CPU reports the page attribute table feature.
#[allow(non_camel_case_types)]
#[derive(Clone, Copy, Debug)]
pub struct Feature_Pat;

/// Witness to the CPU features that early init confirmed.
#[derive(Clone, Copy, Debug)]
pub struct Features {
    /// The page attribute table is available.
    pub pat: Feature_Pat,
}

/// Byte `i` of the 64-bit value, the PAT being an array of one-byte
/// entries.
pub open spec fn spec_pat_byte(v: u64, i: u64) -> u64 {
    (v >> (8 * i)) & 0xff
}

/// The PAT register value to install, given the value read from the
/// register: the Intel default entries are restored — write back, write
/// through, uncached, uncacheable — write combining is added in the fifth
/// entry, and the remaining three entries are kept as they were.
pub fn pat_value(old_pat: u64) -> (r: u64)
    ensures
        spec_pat_byte(r, 0) == IA32_PAT_MT_WRITE_BACK,
        spec_pat_byte(r, 1) == IA32_PAT_MT_WRITE_THROUGH,
        spec_pat_byte(r, 2) == IA32_PAT_MT_UNCACHED,
        spec_pat_byte(r, 3) == IA32_PAT_MT_UNCACHEABLE,
        spec_pat_byte(r, 4) == IA32_PAT_MT_WRITE_COMBINING,
        spec_pat_byte(r, 5) == spec_pat_byte(old_pat, 5),
        spec_pat_byte(r, 6) == spec_pat_byte(old_pat, 6),
        spec_pat_byte(r, 7) == spec_pat_byte(old_pat, 7),
{
    let r = (old_pat & 0xffff_ff00_0000_0000) | 0x01_0007_0406;
    proof {
        assert(((old_pat & 0xffff_ff00_0000_0000) | 0x01_0007_0406) >> (8 * 0) & 0xff == 0x06
            && ((old_pat & 0xffff_ff00_0000_0000) | 0x01_0007_0406) >> (8 * 1) & 0xff == 0x04
            && ((old_pat & 0xffff_ff00_0000_0000) | 0x01_0007_0406) >> (8 * 2) & 0xff == 0x07
            && ((old_pat & 0xffff_ff00_0000_0000) | 0x01_0007_0406) >> (8 * 3) & 0xff == 0x00
            && ((old_pat & 0xffff_ff00_0000_0000) | 0x01_0007_0406) >> (8 * 4) & 0xff == 0x01
            && ((old_pat & 0xffff_ff00_0000_0000) | 0x01_0007_0406) >> (8 * 5) & 0xff == old_pat
            >> (8 * 5) & 0xff && ((old_pat & 0xffff_ff00_0000_0000) | 0x01_0007_0406) >> (8 * 6)
            & 0xff == old_pat >> (8 * 6) & 0xff && ((old_pat & 0xffff_ff00_0000_0000)
            | 0x01_0007_0406) >> (8 * 7) & 0xff == old_pat >> (8 * 7) & 0xff) by (bit_vector);
    }
    r
}

/// Relies on raw_cpuid's `CpuId::get_feature_info` and
/// `FeatureInfo::has_pat`: whether the running processor reports the page
/// attribute table. The answer depends on the machine, so nothing is
/// promised of it.
#[verifier::external_body]
fn query_pat_support() -> Option<bool> {
    match raw_cpuid::CpuId::new().get_feature_info() {
        Some(f) => Some(f.has_pat()),
        None => None,
    }
}

/// The features the kernel requires, decided from what the processor
/// reported: a feature witness exactly when the page attribute table is
/// confirmed present, and a fatal init failure otherwise — also when the
/// processor would not report its features at all.
pub fn features_from_query(has_pat: Option<bool>) -> (r: Result<Features, BootError>)
    ensures
        r is Ok <==> has_pat == Some(true),
        r is Err ==> r->Err_0 == BootError::PlatformOrCpuInitFailure,
{
    match has_pat {
        Some(true) => Ok(Features { pat: Feature_Pat }),
        _ => Err(BootError::PlatformOrCpuInitFailure),
    }
}

/// Performs early CPU initialization and returns a witness to required CPU
/// features: the processor is queried and the answer judged by
/// [`features_from_query`]. The PAT register write itself is left to the
/// unverified shell, which feeds the read value through [`pat_value`].
pub fn early_init() -> (r: Result<Features, BootError>)
    ensures
        r is Err ==> r->Err_0 == BootError::PlatformOrCpuInitFailure,
{
    features_from_query(query_pat_support())
}

} // verus!
