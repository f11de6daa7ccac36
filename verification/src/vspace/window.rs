//! Abstraction for a vspace window.
//!
//! A window describes one mapped range of the virtual address space in the
//! form of a base and a size, together with the affine translation between
//! virtual addresses inside the window and physical addresses. Every typed
//! read of loader or firmware memory goes through a window: the window
//! checks the bounds, translates to a physical address, and only then is the
//! record decoded from the held bytes. An address that fails the check is an
//! ordinary `None` result at the call site, never an invalid read.

use vstd::prelude::*;

use crate::mem::PhysMem;
use crate::types::PAddr;

verus! {

/// The byte range `[b, b + s)` lies inside the window `[base, base + size)`.
///
/// Stated over unbounded integers, so a `base + size` that would overflow
/// the machine word cannot make an out-of-range address appear valid.
pub open spec fn spec_range_in_window(base: int, size: int, b: int, s: int) -> bool {
    b >= base && b + s <= base + size
}

/// A fixed-layout record that can be decoded in place from physical memory.
///
/// `is_decode_of(m, p)` pins every field of the record to the bytes of `m`
/// starting at physical address `p`; `decode_at` is the bounds-checked
/// field-by-field decode that produces it.
pub trait WireRecord: Sized {
    /// Number of bytes the record occupies in memory.
    spec fn spec_size() -> usize;

    /// The record holds exactly the fields decoded from `m` at `p`.
    spec fn is_decode_of(self, m: PhysMem, p: int) -> bool;

    /// Number of bytes the record occupies in memory; always at least one.
    fn wire_size() -> (r: usize)
        ensures
            r == Self::spec_size(),
            r >= 1,
    ;

    /// Decode the record from the bytes at physical address `p`.
    fn decode_at(mem: &PhysMem, p: u64) -> (r: Self)
        requires
            mem.inv(),
            mem.spec_covers(p as int, Self::spec_size() as int),
        ensures
            r.is_decode_of(*mem, p as int),
    ;
}

/// The virtual address a window assigns to physical address `p`.
pub open spec fn spec_from_paddr<W: VSpaceWindow>(w: W, p: int) -> int {
    p + w.spec_offset()
}

/// The physical address behind virtual address `a` of a window.
pub open spec fn spec_to_paddr<W: VSpaceWindow>(w: W, a: int) -> int {
    a - w.spec_offset()
}

/// The two affine translations of a window invert each other: translating a
/// physical address into a window and back yields the same physical address,
/// and translating a window address out and back in yields the same window
/// address.
pub proof fn lemma_translation_round_trip<W: VSpaceWindow>(w: W, p: int, a: int)
    ensures
        spec_to_paddr(w, spec_from_paddr(w, p)) == p,
        spec_from_paddr(w, spec_to_paddr(w, a)) == a,
{
}

/// Describes a single window into the virtual address space in the form of
/// a base and a size, plus the physical translation of the window kind.
///
/// An implementing kind fixes the three spec constants `spec_base`,
/// `spec_size` and `spec_offset` (virtual address = physical address +
/// offset), and a tagged address type `Addr` that only this window's methods
/// construct, so that holding an `Addr` is evidence the address was
/// in-bounds when it was made.
pub trait VSpaceWindow: Sized {
    /// An address whose type says it was validated against this window.
    type Addr: Copy;

    /// Base virtual address of the window.
    spec fn spec_base(&self) -> u64;

    /// Size of the window in bytes.
    spec fn spec_size(&self) -> u64;

    /// Virtual address = physical address + offset for this window kind.
    spec fn spec_offset(&self) -> u64;

    /// The raw virtual value a tagged address carries.
    spec fn spec_addr(a: Self::Addr) -> u64;

    /// Every window kind is non-empty, stays inside the machine address
    /// space, and maps physical addresses at or below its base.
    proof fn lemma_window_wf(&self)
        ensures
            self.spec_size() >= 1,
            self.spec_base() + self.spec_size() <= u64::MAX + 1,
            self.spec_offset() <= self.spec_base(),
    ;

    /// Get the base address of the window.
    fn base(&self) -> (r: u64)
        ensures
            r == self.spec_base(),
    ;

    /// Get the limit of the window.
    fn size(&self) -> (r: u64)
        ensures
            r == self.spec_size(),
    ;

    /// Offset the window adds to a physical address.
    fn phys_offset(&self) -> (r: u64)
        ensures
            r == self.spec_offset(),
    ;

    /// The raw virtual value of a tagged address.
    fn addr_value(a: Self::Addr) -> (r: u64)
        ensures
            r == Self::spec_addr(a),
    ;

    /// Construct a new window value of this kind.
    fn new() -> Self;

    /// Convert some virtual address into an address for this window.
    /// Fails exactly when the address lies outside the window.
    fn to_addr(&self, addr: u64) -> (r: Option<Self::Addr>)
        ensures
            r is Some <==> spec_range_in_window(
                self.spec_base() as int,
                self.spec_size() as int,
                addr as int,
                0,
            ),
            r matches Some(a) ==> Self::spec_addr(a) == addr,
    ;

    /// Translate a physical address to an address within this window.
    /// Fails exactly when the translated address falls outside the window.
    fn from_paddr(&self, paddr: PAddr) -> (r: Option<Self::Addr>)
        ensures
            r is Some <==> paddr.0 + self.spec_offset() <= u64::MAX && spec_range_in_window(
                self.spec_base() as int,
                self.spec_size() as int,
                paddr.0 + self.spec_offset(),
                0,
            ),
            r matches Some(a) ==> Self::spec_addr(a) == paddr.0 + self.spec_offset(),
    ;

    /// Translate an address from this window into a physical address.
    fn to_paddr(&self, a: Self::Addr) -> (r: PAddr)
        requires
            spec_range_in_window(
                self.spec_base() as int,
                self.spec_size() as int,
                Self::spec_addr(a) as int,
                0,
            ),
        ensures
            r.0 == Self::spec_addr(a) - self.spec_offset(),
    ;

    /// Tests if a range of bytes would be valid in this window.
    ///
    /// Holds exactly when `[b, b + s)` lies inside the window, also for
    /// sizes where `base + size` would overflow the machine word: the
    /// comparison is arranged so such an overflow can never produce a false
    /// positive.
    fn range_valid(&self, b: u64, s: u64) -> (r: bool)
        ensures
            r == spec_range_in_window(
                self.spec_base() as int,
                self.spec_size() as int,
                b as int,
                s as int,
            ),
    {
        proof {
            self.lemma_window_wf();
        }
        let base = self.base();
        let size = self.size();
        b >= base && s <= size && b - base <= size - s
    }

    /// Tests if a range of bytes starting at a tagged address would be
    /// valid in this window.
    fn addr_range_valid(&self, b: Self::Addr, s: u64) -> (r: bool)
        ensures
            r == spec_range_in_window(
                self.spec_base() as int,
                self.spec_size() as int,
                Self::spec_addr(b) as int,
                s as int,
            ),
    {
        self.range_valid(Self::addr_value(b), s)
    }

    /// Materialize a typed view of an existing record in memory.
    ///
    /// Succeeds exactly when the record's byte range lies inside the window
    /// and the translated physical range is held by `mem`; the result is
    /// then the field-by-field decode of those bytes. Returns `None`
    /// otherwise — never a partially-valid view.
    fn make<T: WireRecord>(&self, mem: &PhysMem, b: Self::Addr) -> (r: Option<T>)
        requires
            mem.inv(),
        ensures
            r is Some <==> spec_range_in_window(
                self.spec_base() as int,
                self.spec_size() as int,
                Self::spec_addr(b) as int,
                T::spec_size() as int,
            ) && mem.spec_covers(
                Self::spec_addr(b) - self.spec_offset(),
                T::spec_size() as int,
            ),
            r matches Some(t) ==> t.is_decode_of(
                *mem,
                Self::spec_addr(b) - self.spec_offset(),
            ),
    {
        proof {
            self.lemma_window_wf();
        }
        let len = T::wire_size() as u64;
        if !self.addr_range_valid(b, len) {
            return None;
        }
        let p = Self::addr_value(b) - self.phys_offset();
        if !mem.covers(p, len) {
            return None;
        }
        Some(T::decode_at(mem, p))
    }

    /// Materialize a fixed-length sequence of records in memory.
    ///
    /// Succeeds exactly when all `num` records lie inside the window and
    /// the translated physical range is held by `mem`; element `i` of the
    /// result is then the decode of the bytes at offset `i` records in.
    fn make_slice<T: WireRecord>(&self, mem: &PhysMem, b: Self::Addr, num: usize) -> (r: Option<
        Vec<T>,
    >)
        requires
            mem.inv(),
        ensures
            r is Some <==> T::spec_size() * num <= u64::MAX && spec_range_in_window(
                self.spec_base() as int,
                self.spec_size() as int,
                Self::spec_addr(b) as int,
                T::spec_size() * num,
            ) && mem.spec_covers(
                Self::spec_addr(b) - self.spec_offset(),
                T::spec_size() * num,
            ),
            r matches Some(v) ==> v@.len() == num && forall|i: int|
                0 <= i < num ==> v@[i].is_decode_of(
                    *mem,
                    Self::spec_addr(b) - self.spec_offset() + i * T::spec_size(),
                ),
    {
        proof {
            self.lemma_window_wf();
        }
        let size = T::wire_size() as u64;
        let num64 = num as u64;
        let total = if num64 == 0 || size <= u64::MAX / num64 {
            proof {
                assert(size * num64 <= u64::MAX) by (nonlinear_arith)
                    requires
                        size >= 0,
                        num64 >= 0,
                        num64 == 0 || size <= u64::MAX as int / num64 as int,
                ;
            }
            size * num64
        } else {
            proof {
                assert(size * num64 > u64::MAX) by (nonlinear_arith)
                    requires
                        num64 >= 1,
                        size > u64::MAX as int / num64 as int,
                ;
            }
            return None;
        };
        if !self.addr_range_valid(b, total) {
            return None;
        }
        let p0 = Self::addr_value(b) - self.phys_offset();
        if !mem.covers(p0, total) {
            return None;
        }
        let mut out: Vec<T> = Vec::new();
        let mut i: usize = 0;
        while i < num
            invariant
                i <= num,
                num64 == num,
                size == T::spec_size(),
                size >= 1,
                total == size * num64,
                p0 + total <= u64::MAX + 1,
                mem.inv(),
                mem.spec_covers(p0 as int, total as int),
                out@.len() == i,
                forall|j: int|
                    0 <= j < i ==> out@[j].is_decode_of(*mem, p0 + j * T::spec_size()),
            decreases num - i,
        {
            let i64 = i as u64;
            proof {
                assert(i64 * size + size <= num64 * size && i64 * size >= 0 && num64 * size
                    == size * num64) by (nonlinear_arith)
                    requires
                        0 <= i64 < num64,
                        size >= 0,
                ;
                assert(i64 * size == i as int * T::spec_size());
            }
            let t: T = T::decode_at(mem, p0 + i64 * size);
            out.push(t);
            i += 1;
        }
        Some(out)
    }

}

/// Accept a candidate smaller window exactly when its extent lies wholly
/// inside the parent window's extent, else reject it.
pub fn subwindow<P: VSpaceWindow, O: VSpaceWindow>(parent: &P, candidate: O) -> (r: Option<O>)
    ensures
        r is Some <==> spec_range_in_window(
            parent.spec_base() as int,
            parent.spec_size() as int,
            candidate.spec_base() as int,
            candidate.spec_size() as int,
        ),
        r matches Some(w) ==> w == candidate,
{
    let b = candidate.base();
    let s = candidate.size();
    if parent.range_valid(b, s) {
        Some(candidate)
    } else {
        None
    }
}

/// Materialize a record that lives at a physical address, going through a
/// window: the physical address is first translated into the window and the
/// translated range is bounds-checked before any byte is read.
///
/// Succeeds exactly when the translation stays representable, the record's
/// range lies inside the window, and `mem` holds the physical bytes.
pub fn materialize_at<T: WireRecord, W: VSpaceWindow>(window: &W, mem: &PhysMem, p: PAddr) -> (r:
    Option<T>)
    requires
        mem.inv(),
    ensures
        r is Some <==> spec_can_materialize_at::<W>(*window, *mem, p.0 as int, T::spec_size() as int),
        r matches Some(t) ==> t.is_decode_of(*mem, p.0 as int),
{
    let a = match window.from_paddr(p) {
        Some(a) => a,
        None => {
            return None;
        },
    };
    let r = window.make::<T>(mem, a);
    proof {
        window.lemma_window_wf();
    }
    r
}

/// Bounds check for [`materialize_at`] without reading anything: does a
/// range of `len` bytes at physical address `p` lie inside the window and
/// the held memory?
pub fn can_materialize_range<W: VSpaceWindow>(window: &W, mem: &PhysMem, p: PAddr, len: u64) -> (r:
    bool)
    requires
        mem.inv(),
    ensures
        r == spec_can_materialize_at::<W>(*window, *mem, p.0 as int, len as int),
{
    let off = window.phys_offset();
    if p.0 > u64::MAX - off {
        return false;
    }
    window.range_valid(p.0 + off, len) && mem.covers(p.0, len)
}

/// A record of `len` bytes at physical address `p` can be materialized
/// through window `w` from memory `m`: the translated virtual range stays
/// representable and inside the window, and `m` holds the bytes.
pub open spec fn spec_can_materialize_at<W: VSpaceWindow>(w: W, m: PhysMem, p: int, len: int) -> bool {
    p + w.spec_offset() <= u64::MAX && spec_range_in_window(
        w.spec_base() as int,
        w.spec_size() as int,
        p + w.spec_offset(),
        len,
    ) && m.spec_covers(p, len)
}

} // verus!
