//! Early memory stealing allocator.
//!
//! During kernel bootup some memory may need to be allocated. This allocator
//! provides a way to allocate such memory under the assumption that it will
//! never be freed: a cursor is bumped through a supplied sequence of free
//! physical ranges, consumed strictly in the order supplied and never
//! revisited, so no two allocations can ever overlap.

use vstd::prelude::*;

use crate::types::{BootError, PAddr};
use crate::util::math::{lemma_round_up, round_up, spec_round_up};
use crate::vspace::window::{spec_range_in_window, VSpaceWindow};

verus! {

/// The outcome of one allocation on an arena whose remaining ranges are
/// `ranges[next ..]` and whose current range is `[cursor, end)`: the chosen
/// address together with the state `(next, cursor, end)` after the
/// allocation, or `None` when no remaining range can satisfy the request.
///
/// The cursor is first rounded up to the alignment; if the request then fits
/// before `end`, the slice is carved there, else the next range is pulled
/// and the search continues, in supplied order only.
pub open spec fn spec_alloc_result(
    ranges: Seq<(PAddr, PAddr)>,
    next: int,
    cursor: int,
    end: int,
    size: int,
    align: int,
) -> Option<(int, int, int, int)>
    recommends
        align >= 1,
        0 <= next <= ranges.len(),
    decreases ranges.len() - next,
{
    if spec_round_up(cursor, align) + size <= end {
        Some((spec_round_up(cursor, align), next, spec_round_up(cursor, align) + size, end))
    } else if 0 <= next < ranges.len() {
        spec_alloc_result(
            ranges,
            next + 1,
            ranges[next].0.0 as int,
            ranges[next].1.0 as int,
            size,
            align,
        )
    } else {
        None
    }
}

/// The state `(next, cursor, end)` the arena is left in when a request
/// exhausts it: every remaining range was pulled and found insufficient.
pub open spec fn spec_drained_state(
    ranges: Seq<(PAddr, PAddr)>,
    next: int,
    cursor: int,
    end: int,
) -> (int, int, int) {
    if next < ranges.len() {
        (ranges.len() as int, ranges.last().0.0 as int, ranges.last().1.0 as int)
    } else {
        (next, cursor, end)
    }
}

/// No remaining range (current one included) can satisfy a request: the
/// request does not fit the current range, and does not fit any not yet
/// pulled range either.
pub open spec fn spec_no_range_fits(
    ranges: Seq<(PAddr, PAddr)>,
    next: int,
    cursor: int,
    end: int,
    size: int,
    align: int,
) -> bool {
    &&& spec_round_up(cursor, align) + size > end
    &&& forall|i: int|
        next <= i < ranges.len() ==> spec_round_up(#[trigger] ranges[i].0.0 as int, align) + size
            > ranges[i].1.0 as int
}

/// Exhaustion fires exactly when no remaining range can satisfy the
/// request: not before some range could still have served it, and not once
/// one of them can.
pub proof fn lemma_exhaustion_exact(
    ranges: Seq<(PAddr, PAddr)>,
    next: int,
    cursor: int,
    end: int,
    size: int,
    align: int,
)
    requires
        align >= 1,
        0 <= next <= ranges.len(),
    ensures
        spec_alloc_result(ranges, next, cursor, end, size, align) is None <==> spec_no_range_fits(
            ranges,
            next,
            cursor,
            end,
            size,
            align,
        ),
    decreases ranges.len() - next,
{
    if spec_round_up(cursor, align) + size <= end {
    } else if next < ranges.len() {
        lemma_exhaustion_exact(
            ranges,
            next + 1,
            ranges[next].0.0 as int,
            ranges[next].1.0 as int,
            size,
            align,
        );
    }
}

/// Two sequential allocations served from one contiguous range never
/// overlap, and the second allocation starts at the smallest address that
/// is at or after the end of the first and satisfies the second alignment.
pub proof fn lemma_sequential_allocations(
    ranges: Seq<(PAddr, PAddr)>,
    next: int,
    cursor: int,
    end: int,
    s1: int,
    a1: int,
    s2: int,
    a2: int,
)
    requires
        a1 >= 1,
        a2 >= 1,
        s1 >= 0,
        s2 >= 0,
        0 <= cursor,
        0 <= next <= ranges.len(),
        spec_round_up(cursor, a1) + s1 <= end,
        spec_round_up(spec_round_up(cursor, a1) + s1, a2) + s2 <= end,
    ensures
        ({
            let addr1 = spec_round_up(cursor, a1);
            let addr2 = spec_round_up(addr1 + s1, a2);
            &&& spec_alloc_result(ranges, next, cursor, end, s1, a1) == Some(
                (addr1, next, addr1 + s1, end),
            )
            &&& spec_alloc_result(ranges, next, addr1 + s1, end, s2, a2) == Some(
                (addr2, next, addr2 + s2, end),
            )
            &&& addr1 + s1 <= addr2
            &&& addr2 % a2 == 0
            &&& forall|x: int| x >= addr1 + s1 && #[trigger] (x % a2) == 0 ==> x >= addr2
        }),
{
    let addr1 = spec_round_up(cursor, a1);
    lemma_round_up(cursor, a1);
    lemma_round_up(addr1 + s1, a2);
}

/// Custom box for the returned allocations: the allocated object together
/// with the physical address of the range that was carved for it. Nothing
/// here is ever freed.
pub struct StealBox<T> {
    addr: PAddr,
    value: T,
}

/// A reserved place for one allocation: the physical range has been carved
/// and checked against the window, and waits for its value.
pub struct StealBoxPlace<T> {
    addr: PAddr,
    marker: core::marker::PhantomData<T>,
}

impl<T> StealBox<T> {
    /// Physical address of the allocation.
    pub closed spec fn spec_addr(&self) -> PAddr {
        self.addr
    }

    /// The held value.
    pub closed spec fn spec_value(&self) -> T {
        self.value
    }

    /// Physical address of the allocation.
    pub fn addr(&self) -> (r: PAddr)
        ensures
            r == self.spec_addr(),
    {
        self.addr
    }

    /// Read access to the allocated object.
    pub fn deref(&self) -> (r: &T)
        ensures
            *r == self.spec_value(),
    {
        &self.value
    }

    /// Write access to the allocated object.
    pub fn deref_mut(&mut self) -> (r: &mut T)
        ensures
            *r == old(self).spec_value(),
            final(self).spec_value() == *final(r),
            final(self).spec_addr() == old(self).spec_addr(),
    {
        &mut self.value
    }
}

impl<T> StealBoxPlace<T> {
    /// Physical address of the reserved range.
    pub closed spec fn spec_addr(&self) -> PAddr {
        self.addr
    }

    /// Physical address of the reserved range.
    pub fn pointer(&self) -> (r: PAddr)
        ensures
            r == self.spec_addr(),
    {
        self.addr
    }

    /// Move a value into the reserved place.
    pub fn finalize(self, value: T) -> (r: StealBox<T>)
        ensures
            r.spec_addr() == self.spec_addr(),
            r.spec_value() == value,
    {
        StealBox { addr: self.addr, value }
    }
}

/// The memory stealing allocator: a cursor over a supplied ordered sequence
/// of free physical `(start, end)` ranges, plus the window the allocations
/// are materialized through.
pub struct StealMem<'w, W: VSpaceWindow> {
    ranges: Vec<(PAddr, PAddr)>,
    next_range: usize,
    cursor: u64,
    end: u64,
    window: &'w W,
}

impl<'w, W: VSpaceWindow> StealMem<'w, W> {
    /// The supplied ranges.
    pub closed spec fn spec_ranges(&self) -> Seq<(PAddr, PAddr)> {
        self.ranges@
    }

    /// Index of the next range to pull.
    pub closed spec fn spec_next(&self) -> int {
        self.next_range as int
    }

    /// Cursor of the current range: everything before it is spoken for.
    pub closed spec fn spec_cursor(&self) -> int {
        self.cursor as int
    }

    /// End of the current range.
    pub closed spec fn spec_end(&self) -> int {
        self.end as int
    }

    /// The window the allocator materializes through.
    pub closed spec fn spec_window(&self) -> &'w W {
        self.window
    }

    /// The cursor never passes the end of the current range, the range
    /// index stays in bounds, and every supplied range is a proper
    /// `(start, end)` pair.
    pub open spec fn wf(&self) -> bool {
        &&& self.spec_cursor() <= self.spec_end()
        &&& 0 <= self.spec_next() <= self.spec_ranges().len()
        &&& forall|i: int|
            0 <= i < self.spec_ranges().len() ==> (#[trigger] self.spec_ranges()[i]).0.0
                <= self.spec_ranges()[i].1.0
    }

    /// Construct a new allocator over an ordered sequence of free physical
    /// `(start, end)` ranges. The caller orders the ranges so that early
    /// ones are representable in the supplied window, since allocations are
    /// served from them strictly in order.
    pub fn new(ranges: Vec<(PAddr, PAddr)>, window: &'w W) -> (r: StealMem<'w, W>)
        requires
            forall|i: int|
                0 <= i < ranges@.len() ==> (#[trigger] ranges@[i]).0.0 <= ranges@[i].1.0,
        ensures
            r.wf(),
            r.spec_ranges() == ranges@,
            r.spec_next() == 0,
            r.spec_cursor() == 0,
            r.spec_end() == 0,
            r.spec_window() == window,
    {
        StealMem { ranges, next_range: 0, cursor: 0, end: 0, window }
    }

    /// Allocate a range of `size` bytes at the given alignment.
    ///
    /// Returns the rounded-up cursor of the first remaining range that can
    /// hold the request, advancing the arena exactly as
    /// [`spec_alloc_result`] describes; signals
    /// [`BootError::BootstrapArenaExhausted`] exactly when no remaining
    /// range fits, which leaves the arena drained.
    pub fn alloc_raw(&mut self, size: u64, align: u64) -> (r: Result<PAddr, BootError>)
        requires
            align >= 1,
            old(self).wf(),
        ensures
            final(self).wf(),
            final(self).spec_ranges() == old(self).spec_ranges(),
            final(self).spec_window() == old(self).spec_window(),
            ({
                let res = spec_alloc_result(
                    old(self).spec_ranges(),
                    old(self).spec_next(),
                    old(self).spec_cursor(),
                    old(self).spec_end(),
                    size as int,
                    align as int,
                );
                match r {
                    Ok(a) => res matches Some(s) && a.0 == s.0 && final(self).spec_next() == s.1
                        && final(self).spec_cursor() == s.2 && final(self).spec_end() == s.3,
                    Err(e) => e == BootError::BootstrapArenaExhausted && res is None && (
                    final(self).spec_next(),
                    final(self).spec_cursor(),
                    final(self).spec_end(),
                    ) == spec_drained_state(
                        old(self).spec_ranges(),
                        old(self).spec_next(),
                        old(self).spec_cursor(),
                        old(self).spec_end(),
                    ),
                }
            }),
    {
        loop
            invariant
                align >= 1,
                self.wf(),
                self.spec_ranges() == old(self).spec_ranges(),
                self.spec_window() == old(self).spec_window(),
                spec_alloc_result(
                    self.spec_ranges(),
                    self.spec_next(),
                    self.spec_cursor(),
                    self.spec_end(),
                    size as int,
                    align as int,
                ) == spec_alloc_result(
                    old(self).spec_ranges(),
                    old(self).spec_next(),
                    old(self).spec_cursor(),
                    old(self).spec_end(),
                    size as int,
                    align as int,
                ),
                spec_drained_state(
                    self.spec_ranges(),
                    self.spec_next(),
                    self.spec_cursor(),
                    self.spec_end(),
                ) == spec_drained_state(
                    old(self).spec_ranges(),
                    old(self).spec_next(),
                    old(self).spec_cursor(),
                    old(self).spec_end(),
                ),
            decreases self.spec_ranges().len() - self.spec_next(),
        {
            // Does the request fit the current range once the cursor is
            // rounded up to the alignment?
            let diff = self.cursor % align;
            proof {
                assert(0 <= self.cursor % align < align) by (nonlinear_arith)
                    requires
                        align >= 1,
                ;
            }
            let fits: bool = if diff == 0 {
                size <= self.end - self.cursor
            } else if align - diff <= u64::MAX - self.cursor {
                let aligned = self.cursor + (align - diff);
                aligned <= self.end && size <= self.end - aligned
            } else {
                // rounding alone would leave the address space, so the
                // current range cannot hold the request
                false
            };
            if fits {
                let next_base = round_up(self.cursor, align);
                self.cursor = next_base + size;
                return Ok(PAddr(next_base));
            }
            if self.next_range < self.ranges.len() {
                let range = self.ranges[self.next_range];
                self.next_range = self.next_range + 1;
                self.cursor = range.0.0;
                self.end = range.1.0;
            } else {
                return Err(BootError::BootstrapArenaExhausted);
            }
        }
    }

    /// Reserve a place for a `T` at the given alignment and materialize it
    /// through the allocator's window.
    ///
    /// Fails with [`BootError::BootstrapArenaExhausted`] exactly when no
    /// remaining range holds `size_of::<T>()` bytes, and with
    /// [`BootError::OutOfWindowAccess`] when the carved range does not lie
    /// inside the window.
    pub fn allocate<T>(&mut self, align: u64) -> (r: Result<StealBoxPlace<T>, BootError>)
        requires
            align >= 1,
            old(self).wf(),
        ensures
            final(self).wf(),
            final(self).spec_ranges() == old(self).spec_ranges(),
            final(self).spec_window() == old(self).spec_window(),
            ({
                let res = spec_alloc_result(
                    old(self).spec_ranges(),
                    old(self).spec_next(),
                    old(self).spec_cursor(),
                    old(self).spec_end(),
                    vstd::layout::size_of::<T>() as int,
                    align as int,
                );
                match r {
                    Ok(place) => res matches Some(s) && place.spec_addr().0 == s.0 && (s.0
                        + old(self).spec_window().spec_offset() <= u64::MAX) && spec_range_in_window(
                        old(self).spec_window().spec_base() as int,
                        old(self).spec_window().spec_size() as int,
                        s.0 + old(self).spec_window().spec_offset(),
                        vstd::layout::size_of::<T>() as int,
                    ),
                    Err(e) => (e == BootError::BootstrapArenaExhausted && res is None) || (e
                        == BootError::OutOfWindowAccess && (res matches Some(s) && !(s.0 + old(
                        self,
                    ).spec_window().spec_offset() <= u64::MAX && spec_range_in_window(
                        old(self).spec_window().spec_base() as int,
                        old(self).spec_window().spec_size() as int,
                        s.0 + old(self).spec_window().spec_offset(),
                        vstd::layout::size_of::<T>() as int,
                    )))),
                }
            }),
    {
        let size = core::mem::size_of::<T>() as u64;
        let base = match self.alloc_raw(size, align) {
            Ok(p) => p,
            Err(e) => {
                return Err(e);
            },
        };
        // The carved range must be reachable through the window before a
        // value can be materialized in it.
        let addr = match self.window.from_paddr(base) {
            Some(a) => a,
            None => {
                return Err(BootError::OutOfWindowAccess);
            },
        };
        if !self.window.addr_range_valid(addr, size) {
            return Err(BootError::OutOfWindowAccess);
        }
        Ok(StealBoxPlace { addr: base, marker: core::marker::PhantomData })
    }
}

} // verus!
