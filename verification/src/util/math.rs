//! Math helper routines.

use vstd::prelude::*;

verus! {

/// The smallest multiple of `align` that is at least `val`.
pub open spec fn spec_round_up(val: int, align: int) -> int
    recommends
        align >= 1,
{
    if val % align == 0 {
        val
    } else {
        val + align - val % align
    }
}

/// The rounded value is the least alignment multiple at or above `val`.
pub proof fn lemma_round_up(val: int, align: int)
    requires
        align >= 1,
        val >= 0,
    ensures
        spec_round_up(val, align) % align == 0,
        val <= spec_round_up(val, align) < val + align,
        forall|x: int| x >= val && #[trigger] (x % align) == 0 ==> x >= spec_round_up(val, align),
{
    let r = spec_round_up(val, align);
    assert(r % align == 0) by {
        if val % align != 0 {
            assert((val + (align - val % align)) % align == 0) by (nonlinear_arith)
                requires
                    align >= 1,
                    val >= 0,
            ;
        }
    }
    assert(0 <= val % align < align) by (nonlinear_arith)
        requires
            align >= 1,
            val >= 0,
    ;
    assert forall|x: int| x >= val && #[trigger] (x % align) == 0 implies x >= r by {
        if x < r {
            // x lies strictly between the previous multiple and r
            assert(val <= x < val + align - val % align);
            assert(x % align != 0) by (nonlinear_arith)
                requires
                    align >= 1,
                    val >= 0,
                    val % align != 0,
                    val <= x < val + align - val % align,
            ;
        }
    }
}

/// Round a value up by the given alignment.
pub fn round_up(val: u64, align: u64) -> (r: u64)
    requires
        align >= 1,
        spec_round_up(val as int, align as int) <= u64::MAX,
    ensures
        r == spec_round_up(val as int, align as int),
{
    let diff = val % align;
    proof {
        assert(0 <= val % align < align) by (nonlinear_arith)
            requires
                align >= 1,
        ;
    }
    if diff == 0 {
        val
    } else {
        val + (align - diff)
    }
}

} // verus!
