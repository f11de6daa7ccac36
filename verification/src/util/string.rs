//! Helper routines for strings.
//!
//! Command line values arrive as byte strings; this module gives the
//! verified digit-by-digit integer parsing used to read them, with an
//! optional `0x` prefix that overrides the caller's radix.

use vstd::prelude::*;

verus! {

/// Value of one digit byte: `0`-`9`, `a`-`z` and `A`-`Z` in the usual way;
/// any other byte maps to 36, which no supported radix admits.
pub open spec fn spec_digit_value(c: u8) -> int {
    if 48 <= c <= 57 {
        c - 48
    } else if 97 <= c <= 122 {
        c - 87
    } else if 65 <= c <= 90 {
        c - 55
    } else {
        36
    }
}

/// Every byte of `s` is a digit admitted by `radix`.
pub open spec fn spec_all_digits(s: Seq<u8>, radix: int) -> bool {
    forall|i: int| 0 <= i < s.len() ==> spec_digit_value(#[trigger] s[i]) < radix
}

/// The unbounded value of the digit string `s` read in `radix`.
pub open spec fn spec_radix_value(s: Seq<u8>, radix: int) -> int
    decreases s.len(),
{
    if s.len() == 0 {
        0
    } else {
        spec_radix_value(s.drop_last(), radix) * radix + spec_digit_value(s.last())
    }
}

/// The digit string has a leading `0x` or `0X` radix-override prefix.
pub open spec fn spec_has_hex_prefix(s: Seq<u8>) -> bool {
    s.len() >= 2 && s[0] == 48 && (s[1] == 120 || s[1] == 88)
}

/// The value of a digit string never shrinks as more digits are appended.
proof fn lemma_radix_value_monotone(s: Seq<u8>, i: int, radix: int)
    requires
        2 <= radix,
        0 <= i <= s.len(),
    ensures
        spec_radix_value(s, radix) >= spec_radix_value(s.take(i), radix),
        spec_radix_value(s, radix) >= 0,
    decreases s.len(),
{
    if s.len() == 0 {
        assert(s.take(i) =~= s);
    } else {
        lemma_radix_value_monotone(s.drop_last(), if i <= s.len() - 1 {
            i
        } else {
            s.len() - 1
        }, radix);
        if i <= s.len() - 1 {
            assert(s.drop_last().take(i) =~= s.take(i));
        } else {
            assert(s.take(i) =~= s);
        }
        let prev = spec_radix_value(s.drop_last(), radix);
        assert(prev * radix >= prev) by (nonlinear_arith)
            requires
                prev >= 0,
                radix >= 1,
        ;
    }
}

/// Trait for doing more interesting string conversions involving prefixes.
pub trait FromStrExt: Sized {
    /// What parsing the digit string `s` in `radix` yields: the value when
    /// every byte is an admitted digit, there is at least one of them, and
    /// the value fits the type; nothing otherwise.
    spec fn spec_from_radix(s: Seq<u8>, radix: int) -> Option<Self>;

    /// Parse a digit string in the given radix.
    fn from_str_radix(input: &[u8], radix: u32) -> (r: Option<Self>)
        requires
            2 <= radix <= 36,
        ensures
            r == Self::spec_from_radix(input@, radix as int),
    ;

    /// Convert a string that potentially contains a prefix that can
    /// override the passed radix: a leading `0x` or `0X` switches the rest
    /// of the string to radix 16.
    fn from_str_prefix_radix(input: &[u8], radix: u32) -> (r: Option<Self>)
        requires
            2 <= radix <= 36,
        ensures
            r == if spec_has_hex_prefix(input@) {
                Self::spec_from_radix(input@.skip(2), 16)
            } else {
                Self::spec_from_radix(input@, radix as int)
            },
    {
        if input.len() >= 2 {
            let b0 = *vstd::slice::slice_index_get(input, 0);
            let b1 = *vstd::slice::slice_index_get(input, 1);
            if b0 == 48 && (b1 == 120 || b1 == 88) {
                let rest = vstd::slice::slice_subrange(input, 2, input.len());
                return Self::from_str_radix(rest, 16);
            }
        }
        Self::from_str_radix(input, radix)
    }

    /// Use `from_str_prefix_radix` with a default radix of 10.
    fn from_str_prefix(input: &[u8]) -> (r: Option<Self>)
        ensures
            r == if spec_has_hex_prefix(input@) {
                Self::spec_from_radix(input@.skip(2), 16)
            } else {
                Self::spec_from_radix(input@, 10)
            },
    {
        Self::from_str_prefix_radix(input, 10)
    }
}

impl FromStrExt for u16 {
    open spec fn spec_from_radix(s: Seq<u8>, radix: int) -> Option<u16> {
        if s.len() > 0 && spec_all_digits(s, radix) && spec_radix_value(s, radix) <= u16::MAX {
            Some(spec_radix_value(s, radix) as u16)
        } else {
            None
        }
    }

    fn from_str_radix(input: &[u8], radix: u32) -> (r: Option<u16>) {
        if input.len() == 0 {
            return None;
        }
        let radix32: u32 = radix;
        // `acc` tracks the value of the digits read so far, saturated at
        // one past the largest representable value once it can no longer
        // come back into range.
        let mut acc: u32 = 0;
        let mut i: usize = 0;
        while i < input.len()
            invariant
                2 <= radix32 <= 36,
                radix32 == radix,
                0 <= i <= input@.len(),
                spec_all_digits(input@.take(i as int), radix32 as int),
                if spec_radix_value(input@.take(i as int), radix32 as int) <= u16::MAX {
                    acc == spec_radix_value(input@.take(i as int), radix32 as int)
                } else {
                    acc == 0x1_0000
                },
            decreases input@.len() - i,
        {
            let c = *vstd::slice::slice_index_get(input, i);
            let d: u32 = if 48 <= c && c <= 57 {
                (c - 48) as u32
            } else if 97 <= c && c <= 122 {
                (c - 87) as u32
            } else if 65 <= c && c <= 90 {
                (c - 55) as u32
            } else {
                36
            };
            proof {
                assert(d == spec_digit_value(input@[i as int]));
            }
            if d >= radix32 {
                proof {
                    assert(!spec_all_digits(input@, radix32 as int));
                }
                return None;
            }
            proof {
                assert(acc * radix32 <= 0x1_0000 * 36) by (nonlinear_arith)
                    requires
                        0 <= acc <= 0x1_0000,
                        0 <= radix32 <= 36,
                ;
            }
            let grown = acc * radix32 + d;
            proof {
                let pre = input@.take(i as int);
                let now = input@.take(i + 1);
                assert(now.drop_last() =~= pre);
                assert(now.last() == input@[i as int]);
                let v = spec_radix_value(pre, radix32 as int);
                lemma_radix_value_monotone(pre, i as int, radix32 as int);
                if v > u16::MAX {
                    assert(v * radix32 + spec_digit_value(input@[i as int]) > u16::MAX)
                        by (nonlinear_arith)
                        requires
                            v > u16::MAX,
                            radix32 >= 2,
                            spec_digit_value(input@[i as int]) >= 0,
                    ;
                }
            }
            acc = if grown > 0xFFFF {
                0x1_0000
            } else {
                grown
            };
            i = i + 1;
        }
        proof {
            assert(input@.take(input@.len() as int) =~= input@);
        }
        if acc <= 0xFFFF {
            Some(acc as u16)
        } else {
            None
        }
    }
}

} // verus!
