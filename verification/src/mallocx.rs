//! Flag encodings of the jemalloc-style extended allocation API.
//!
//! The browser build of the proof verifier replaces the native allocator
//! with a shim over the standard one; these are the flag encodings of the
//! extended API that the shim keeps offering.

use vstd::arithmetic::power2::{lemma2_to64, lemma_pow2_unfold, pow2};
use vstd::prelude::*;

verus! {

/// The floor of the base-two logarithm (zero below two).
pub open spec fn floor_log2(v: nat) -> nat
    decreases v,
{
    if v <= 1 {
        0
    } else {
        1 + floor_log2(v / 2)
    }
}

/// The floor of the logarithm of anything below two to the `n` is below `n`.
proof fn lemma_floor_log2_bound(v: nat, n: nat)
    requires
        v < pow2(n),
        n >= 1,
    ensures
        floor_log2(v) < n,
    decreases n,
{
    if v > 1 {
        lemma_pow2_unfold(n);
        if n == 1 {
            lemma2_to64();
        } else {
            lemma_floor_log2_bound(v / 2, (n - 1) as nat);
        }
    }
}

/// The alignment flag: the floor of the base-two logarithm of the requested
/// alignment, shifted into the low bits, and zero for a zero alignment.
#[allow(non_snake_case)]
pub fn MALLOCX_ALIGN(align: usize) -> (r: i32)
    ensures
        align == 0 ==> r == 0,
        align > 0 ==> r == 2 * floor_log2(align as nat),
{
    if align == 0 {
        0
    } else {
        let mut v = align;
        let mut result: usize = 0;
        while v > 1
            invariant
                v >= 1,
                result + v <= align,
                floor_log2(align as nat) == result + floor_log2(v as nat),
            decreases v,
        {
            v = v / 2;
            result = result + 1;
        }
        proof {
            lemma2_to64();
            lemma_floor_log2_bound(align as nat, 64);
        }
        let shifted = result as i32;
        proof {
            assert(shifted << 1u32 == 2 * shifted) by (bit_vector)
                requires
                    0 <= shifted < 64,
            ;
        }
        shifted << 1u32
    }
}

/// The zero-fill flag: a one in its reserved bit position.
#[allow(non_snake_case)]
pub fn MALLOCX_ZERO() -> (r: i32)
    ensures
        r == 1024,
{
    proof {
        assert(1i32 << 10u32 == 1024i32) by (bit_vector);
    }
    1i32 << 10u32
}

} // verus!
