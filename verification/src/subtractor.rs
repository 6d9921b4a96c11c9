use vstd::arithmetic::div_mod::{lemma_mod_add_multiples_vanish, lemma_small_mod};
use vstd::prelude::*;

verus! {

/// The difference `x - y` reduced modulo 2^32 (Euclidean remainder, so the
/// result is in range even when `y > x`).
pub open spec fn wrapped_diff(x: u32, y: u32) -> int {
    (x - y) % 0x1_0000_0000
}

/// Subtraction with wraparound semantics: when `y > x` the difference
/// silently wraps modulo 2^32 rather than signaling underflow. Callers must
/// not assume a signed or error-on-underflow result. Total over the whole
/// input domain, no side effects, no failure modes.
pub fn subtract(x: u32, y: u32) -> (r: u32)
    ensures
        r == wrapped_diff(x, y),
{
    let r: u32 = x.wrapping_sub(y);
    proof {
        if x >= y {
            lemma_small_mod((x - y) as nat, 0x1_0000_0000nat);
        } else {
            lemma_mod_add_multiples_vanish(x - y, 0x1_0000_0000int);
            lemma_small_mod((x - y + 0x1_0000_0000) as nat, 0x1_0000_0000nat);
        }
    }
    r
}

} // verus!
