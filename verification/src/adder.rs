use vstd::arithmetic::div_mod::{lemma_mod_add_multiples_vanish, lemma_small_mod};
use vstd::prelude::*;

verus! {

/// The sum of `x` and `y` reduced modulo 2^32.
pub open spec fn wrapped_sum(x: u32, y: u32) -> int {
    (x + y) % 0x1_0000_0000
}

/// Addition with wraparound semantics: overflow is not an error, the sum
/// silently wraps modulo 2^32. Total over the whole input domain, no side
/// effects, no failure modes.
pub fn add(x: u32, y: u32) -> (r: u32)
    ensures
        r == wrapped_sum(x, y),
{
    let r: u32 = x.wrapping_add(y);
    proof {
        if x + y <= u32::MAX {
            lemma_small_mod((x + y) as nat, 0x1_0000_0000nat);
        } else {
            lemma_mod_add_multiples_vanish(x + y - 0x1_0000_0000, 0x1_0000_0000int);
            lemma_small_mod((x + y - 0x1_0000_0000) as nat, 0x1_0000_0000nat);
        }
    }
    r
}

} // verus!
