use crate::adder::wrapped_sum;
use crate::subtractor::wrapped_diff;
use vstd::prelude::*;

verus! {

/// The arithmetic operation a caller selects. The enumeration is closed —
/// exactly these two variants — so dispatch over it is exhaustive by
/// construction and needs no default branch.
#[derive(Clone, Copy, Debug, PartialEq, Eq, Structural)]
pub enum Op {
    Add,
    Subtract,
}

/// What evaluating `op` on `x` and `y` yields: the wrapped sum for
/// [`Op::Add`], the wrapped difference for [`Op::Subtract`].
pub open spec fn eval_spec(op: Op, x: u32, y: u32) -> int {
    match op {
        Op::Add => wrapped_sum(x, y),
        Op::Subtract => wrapped_diff(x, y),
    }
}

/// Routes the call to the provider that `op` names and returns its result
/// verbatim. No side effects beyond the downstream call; no failure modes.
pub fn eval_expression(op: Op, x: u32, y: u32) -> (r: u32)
    ensures
        r == eval_spec(op, x, y),
{
    match op {
        Op::Add => crate::adder::add(x, y),
        Op::Subtract => crate::subtractor::subtract(x, y),
    }
}

/// Law: evaluating [`Op::Add`] agrees with the adder on every pair of
/// operands.
pub proof fn lemma_eval_add_agrees(x: u32, y: u32)
    ensures
        eval_spec(Op::Add, x, y) == wrapped_sum(x, y),
{
}

/// Law: evaluating [`Op::Subtract`] agrees with the subtractor on every pair
/// of operands.
pub proof fn lemma_eval_subtract_agrees(x: u32, y: u32)
    ensures
        eval_spec(Op::Subtract, x, y) == wrapped_diff(x, y),
{
}

} // verus!
