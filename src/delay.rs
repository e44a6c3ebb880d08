//! The busy-wait delay: a crude timebase measured in loop iterations.
use vstd::prelude::*;

verus! {

/// Relies on std::hint::black_box: it returns its argument unchanged, and the
/// optimizer must assume the value is used, so the loop that feeds it stays.
#[verifier::external_body]
fn keep(i: u32) -> (r: u32)
    ensures
        r == i,
{
    std::hint::black_box(i)
}

/// The busy-wait iterations that `delay(n)` spins.
pub open spec fn delay_iterations(n: nat) -> nat {
    n
}

/// Spins `n` iterations of a loop that the optimizer cannot remove, and
/// returns how many it spun.
pub fn delay(n: u32) -> (spun: u32)
    ensures
        spun == delay_iterations(n as nat),
{
    let mut i: u32 = 0;
    while i < n
        invariant
            i <= n,
        decreases n - i,
    {
        i = keep(i) + 1;
    }
    i
}

/// Two delays in a row spin at least as long as one delay over their sum,
/// less any slack `eps`: the timebase grows monotonically with its argument.
pub proof fn lemma_delay_monotonic(n1: nat, n2: nat, eps: nat)
    requires
        eps <= n1 + n2,
    ensures
        delay_iterations(n1) + delay_iterations(n2) >= delay_iterations((n1 + n2 - eps) as nat),
        delay_iterations(n1) <= delay_iterations(n1 + n2),
{
}

} // verus!
