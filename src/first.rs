//! The smallest program: it puts two values on the stack and spins.
use vstd::prelude::*;

verus! {

/// The reset entry of the smallest program: it copies one local into
/// another and returns the copy; what follows is an endless spin that issues
/// no access.
pub fn start() -> (y: u32)
    ensures
        y == 42,
{
    let x: u32 = 42;
    let y: u32 = x;
    y
}

} // verus!
