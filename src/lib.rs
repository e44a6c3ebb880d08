//! A bare-metal runtime core for a small microcontroller, modelled so that
//! every step can be proved: volatile register access over a model of the
//! address space, peripheral control built from single-bit and multi-bit
//! register updates, a busy-wait delay, the exception vector table, and the
//! terminal fault trap that every exception ends in.
use vstd::prelude::*;

pub mod bits;
pub mod mmio;
pub mod peripheral;
pub mod delay;
pub mod fault;
pub mod vectors;
pub mod led;
pub mod blink;
pub mod crash;
pub mod first;

verus! {

} // verus!
