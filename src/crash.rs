//! A program that crashes on purpose: it reads the word at address zero,
//! the initial stack pointer, which points just past the end of RAM, and
//! dereferences it. The bus fault that follows hands control to the fault
//! handler, for good.
use vstd::prelude::*;

use crate::fault::{Control, Core};
use crate::mmio::{Access, Bus};
use crate::vectors::{take_exception, Exception, Handler, VectorTable, EXCEPTION_COUNT};

verus! {

/// The address of the word that holds the initial stack pointer.
pub const SRAM_BOUNDARY_PTR: u32 = 0x0000_0000;

/// The reset entry of the crashing program. It issues reads only; a read of
/// an unmapped address faults, and the fault hands control to the handler
/// bound in `table`, which issues one breakpoint and keeps control.
pub fn reset_entry(bus: &mut Bus, core: &mut Core, table: &VectorTable)
    requires
        old(core).wf(),
        old(core).control == Control::Running,
        table@.len() == EXCEPTION_COUNT,
        table@[1] == Some(Handler::Fault),
        table@[3] == Some(Handler::Fault),
    ensures
        final(bus)@.mem == old(bus)@.mem,
        final(core).wf(),
        ({
            let m = old(bus)@.mem;
            let t = old(bus)@.trace;
            let p = SRAM_BOUNDARY_PTR;
            if !m.contains_key(p) {
                final(core).control == Control::Trapped && final(bus)@.trace == t
            } else if !m.contains_key(m[p]) {
                &&& final(core).control == Control::Trapped
                &&& final(bus)@.trace == t.push(Access::Read { addr: p, value: m[p] })
            } else {
                &&& *final(core) == *old(core)
                &&& final(bus)@.trace == t.push(Access::Read { addr: p, value: m[p] }).push(
                    Access::Read { addr: m[p], value: m[m[p]] },
                )
            }
        }),
        final(core).control == Control::Trapped ==> final(core).breakpoints == 1,
{
    let bus_fault = Exception::BusFault.index();
    match bus.load(SRAM_BOUNDARY_PTR) {
        None => take_exception(table, bus_fault, core),
        Some(sram_boundary) => match bus.load(sram_boundary) {
            None => take_exception(table, bus_fault, core),
            Some(_crash) => {},
        },
    }
}

} // verus!
