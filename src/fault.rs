//! The fault handler and the abort hooks: every exception and every fatal
//! condition ends in one terminal trap.
use vstd::prelude::*;

verus! {

/// Who owns the single thread of execution.
#[derive(Clone, Copy, Debug, PartialEq, Eq, Structural)]
pub enum Control {
    /// The program entered from reset runs.
    Running,
    /// The fault handler took control; nothing ever returns from it.
    Trapped,
}

/// The program control state, with the number of debugger breakpoints that
/// the fault handler has issued.
#[derive(Clone, Copy, Debug, PartialEq, Eq, Structural)]
pub struct Core {
    pub control: Control,
    pub breakpoints: u32,
}

impl Core {
    /// A breakpoint is issued exactly once, on the way into the trap.
    pub open spec fn wf(&self) -> bool {
        self.breakpoints == (if self.control == Control::Trapped { 1u32 } else { 0u32 })
    }

    /// The state right after power-on or reset, whatever came before.
    pub fn reset() -> (r: Core)
        ensures
            r.control == Control::Running,
            r.breakpoints == 0,
            r.wf(),
    {
        Core { control: Control::Running, breakpoints: 0 }
    }

    /// Whether the fault handler owns control.
    pub fn is_trapped(&self) -> (r: bool)
        ensures
            r == (self.control == Control::Trapped),
    {
        match self.control {
            Control::Trapped => true,
            Control::Running => false,
        }
    }
}

/// The fault handler. Entered from the running program, it issues one
/// debugger breakpoint and keeps control for good. The trapped state is
/// absorbing: nothing changes once it holds.
pub fn handler(core: &mut Core)
    requires
        old(core).wf(),
    ensures
        final(core).wf(),
        final(core).control == Control::Trapped,
        old(core).control == Control::Running ==> final(core).breakpoints == 1,
        old(core).control == Control::Trapped ==> *final(core) == *old(core),
{
    if !core.is_trapped() {
        core.breakpoints = 1;
        core.control = Control::Trapped;
    }
}

/// The hook for a fatal condition of the language runtime: no formatting,
/// no unwinding, the same terminal trap as any exception.
pub fn panic_fmt(core: &mut Core)
    requires
        old(core).wf(),
    ensures
        final(core).wf(),
        final(core).control == Control::Trapped,
        old(core).control == Control::Running ==> final(core).breakpoints == 1,
        old(core).control == Control::Trapped ==> *final(core) == *old(core),
{
    handler(core);
}

/// The exception-handling personality hook: unwinding is not supported, so
/// there is nothing to look up and nothing to do.
pub fn eh_personality() {
}

} // verus!
