//! The exception vector table: a fixed-length, fixed-order table of optional
//! handlers that the hardware reads when an exception fires.
use vstd::prelude::*;

use crate::fault::{handler, Control, Core};

verus! {

/// The number of entries of the table.
pub const EXCEPTION_COUNT: usize = 14;

/// A handler that a table entry can bind.
#[derive(Clone, Copy, Debug, PartialEq, Eq, Structural)]
pub enum Handler {
    /// The terminal fault handler.
    Fault,
}

/// The exceptions with an architectural entry in the table.
#[derive(Clone, Copy, Debug, PartialEq, Eq, Structural)]
pub enum Exception {
    Nmi,
    HardFault,
    MemManage,
    BusFault,
    UsageFault,
    SvCall,
    PendSv,
    SysTick,
}

/// The entry of `e` in the table.
pub open spec fn exception_index(e: Exception) -> int {
    match e {
        Exception::Nmi => 0,
        Exception::HardFault => 1,
        Exception::MemManage => 2,
        Exception::BusFault => 3,
        Exception::UsageFault => 4,
        Exception::SvCall => 9,
        Exception::PendSv => 12,
        Exception::SysTick => 13,
    }
}

/// The entries that the architecture reserves: they bind no handler.
pub open spec fn is_reserved(i: int) -> bool {
    (5 <= i && i <= 8) || i == 10 || i == 11
}

impl Exception {
    /// The entry of this exception in the table.
    pub fn index(&self) -> (r: usize)
        ensures
            r as int == exception_index(*self),
            r < EXCEPTION_COUNT,
            !is_reserved(r as int),
    {
        match self {
            Exception::Nmi => 0,
            Exception::HardFault => 1,
            Exception::MemManage => 2,
            Exception::BusFault => 3,
            Exception::UsageFault => 4,
            Exception::SvCall => 9,
            Exception::PendSv => 12,
            Exception::SysTick => 13,
        }
    }
}

/// Whether entry `i` is reserved.
pub fn reserved(i: usize) -> (r: bool)
    ensures
        r == is_reserved(i as int),
{
    (5 <= i && i <= 8) || i == 10 || i == 11
}

/// The table, built once and never changed.
pub struct VectorTable {
    entries: Vec<Option<Handler>>,
}

impl View for VectorTable {
    type V = Seq<Option<Handler>>;

    closed spec fn view(&self) -> Seq<Option<Handler>> {
        self.entries@
    }
}

impl VectorTable {
    /// The handler bound at entry `i`, if any.
    pub fn entry(&self, i: usize) -> (r: Option<Handler>)
        requires
            i < self@.len(),
        ensures
            r == self@[i as int],
    {
        self.entries[i]
    }

    /// The number of entries.
    pub fn len(&self) -> (r: usize)
        ensures
            r == self@.len(),
    {
        self.entries.len()
    }
}

/// The table that every program places: each reserved entry empty, every
/// other entry bound to the fault handler.
pub fn exceptions() -> (t: VectorTable)
    ensures
        t@.len() == EXCEPTION_COUNT,
        forall|i: int|
            0 <= i < EXCEPTION_COUNT ==> (#[trigger] t@[i] == (if is_reserved(i) {
                None
            } else {
                Some(Handler::Fault)
            })),
{
    let mut entries: Vec<Option<Handler>> = Vec::new();
    let mut i: usize = 0;
    while i < EXCEPTION_COUNT
        invariant
            i <= EXCEPTION_COUNT,
            entries@.len() == i,
            forall|j: int|
                0 <= j < i ==> (#[trigger] entries@[j] == (if is_reserved(j) {
                    None
                } else {
                    Some(Handler::Fault)
                })),
        decreases EXCEPTION_COUNT - i,
    {
        if reserved(i) {
            entries.push(None);
        } else {
            entries.push(Some(Handler::Fault));
        }
        i = i + 1;
    }
    VectorTable { entries }
}

/// The hardware's response to exception number `i` while `core` runs: the
/// handler bound at that entry takes control. An entry that binds none
/// escalates to the hard fault, whose entry binds the fault handler too.
pub fn take_exception(table: &VectorTable, i: usize, core: &mut Core)
    requires
        old(core).wf(),
        i < table@.len(),
        table@.len() == EXCEPTION_COUNT,
        table@[1] == Some(Handler::Fault),
    ensures
        final(core).wf(),
        final(core).control == Control::Trapped,
        old(core).control == Control::Running ==> final(core).breakpoints == 1,
        old(core).control == Control::Trapped ==> *final(core) == *old(core),
{
    let bound = match table.entry(i) {
        Some(h) => h,
        None => table.entry(1).unwrap(),
    };
    match bound {
        Handler::Fault => handler(core),
    }
}

} // verus!
