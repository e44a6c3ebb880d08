//! Volatile register access over a model of the physical address space.
//!
//! A `Bus` holds the words behind the mapped addresses and the ordered
//! record of every access issued to it. Each read and each write is one
//! entry of that record, in the order issued: nothing is merged, reordered
//! or dropped, which is what volatile access promises.
use std::collections::HashMap;
use vstd::prelude::*;

use crate::bits::{valid_field, with_field, with_field_spec};

verus! {

broadcast use vstd::std_specs::hash::group_hash_axioms;

/// One access issued on the bus.
#[derive(Clone, Copy, Debug, PartialEq, Eq, Structural)]
pub enum Access {
    Read { addr: u32, value: u32 },
    Write { addr: u32, value: u32 },
}

/// The address space: the words behind mapped addresses, and the accesses
/// issued so far.
pub struct Bus {
    words: HashMap<u32, u32>,
    trace: Vec<Access>,
}

/// What a `Bus` holds, as mathematical values.
pub struct BusView {
    pub mem: Map<u32, u32>,
    pub trace: Seq<Access>,
}

impl View for Bus {
    type V = BusView;

    closed spec fn view(&self) -> BusView {
        BusView { mem: self.words@, trace: self.trace@ }
    }
}

/// The memory after a full-word write of `value` at `addr`, with the access
/// recorded.
pub open spec fn after_write(b: BusView, addr: u32, value: u32) -> BusView {
    BusView { mem: b.mem.insert(addr, value), trace: b.trace.push(Access::Write { addr, value }) }
}

/// The bus after a read-modify-write of `addr` that stores `value`: the read
/// of the old word and then the write, in that order.
pub open spec fn after_rmw(b: BusView, addr: u32, value: u32) -> BusView {
    BusView {
        mem: b.mem.insert(addr, value),
        trace: b.trace.push(Access::Read { addr, value: b.mem[addr] }).push(
            Access::Write { addr, value },
        ),
    }
}

impl Bus {
    /// An address space with nothing mapped and nothing issued.
    pub fn new() -> (r: Bus)
        ensures
            r@.mem == Map::<u32, u32>::empty(),
            r@.trace == Seq::<Access>::empty(),
    {
        Bus { words: HashMap::new(), trace: Vec::new() }
    }

    /// Backs `addr` with a word holding `value`, as the hardware's memory map
    /// does at reset. This is not an access: nothing is recorded.
    pub fn map_word(&mut self, addr: u32, value: u32)
        ensures
            final(self)@.mem == old(self)@.mem.insert(addr, value),
            final(self)@.trace == old(self)@.trace,
    {
        self.words.insert(addr, value);
    }

    /// Whether `addr` is backed by a word.
    pub fn is_mapped(&self, addr: u32) -> (r: bool)
        ensures
            r == self@.mem.contains_key(addr),
    {
        self.words.contains_key(&addr)
    }

    /// The word at `addr` as a debugger sees it, without issuing an access.
    pub fn peek(&self, addr: u32) -> (r: Option<u32>)
        ensures
            r == (if self@.mem.contains_key(addr) { Some(self@.mem[addr]) } else { None::<u32> }),
    {
        match self.words.get(&addr) {
            Some(v) => Some(*v),
            None => None,
        }
    }

    /// The number of accesses issued so far.
    pub fn trace_len(&self) -> (r: usize)
        ensures
            r == self@.trace.len(),
    {
        self.trace.len()
    }

    /// The `i`-th access issued.
    pub fn access_at(&self, i: usize) -> (r: Access)
        requires
            i < self@.trace.len(),
        ensures
            r == self@.trace[i as int],
    {
        self.trace[i]
    }

    /// Reads the word at a mapped address.
    pub fn read(&mut self, addr: u32) -> (r: u32)
        requires
            old(self)@.mem.contains_key(addr),
        ensures
            r == old(self)@.mem[addr],
            final(self)@.mem == old(self)@.mem,
            final(self)@.trace == old(self)@.trace.push(Access::Read { addr, value: r }),
    {
        let v = *self.words.get(&addr).unwrap();
        self.trace.push(Access::Read { addr, value: v });
        v
    }

    /// Reads the word at `addr`; `None` where nothing is mapped there, which
    /// on the hardware is a bus fault.
    pub fn load(&mut self, addr: u32) -> (r: Option<u32>)
        ensures
            old(self)@.mem.contains_key(addr) ==> r == Some(old(self)@.mem[addr])
                && final(self)@.trace == old(self)@.trace.push(
                Access::Read { addr, value: old(self)@.mem[addr] },
            ),
            !old(self)@.mem.contains_key(addr) ==> r is None && final(self)@.trace
                == old(self)@.trace,
            final(self)@.mem == old(self)@.mem,
    {
        if self.is_mapped(addr) {
            Some(self.read(addr))
        } else {
            None
        }
    }

    /// Writes a full word at a mapped address.
    pub fn write(&mut self, addr: u32, value: u32)
        requires
            old(self)@.mem.contains_key(addr),
        ensures
            final(self)@ == after_write(old(self)@, addr, value),
    {
        self.words.insert(addr, value);
        self.trace.push(Access::Write { addr, value });
    }

    /// Sets the bits of `mask` in the word at `addr` by a full read, an or,
    /// and a full write.
    pub fn set_bits(&mut self, addr: u32, mask: u32)
        requires
            old(self)@.mem.contains_key(addr),
        ensures
            final(self)@ == after_rmw(old(self)@, addr, old(self)@.mem[addr] | mask),
    {
        let v = self.read(addr);
        self.write(addr, v | mask);
    }

    /// Clears the bits of `mask` in the word at `addr` by a full read, an and
    /// with the complement, and a full write.
    pub fn clear_bits(&mut self, addr: u32, mask: u32)
        requires
            old(self)@.mem.contains_key(addr),
        ensures
            final(self)@ == after_rmw(old(self)@, addr, old(self)@.mem[addr] & !mask),
    {
        let v = self.read(addr);
        self.write(addr, v & !mask);
    }

    /// Replaces the field at `shift`, `width` bits wide, of the word at `addr`
    /// with `value`, by a full read, the field update, and a full write.
    pub fn write_field(&mut self, addr: u32, shift: u32, width: u32, value: u32)
        requires
            old(self)@.mem.contains_key(addr),
            valid_field(shift, width),
            (value as u64) < (1u64 << width),
        ensures
            final(self)@ == after_rmw(
                old(self)@,
                addr,
                with_field_spec(old(self)@.mem[addr], shift, width, value),
            ),
    {
        let v = self.read(addr);
        self.write(addr, with_field(v, shift, width, value));
    }
}

} // verus!
