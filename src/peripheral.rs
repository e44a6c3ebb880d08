//! Peripheral control: clock gating, pin mode fields and the atomic
//! set/reset register, each expressed as register operations on a `Bus`.
use vstd::prelude::*;

use crate::bits::{bit_of, field_of, valid_field, with_bit_set, with_field, with_field_spec};
use crate::mmio::{after_rmw, after_write, Access, Bus, BusView};

verus! {

/// Base address of the clock-control register block.
pub const RCC: u32 = 0x4002_1000;

/// A peripheral's clock-enable bit: the register that holds it and the
/// bit's position in that register.
#[derive(Clone, Copy, Debug, PartialEq, Eq, Structural)]
pub struct ClockGate {
    pub reg: u32,
    pub bit: u32,
}

/// A pin's mode field: the register that holds it, its lowest bit and its
/// width in bits.
#[derive(Clone, Copy, Debug, PartialEq, Eq, Structural)]
pub struct PinField {
    pub reg: u32,
    pub shift: u32,
    pub width: u32,
}

/// An output pin driven through its port's set/reset register: writing bit
/// `index` drives it high, writing bit `index + 16` drives it low.
#[derive(Clone, Copy, Debug, PartialEq, Eq, Structural)]
pub struct Pin {
    pub bsrr: u32,
    pub index: u32,
}

impl ClockGate {
    pub open spec fn wf(&self) -> bool {
        self.bit < 32
    }
}

impl PinField {
    pub open spec fn wf(&self) -> bool {
        valid_field(self.shift, self.width)
    }

    /// Whether bit `j` of the register belongs to this field.
    pub open spec fn covers(&self, j: u32) -> bool {
        self.shift <= j && j < self.shift + self.width
    }

    /// Whether `mode` fits in the field.
    pub open spec fn fits(&self, mode: u32) -> bool {
        (mode as u64) < (1u64 << self.width)
    }
}

impl Pin {
    pub open spec fn wf(&self) -> bool {
        self.index < 16
    }
}

/// The word written to a set/reset register to drive pin `index` high.
pub open spec fn set_word(index: u32) -> u32 {
    1u32 << index
}

/// The word written to a set/reset register to drive pin `index` low.
pub open spec fn reset_word(index: u32) -> u32 {
    1u32 << (index + 16) as u32
}

/// Whether access `a` drives `pin`, high or low.
pub open spec fn drives(a: Access, pin: Pin) -> bool {
    a matches Access::Write { addr, value } && addr == pin.bsrr && (bit_of(value, pin.index)
        || bit_of(value, (pin.index + 16) as u32))
}

/// The output level of `pin` after the accesses of `trace`, `true` for high:
/// the level that the last write driving the pin asked for, where a write
/// that asks for both levels drives high, as the hardware resolves it. An
/// output that was never driven is low, its reset level.
pub open spec fn output_level(trace: Seq<Access>, pin: Pin) -> bool
    decreases trace.len(),
{
    if trace.len() == 0 {
        false
    } else if drives(trace.last(), pin) {
        trace.last() matches Access::Write { value, .. } && bit_of(value, pin.index)
    } else {
        output_level(trace.drop_last(), pin)
    }
}

/// The mode held in `field`, as the memory `mem` holds it.
pub open spec fn pin_mode(mem: Map<u32, u32>, field: PinField) -> u32 {
    field_of(mem[field.reg], field.shift, field.width)
}

/// Sets the clock-enable bit of `gate`, by one read-modify-write of its
/// register. No other bit of that register and no other register changes.
pub fn enable_clock(bus: &mut Bus, gate: ClockGate)
    requires
        gate.wf(),
        old(bus)@.mem.contains_key(gate.reg),
    ensures
        final(bus)@ == after_rmw(old(bus)@, gate.reg, old(bus)@.mem[gate.reg] | (1u32 << gate.bit)),
        bit_of(final(bus)@.mem[gate.reg], gate.bit),
        forall|j: u32|
            j < 32 && j != gate.bit ==> bit_of(final(bus)@.mem[gate.reg], j) == bit_of(
                old(bus)@.mem[gate.reg],
                j,
            ),
{
    let v = bus.read(gate.reg);
    bus.write(gate.reg, with_bit_set(v, gate.bit));
}

/// Puts `mode` in `field`, by one read-modify-write of its register: the
/// field's bits are cleared and `mode` is or-ed in. No bit outside the field
/// and no other register changes.
pub fn configure_pin_mode(bus: &mut Bus, field: PinField, mode: u32)
    requires
        field.wf(),
        field.fits(mode),
        old(bus)@.mem.contains_key(field.reg),
    ensures
        final(bus)@ == after_rmw(
            old(bus)@,
            field.reg,
            with_field_spec(old(bus)@.mem[field.reg], field.shift, field.width, mode),
        ),
        pin_mode(final(bus)@.mem, field) == mode,
        forall|j: u32|
            j < 32 && !field.covers(j) ==> bit_of(final(bus)@.mem[field.reg], j) == bit_of(
                old(bus)@.mem[field.reg],
                j,
            ),
{
    let v = bus.read(field.reg);
    bus.write(field.reg, with_field(v, field.shift, field.width, mode));
}

/// Drives `pin` high by a single write of its set bit to the set/reset
/// register; no read is issued.
pub fn set_pin(bus: &mut Bus, pin: Pin)
    requires
        pin.wf(),
        old(bus)@.mem.contains_key(pin.bsrr),
    ensures
        final(bus)@ == after_write(old(bus)@, pin.bsrr, set_word(pin.index)),
        output_level(final(bus)@.trace, pin),
{
    bus.write(pin.bsrr, 1u32 << pin.index);
    proof {
        let w = set_word(pin.index);
        let i = pin.index;
        assert(bit_of(w, i) && !bit_of(w, (i + 16) as u32)) by (bit_vector)
            requires
                w == 1u32 << i,
                i < 16,
        ;
    }
}

/// Drives `pin` low by a single write of its reset bit to the set/reset
/// register; no read is issued.
pub fn clear_pin(bus: &mut Bus, pin: Pin)
    requires
        pin.wf(),
        old(bus)@.mem.contains_key(pin.bsrr),
    ensures
        final(bus)@ == after_write(old(bus)@, pin.bsrr, reset_word(pin.index)),
        !output_level(final(bus)@.trace, pin),
{
    bus.write(pin.bsrr, 1u32 << (pin.index + 16));
    proof {
        let w = reset_word(pin.index);
        let i = pin.index;
        assert(!bit_of(w, i) && bit_of(w, (i + 16) as u32)) by (bit_vector)
            requires
                w == 1u32 << (i + 16) as u32,
                i < 16,
        ;
    }
}

/// The memory after the bring-up of a peripheral: its clock enabled, then
/// `mode` put in `field`.
pub open spec fn brought_up(mem: Map<u32, u32>, gate: ClockGate, field: PinField, mode: u32) -> Map<u32, u32> {
    let m1 = mem.insert(gate.reg, mem[gate.reg] | (1u32 << gate.bit));
    m1.insert(field.reg, with_field_spec(m1[field.reg], field.shift, field.width, mode))
}

/// The bring-up phase of a reset entry: enables the clock of `gate`, then
/// puts `mode` in `field`.
pub fn bring_up(bus: &mut Bus, gate: ClockGate, field: PinField, mode: u32)
    requires
        gate.wf(),
        field.wf(),
        field.fits(mode),
        old(bus)@.mem.contains_key(gate.reg),
        old(bus)@.mem.contains_key(field.reg),
    ensures
        final(bus)@ == ({
            let b1 = after_rmw(old(bus)@, gate.reg, old(bus)@.mem[gate.reg] | (1u32 << gate.bit));
            after_rmw(b1, field.reg, with_field_spec(b1.mem[field.reg], field.shift, field.width, mode))
        }),
        final(bus)@.mem == brought_up(old(bus)@.mem, gate, field, mode),
{
    enable_clock(bus, gate);
    configure_pin_mode(bus, field, mode);
}

/// The bring-up is idempotent: doing it twice leaves the registers as doing
/// it once does, for any prior register values, whether the clock bit and
/// the mode field share a register or not.
pub proof fn lemma_bring_up_idempotent(mem: Map<u32, u32>, gate: ClockGate, field: PinField, mode: u32)
    requires
        gate.wf(),
        field.wf(),
        field.fits(mode),
        mem.contains_key(gate.reg),
        mem.contains_key(field.reg),
    ensures
        brought_up(brought_up(mem, gate, field, mode), gate, field, mode) == brought_up(mem, gate, field, mode),
{
    let once = brought_up(mem, gate, field, mode);
    let twice = brought_up(once, gate, field, mode);
    let b = gate.bit;
    let sh = field.shift;
    let wd = field.width;
    if gate.reg == field.reg {
        let w = mem[gate.reg];
        let c = with_field_spec(w | (1u32 << b), sh, wd, mode);
        assert(with_field_spec(c | (1u32 << b), sh, wd, mode) == c) by (bit_vector)
            requires
                b < 32,
                1 <= wd && wd <= 32,
                sh + wd <= 32,
                c == with_field_spec(w | (1u32 << b), sh, wd, mode),
        ;
    } else {
        let w = mem[gate.reg];
        let v = mem[field.reg];
        assert((w | (1u32 << b)) | (1u32 << b) == w | (1u32 << b)) by (bit_vector);
        let c = with_field_spec(v, sh, wd, mode);
        assert(with_field_spec(c, sh, wd, mode) == c) by (bit_vector)
            requires
                1 <= wd && wd <= 32,
                sh + wd <= 32,
                c == with_field_spec(v, sh, wd, mode),
        ;
    }
    assert(twice =~= once);
}

/// Set/reset writes take effect last-write-wins: a set followed by a reset
/// leaves the pin low, a reset followed by a set leaves it high, whatever
/// came before.
pub proof fn lemma_last_write_wins(b: BusView, pin: Pin)
    requires
        pin.wf(),
    ensures
        !output_level(
            after_write(after_write(b, pin.bsrr, set_word(pin.index)), pin.bsrr, reset_word(pin.index)).trace,
            pin,
        ),
        output_level(
            after_write(after_write(b, pin.bsrr, reset_word(pin.index)), pin.bsrr, set_word(pin.index)).trace,
            pin,
        ),
{
    let i = pin.index;
    let s = set_word(i);
    let r = reset_word(i);
    assert(bit_of(s, i) && !bit_of(r, i) && bit_of(r, (i + 16) as u32)) by (bit_vector)
        requires
            s == 1u32 << i,
            r == 1u32 << (i + 16) as u32,
            i < 16,
    ;
}

/// An access that does not drive `pin` leaves its output level as it was.
pub proof fn lemma_level_unchanged(trace: Seq<Access>, a: Access, pin: Pin)
    requires
        !drives(a, pin),
    ensures
        output_level(trace.push(a), pin) == output_level(trace, pin),
{
    assert(trace.push(a).drop_last() =~= trace);
}

/// A read-modify-write of a register other than the pin's set/reset
/// register leaves the pin's output level as it was.
pub proof fn lemma_rmw_keeps_level(b: BusView, addr: u32, value: u32, pin: Pin)
    requires
        addr != pin.bsrr,
    ensures
        output_level(after_rmw(b, addr, value).trace, pin) == output_level(b.trace, pin),
{
    let r = Access::Read { addr, value: b.mem[addr] };
    let w = Access::Write { addr, value };
    lemma_level_unchanged(b.trace, r, pin);
    lemma_level_unchanged(b.trace.push(r), w, pin);
}

} // verus!
