//! A program that blinks the LED on port E pin 9: after bringing the port
//! up it alternates set-high, delay, set-low, delay for good. The endless
//! loop is run by the caller, one period at a time.
use vstd::prelude::*;

use crate::bits::{bit_of, with_field_spec};
use crate::delay::delay;
use crate::mmio::{after_rmw, after_write, Bus, BusView};
use crate::peripheral::{
    brought_up, clear_pin, configure_pin_mode, enable_clock, lemma_rmw_keeps_level, output_level,
    pin_mode, reset_word, set_pin, set_word, ClockGate, Pin, PinField, RCC,
};

verus! {

/// Offset of the AHB peripheral clock-enable register.
pub const RCC_AHBENR: u32 = 0x14;

/// Position of the port E enable bit in that register.
pub const RCC_AHBENR_IOPEEN: u32 = 21;

/// Base address of the port E register block.
pub const GPIOE: u32 = 0x4800_1000;

/// Offset of the port E mode register.
pub const GPIOE_MODER: u32 = 0x0;

/// Offset of the port E set/reset register.
pub const GPIOE_BSRR: u32 = 0x18;

/// The general-purpose output mode of a pin.
pub const MODE_OUTPUT: u32 = 0b01;

/// The iterations of each half period of the blink loop.
pub const TICKS: u32 = 100_000;

/// The clock-enable bit of port E.
pub open spec fn gpioe_gate() -> ClockGate {
    ClockGate { reg: (RCC + RCC_AHBENR) as u32, bit: RCC_AHBENR_IOPEEN }
}

/// The mode field of pin 9.
pub open spec fn pe9_field() -> PinField {
    PinField { reg: (GPIOE + GPIOE_MODER) as u32, shift: 18, width: 2 }
}

/// Pin 9 of port E.
pub open spec fn pe9() -> Pin {
    Pin { bsrr: (GPIOE + GPIOE_BSRR) as u32, index: 9 }
}

/// The registers that the program touches are mapped.
pub open spec fn board_mapped(mem: Map<u32, u32>) -> bool {
    &&& mem.contains_key(gpioe_gate().reg)
    &&& mem.contains_key(pe9_field().reg)
    &&& mem.contains_key(pe9().bsrr)
}

/// Enables the clock of port E.
pub fn power_on_gpioe(bus: &mut Bus)
    requires
        old(bus)@.mem.contains_key(gpioe_gate().reg),
    ensures
        final(bus)@ == after_rmw(
            old(bus)@,
            gpioe_gate().reg,
            old(bus)@.mem[gpioe_gate().reg] | (1u32 << RCC_AHBENR_IOPEEN),
        ),
        bit_of(final(bus)@.mem[gpioe_gate().reg], RCC_AHBENR_IOPEEN),
{
    enable_clock(bus, ClockGate { reg: RCC + RCC_AHBENR, bit: RCC_AHBENR_IOPEEN });
}

/// Makes pin 9 of port E a general-purpose output.
pub fn put_pe9_in_output_mode(bus: &mut Bus)
    requires
        old(bus)@.mem.contains_key(pe9_field().reg),
    ensures
        final(bus)@ == after_rmw(
            old(bus)@,
            pe9_field().reg,
            with_field_spec(old(bus)@.mem[pe9_field().reg], 18, 2, MODE_OUTPUT),
        ),
        pin_mode(final(bus)@.mem, pe9_field()) == MODE_OUTPUT,
{
    assert((MODE_OUTPUT as u64) < (1u64 << 2u32)) by (bit_vector);
    configure_pin_mode(bus, PinField { reg: GPIOE + GPIOE_MODER, shift: 18, width: 2 }, MODE_OUTPUT);
}

/// Drives pin 9 of port E high.
pub fn set_pe9_high(bus: &mut Bus)
    requires
        old(bus)@.mem.contains_key(pe9().bsrr),
    ensures
        final(bus)@ == after_write(old(bus)@, pe9().bsrr, set_word(9)),
        output_level(final(bus)@.trace, pe9()),
{
    set_pin(bus, Pin { bsrr: GPIOE + GPIOE_BSRR, index: 9 });
}

/// Drives pin 9 of port E low.
pub fn set_pe9_low(bus: &mut Bus)
    requires
        old(bus)@.mem.contains_key(pe9().bsrr),
    ensures
        final(bus)@ == after_write(old(bus)@, pe9().bsrr, reset_word(9)),
        !output_level(final(bus)@.trace, pe9()),
{
    clear_pin(bus, Pin { bsrr: GPIOE + GPIOE_BSRR, index: 9 });
}

/// The bus after the bring-up of port E.
pub open spec fn after_bring_up(b: BusView) -> BusView {
    let b1 = after_rmw(b, gpioe_gate().reg, b.mem[gpioe_gate().reg] | (1u32 << RCC_AHBENR_IOPEEN));
    after_rmw(b1, pe9_field().reg, with_field_spec(b1.mem[pe9_field().reg], 18, 2, MODE_OUTPUT))
}

/// The bus after one period of the blink loop: a set write, then a reset
/// write, each followed by a delay that issues no access.
pub open spec fn after_period(b: BusView) -> BusView {
    after_write(after_write(b, pe9().bsrr, set_word(9)), pe9().bsrr, reset_word(9))
}

/// The bring-up phase of the reset entry: enables port E and makes pin 9 an
/// output, without driving the pin.
pub fn reset_entry(bus: &mut Bus)
    requires
        board_mapped(old(bus)@.mem),
    ensures
        final(bus)@ == after_bring_up(old(bus)@),
        final(bus)@.mem == brought_up(old(bus)@.mem, gpioe_gate(), pe9_field(), MODE_OUTPUT),
        bit_of(final(bus)@.mem[gpioe_gate().reg], RCC_AHBENR_IOPEEN),
        pin_mode(final(bus)@.mem, pe9_field()) == MODE_OUTPUT,
        output_level(final(bus)@.trace, pe9()) == output_level(old(bus)@.trace, pe9()),
{
    let ghost b0 = bus@;
    power_on_gpioe(bus);
    put_pe9_in_output_mode(bus);
    proof {
        let b1 = after_rmw(b0, gpioe_gate().reg, b0.mem[gpioe_gate().reg] | (1u32 << RCC_AHBENR_IOPEEN));
        lemma_rmw_keeps_level(b0, gpioe_gate().reg, b1.mem[gpioe_gate().reg], pe9());
        lemma_rmw_keeps_level(b1, pe9_field().reg, bus@.mem[pe9_field().reg], pe9());
    }
}

/// One period of the blink loop: set high, delay `ticks`, set low, delay
/// `ticks`. Returns the busy-wait iterations spun.
pub fn blink_period(bus: &mut Bus, ticks: u32) -> (spun: u64)
    requires
        old(bus)@.mem.contains_key(pe9().bsrr),
    ensures
        final(bus)@ == after_period(old(bus)@),
        !output_level(final(bus)@.trace, pe9()),
        spun == 2 * ticks,
{
    set_pe9_high(bus);
    let first = delay(ticks);
    set_pe9_low(bus);
    let second = delay(ticks);
    first as u64 + second as u64
}

/// After one period of the blink loop the pin is back at the level it had at
/// loop entry, which is low: the bring-up never drives it.
pub proof fn lemma_period_restores_level(b: BusView)
    requires
        !output_level(b.trace, pe9()),
    ensures
        output_level(after_period(b).trace, pe9()) == output_level(b.trace, pe9()),
        output_level(after_write(b, pe9().bsrr, set_word(9)).trace, pe9()),
{
    let w = set_word(9);
    let r = reset_word(9);
    assert(bit_of(w, 9) && !bit_of(r, 9) && bit_of(r, 25)) by (bit_vector)
        requires
            w == 1u32 << 9u32,
            r == 1u32 << 25u32,
    ;
}

} // verus!
