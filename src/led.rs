//! A program that lights the LED on port C pin 8: it enables the port's
//! clock, makes the pin a push-pull output, drives it high and then low.
use vstd::prelude::*;

use crate::bits::{bit_of, with_field_spec};
use crate::mmio::{after_rmw, after_write, Bus, BusView};
use crate::peripheral::{
    clear_pin, configure_pin_mode, enable_clock, output_level, pin_mode, reset_word, set_pin,
    set_word, ClockGate, Pin, PinField, RCC,
};

verus! {

/// Offset of the APB2 peripheral clock-enable register.
pub const RCC_APB2ENR: u32 = 0x18;

/// Position of the port C enable bit in that register.
pub const RCC_APB2ENR_IOPCEN: u32 = 4;

/// Base address of the port C register block.
pub const GPIOC: u32 = 0x4001_1000;

/// Offset of the port C configuration register for pins 8 to 15.
pub const GPIOC_CRH: u32 = 0x4;

/// Offset of the port C set/reset register.
pub const GPIOC_BSRR: u32 = 0x10;

/// Mode and configuration of pin 8 as a push-pull output at 2 MHz.
pub const PC8_OUTPUT: u32 = 0b0010;

/// The clock-enable bit of port C.
pub open spec fn gpioc_gate() -> ClockGate {
    ClockGate { reg: (RCC + RCC_APB2ENR) as u32, bit: RCC_APB2ENR_IOPCEN }
}

/// The mode and configuration field of pin 8.
pub open spec fn pc8_field() -> PinField {
    PinField { reg: (GPIOC + GPIOC_CRH) as u32, shift: 0, width: 4 }
}

/// Pin 8 of port C.
pub open spec fn pc8() -> Pin {
    Pin { bsrr: (GPIOC + GPIOC_BSRR) as u32, index: 8 }
}

/// The registers that the program touches are mapped.
pub open spec fn board_mapped(mem: Map<u32, u32>) -> bool {
    &&& mem.contains_key(gpioc_gate().reg)
    &&& mem.contains_key(pc8_field().reg)
    &&& mem.contains_key(pc8().bsrr)
}

/// Enables the clock of port C.
pub fn turn_on_gpioc(bus: &mut Bus)
    requires
        old(bus)@.mem.contains_key(gpioc_gate().reg),
    ensures
        final(bus)@ == after_rmw(
            old(bus)@,
            gpioc_gate().reg,
            old(bus)@.mem[gpioc_gate().reg] | (1u32 << RCC_APB2ENR_IOPCEN),
        ),
        bit_of(final(bus)@.mem[gpioc_gate().reg], RCC_APB2ENR_IOPCEN),
{
    enable_clock(bus, ClockGate { reg: RCC + RCC_APB2ENR, bit: RCC_APB2ENR_IOPCEN });
}

/// Makes pin 8 of port C a push-pull output.
pub fn put_pc8_in_output_mode(bus: &mut Bus)
    requires
        old(bus)@.mem.contains_key(pc8_field().reg),
    ensures
        final(bus)@ == after_rmw(
            old(bus)@,
            pc8_field().reg,
            with_field_spec(old(bus)@.mem[pc8_field().reg], 0, 4, PC8_OUTPUT),
        ),
        pin_mode(final(bus)@.mem, pc8_field()) == PC8_OUTPUT,
{
    assert((PC8_OUTPUT as u64) < (1u64 << 4u32)) by (bit_vector);
    configure_pin_mode(bus, PinField { reg: GPIOC + GPIOC_CRH, shift: 0, width: 4 }, PC8_OUTPUT);
}

/// Drives pin 8 of port C high.
pub fn set_pc8_high(bus: &mut Bus)
    requires
        old(bus)@.mem.contains_key(pc8().bsrr),
    ensures
        final(bus)@ == after_write(old(bus)@, pc8().bsrr, set_word(8)),
        output_level(final(bus)@.trace, pc8()),
{
    set_pin(bus, Pin { bsrr: GPIOC + GPIOC_BSRR, index: 8 });
}

/// Drives pin 8 of port C low.
pub fn set_pc8_low(bus: &mut Bus)
    requires
        old(bus)@.mem.contains_key(pc8().bsrr),
    ensures
        final(bus)@ == after_write(old(bus)@, pc8().bsrr, reset_word(8)),
        !output_level(final(bus)@.trace, pc8()),
{
    clear_pin(bus, Pin { bsrr: GPIOC + GPIOC_BSRR, index: 8 });
}

/// The bus after the program's work, before it spins for good.
pub open spec fn after_start(b: BusView) -> BusView {
    let b1 = after_rmw(b, gpioc_gate().reg, b.mem[gpioc_gate().reg] | (1u32 << RCC_APB2ENR_IOPCEN));
    let b2 = after_rmw(b1, pc8_field().reg, with_field_spec(b1.mem[pc8_field().reg], 0, 4, PC8_OUTPUT));
    after_write(after_write(b2, pc8().bsrr, set_word(8)), pc8().bsrr, reset_word(8))
}

/// The reset entry: enables port C, makes pin 8 an output, drives it high
/// and then low. What follows is an endless spin that touches nothing.
pub fn start(bus: &mut Bus)
    requires
        board_mapped(old(bus)@.mem),
    ensures
        final(bus)@ == after_start(old(bus)@),
        bit_of(final(bus)@.mem[gpioc_gate().reg], RCC_APB2ENR_IOPCEN),
        pin_mode(final(bus)@.mem, pc8_field()) == PC8_OUTPUT,
        !output_level(final(bus)@.trace, pc8()),
{
    turn_on_gpioc(bus);
    put_pc8_in_output_mode(bus);
    set_pc8_high(bus);
    set_pc8_low(bus);
}

} // verus!
