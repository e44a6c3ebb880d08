use bare_metal_rt::bits::{field_mask, with_bit_set, with_field};
use bare_metal_rt::mmio::{Access, Bus};
use bare_metal_rt::peripheral::{
    bring_up, clear_pin, configure_pin_mode, enable_clock, set_pin, ClockGate, Pin, PinField,
};

#[test]
fn bit_set_keeps_other_bits() {
    assert_eq!(with_bit_set(0x0000_0000, 4), 0x0000_0010);
    assert_eq!(with_bit_set(0xffff_ffef, 4), 0xffff_ffff);
    assert_eq!(with_bit_set(0x0000_0010, 4), 0x0000_0010);
    assert_eq!(with_bit_set(0x1234_5678, 31), 0x9234_5678);
}

#[test]
fn field_masks() {
    assert_eq!(field_mask(0, 4), 0x0000_000f);
    assert_eq!(field_mask(18, 2), 0x000c_0000);
    assert_eq!(field_mask(0, 32), 0xffff_ffff);
    assert_eq!(field_mask(31, 1), 0x8000_0000);
}

#[test]
fn field_replacement() {
    assert_eq!(with_field(0xffff_ffff, 0, 4, 0b0010), 0xffff_fff2);
    assert_eq!(with_field(0x4444_4444, 0, 4, 0b0010), 0x4444_4442);
    assert_eq!(with_field(0xffff_ffff, 18, 2, 0b01), 0xfff7_ffff);
    assert_eq!(with_field(0x0000_0000, 18, 2, 0b01), 0x0004_0000);
    assert_eq!(with_field(0xabcd_ef01, 0, 32, 7), 7);
}

#[test]
fn read_and_write_are_recorded_in_order() {
    let mut bus = Bus::new();
    bus.map_word(0x100, 5);
    assert_eq!(bus.trace_len(), 0);
    assert_eq!(bus.read(0x100), 5);
    bus.write(0x100, 9);
    bus.write(0x100, 9);
    assert_eq!(bus.peek(0x100), Some(9));
    assert_eq!(bus.trace_len(), 3);
    assert_eq!(bus.access_at(0), Access::Read { addr: 0x100, value: 5 });
    assert_eq!(bus.access_at(1), Access::Write { addr: 0x100, value: 9 });
    assert_eq!(bus.access_at(2), Access::Write { addr: 0x100, value: 9 });
}

#[test]
fn load_of_unmapped_address_faults() {
    let mut bus = Bus::new();
    bus.map_word(0, 0x2000_2000);
    assert!(bus.is_mapped(0));
    assert!(!bus.is_mapped(0x2000_2000));
    assert_eq!(bus.load(0), Some(0x2000_2000));
    assert_eq!(bus.load(0x2000_2000), None);
    assert_eq!(bus.trace_len(), 1);
    assert_eq!(bus.peek(0x2000_2000), None);
}

#[test]
fn set_clear_and_field_updates() {
    let mut bus = Bus::new();
    bus.map_word(0x40, 0b1010);
    bus.set_bits(0x40, 0b0101);
    assert_eq!(bus.peek(0x40), Some(0b1111));
    bus.clear_bits(0x40, 0b0011);
    assert_eq!(bus.peek(0x40), Some(0b1100));
    bus.write_field(0x40, 2, 2, 0b01);
    assert_eq!(bus.peek(0x40), Some(0b0100));
    assert_eq!(bus.trace_len(), 6);
    assert_eq!(bus.access_at(4), Access::Read { addr: 0x40, value: 0b1100 });
    assert_eq!(bus.access_at(5), Access::Write { addr: 0x40, value: 0b0100 });
}

#[test]
fn enable_clock_changes_one_bit() {
    for prior in [0u32, 0xffff_ffff, 0xffff_ffef, 0x1234_5678, 0x0000_0010] {
        let mut bus = Bus::new();
        bus.map_word(0x4002_1018, prior);
        bus.map_word(0x4002_1014, prior);
        enable_clock(&mut bus, ClockGate { reg: 0x4002_1018, bit: 4 });
        assert_eq!(bus.peek(0x4002_1018), Some(prior | 0x10));
        assert_eq!(bus.peek(0x4002_1014), Some(prior));
        assert_eq!(bus.trace_len(), 2);
        assert_eq!(bus.access_at(0), Access::Read { addr: 0x4002_1018, value: prior });
        assert_eq!(bus.access_at(1), Access::Write { addr: 0x4002_1018, value: prior | 0x10 });
    }
}

#[test]
fn configure_pin_mode_changes_only_its_field() {
    for prior in [0u32, 0xffff_ffff, 0x4444_4444, 0x000c_0000, 0xfff3_ffff] {
        let mut bus = Bus::new();
        bus.map_word(0x4800_1000, prior);
        configure_pin_mode(&mut bus, PinField { reg: 0x4800_1000, shift: 18, width: 2 }, 0b01);
        assert_eq!(bus.peek(0x4800_1000), Some((prior & !0x000c_0000) | 0x0004_0000));
    }
}

#[test]
fn set_and_clear_pin_are_single_writes() {
    let mut bus = Bus::new();
    bus.map_word(0x4001_1010, 0);
    let pin = Pin { bsrr: 0x4001_1010, index: 8 };
    set_pin(&mut bus, pin);
    clear_pin(&mut bus, pin);
    assert_eq!(bus.trace_len(), 2);
    assert_eq!(bus.access_at(0), Access::Write { addr: 0x4001_1010, value: 1 << 8 });
    assert_eq!(bus.access_at(1), Access::Write { addr: 0x4001_1010, value: 1 << 24 });
    clear_pin(&mut bus, pin);
    set_pin(&mut bus, pin);
    assert_eq!(bus.access_at(2), Access::Write { addr: 0x4001_1010, value: 1 << 24 });
    assert_eq!(bus.access_at(3), Access::Write { addr: 0x4001_1010, value: 1 << 8 });
}

#[test]
fn bring_up_twice_equals_once() {
    let gate = ClockGate { reg: 0x4002_1014, bit: 21 };
    let field = PinField { reg: 0x4800_1000, shift: 18, width: 2 };
    let mut once = Bus::new();
    let mut twice = Bus::new();
    for bus in [&mut once, &mut twice] {
        bus.map_word(0x4002_1014, 0x0000_0014);
        bus.map_word(0x4800_1000, 0xabcd_0000);
    }
    bring_up(&mut once, gate, field, 0b01);
    bring_up(&mut twice, gate, field, 0b01);
    bring_up(&mut twice, gate, field, 0b01);
    assert_eq!(once.peek(0x4002_1014), twice.peek(0x4002_1014));
    assert_eq!(once.peek(0x4800_1000), twice.peek(0x4800_1000));
    assert_eq!(once.peek(0x4002_1014), Some(0x0020_0014));
    assert_eq!(once.peek(0x4800_1000), Some(0xabc5_0000));
}

#[test]
fn bring_up_in_one_register_is_idempotent() {
    let gate = ClockGate { reg: 0x200, bit: 1 };
    let field = PinField { reg: 0x200, shift: 0, width: 4 };
    let mut once = Bus::new();
    let mut twice = Bus::new();
    once.map_word(0x200, 0xf0);
    twice.map_word(0x200, 0xf0);
    bring_up(&mut once, gate, field, 0b0100);
    bring_up(&mut twice, gate, field, 0b0100);
    bring_up(&mut twice, gate, field, 0b0100);
    assert_eq!(once.peek(0x200), Some(0xf4));
    assert_eq!(twice.peek(0x200), Some(0xf4));
}
