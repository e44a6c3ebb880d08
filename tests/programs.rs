use bare_metal_rt::blink;
use bare_metal_rt::crash;
use bare_metal_rt::delay::delay;
use bare_metal_rt::fault::{eh_personality, handler, panic_fmt, Control, Core};
use bare_metal_rt::first;
use bare_metal_rt::led;
use bare_metal_rt::mmio::{Access, Bus};
use bare_metal_rt::vectors::{exceptions, take_exception, Exception, Handler, EXCEPTION_COUNT};

#[test]
fn vector_table_layout() {
    let table = exceptions();
    assert_eq!(table.len(), EXCEPTION_COUNT);
    assert_eq!(table.len(), 14);
    for i in 0..14usize {
        let reserved = matches!(i, 5 | 6 | 7 | 8 | 10 | 11);
        if reserved {
            assert_eq!(table.entry(i), None);
        } else {
            assert_eq!(table.entry(i), Some(Handler::Fault));
        }
    }
}

#[test]
fn exception_indices() {
    assert_eq!(Exception::Nmi.index(), 0);
    assert_eq!(Exception::HardFault.index(), 1);
    assert_eq!(Exception::MemManage.index(), 2);
    assert_eq!(Exception::BusFault.index(), 3);
    assert_eq!(Exception::UsageFault.index(), 4);
    assert_eq!(Exception::SvCall.index(), 9);
    assert_eq!(Exception::PendSv.index(), 12);
    assert_eq!(Exception::SysTick.index(), 13);
}

#[test]
fn delay_spins_its_argument() {
    assert_eq!(delay(0), 0);
    assert_eq!(delay(1), 1);
    assert_eq!(delay(100_000), 100_000);
    let (n1, n2, eps) = (300u32, 500u32, 7u32);
    assert!(delay(n1) as u64 + delay(n2) as u64 >= delay(n1 + n2 - eps) as u64);
}

#[test]
fn handler_traps_once() {
    let mut core = Core::reset();
    assert!(!core.is_trapped());
    handler(&mut core);
    assert_eq!(core, Core { control: Control::Trapped, breakpoints: 1 });
    handler(&mut core);
    assert_eq!(core, Core { control: Control::Trapped, breakpoints: 1 });
}

#[test]
fn panic_hook_traps_like_a_fault() {
    let mut core = Core::reset();
    eh_personality();
    assert_eq!(core.control, Control::Running);
    panic_fmt(&mut core);
    assert_eq!(core, Core { control: Control::Trapped, breakpoints: 1 });
}

#[test]
fn reserved_entry_escalates_to_the_handler() {
    let table = exceptions();
    let mut core = Core::reset();
    take_exception(&table, 7, &mut core);
    assert_eq!(core, Core { control: Control::Trapped, breakpoints: 1 });
    let mut core = Core::reset();
    take_exception(&table, Exception::SysTick.index(), &mut core);
    assert!(core.is_trapped());
}

#[test]
fn first_program_copies_its_local() {
    assert_eq!(first::start(), 42);
}

fn led_board() -> Bus {
    let mut bus = Bus::new();
    bus.map_word(0x4002_1018, 0x0000_0001);
    bus.map_word(0x4001_1004, 0x4444_4444);
    bus.map_word(0x4001_1010, 0);
    bus
}

#[test]
fn led_program_lights_then_clears_pc8() {
    let mut bus = led_board();
    led::start(&mut bus);
    assert_eq!(bus.peek(0x4002_1018), Some(0x0000_0011));
    assert_eq!(bus.peek(0x4001_1004), Some(0x4444_4442));
    assert_eq!(bus.trace_len(), 6);
    assert_eq!(bus.access_at(0), Access::Read { addr: 0x4002_1018, value: 1 });
    assert_eq!(bus.access_at(1), Access::Write { addr: 0x4002_1018, value: 0x11 });
    assert_eq!(bus.access_at(2), Access::Read { addr: 0x4001_1004, value: 0x4444_4444 });
    assert_eq!(bus.access_at(3), Access::Write { addr: 0x4001_1004, value: 0x4444_4442 });
    assert_eq!(bus.access_at(4), Access::Write { addr: 0x4001_1010, value: 1 << 8 });
    assert_eq!(bus.access_at(5), Access::Write { addr: 0x4001_1010, value: 1 << 24 });
}

fn blink_board() -> Bus {
    let mut bus = Bus::new();
    bus.map_word(0x4002_1014, 0x0000_0014);
    bus.map_word(0x4800_1000, 0x0000_0000);
    bus.map_word(0x4800_1018, 0);
    bus
}

#[test]
fn blink_bring_up() {
    let mut bus = blink_board();
    blink::reset_entry(&mut bus);
    assert_eq!(bus.peek(0x4002_1014), Some(0x0020_0014));
    assert_eq!(bus.peek(0x4800_1000), Some(0x0004_0000));
    assert_eq!(bus.trace_len(), 4);
}

#[test]
fn blink_loop_alternates_high_and_low() {
    let mut bus = blink_board();
    blink::reset_entry(&mut bus);
    assert_eq!(blink::TICKS, 100_000);
    for period in 0..3usize {
        assert_eq!(blink::blink_period(&mut bus, blink::TICKS), 200_000);
        let base = 4 + 2 * period;
        assert_eq!(bus.trace_len(), base + 2);
        assert_eq!(bus.access_at(base), Access::Write { addr: 0x4800_1018, value: 1 << 9 });
        assert_eq!(bus.access_at(base + 1), Access::Write { addr: 0x4800_1018, value: 1 << 25 });
    }
}

#[test]
fn power_on_gpioe_sets_only_its_bit() {
    let mut bus = blink_board();
    blink::power_on_gpioe(&mut bus);
    assert_eq!(bus.peek(0x4002_1014), Some(0x0020_0014));
    blink::put_pe9_in_output_mode(&mut bus);
    blink::set_pe9_high(&mut bus);
    blink::set_pe9_low(&mut bus);
    assert_eq!(bus.access_at(4), Access::Write { addr: 0x4800_1018, value: 0x200 });
    assert_eq!(bus.access_at(5), Access::Write { addr: 0x4800_1018, value: 0x0200_0000 });
}

#[test]
fn crash_program_faults_on_the_dereference() {
    let table = exceptions();
    let mut bus = Bus::new();
    bus.map_word(0x0000_0000, 0x2000_2000);
    let mut core = Core::reset();
    crash::reset_entry(&mut bus, &mut core, &table);
    assert_eq!(core, Core { control: Control::Trapped, breakpoints: 1 });
    assert_eq!(bus.trace_len(), 1);
    assert_eq!(bus.access_at(0), Access::Read { addr: 0, value: 0x2000_2000 });
    assert_eq!(bus.peek(0x0000_0000), Some(0x2000_2000));
}

#[test]
fn crash_program_without_a_fault_keeps_running() {
    let table = exceptions();
    let mut bus = Bus::new();
    bus.map_word(0x0000_0000, 0x0800_0000);
    bus.map_word(0x0800_0000, 7);
    let mut core = Core::reset();
    crash::reset_entry(&mut bus, &mut core, &table);
    assert_eq!(core, Core::reset());
    assert_eq!(bus.trace_len(), 2);
    assert_eq!(bus.access_at(1), Access::Read { addr: 0x0800_0000, value: 7 });
}

#[test]
fn crash_program_with_nothing_at_zero_faults_at_once() {
    let table = exceptions();
    let mut bus = Bus::new();
    let mut core = Core::reset();
    crash::reset_entry(&mut bus, &mut core, &table);
    assert!(core.is_trapped());
    assert_eq!(bus.trace_len(), 0);
}
