use blinky::blink::{Action, Blinker, Event, Level, Mode, DELAY_DURATION_MS};

fn booted() -> Blinker {
    let mut b = Blinker::firmware();
    assert_eq!(b.handle(Event::Boot), Action::Acquire);
    b
}

#[test]
fn boot_asks_for_acquisition() {
    let b = booted();
    assert_eq!(b.mode(), Mode::Initializing);
    assert_eq!(b.delay_ms(), 500);
}

#[test]
fn acquisition_starts_high_with_fixed_delay() {
    let mut b = booted();
    let a = b.handle(Event::Acquired { core: true, device: true });
    assert_eq!(a, Action::Drive { level: Level::High, wait_ms: DELAY_DURATION_MS });
    assert_eq!(b.mode(), Mode::Blinking(Level::High));
}

#[test]
fn failed_acquisition_halts() {
    let mut b = booted();
    assert_eq!(b.handle(Event::Acquired { core: true, device: false }), Action::Halt);
    assert_eq!(b.mode(), Mode::Faulted);
    let mut c = booted();
    assert_eq!(c.handle(Event::Acquired { core: false, device: true }), Action::Halt);
    assert_eq!(c.mode(), Mode::Faulted);
}

#[test]
fn waits_alternate_levels() {
    let mut b = booted();
    b.handle(Event::Acquired { core: true, device: true });
    assert_eq!(b.handle(Event::Waited), Action::Drive { level: Level::Low, wait_ms: 500 });
    assert_eq!(b.handle(Event::Waited), Action::Drive { level: Level::High, wait_ms: 500 });
    assert_eq!(b.handle(Event::Waited), Action::Drive { level: Level::Low, wait_ms: 500 });
    assert_eq!(b.mode(), Mode::Blinking(Level::Low));
}

#[test]
fn pin_failure_halts() {
    let mut b = booted();
    b.handle(Event::Acquired { core: true, device: true });
    assert_eq!(b.handle(Event::PinFailed), Action::Halt);
    assert_eq!(b.mode(), Mode::Faulted);
}

#[test]
fn hard_fault_freezes_the_pin() {
    let mut b = booted();
    b.handle(Event::Acquired { core: true, device: true });
    b.handle(Event::Waited);
    assert_eq!(b.handle(Event::HardFault), Action::Halt);
    for e in [Event::Waited, Event::Boot, Event::Acquired { core: true, device: true }, Event::PinFailed] {
        assert_eq!(b.handle(e), Action::Halt);
        assert_eq!(b.mode(), Mode::Faulted);
    }
}

#[test]
fn hard_fault_before_boot_halts() {
    let mut b = Blinker::new(10);
    assert_eq!(b.handle(Event::HardFault), Action::Halt);
    assert_eq!(b.handle(Event::Boot), Action::Halt);
}

#[test]
fn unexpected_events_are_ignored() {
    let mut b = Blinker::new(10);
    assert_eq!(b.handle(Event::Waited), Action::Idle);
    assert_eq!(b.mode(), Mode::Uninitialized);
    b.handle(Event::Boot);
    b.handle(Event::Acquired { core: true, device: true });
    assert_eq!(b.handle(Event::Boot), Action::Idle);
    assert_eq!(b.mode(), Mode::Blinking(Level::High));
}

#[test]
fn toggled_flips_level() {
    assert_eq!(Level::High.toggled(), Level::Low);
    assert_eq!(Level::Low.toggled(), Level::High);
}

#[test]
fn blinking_never_halts_without_a_fault() {
    let mut b = booted();
    b.handle(Event::Acquired { core: true, device: true });
    for i in 0..1000u32 {
        let a = b.handle(if i % 7 == 3 { Event::Boot } else { Event::Waited });
        assert_ne!(a, Action::Halt);
        assert!(matches!(b.mode(), Mode::Blinking(_)));
    }
}
