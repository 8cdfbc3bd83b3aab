use rust_core::ui::{ButtonState, DebouncedButton, DEBOUNCE_PERIOD, HELD_PERIOD};

#[test]
fn press_is_reported_once() {
    let mut b = DebouncedButton::new(false);
    for _ in 0..DEBOUNCE_PERIOD - 1 {
        assert!(b.update(true));
        assert!(!b.is_pressed());
    }
    b.update(true);
    assert!(b.is_pressed());
    assert!(!b.is_pressed());
    for _ in 0..100 {
        b.update(true);
        assert!(!b.is_pressed());
    }
    assert!(!b.update(false));
    assert!(!b.is_pressed());
}

#[test]
fn hold_after_long_press() {
    let mut b = DebouncedButton::new(true);
    for _ in 0..HELD_PERIOD - 1 {
        b.update(true);
    }
    assert!(!b.is_held());
    b.update(true);
    assert!(b.is_held());
    b.update(false);
    assert!(!b.is_held());
}

#[test]
fn short_pulse_is_ignored() {
    let mut b = DebouncedButton::new(false);
    for _ in 0..10 {
        b.update(true);
    }
    b.update(false);
    assert!(!b.is_pressed());
    assert_eq!(b.last_change, 0);
}

#[test]
fn button_state_flags() {
    let mut s = ButtonState::new();
    assert!(!s.state() && !s.pressed() && !s.acknoledged() && !s.held());
    s.set_held(true);
    s.set_pressed(true);
    assert!(s.held() && s.pressed() && !s.state());
    s.set_acknoledged(true);
    s.set_state(true);
    assert!(s.acknoledged() && s.state());
}

use rust_core::ui::{Led, LedIo, LedLatch};
use std::cell::Cell;

struct FakeLed(Cell<u8>);

impl LedIo for FakeLed {
    fn write(&mut self, value: u8) {
        self.0.set(value & 1);
    }
    fn read(&self) -> u8 {
        self.0.get()
    }
}

#[test]
fn led_toggles_once_per_period() {
    let mut led = Led::new(FakeLed(Cell::new(0)), 3);
    assert!(!led.led_task());
    assert!(!led.led_task());
    assert!(led.led_task());
    assert_eq!(led.io.0.get(), 1);
    assert_eq!(led.count, 0);
    led.led_task();
    led.led_task();
    led.led_task();
    assert_eq!(led.io.0.get(), 0);
}

#[test]
fn led_latch_takes_the_complement() {
    let mut led = Led::new(LedLatch { level: 0 }, 1);
    assert!(led.led_task());
    assert_eq!(led.io.level, 0xFF);
    assert!(led.led_task());
    assert_eq!(led.io.level, 0);
}
