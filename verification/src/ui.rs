//! Push-button debouncing: a press is reported once after the input has
//! been high for a number of consecutive samples, and a hold is flagged
//! after a longer run.
use vstd::prelude::*;

verus! {

/// Consecutive high samples before a press counts.
pub const DEBOUNCE_PERIOD: u32 = 3000;

/// Consecutive high samples before the button counts as held.
pub const HELD_PERIOD: u32 = 12000;

/// The flags of one button: input level, press pending, press reported,
/// held.
#[derive(Debug, Clone, Copy, PartialEq, Eq, Structural)]
pub struct ButtonState {
    pub state: bool,
    pub pressed: bool,
    pub acknoledged: bool,
    pub held: bool,
}

impl ButtonState {
    /// All flags clear.
    pub fn new() -> (b: Self)
        ensures
            !b.state && !b.pressed && !b.acknoledged && !b.held,
    {
        ButtonState { state: false, pressed: false, acknoledged: false, held: false }
    }

    pub fn state(&self) -> (v: bool)
        ensures
            v == self.state,
    {
        self.state
    }

    pub fn pressed(&self) -> (v: bool)
        ensures
            v == self.pressed,
    {
        self.pressed
    }

    pub fn acknoledged(&self) -> (v: bool)
        ensures
            v == self.acknoledged,
    {
        self.acknoledged
    }

    pub fn held(&self) -> (v: bool)
        ensures
            v == self.held,
    {
        self.held
    }

    pub fn set_state(&mut self, v: bool)
        ensures
            *final(self) == (ButtonState { state: v, ..*old(self) }),
    {
        self.state = v;
    }

    pub fn set_pressed(&mut self, v: bool)
        ensures
            *final(self) == (ButtonState { pressed: v, ..*old(self) }),
    {
        self.pressed = v;
    }

    pub fn set_acknoledged(&mut self, v: bool)
        ensures
            *final(self) == (ButtonState { acknoledged: v, ..*old(self) }),
    {
        self.acknoledged = v;
    }

    pub fn set_held(&mut self, v: bool)
        ensures
            *final(self) == (ButtonState { held: v, ..*old(self) }),
    {
        self.held = v;
    }
}

/// A debounced push button. The caller samples the input and hands each
/// sample to [`DebouncedButton::update`].
pub struct DebouncedButton {
    pub btn: ButtonState,
    pub last_change: u32,
}

/// The button after taking one input sample `level`.
pub open spec fn debounce_step(b: DebouncedButton, level: bool) -> DebouncedButton {
    if level {
        let n = if b.last_change < u32::MAX {
            (b.last_change + 1) as u32
        } else {
            b.last_change
        };
        let held = b.btn.held || n >= HELD_PERIOD;
        let pressed = b.btn.pressed || (n >= DEBOUNCE_PERIOD && !b.btn.acknoledged);
        DebouncedButton {
            btn: ButtonState { state: true, pressed, held, ..b.btn },
            last_change: n,
        }
    } else {
        DebouncedButton {
            btn: ButtonState { state: false, pressed: false, held: false, acknoledged: false },
            last_change: 0,
        }
    }
}

/// Asking for a press: a pending press not yet reported is reported (and
/// marked so); returns the button after the question and the answer.
pub open spec fn press_report(b: DebouncedButton) -> (DebouncedButton, bool) {
    let r = b.btn.pressed && !b.btn.acknoledged;
    if r {
        (DebouncedButton { btn: ButtonState { acknoledged: true, ..b.btn }, ..b }, true)
    } else {
        (b, false)
    }
}

impl DebouncedButton {
    /// The flags agree with the run length: a pending press or a report
    /// needs a debounced run, and a hold needs a held run.
    pub open spec fn wf(&self) -> bool {
        &&& (self.btn.pressed || self.btn.acknoledged) ==> self.last_change >= DEBOUNCE_PERIOD
        &&& self.btn.held ==> self.last_change >= HELD_PERIOD
    }

    /// A button whose first sample is `initial`.
    pub fn new(initial: bool) -> (d: Self)
        ensures
            d.wf(),
            d.btn == (ButtonState { state: initial, pressed: false, acknoledged: false, held: false }),
            d.last_change == 0,
    {
        let mut btn_ = ButtonState::new();
        btn_.set_state(initial);
        DebouncedButton { btn: btn_, last_change: 0 }
    }

    /// Takes one input sample and returns it.
    pub fn update(&mut self, level: bool) -> (r: bool)
        requires
            old(self).wf(),
        ensures
            final(self).wf(),
            *final(self) == debounce_step(*old(self), level),
            r == level,
    {
        self.btn.set_state(level);
        if self.btn.state() {
            if self.last_change < u32::MAX {
                self.last_change += 1;
            }
            if self.btn.state() && self.last_change >= HELD_PERIOD {
                self.btn.set_held(true);
            }
            if self.last_change >= DEBOUNCE_PERIOD {
                if !self.btn.acknoledged() {
                    self.btn.set_pressed(true);
                    self.btn.set_acknoledged(false);
                }
            }
        } else {
            self.last_change = 0;
            self.btn.set_pressed(false);
            self.btn.set_held(false);
            self.btn.set_acknoledged(false);
        }
        self.btn.state()
    }

    /// Reports a pending press once: true the first time it is asked after
    /// the press, false afterwards until the button is released and pressed
    /// again.
    pub fn is_pressed(&mut self) -> (r: bool)
        requires
            old(self).wf(),
        ensures
            final(self).wf(),
            r == (old(self).btn.pressed && !old(self).btn.acknoledged),
            final(self).btn == (if r {
                ButtonState { acknoledged: true, ..old(self).btn }
            } else {
                old(self).btn
            }),
            final(self).last_change == old(self).last_change,
            (*final(self), r) == press_report(*old(self)),
            r ==> final(self).last_change >= DEBOUNCE_PERIOD,
    {
        if self.btn.pressed() {
            if !self.btn.acknoledged() {
                self.btn.set_acknoledged(true);
                return true;
            }
        }
        false
    }

    /// The button has been high for the hold period.
    pub fn is_held(&mut self) -> (r: bool)
        ensures
            r == old(self).btn.held,
            *final(self) == *old(self),
            r && old(self).wf() ==> old(self).last_change >= HELD_PERIOD,
    {
        self.btn.held()
    }
}

/// Access to a board LED.
pub trait LedIo: Sized {
    /// `after` is `before` with the LED driven to `value`. An output that
    /// keeps no readable state says nothing more than `true`.
    open spec fn led_written(before: Self, after: Self, value: u8) -> bool {
        true
    }

    /// `value` is a level that the LED of `self` reads. An output that
    /// keeps no readable state says nothing more than `true`.
    open spec fn led_reads(&self, value: u8) -> bool {
        true
    }

    fn write(&mut self, value: u8)
        ensures
            Self::led_written(*old(self), *final(self), value),
    ;

    fn read(&self) -> (value: u8)
        ensures
            self.led_reads(value),
    ;
}

/// An LED without hardware, for host-side simulation: it holds the last
/// level written and reads it back.
pub struct LedLatch {
    pub level: u8,
}

impl LedIo for LedLatch {
    /// The latch holds the level written.
    open spec fn led_written(before: Self, after: Self, value: u8) -> bool {
        after.level == value
    }

    /// The latch reads back the level it holds.
    open spec fn led_reads(&self, value: u8) -> bool {
        value == self.level
    }

    fn write(&mut self, value: u8)
        ensures
            final(self).level == value,
    {
        self.level = value;
    }

    fn read(&self) -> (value: u8)
        ensures
            value == self.level,
    {
        self.level
    }
}

/// LED blinker: toggles the LED once every `period` calls of
/// [`Led::led_task`].
pub struct Led<L: LedIo> {
    pub io: L,
    pub count: u32,
    pub period: u32,
}

impl<L: LedIo> Led<L> {
    /// A blinker with its count at zero.
    pub fn new(io: L, period: u32) -> (l: Self)
        ensures
            l.io == io && l.count == 0 && l.period == period,
    {
        Led { io, count: 0, period }
    }

    /// Counts one call; on reaching the period, restarts the count and
    /// writes the complement of the LED's level. Returns whether it toggled.
    pub fn led_task(&mut self) -> (toggled: bool)
        requires
            old(self).count < u32::MAX,
        ensures
            toggled ==> exists|v: u8|
                old(self).io.led_reads(v) && #[trigger] L::led_written(old(self).io, final(self).io, !v),
            !toggled ==> final(self).io == old(self).io,
            toggled == (old(self).count + 1 >= old(self).period),
            final(self).count == (if toggled {
                0
            } else {
                old(self).count + 1
            }),
            final(self).period == old(self).period,
    {
        self.count += 1;
        if self.count >= self.period {
            self.count = 0;
            let level = self.io.read();
            self.io.write(!level);
            assert(old(self).io.led_reads(level) && L::led_written(old(self).io, self.io, !level));
            true
        } else {
            false
        }
    }
}

/// A press is reported once. After `is_pressed` has returned true,
/// further samples of a still-high input never make it return true again;
/// only a low sample (release) clears the report.
pub proof fn lemma_press_reported_once(b: DebouncedButton)
    requires
        b.btn.acknoledged,
    ensures
        debounce_step(b, true).btn.acknoledged,
        !(debounce_step(b, true).btn.pressed && !debounce_step(b, true).btn.acknoledged),
        !debounce_step(b, false).btn.acknoledged && !debounce_step(b, false).btn.pressed,
{
}

/// A press needs a debounced run. From a button with no press pending
/// or reported, high samples that bring the run length to less than
/// `DEBOUNCE_PERIOD` never make a press pending.
pub proof fn lemma_short_pulse_is_ignored(b: DebouncedButton, k: nat)
    requires
        b.wf(),
        b.last_change + k < DEBOUNCE_PERIOD,
        !b.btn.pressed && !b.btn.acknoledged,
    ensures
        !debounce_steps_high(b, k).btn.pressed,
        !debounce_steps_high(b, k).btn.acknoledged,
        debounce_steps_high(b, k).last_change == b.last_change + k,
    decreases k,
{
    if k > 0 {
        lemma_short_pulse_is_ignored(b, (k - 1) as nat);
    }
}

/// A press is pending after exactly `DEBOUNCE_PERIOD` steady high samples
/// and the button is held after exactly `HELD_PERIOD`. From a released
/// button, after `k` high samples the run length is `k`, a press is pending
/// once `k` reaches `DEBOUNCE_PERIOD` (and not before), and the hold is
/// flagged once `k` reaches `HELD_PERIOD` (and not before).
pub proof fn lemma_steady_press_timing(b: DebouncedButton, k: nat)
    requires
        b.wf(),
        b.last_change == 0,
        !b.btn.acknoledged,
        k <= u32::MAX,
    ensures
        debounce_steps_high(b, k).last_change == k,
        debounce_steps_high(b, k).btn.pressed <==> k >= DEBOUNCE_PERIOD,
        debounce_steps_high(b, k).btn.held <==> k >= HELD_PERIOD,
        !debounce_steps_high(b, k).btn.acknoledged,
    decreases k,
{
    if k > 0 {
        lemma_steady_press_timing(b, (k - 1) as nat);
    }
}

/// A press is reported exactly once. From a pending press, the first
/// question reports it; after that, however many further high samples
/// come, the next question does not report it again.
pub proof fn lemma_press_reported_exactly_once(b: DebouncedButton, k: nat)
    requires
        b.btn.pressed,
        !b.btn.acknoledged,
    ensures
        press_report(b).1,
        !press_report(debounce_steps_high(press_report(b).0, k)).1,
        debounce_steps_high(press_report(b).0, k).btn.acknoledged,
    decreases k,
{
    if k > 0 {
        lemma_press_reported_exactly_once(b, (k - 1) as nat);
    }
}

/// The button after `k` high samples.
pub open spec fn debounce_steps_high(b: DebouncedButton, k: nat) -> DebouncedButton
    decreases k,
{
    if k == 0 {
        b
    } else {
        debounce_step(debounce_steps_high(b, (k - 1) as nat), true)
    }
}

} // verus!
