//! Events driving the application, and the cadence of its refreshes

use vstd::prelude::*;

use crate::input::{Input, Key};
use crate::time::Nanos;

verus! {

/// An event the application reacts to
#[derive(PartialEq, Eq, Structural, Debug, Copy, Clone)]
pub enum Trigger {
    Exit,
    Impulse,
    NextProcess,
    PreviousProcess,
    Resize,
    NextTab,
    PreviousTab,
    /// Scroll the chart toward the left
    ScrollLeft,
    /// Scroll the chart toward the right
    ScrollRight,
    /// Reset the chart's default position to the current iteration
    ScrollReset,
}

/// What the application does when a trigger arrives: stop, collect the metrics of a new
/// iteration, only redraw the screen, or interpret an input of the user. The screen is redrawn
/// after every step but `Stop`.
#[derive(PartialEq, Eq, Structural, Debug, Copy, Clone)]
pub enum AppStep {
    Stop,
    Collect,
    Redraw,
    Interpret(Input),
}

/// The step that follows a trigger: the navigation triggers stand for the keys that would ask
/// for the same move
pub open spec fn spec_step(trigger: Trigger) -> AppStep {
    match trigger {
        Trigger::Exit => AppStep::Stop,
        Trigger::Impulse => AppStep::Collect,
        Trigger::Resize => AppStep::Redraw,
        Trigger::NextProcess => AppStep::Interpret(Input::Down),
        Trigger::PreviousProcess => AppStep::Interpret(Input::Up),
        Trigger::NextTab => AppStep::Interpret(Input::Right),
        Trigger::PreviousTab => AppStep::Interpret(Input::Left),
        Trigger::ScrollLeft => AppStep::Interpret(Input::AltLeft),
        Trigger::ScrollRight => AppStep::Interpret(Input::AltRight),
        Trigger::ScrollReset => AppStep::Interpret(Input::G),
    }
}

/// Decides what the application does with a trigger
pub fn step_of_trigger(trigger: Trigger) -> (step: AppStep)
    ensures
        step == spec_step(trigger),
{
    match trigger {
        Trigger::Exit => AppStep::Stop,
        Trigger::Impulse => AppStep::Collect,
        Trigger::Resize => AppStep::Redraw,
        Trigger::NextProcess => AppStep::Interpret(Input::Down),
        Trigger::PreviousProcess => AppStep::Interpret(Input::Up),
        Trigger::NextTab => AppStep::Interpret(Input::Right),
        Trigger::PreviousTab => AppStep::Interpret(Input::Left),
        Trigger::ScrollLeft => AppStep::Interpret(Input::AltLeft),
        Trigger::ScrollRight => AppStep::Interpret(Input::AltRight),
        Trigger::ScrollReset => AppStep::Interpret(Input::G),
    }
}

/// The tolerance of the pulse: 10% of the refresh period
pub open spec fn spec_tolerance(refresh_period: nat) -> nat {
    refresh_period / 10
}

/// The instant of the pulse that comes `n` refresh periods after `start`, when each pulse is
/// scheduled one refresh period after the previous scheduled one
pub open spec fn spec_scheduled_pulse(start: nat, refresh_period: nat, n: nat) -> nat
    decreases n,
{
    if n == 0 {
        start
    } else {
        spec_scheduled_pulse(start, refresh_period, (n - 1) as nat) + refresh_period
    }
}

/// Drives the cadence of the application: a pulse is due one refresh period after the
/// previous one was scheduled (not after it was observed), so that pulses do not drift.
/// Instants and durations are counted in nanoseconds.
pub struct Pulse {
    last_tick: Nanos,
    refresh_period: Nanos,
    poll_sleep: Nanos,
}

impl Pulse {
    /// The instant at which the last pulse was scheduled
    pub closed spec fn spec_last_tick(&self) -> nat {
        self.last_tick as nat
    }

    /// The time between two pulses
    pub closed spec fn spec_refresh_period(&self) -> nat {
        self.refresh_period as nat
    }

    /// How long to wait between two checks of the time while waiting for a pulse
    pub closed spec fn spec_poll_sleep(&self) -> nat {
        self.poll_sleep as nat
    }

    /// A pulse whose first period starts `now`
    pub fn new(refresh_period: Nanos, now: Nanos) -> (p: Self)
        ensures
            p.spec_last_tick() == now,
            p.spec_refresh_period() == refresh_period,
            p.spec_poll_sleep() == spec_tolerance(refresh_period as nat),
    {
        Pulse { last_tick: now, refresh_period, poll_sleep: Self::tolerance(refresh_period) }
    }

    /// Calculates the maximum error tolerance of the pulse, compared to the expected elapsed time `refresh_period`
    /// Currently, this value is defined at 10% of the refresh period.
    pub fn tolerance(refresh_period: Nanos) -> (t: Nanos)
        ensures
            t == spec_tolerance(refresh_period as nat),
    {
        refresh_period / 10
    }

    /// How long to wait between two checks of the time while waiting for a pulse
    pub fn poll_sleep(&self) -> (d: Nanos)
        ensures
            d == self.spec_poll_sleep(),
    {
        self.poll_sleep
    }

    /// The instant at which the next pulse is due
    pub fn next_pulse_instant(&self) -> (t: Nanos)
        requires
            self.spec_last_tick() + self.spec_refresh_period() <= u64::MAX,
        ensures
            t == self.spec_last_tick() + self.spec_refresh_period(),
    {
        self.last_tick + self.refresh_period
    }

    /// Whether the next pulse is due at `now`: a pulse is released once the clock has reached
    /// the instant it was scheduled for
    pub fn is_due(&self, now: Nanos) -> (due: bool)
        ensures
            due == (now >= self.spec_last_tick() + self.spec_refresh_period()),
    {
        now >= self.last_tick && now - self.last_tick >= self.refresh_period
    }

    /// Releases the pulse if it is due at `now`, and then records it as completed: the next one
    /// is due one refresh period after this one was due, however late `now` is. A pulse that is
    /// not due yet is left as it is.
    pub fn release_if_due(&mut self, now: Nanos) -> (released: bool)
        requires
            old(self).spec_last_tick() + old(self).spec_refresh_period() <= u64::MAX,
        ensures
            released == (now >= old(self).spec_last_tick() + old(self).spec_refresh_period()),
            released ==> final(self).spec_last_tick() == old(self).spec_last_tick()
                + old(self).spec_refresh_period(),
            !released ==> final(self).spec_last_tick() == old(self).spec_last_tick(),
            final(self).spec_refresh_period() == old(self).spec_refresh_period(),
            final(self).spec_poll_sleep() == old(self).spec_poll_sleep(),
    {
        if self.is_due(now) {
            self.complete_pulse();
            true
        } else {
            false
        }
    }

    /// Records that the due pulse was released: the next one is due one refresh period after
    /// the instant this one was due
    pub fn complete_pulse(&mut self)
        requires
            old(self).spec_last_tick() + old(self).spec_refresh_period() <= u64::MAX,
        ensures
            final(self).spec_last_tick() == old(self).spec_last_tick() + old(self).spec_refresh_period(),
            final(self).spec_refresh_period() == old(self).spec_refresh_period(),
            final(self).spec_poll_sleep() == old(self).spec_poll_sleep(),
    {
        self.last_tick = self.next_pulse_instant();
    }
}

/// Pulses do not drift: the pulse released `n` periods after the start is due exactly `n`
/// refresh periods after the start, however late each pulse was observed.
pub proof fn law_pulses_do_not_drift(start: nat, refresh_period: nat, n: nat)
    ensures
        spec_scheduled_pulse(start, refresh_period, n) == start + n * refresh_period,
    decreases n,
{
    if n > 0 {
        let m = (n - 1) as nat;
        law_pulses_do_not_drift(start, refresh_period, m);
        assert(m * refresh_period + refresh_period == n * refresh_period) by (nonlinear_arith)
            requires
                m + 1 == n,
        ;
    } else {
        assert(n * refresh_period == 0) by (nonlinear_arith)
            requires
                n == 0,
        ;
    }
}

/// Released pulses follow the schedule: if the pulse last scheduled is the one due `n` periods
/// after `start`, a pulse released at `now` was released only once the clock reached
/// `start + (n + 1) * period`, and afterwards the pulse last scheduled is the one due `n + 1`
/// periods after `start`, exactly `start + (n + 1) * period`, however late `now` was. Since
/// `Pulse::new` schedules the first period at `start`, the `k`-th release happens no earlier than
/// `start + k * period` and leaves the next pulse due at exactly `start + (k + 1) * period`.
pub proof fn law_released_pulses_follow_the_schedule(before: Pulse, after: Pulse, start: nat, n: nat, now: nat)
    requires
        before.spec_last_tick() == spec_scheduled_pulse(start, before.spec_refresh_period(), n),
        now >= before.spec_last_tick() + before.spec_refresh_period(),
        after.spec_last_tick() == before.spec_last_tick() + before.spec_refresh_period(),
        after.spec_refresh_period() == before.spec_refresh_period(),
    ensures
        now >= start + (n + 1) * before.spec_refresh_period(),
        after.spec_last_tick() == spec_scheduled_pulse(start, after.spec_refresh_period(), n + 1),
        after.spec_last_tick() == start + (n + 1) * after.spec_refresh_period(),
{
    law_pulses_do_not_drift(start, after.spec_refresh_period(), n + 1);
}

/// Emits the triggers that drive the application
pub struct TriggersEmitter;

impl TriggersEmitter {
    /// The tolerance with which impulses are emitted, for the given refresh period
    pub fn impulse_time_tolerance(refresh_period: Nanos) -> (t: Nanos)
        ensures
            t == spec_tolerance(refresh_period as nat),
    {
        Pulse::tolerance(refresh_period)
    }
}

/// The UNIX signals to which the application listens
#[derive(PartialEq, Eq, Structural, Debug, Copy, Clone)]
pub enum Signal {
    Interrupt,
    Terminate,
    Quit,
    WindowChange,
}

/// Listens for UNIX interrupt signals and emits appropriate triggers
pub struct SignalListener {
    exit: bool,
}

impl SignalListener {
    /// Has the listener stopped listening?
    pub closed spec fn spec_exit(&self) -> bool {
        self.exit
    }

    /// A listener that listens
    pub fn new() -> (l: Self)
        ensures
            !l.spec_exit(),
    {
        Self { exit: false }
    }

    /// The trigger to emit for a signal: an interruption asks the application to exit, after
    /// which the listener stops; a change of the terminal's size asks it to resize
    pub fn on_signal(&mut self, signal: Signal) -> (t: Trigger)
        ensures
            signal == Signal::WindowChange ==> t == Trigger::Resize && final(self).spec_exit()
                == old(self).spec_exit(),
            signal != Signal::WindowChange ==> t == Trigger::Exit && final(self).spec_exit(),
    {
        match signal {
            Signal::Terminate | Signal::Interrupt | Signal::Quit => {
                self.exit = true;
                Trigger::Exit
            },
            Signal::WindowChange => Trigger::Resize,
        }
    }

    /// A trigger could not be sent: nobody listens anymore, the listener stops
    pub fn on_send_failed(&mut self)
        ensures
            final(self).spec_exit(),
    {
        self.exit = true;
    }

    /// Has the listener stopped listening?
    pub fn should_exit(&self) -> (b: bool)
        ensures
            b == self.spec_exit(),
    {
        self.exit
    }
}

/// Ctrl-C, Ctrl-D and `q` ask the application to exit; the other keys emit nothing
pub open spec fn spec_key_trigger(key: Key) -> Option<Trigger> {
    match key {
        Key::Ctrl(c) => if c == 'c' || c == 'd' {
            Some(Trigger::Exit)
        } else {
            None
        },
        Key::Char(c) => if c == 'q' {
            Some(Trigger::Exit)
        } else {
            None
        },
        Key::Other => None,
    }
}

/// Listens for the keys typed by the user and emits appropriate triggers
pub struct InputListener {
    exit: bool,
}

impl InputListener {
    /// Has the listener stopped listening?
    pub closed spec fn spec_exit(&self) -> bool {
        self.exit
    }

    /// A listener that listens
    pub fn new() -> (l: Self)
        ensures
            !l.spec_exit(),
    {
        Self { exit: false }
    }

    /// The trigger to emit for a key, if any; once it asked the application to exit, the
    /// listener stops
    pub fn on_key(&mut self, key: Key) -> (t: Option<Trigger>)
        ensures
            t == spec_key_trigger(key),
            final(self).spec_exit() == (old(self).spec_exit() || t is Some),
    {
        let t = match key {
            Key::Ctrl(c) => if c == 'c' || c == 'd' {
                Some(Trigger::Exit)
            } else {
                None
            },
            Key::Char(c) => if c == 'q' {
                Some(Trigger::Exit)
            } else {
                None
            },
            Key::Other => None,
        };
        if t.is_some() {
            self.exit = true;
        }
        t
    }

    /// A trigger could not be sent: nobody listens anymore, the listener stops
    pub fn on_send_failed(&mut self)
        ensures
            final(self).spec_exit(),
    {
        self.exit = true;
    }

    /// Has the listener stopped listening?
    pub fn should_exit(&self) -> (b: bool)
        ensures
            b == self.spec_exit(),
    {
        self.exit
    }
}

} // verus!
