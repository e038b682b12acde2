use vstd::prelude::*;

use crate::color::{off_color, solid, solid_frame, Rgb};

verus! {

/// The blink period of the scheduled configuration, in cycles.
pub const PERIOD: u64 = 48_000_000;

/// The number of LEDs on the scheduled configuration's strip.
pub const BLINK_LEDS: usize = 4;

/// The red intensity shown while the lights are on.
pub const BLINK_RED: u8 = 0xa0;

/// The color shown while the lights are on: red at `BLINK_RED`.
pub fn blink_color() -> (c: Rgb)
    ensures
        c == (Rgb { r: BLINK_RED, g: 0, b: 0 }),
{
    Rgb { r: BLINK_RED, g: 0, b: 0 }
}

/// Which frame the next transition emits.
#[derive(Clone, Copy, Debug, PartialEq, Eq, Structural)]
pub enum Light {
    On,
    Off,
}

pub open spec fn toggled(l: Light) -> Light {
    match l {
        Light::On => Light::Off,
        Light::Off => Light::On,
    }
}

/// A deadline could not be scheduled.
#[derive(Clone, Copy, Debug, PartialEq, Eq, Structural)]
pub enum ScheduleError {
    /// The deadline lies beyond the range of the cycle counter.
    DeadlineOverflow,
}

/// An ON/OFF alternator driven by absolute cycle-counter deadlines.
///
/// Each deadline is the previous deadline plus the period, never the time at
/// which a handler happened to run, so handler latency does not accumulate.
#[derive(Clone, Copy, Debug)]
pub struct Blinker {
    pub next: Light,
    pub due: u64,
    pub period: u64,
    pub color: Rgb,
    pub leds: usize,
}

/// What a transition does: emit `frame`, scheduled for cycle `at`.
#[derive(Debug)]
pub struct Transition {
    pub light: Light,
    pub at: u64,
    pub frame: Vec<Rgb>,
}

/// The abstract state of a blinker.
pub struct BlinkerView {
    pub next: Light,
    pub due: int,
    pub period: int,
    pub color: Rgb,
    pub leds: nat,
}

impl View for Blinker {
    type V = BlinkerView;

    open spec fn view(&self) -> BlinkerView {
        BlinkerView {
            next: self.next,
            due: self.due as int,
            period: self.period as int,
            color: self.color,
            leds: self.leds as nat,
        }
    }
}

/// The state a blinker is in once it started at cycle `start`.
pub open spec fn started(start: int, period: int, color: Rgb, leds: nat) -> BlinkerView {
    BlinkerView { next: Light::On, due: start + period, period, color, leds }
}

/// The state after one transition.
pub open spec fn stepped(s: BlinkerView) -> BlinkerView {
    BlinkerView { next: toggled(s.next), due: s.due + s.period, ..s }
}

/// The state after `n` transitions.
pub open spec fn stepped_n(s: BlinkerView, n: nat) -> BlinkerView
    decreases n,
{
    if n == 0 {
        s
    } else {
        stepped(stepped_n(s, (n - 1) as nat))
    }
}

/// The frame that a transition to `light` emits.
pub open spec fn light_frame(s: BlinkerView, light: Light) -> Seq<Rgb> {
    match light {
        Light::On => solid(s.color, s.leds),
        Light::Off => solid(off_color(), s.leds),
    }
}

/// Deadlines do not drift: after `n` transitions every deadline is the
/// previous one plus the period, so the next one is due at
/// `due + n * period`, and the light has alternated `n` times.
pub proof fn lemma_deadlines_do_not_drift(s: BlinkerView, n: nat)
    ensures
        stepped_n(s, n).due == s.due + n * s.period,
        stepped_n(s, n).period == s.period,
        stepped_n(s, n).color == s.color,
        stepped_n(s, n).leds == s.leds,
        stepped_n(s, n).next == (if n % 2 == 0 { s.next } else { toggled(s.next) }),
    decreases n,
{
    if n > 0 {
        lemma_deadlines_do_not_drift(s, (n - 1) as nat);
        assert(s.due + (n - 1) * s.period + s.period == s.due + n * s.period) by (nonlinear_arith);
    }
}

/// A blinker started at cycle `t0` with period `p` runs its `n`-th transition
/// (counting from one) at exactly `t0 + n * p`, emitting the ON frame on odd
/// transitions and the OFF frame on even ones.
pub proof fn lemma_nth_transition_time(t0: int, p: int, color: Rgb, leds: nat, n: nat)
    requires
        n >= 1,
    ensures
        stepped_n(started(t0, p, color, leds), (n - 1) as nat).due == t0 + n * p,
        stepped_n(started(t0, p, color, leds), (n - 1) as nat).next == (if n % 2 == 1 {
            Light::On
        } else {
            Light::Off
        }),
{
    lemma_deadlines_do_not_drift(started(t0, p, color, leds), (n - 1) as nat);
    assert(t0 + p + (n - 1) * p == t0 + n * p) by (nonlinear_arith);
}

impl Blinker {
    /// Starts a blinker at cycle `start`: the lights go on one period later.
    pub fn new(start: u64, period: u64, color: Rgb, leds: usize) -> (r: Result<Blinker, ScheduleError>)
        ensures
            start + period <= u64::MAX <==> r is Ok,
            r is Ok ==> r->Ok_0@ == started(start as int, period as int, color, leds as nat),
            r is Err ==> r->Err_0 == ScheduleError::DeadlineOverflow,
    {
        match start.checked_add(period) {
            Some(due) => Ok(Blinker { next: Light::On, due, period, color, leds }),
            None => Err(ScheduleError::DeadlineOverflow),
        }
    }

    /// Runs the transition that is due: returns the frame to emit and the
    /// cycle it was scheduled for, and schedules the opposite transition one
    /// period after that cycle. Fails, leaving the blinker as it was, when the
    /// next deadline does not fit the cycle counter.
    pub fn fire(&mut self) -> (r: Result<Transition, ScheduleError>)
        ensures
            old(self).due + old(self).period <= u64::MAX <==> r is Ok,
            r is Ok ==> final(self)@ == stepped(old(self)@),
            r is Ok ==> r->Ok_0.light == old(self).next,
            r is Ok ==> r->Ok_0.at == old(self).due,
            r is Ok ==> r->Ok_0.frame@ == light_frame(old(self)@, old(self).next),
            r is Err ==> r->Err_0 == ScheduleError::DeadlineOverflow,
            r is Err ==> *final(self) == *old(self),
    {
        let due = match self.due.checked_add(self.period) {
            Some(d) => d,
            None => return Err(ScheduleError::DeadlineOverflow),
        };
        let light = self.next;
        let frame = match light {
            Light::On => solid_frame(self.color, self.leds),
            Light::Off => solid_frame(Rgb::off(), self.leds),
        };
        let at = self.due;
        self.next = match light {
            Light::On => Light::Off,
            Light::Off => Light::On,
        };
        self.due = due;
        Ok(Transition { light, at, frame })
    }
}

} // verus!
