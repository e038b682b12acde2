use vstd::prelude::*;

use crate::color::{color_wheel, scale_color, scale_frame, wheel_color, Rgb};

verus! {

/// The number of LEDs on the animated configuration's strip.
pub const RAINBOW_LEDS: usize = 6;

/// The brightness scale of the animated configuration.
pub const RAINBOW_BRIGHTNESS: u8 = 32;

/// The pause after each frame, in milliseconds.
pub const FRAME_DELAY_MS: u8 = 5;

/// The phase runs through five full hue cycles before it starts over.
pub const PHASE_STEPS: u16 = 256 * 5;

/// The wheel position of LED `i` of `n` at animation phase `phase`: the LEDs
/// are spread evenly over the hue ring and all shifted by the phase.
pub open spec fn wheel_position(i: int, n: int, phase: int) -> int {
    (i * 256 / n + phase) % 256
}

/// The unscaled colors of an `n`-LED frame at `phase`.
pub open spec fn wheel_colors(n: nat, phase: int) -> Seq<Rgb> {
    Seq::new(n, |i: int| wheel_color(wheel_position(i, n as int, phase) as u8))
}

/// The frame emitted at `phase`: the wheel colors under the brightness scale.
pub open spec fn rainbow_frame(n: nat, phase: int, scale: u8) -> Seq<Rgb> {
    Seq::new(n, |i: int| scale_color(wheel_colors(n, phase)[i], scale))
}

pub open spec fn next_phase(phase: int) -> int {
    (phase + 1) % (PHASE_STEPS as int)
}

/// The phase after `k` frames.
pub open spec fn phase_after(phase: int, k: nat) -> int
    decreases k,
{
    if k == 0 {
        phase
    } else {
        next_phase(phase_after(phase, (k - 1) as nat))
    }
}

/// Computes the unscaled colors of an `n`-LED frame at `phase`.
pub fn wheel_frame(n: usize, phase: u16) -> (frame: Vec<Rgb>)
    ensures
        frame@ == wheel_colors(n as nat, phase as int),
{
    let mut frame: Vec<Rgb> = Vec::new();
    let mut i: usize = 0;
    while i < n
        invariant
            i <= n,
            frame@ == wheel_colors(n as nat, phase as int).subrange(0, i as int),
        decreases n - i,
    {
        let spread: u128 = (i as u128) * 256 / (n as u128);
        let pos: u128 = (spread + phase as u128) % 256;
        frame.push(color_wheel(pos as u8));
        i = i + 1;
        assert(frame@ =~= wheel_colors(n as nat, phase as int).subrange(0, i as int));
    }
    assert(frame@ =~= wheel_colors(n as nat, phase as int));
    frame
}

/// The free-running color-wheel animation: a phase counter and the strip it
/// paints.
#[derive(Clone, Copy, Debug)]
pub struct Rainbow {
    pub phase: u16,
    pub leds: usize,
    pub brightness: u8,
}

impl Rainbow {
    pub open spec fn wf(&self) -> bool {
        self.phase < PHASE_STEPS
    }

    /// An animation of `leds` LEDs at brightness scale `brightness`, at phase 0.
    pub fn new(leds: usize, brightness: u8) -> (r: Rainbow)
        ensures
            r.wf(),
            r.phase == 0,
            r.leds == leds,
            r.brightness == brightness,
    {
        Rainbow { phase: 0, leds, brightness }
    }

    /// Computes the frame for the current phase and advances the phase by
    /// one, starting over at 0 after the last step.
    pub fn tick(&mut self) -> (frame: Vec<Rgb>)
        requires
            old(self).wf(),
        ensures
            final(self).wf(),
            frame@ == rainbow_frame(old(self).leds as nat, old(self).phase as int, old(self).brightness),
            final(self).phase == next_phase(old(self).phase as int),
            final(self).leds == old(self).leds,
            final(self).brightness == old(self).brightness,
    {
        let colors = wheel_frame(self.leds, self.phase);
        let frame = scale_frame(&colors, self.brightness);
        self.phase = if self.phase + 1 < PHASE_STEPS {
            self.phase + 1
        } else {
            0
        };
        assert(frame@ =~= rainbow_frame(self.leds as nat, old(self).phase as int, self.brightness));
        frame
    }
}

/// The phase counter runs `k` frames ahead modulo the cycle length.
pub proof fn lemma_phase_after(phase: int, k: nat)
    requires
        0 <= phase < PHASE_STEPS,
    ensures
        phase_after(phase, k) == (phase + k) % (PHASE_STEPS as int),
    decreases k,
{
    if k > 0 {
        lemma_phase_after(phase, (k - 1) as nat);
        vstd::arithmetic::div_mod::lemma_add_mod_noop(phase + k - 1, 1, PHASE_STEPS as int);
    }
}

/// The animation is periodic: after a full run of `PHASE_STEPS` frames it is
/// back at the phase it started from, and so emits the same frames again.
pub proof fn lemma_animation_restarts(phase: int, n: nat, scale: u8)
    requires
        0 <= phase < PHASE_STEPS,
    ensures
        phase_after(phase, PHASE_STEPS as nat) == phase,
        rainbow_frame(n, phase_after(phase, PHASE_STEPS as nat), scale) == rainbow_frame(n, phase, scale),
{
    lemma_phase_after(phase, PHASE_STEPS as nat);
    vstd::arithmetic::div_mod::lemma_mod_add_multiples_vanish(phase, PHASE_STEPS as int);
    vstd::arithmetic::div_mod::lemma_small_mod(phase as nat, PHASE_STEPS as nat);
}

} // verus!
