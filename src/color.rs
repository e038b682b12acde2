use vstd::prelude::*;

verus! {

/// One LED's color: three 8-bit channel intensities.
#[derive(Clone, Copy, Debug, PartialEq, Eq, Structural)]
pub struct Rgb {
    pub r: u8,
    pub g: u8,
    pub b: u8,
}

impl Rgb {
    pub fn new(r: u8, g: u8, b: u8) -> (c: Rgb)
        ensures
            c.r == r,
            c.g == g,
            c.b == b,
    {
        Rgb { r, g, b }
    }

    /// The color of an LED that is off.
    pub fn off() -> (c: Rgb)
        ensures
            c == off_color(),
    {
        Rgb { r: 0, g: 0, b: 0 }
    }
}

impl Default for Rgb {
    fn default() -> (c: Rgb)
        ensures
            c == off_color(),
    {
        Rgb::off()
    }
}

pub open spec fn off_color() -> Rgb {
    Rgb { r: 0, g: 0, b: 0 }
}

/// The hue cycle: the phase is inverted, and each third of 85 positions of the
/// inverted range ramps between two channels while the third stays at zero.
pub open spec fn wheel_color(phase: u8) -> Rgb {
    let w = 255 - phase;
    if w < 85 {
        Rgb { r: (255 - 3 * w) as u8, g: 0, b: (3 * w) as u8 }
    } else if w < 170 {
        Rgb { r: 0, g: (3 * (w - 85)) as u8, b: (255 - 3 * (w - 85)) as u8 }
    } else {
        Rgb { r: (3 * (w - 170)) as u8, g: (255 - 3 * (w - 170)) as u8, b: 0 }
    }
}

/// Maps a phase position on the hue ring to its color.
pub fn color_wheel(phase: u8) -> (c: Rgb)
    ensures
        c == wheel_color(phase),
{
    let w: u8 = 255 - phase;
    if w < 85 {
        return Rgb { r: 255 - w * 3, g: 0, b: w * 3 };
    }
    if w < 170 {
        let k: u8 = w - 85;
        return Rgb { r: 0, g: k * 3, b: 255 - k * 3 };
    }
    let k: u8 = w - 170;
    Rgb { r: k * 3, g: 255 - k * 3, b: 0 }
}

/// One channel under a brightness scale: `c * scale / 255`, truncated.
pub open spec fn scale_channel(c: u8, scale: u8) -> u8 {
    (c * scale / 255) as u8
}

pub open spec fn scale_color(c: Rgb, scale: u8) -> Rgb {
    Rgb {
        r: scale_channel(c.r, scale),
        g: scale_channel(c.g, scale),
        b: scale_channel(c.b, scale),
    }
}

proof fn lemma_scaled_channel_fits(c: u8, scale: u8)
    ensures
        c * scale <= 255 * 255,
        c * scale / 255 <= 255,
{
    assert(c * scale <= 255 * 255) by (nonlinear_arith)
        requires
            c <= 255,
            scale <= 255,
    ;
    vstd::arithmetic::div_mod::lemma_div_is_ordered(c * scale, 255 * 255 as int, 255);
}

fn scale_one_channel(c: u8, scale: u8) -> (r: u8)
    ensures
        r == scale_channel(c, scale),
{
    proof {
        lemma_scaled_channel_fits(c, scale);
    }
    ((c as u16) * (scale as u16) / 255) as u8
}

/// One color under a brightness scale, each channel on its own.
pub fn scale_rgb(c: Rgb, scale: u8) -> (r: Rgb)
    ensures
        r == scale_color(c, scale),
{
    Rgb {
        r: scale_one_channel(c.r, scale),
        g: scale_one_channel(c.g, scale),
        b: scale_one_channel(c.b, scale),
    }
}

/// The frame under a brightness scale: one scaled color per input color, in
/// order; the input is left as it is.
pub fn scale_frame(frame: &Vec<Rgb>, scale: u8) -> (out: Vec<Rgb>)
    ensures
        out@.len() == frame@.len(),
        forall|i: int| 0 <= i < frame@.len() ==> out@[i] == scale_color(#[trigger] frame@[i], scale),
{
    let mut out: Vec<Rgb> = Vec::new();
    let mut i: usize = 0;
    while i < frame.len()
        invariant
            i <= frame@.len(),
            out@.len() == i,
            forall|j: int| 0 <= j < i ==> out@[j] == scale_color(#[trigger] frame@[j], scale),
        decreases frame@.len() - i,
    {
        out.push(scale_rgb(frame[i], scale));
        i = i + 1;
    }
    out
}

pub open spec fn channel_gap(a: u8, b: u8) -> int {
    if a >= b {
        a - b
    } else {
        b - a
    }
}

/// Every wheel color splits full intensity between at most two channels:
/// the three channels sum to 255, and the channel left out is green, red or
/// blue as the inverted phase lies in the first, second or last third. The
/// ramps reach the extreme value exactly at the boundaries of the thirds.
pub proof fn lemma_wheel_splits_full_intensity(phase: u8)
    ensures
        wheel_color(phase).r + wheel_color(phase).g + wheel_color(phase).b == 255,
        255 - phase < 85 ==> wheel_color(phase).g == 0,
        85 <= 255 - phase < 170 ==> wheel_color(phase).r == 0,
        170 <= 255 - phase ==> wheel_color(phase).b == 0,
        wheel_color(255) == (Rgb { r: 255, g: 0, b: 0 }),
        wheel_color(170) == (Rgb { r: 0, g: 0, b: 255 }),
        wheel_color(85) == (Rgb { r: 0, g: 255, b: 0 }),
{
}

/// The hue ring has no seam: neighbouring phases, including 255 and 0, give
/// colors whose channels differ by at most one ramp step of 3.
pub proof fn lemma_wheel_is_continuous(phase: u8)
    ensures
        channel_gap(wheel_color(phase).r, wheel_color(((phase + 1) % 256) as u8).r) <= 3,
        channel_gap(wheel_color(phase).g, wheel_color(((phase + 1) % 256) as u8).g) <= 3,
        channel_gap(wheel_color(phase).b, wheel_color(((phase + 1) % 256) as u8).b) <= 3,
{
}

/// A larger brightness scale never gives a dimmer channel.
pub proof fn lemma_scale_is_monotonic(c: Rgb, scale1: u8, scale2: u8)
    requires
        scale1 < scale2,
    ensures
        scale_color(c, scale1).r <= scale_color(c, scale2).r,
        scale_color(c, scale1).g <= scale_color(c, scale2).g,
        scale_color(c, scale1).b <= scale_color(c, scale2).b,
{
    lemma_channel_scale_is_monotonic(c.r, scale1, scale2);
    lemma_channel_scale_is_monotonic(c.g, scale1, scale2);
    lemma_channel_scale_is_monotonic(c.b, scale1, scale2);
}

proof fn lemma_channel_scale_is_monotonic(c: u8, scale1: u8, scale2: u8)
    requires
        scale1 < scale2,
    ensures
        scale_channel(c, scale1) <= scale_channel(c, scale2),
{
    assert(c * scale1 <= c * scale2) by (nonlinear_arith)
        requires
            scale1 < scale2,
            c >= 0,
    ;
    lemma_scaled_channel_fits(c, scale2);
    vstd::arithmetic::div_mod::lemma_div_is_ordered(c * scale1, c * scale2, 255);
}

/// Full scale reproduces the color exactly, and zero scale turns it off.
pub proof fn lemma_scale_extremes(c: Rgb)
    ensures
        scale_color(c, 255) == c,
        scale_color(c, 0) == off_color(),
{
}

/// A frame of `n` LEDs that all show `color`.
pub open spec fn solid(color: Rgb, n: nat) -> Seq<Rgb> {
    Seq::new(n, |i: int| color)
}

/// Builds a frame of `n` LEDs that all show `color`.
pub fn solid_frame(color: Rgb, n: usize) -> (frame: Vec<Rgb>)
    ensures
        frame@ == solid(color, n as nat),
{
    let mut frame: Vec<Rgb> = Vec::new();
    let mut i: usize = 0;
    while i < n
        invariant
            i <= n,
            frame@ == solid(color, i as nat),
        decreases n - i,
    {
        frame.push(color);
        i = i + 1;
        assert(frame@ =~= solid(color, i as nat));
    }
    frame
}

} // verus!
