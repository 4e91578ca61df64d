//! The text overlay: the color-cycling banner and the FPS readout.
//!
//! The banner's color channels are sinusoids of elapsed time, one frequency
//! per channel, mapped into [0, 1]. The shell evaluates the sine itself (a
//! floating-point call); this module reduces the elapsed time to a phase
//! within each channel's cycle, and maps the sine samples — fixed-point
//! values in [-1, 1] — into channel values in [0, 1]. The FPS readout is a
//! decimal rendering of the smoothed frames-per-second measurement.

use vstd::prelude::*;

use crate::fixed::SCALE;

verus! {

/// The color cycle's red channel period, in milliseconds: one full cycle of
/// a 1.25 rad/s sinusoid (2 pi / 1.25 seconds).
pub const RED_PERIOD_MS: u64 = 5027;

/// The green channel period: one full cycle at 0.75 rad/s (2 pi / 0.75
/// seconds).
pub const GREEN_PERIOD_MS: u64 = 8378;

/// The blue channel period: one full cycle at 0.50 rad/s (2 pi / 0.50
/// seconds).
pub const BLUE_PERIOD_MS: u64 = 12566;

/// Where within a channel's cycle an elapsed time falls.
pub fn cycle_phase(elapsed_ms: u64, period_ms: u64) -> (r: u64)
    requires
        period_ms > 0,
    ensures
        r == elapsed_ms as int % period_ms as int,
        r < period_ms,
{
    elapsed_ms % period_ms
}

/// The cycle repeats: one full period later, the phase — and with it
/// everything computed from the phase, the sine sample and the channel
/// value — is the same.
pub proof fn lemma_cycle_phase_periodic(elapsed_ms: int, period_ms: int)
    requires
        period_ms > 0,
    ensures
        (elapsed_ms + period_ms) % period_ms == elapsed_ms % period_ms,
{
    vstd::arithmetic::div_mod::lemma_mod_add_multiples_vanish(elapsed_ms, period_ms);
}

/// A sine sample `s` in [-SCALE, SCALE] (a fixed-point value in [-1, 1])
/// mapped to the channel value `s / 2 + 1/2`, clamped into range first so
/// that every input yields a channel in [0, SCALE].
pub open spec fn spec_channel(s: int) -> int {
    let clamped: int = if s < -SCALE {
        -SCALE as int
    } else if s > SCALE {
        SCALE as int
    } else {
        s
    };
    (clamped + SCALE) / 2
}

/// Map one sine sample to one color channel.
pub fn color_channel(sine_milli: i64) -> (r: i64)
    ensures
        r == spec_channel(sine_milli as int),
        0 <= r <= SCALE,
        -SCALE <= sine_milli <= SCALE ==> r == (sine_milli + SCALE) / 2,
{
    let clamped: i64 = if sine_milli < -SCALE {
        -SCALE
    } else if sine_milli > SCALE {
        SCALE
    } else {
        sine_milli
    };
    let shifted: u64 = (clamped + SCALE) as u64;
    (shifted / 2) as i64
}

/// An sRGB color in fixed point: each channel in [0, SCALE] for [0, 1].
#[derive(Clone, Copy, Debug, PartialEq, Eq, Structural)]
pub struct ColorMilli {
    pub red: i64,
    pub green: i64,
    pub blue: i64,
}

/// Every channel of the cycling text's color, from this frame's three sine
/// samples. Whatever the samples — every elapsed time — each channel lands
/// in [0, SCALE].
pub fn cycle_color(sine_red: i64, sine_green: i64, sine_blue: i64) -> (r: ColorMilli)
    ensures
        r.red == spec_channel(sine_red as int),
        r.green == spec_channel(sine_green as int),
        r.blue == spec_channel(sine_blue as int),
        0 <= r.red <= SCALE,
        0 <= r.green <= SCALE,
        0 <= r.blue <= SCALE,
{
    ColorMilli {
        red: color_channel(sine_red),
        green: color_channel(sine_green),
        blue: color_channel(sine_blue),
    }
}

/// The decimal digits of `n`, most significant first, as ASCII bytes.
pub open spec fn spec_digits(n: nat) -> Seq<u8>
    decreases n,
{
    if n < 10 {
        seq![(48 + n) as u8]
    } else {
        spec_digits(n / 10).push((48 + n % 10) as u8)
    }
}

/// Append the decimal digits of `n` to `out`.
fn push_digits(out: &mut Vec<u8>, n: u64)
    ensures
        final(out)@ == old(out)@ + spec_digits(n as nat),
    decreases n,
{
    if n < 10 {
        out.push(48 + n as u8);
        assert(out@ =~= old(out)@ + spec_digits(n as nat));
    } else {
        push_digits(out, n / 10);
        out.push(48 + (n % 10) as u8);
        assert(out@ =~= old(out)@ + spec_digits(n as nat));
    }
}

/// The FPS readout text for a measurement of `v` hundredths of a frame per
/// second: the whole part in decimal, a point, then exactly two fractional
/// digits.
pub open spec fn spec_fps_text_hundredths(v: nat) -> Seq<u8> {
    spec_digits(v / 100) + seq![46u8, (48 + (v % 100) / 10) as u8, (48 + (v % 100) % 10) as u8]
}

/// Render a frames-per-second measurement given in hundredths, as the FPS
/// counter's refresh does each tick ("61.37" for 6137).
pub fn format_fps_hundredths(v: u64) -> (r: Vec<u8>)
    ensures
        r@ == spec_fps_text_hundredths(v as nat),
{
    let mut out: Vec<u8> = Vec::new();
    push_digits(&mut out, v / 100);
    let frac: u64 = v % 100;
    out.push(46);
    out.push(48 + (frac / 10) as u8);
    out.push(48 + (frac % 10) as u8);
    assert(out@ =~= spec_fps_text_hundredths(v as nat));
    out
}

/// The FPS readout text for a measurement in tenths: the whole part, a
/// point, then exactly one fractional digit.
pub open spec fn spec_fps_text_tenths(v: nat) -> Seq<u8> {
    spec_digits(v / 10) + seq![46u8, (48 + v % 10) as u8]
}

/// Render a frames-per-second measurement given in tenths, as the one-shot
/// average readout does ("59.9" for 599).
pub fn format_fps_tenths(v: u64) -> (r: Vec<u8>)
    ensures
        r@ == spec_fps_text_tenths(v as nat),
{
    let mut out: Vec<u8> = Vec::new();
    push_digits(&mut out, v / 10);
    out.push(46);
    out.push(48 + (v % 10) as u8);
    assert(out@ =~= spec_fps_text_tenths(v as nat));
    out
}

} // verus!
