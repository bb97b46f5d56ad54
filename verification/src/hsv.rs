//! The HSV color space and the procedural palette generators that live on it.

use vstd::prelude::*;

verus! {

use vstd::arithmetic::div_mod::{
    lemma_add_mod_noop, lemma_fundamental_div_mod, lemma_fundamental_div_mod_converse,
    lemma_small_mod, lemma_basic_div,
};
use crate::fixed::{UNIT, TURN, HALF_TURN, clamp_unit, clamp_unit_spec, mul_unit, div_floor};
use crate::rgb::Rgb;
use crate::rng::{rand_unit, rand_turn};
use crate::space::ColorSpace;

/// An HSV color value: a hue in `[0, TURN)` fixed-point steps of the full
/// turn, and saturation and brightness in `[0, UNIT]`.
#[derive(Clone, Copy, Debug, PartialEq, Eq, Structural)]
pub struct Hsv {
    pub h: u32,
    pub s: u32,
    pub v: u32,
}

/// A hue argument saturated into `[0, TURN]`, with the upper bound wrapped
/// back to `0`: a hue is a position on a circle, not a clamped scalar.
pub open spec fn clamp_hue_spec(x: int) -> u32 {
    if 0 <= x < TURN {
        x as u32
    } else {
        0u32
    }
}

/// Clamps a hue argument into `[0, TURN]` and wraps an exact full turn to
/// zero.
fn clamp_hue(x: i64) -> (h: u32)
    ensures
        h == clamp_hue_spec(x as int),
        h < TURN,
{
    if x >= 0 && x < TURN as i64 {
        x as u32
    } else {
        0
    }
}

impl Hsv {
    /// The hue lies in `[0, TURN)` and the other channels in `[0, UNIT]`.
    pub open spec fn wf(&self) -> bool {
        self.h < TURN && self.s <= UNIT && self.v <= UNIT
    }

    /// The exact value `new` returns.
    pub open spec fn new_spec(hue: int, saturation: int, brightness: int) -> Hsv {
        Hsv {
            h: clamp_hue_spec(hue),
            s: clamp_unit_spec(saturation),
            v: clamp_unit_spec(brightness),
        }
    }

    /// Constructs an HSV value. The hue is clamped to `[0, TURN]` and an
    /// exact full turn wraps to zero; saturation and brightness clamp to
    /// `[0, UNIT]`.
    pub fn new(hue: i64, saturation: i64, brightness: i64) -> (c: Hsv)
        ensures
            c == Hsv::new_spec(hue as int, saturation as int, brightness as int),
            c.wf(),
    {
        Hsv { h: clamp_hue(hue), s: clamp_unit(saturation), v: clamp_unit(brightness) }
    }

    /// Constructs an HSV value by drawing each channel independently and
    /// uniformly from its valid range.
    pub fn rand() -> (c: Hsv)
        ensures
            c.wf(),
    {
        Hsv { h: rand_turn(), s: rand_unit(), v: rand_unit() }
    }

    /// Constructs the fully saturated, fully bright color at hue `h`.
    pub fn from_hue(h: i64) -> (c: Hsv)
        ensures
            c == Hsv::new_spec(h as int, UNIT as int, UNIT as int),
            c.wf(),
    {
        let mut clr = Hsv { h: 0, s: UNIT, v: UNIT };
        clr.set_hue(h);
        clr
    }

    /// Returns the hue of _self_.
    pub fn hue(&self) -> (h: u32)
        ensures
            h == self.h,
    {
        self.h
    }

    /// Returns the saturation of _self_.
    pub fn saturation(&self) -> (s: u32)
        ensures
            s == self.s,
    {
        self.s
    }

    /// Returns the brightness of _self_.
    pub fn brightness(&self) -> (v: u32)
        ensures
            v == self.v,
    {
        self.v
    }

    /// Changes _self_'s hue to `h`, clamped and with a full turn wrapped to
    /// zero.
    pub fn set_hue(&mut self, h: i64)
        ensures
            *final(self) == (Hsv { h: clamp_hue_spec(h as int), ..*old(self) }),
    {
        self.h = clamp_hue(h);
    }

    /// Returns a color with the given hue and _self_'s saturation and
    /// brightness.
    pub fn with_hue(&self, h: i64) -> (c: Hsv)
        ensures
            c == (Hsv { h: clamp_hue_spec(h as int), ..*self }),
    {
        let mut c = *self;
        c.set_hue(h);
        c
    }

    /// Changes _self_'s saturation to `s`, clamped.
    pub fn set_saturation(&mut self, s: i64)
        ensures
            *final(self) == (Hsv { s: clamp_unit_spec(s as int), ..*old(self) }),
    {
        self.s = clamp_unit(s);
    }

    /// Returns a color with the given saturation and _self_'s hue and
    /// brightness.
    pub fn with_saturation(&self, s: i64) -> (c: Hsv)
        ensures
            c == (Hsv { s: clamp_unit_spec(s as int), ..*self }),
    {
        let mut c = *self;
        c.set_saturation(s);
        c
    }

    /// Changes _self_'s brightness to `b`, clamped.
    pub fn set_brightness(&mut self, b: i64)
        ensures
            *final(self) == (Hsv { v: clamp_unit_spec(b as int), ..*old(self) }),
    {
        self.v = clamp_unit(b);
    }

    /// Returns a color with the given brightness and _self_'s hue and
    /// saturation.
    pub fn with_brightness(&self, b: i64) -> (c: Hsv)
        ensures
            c == (Hsv { v: clamp_unit_spec(b as int), ..*self }),
    {
        let mut c = *self;
        c.set_brightness(b);
        c
    }

    /// The color `delta` hue steps further around the wheel, wrapped.
    pub open spec fn rotated_spec(&self, delta: int) -> Hsv {
        Hsv { h: ((self.h + delta) % TURN as int) as u32, ..*self }
    }

    /// Rotates _self_'s hue by `delta` steps around the wheel.
    fn rotated(&self, delta: u32) -> (c: Hsv)
        requires
            self.wf(),
            delta <= TURN,
        ensures
            c == self.rotated_spec(delta as int),
            c.wf(),
    {
        Hsv { h: (self.h + delta) % TURN, s: self.s, v: self.v }
    }

    /// Returns the complementary color of _self_: the hue half a turn away.
    pub fn complement(&self) -> (c: Hsv)
        requires
            self.wf(),
        ensures
            c == self.rotated_spec(HALF_TURN as int),
            c.wf(),
    {
        self.rotated(HALF_TURN)
    }

    /// Returns the pair of colors split off the complementary color of
    /// _self_, thirty degrees to either side of it.
    pub fn split_complement(&self) -> (out: (Hsv, Hsv))
        requires
            self.wf(),
        ensures
            out.0 == self.rotated_spec(2_500_000),
            out.1 == self.rotated_spec(3_500_000),
            out.0.wf() && out.1.wf(),
    {
        (self.rotated(2_500_000), self.rotated(3_500_000))
    }

    /// Returns two pairs of complementary colors; the second color of each
    /// pair is one of _self_'s split-complement pair.
    pub fn double_complement(&self) -> (out: ((Hsv, Hsv), (Hsv, Hsv)))
        requires
            self.wf(),
        ensures
            out.0.1 == self.rotated_spec(2_500_000),
            out.1.1 == self.rotated_spec(3_500_000),
            out.0.0 == self.rotated_spec(2_500_000).rotated_spec(HALF_TURN as int),
            out.1.0 == self.rotated_spec(3_500_000).rotated_spec(HALF_TURN as int),
            out.0.0.wf() && out.0.1.wf() && out.1.0.wf() && out.1.1.wf(),
    {
        let (c1, c2) = self.split_complement();
        ((c1.complement(), c1), (c2.complement(), c2))
    }

    /// Returns the other two colors of the triad that includes _self_: the
    /// hues one third of a turn to either side.
    pub fn triad(&self) -> (out: (Hsv, Hsv))
        requires
            self.wf(),
        ensures
            out.0 == self.rotated_spec(2_000_000),
            out.1 == self.rotated_spec(4_000_000),
            out.0.wf() && out.1.wf(),
    {
        (self.rotated(2_000_000), self.rotated(4_000_000))
    }

    /// The exact sequence `analogs` returns: `n` colors whose hues start at
    /// _self_'s and step by `span / n`, wrapped around the wheel; empty when
    /// `n` or `span` is zero.
    pub open spec fn analogs_spec(&self, n: int, span: int) -> Seq<Hsv> {
        if span == 0 || n == 0 {
            Seq::empty()
        } else {
            Seq::new(
                n as nat,
                |i: int| Hsv { h: ((self.h + (span / n) * i) % TURN as int) as u32, ..*self },
            )
        }
    }

    /// Returns `n` colors analogous to _self_: hues evenly spaced across
    /// `span` hue steps starting at _self_'s hue, keeping saturation and
    /// brightness. Zero `n` or zero `span` yields an empty vector.
    pub fn analogs(&self, n: usize, span: i32) -> (out: Vec<Hsv>)
        requires
            self.wf(),
        ensures
            out@ == self.analogs_spec(n as int, span as int),
            forall|i: int| 0 <= i < out@.len() ==> (#[trigger] out@[i]).wf(),
    {
        let mut out: Vec<Hsv> = Vec::new();
        if span == 0 || n == 0 {
            proof {
                assert(out@ =~= self.analogs_spec(n as int, span as int));
            }
            return out;
        }
        let d: i64 = if n > 0x8000_0000 {
            // The quotient of a step this small is 0 or -1 by sign.
            proof {
                lemma_div_of_tiny(span as int, n as int);
            }
            if span >= 0 {
                0
            } else {
                -1
            }
        } else {
            proof {
                crate::fixed::lemma_div_abs_le(span as int, n as int);
            }
            div_floor(span as i64, n as i64)
        };
        // The wrapped step, so that each hue comes from its predecessor by
        // one modular addition.
        let q = div_floor(d, 6_000_000);
        proof {
            crate::fixed::lemma_div_abs_le(d as int, 6_000_000);
        }
        let dm: i64 = d - 6_000_000 * q;
        proof {
            lemma_fundamental_div_mod(d as int, TURN as int);
            assert(TURN == 6_000_000);
        }
        let mut cur: u32 = self.h;
        let mut i: usize = 0;
        proof {
            lemma_small_mod(self.h as nat, TURN as nat);
        }
        while i < n
            invariant
                self.wf(),
                0 <= i <= n,
                1 <= n,
                out@.len() == i,
                dm == d as int % TURN as int,
                0 <= dm < TURN,
                d == span as int / n as int,
                cur < TURN,
                cur == (self.h + d * i) % TURN as int,
                forall|j: int| 0 <= j < i ==> #[trigger] out@[j] == (Hsv {
                    h: ((self.h + d * j) % TURN as int) as u32,
                ..*self
                }),
            decreases n - i,
        {
            out.push(Hsv { h: cur, s: self.s, v: self.v });
            proof {
                lemma_add_mod_noop(self.h + d * i, d as int, TURN as int);
                assert(d * (i + 1) == d * i + d) by (nonlinear_arith);
                lemma_small_mod(dm as nat, TURN as nat);
            }
            cur = ((cur as u64 + dm as u64) % TURN as u64) as u32;
            i = i + 1;
        }
        proof {
            assert(out@ =~= self.analogs_spec(n as int, span as int));
        }
        out
    }

    /// Returns `n` colors distributed evenly on the color wheel, at full
    /// saturation and brightness, starting at hue zero (red). Zero `n`
    /// yields an empty vector.
    pub fn color_wheel(n: usize) -> (out: Vec<Hsv>)
        ensures
            out@ == Hsv::new_spec(0, UNIT as int, UNIT as int).analogs_spec(
                n as int,
                TURN as int,
            ),
            out@.len() == n,
            n > 0 ==> out@[0] == Hsv::new_spec(0, UNIT as int, UNIT as int),
            forall|i: int| 0 <= i < out@.len() ==> (#[trigger] out@[i]).wf(),
    {
        let red = Hsv::from_hue(0);
        let out = red.analogs(n, TURN as i32);
        proof {
            let spec = red.analogs_spec(n as int, TURN as int);
            if n > 0 {
                assert(spec[0].h == (0 + (TURN as int / n as int) * 0) % TURN as int);
                lemma_small_mod(0, TURN as nat);
            }
        }
        out
    }

    /// The exact value `tint` returns: brightness raised by the clamped
    /// amount, saturating at full scale.
    pub open spec fn tint_spec(&self, amt: int) -> Hsv {
        Hsv { v: clamp_unit_spec(self.v + clamp_unit_spec(amt)), ..*self }
    }

    /// Produces a color by adding white: raises brightness by `amt`
    /// (clamped to `[0, UNIT]`), saturating at full brightness.
    pub fn tint(&self, amt: i64) -> (c: Hsv)
        ensures
            c == self.tint_spec(amt as int),
    {
        let b = clamp_unit(amt);
        self.with_brightness(self.v as i64 + b as i64)
    }

    /// The exact sequence `tints` returns: `n` colors whose brightness
    /// climbs from _self_'s by even steps of `(UNIT - v) / n`.
    pub open spec fn tints_spec(&self, n: int) -> Seq<Hsv> {
        if n == 0 {
            Seq::empty()
        } else {
            let d = (UNIT - self.v) / n;
            Seq::new(n as nat, |i: int| Hsv { v: clamp_unit_spec(self.v + d * i), ..*self })
        }
    }

    /// Produces `n` colors whose brightness increases monotonically and
    /// evenly from _self_'s toward full brightness.
    pub fn tints(&self, n: usize) -> (out: Vec<Hsv>)
        requires
            self.wf(),
        ensures
            out@ == self.tints_spec(n as int),
            forall|i: int| 0 <= i < out@.len() ==> (#[trigger] out@[i]).wf(),
    {
        let d = div_even_step(UNIT - self.v, n);
        let out = self.brightness_ramp(self.v, d, n);
        proof {
            assert(out@ =~= self.tints_spec(n as int));
        }
        out
    }

    /// The exact value `shade` returns: brightness lowered by the clamped
    /// amount, saturating at zero.
    pub open spec fn shade_spec(&self, amt: int) -> Hsv {
        Hsv { v: clamp_unit_spec(self.v - clamp_unit_spec(amt)), ..*self }
    }

    /// Produces a color by adding black: lowers brightness by `amt`
    /// (clamped to `[0, UNIT]`), saturating at zero.
    pub fn shade(&self, amt: i64) -> (c: Hsv)
        ensures
            c == self.shade_spec(amt as int),
    {
        let b = clamp_unit(amt);
        self.with_brightness(self.v as i64 - b as i64)
    }

    /// The exact sequence `shades` returns: `n` colors whose brightness
    /// falls from _self_'s by even steps of `v / n`.
    pub open spec fn shades_spec(&self, n: int) -> Seq<Hsv> {
        if n == 0 {
            Seq::empty()
        } else {
            let d = self.v as int / n;
            Seq::new(n as nat, |i: int| Hsv { v: clamp_unit_spec(self.v - d * i), ..*self })
        }
    }

    /// Produces `n` colors whose brightness decreases monotonically and
    /// evenly from _self_'s toward black.
    pub fn shades(&self, n: usize) -> (out: Vec<Hsv>)
        requires
            self.wf(),
        ensures
            out@ == self.shades_spec(n as int),
            forall|i: int| 0 <= i < out@.len() ==> (#[trigger] out@[i]).wf(),
    {
        let d = div_even_step(self.v, n);
        let mut out: Vec<Hsv> = Vec::new();
        if n == 0 {
            proof {
                assert(out@ =~= self.shades_spec(n as int));
            }
            return out;
        }
        let mut cur: u32 = self.v;
        let mut i: usize = 0;
        while i < n
            invariant
                self.wf(),
                0 <= i <= n,
                1 <= n,
                out@.len() == i,
                d == self.v as int / n as int,
                d * i <= self.v,
                cur == self.v - d * i,
                forall|j: int| 0 <= j < i ==> #[trigger] out@[j] == (Hsv {
                    v: clamp_unit_spec(self.v - d * j),
                ..*self
                }),
            decreases n - i,
        {
            out.push(Hsv { h: self.h, s: self.s, v: cur });
            proof {
                lemma_step_total(self.v as int, d as int, n as int, i as int);
            }
            cur = cur - d;
            i = i + 1;
        }
        proof {
            assert(out@ =~= self.shades_spec(n as int));
        }
        out
    }

    /// The exact value `tone` returns: saturation lowered by the clamped
    /// amount, saturating at zero.
    pub open spec fn tone_spec(&self, amt: int) -> Hsv {
        Hsv { s: clamp_unit_spec(self.s - clamp_unit_spec(amt)), ..*self }
    }

    /// Produces a color by adding gray: lowers saturation by `amt` (clamped
    /// to `[0, UNIT]`), saturating at zero.
    pub fn tone(&self, amt: i64) -> (c: Hsv)
        ensures
            c == self.tone_spec(amt as int),
    {
        let s = clamp_unit(amt);
        self.with_saturation(self.s as i64 - s as i64)
    }

    /// The exact sequence `tones` returns: `n` colors whose brightness is
    /// set to _self_'s saturation raised by even steps of `(UNIT - s) / n`.
    ///
    /// The series writes the ramp through the brightness channel, with the
    /// saturation left as it is.
    pub open spec fn tones_spec(&self, n: int) -> Seq<Hsv> {
        if n == 0 {
            Seq::empty()
        } else {
            let d = (UNIT - self.s) / n;
            Seq::new(n as nat, |i: int| Hsv { v: clamp_unit_spec(self.s + d * i), ..*self })
        }
    }

    /// Produces `n` colors stepped evenly from _self_'s saturation value
    /// toward full scale; the stepped value lands in the brightness channel.
    pub fn tones(&self, n: usize) -> (out: Vec<Hsv>)
        requires
            self.wf(),
        ensures
            out@ == self.tones_spec(n as int),
            forall|i: int| 0 <= i < out@.len() ==> (#[trigger] out@[i]).wf(),
    {
        let d = div_even_step(UNIT - self.s, n);
        let out = self.brightness_ramp(self.s, d, n);
        proof {
            assert(out@ =~= self.tones_spec(n as int));
        }
        out
    }

    /// Whether every channel of `other` is within `max_diff` of _self_'s.
    pub fn is_close_to(&self, other: &Hsv, max_diff: u32) -> (close: bool)
        ensures
            close == (crate::rgb::abs_diff(self.h as int, other.h as int) <= max_diff
                && crate::rgb::abs_diff(self.s as int, other.s as int) <= max_diff
                && crate::rgb::abs_diff(self.v as int, other.v as int) <= max_diff),
    {
        crate::rgb::close_u32(self.h, other.h, max_diff)
            && crate::rgb::close_u32(self.s, other.s, max_diff)
            && crate::rgb::close_u32(self.v, other.v, max_diff)
    }

    /// Pushes `n` copies of _self_ whose brightness climbs from `start` in
    /// steps of `d`, never passing full scale.
    fn brightness_ramp(&self, start: u32, d: u32, n: usize) -> (out: Vec<Hsv>)
        requires
            self.wf(),
            start <= UNIT,
            n > 0 ==> d == (UNIT - start) / n as int,
        ensures
            out@.len() == (if n == 0 { 0int } else { n as int }),
            forall|j: int| 0 <= j < out@.len() ==> #[trigger] out@[j] == (Hsv {
                v: clamp_unit_spec(start + d * j),
            ..*self
            }),
            forall|i: int| 0 <= i < out@.len() ==> (#[trigger] out@[i]).wf(),
    {
        let mut out: Vec<Hsv> = Vec::new();
        if n == 0 {
            return out;
        }
        let mut cur: u32 = start;
        let mut i: usize = 0;
        while i < n
            invariant
                self.wf(),
                0 <= i <= n,
                1 <= n,
                start <= UNIT,
                out@.len() == i,
                d == (UNIT - start) as int / n as int,
                start + d * i <= UNIT,
                cur == start + d * i,
                forall|j: int| 0 <= j < i ==> #[trigger] out@[j] == (Hsv {
                    v: clamp_unit_spec(start + d * j),
                ..*self
                }),
            decreases n - i,
        {
            out.push(Hsv { h: self.h, s: self.s, v: cur });
            proof {
                lemma_step_total((UNIT - start) as int, d as int, n as int, i as int);
            }
            cur = cur + d;
            i = i + 1;
        }
        out
    }
}

/// The even step `amount / n` of a ramp of `n` colors, and zero for an empty
/// ramp.
fn div_even_step(amount: u32, n: usize) -> (d: u32)
    requires
        amount <= UNIT,
    ensures
        n > 0 ==> d == amount as int / n as int,
        n == 0 ==> d == 0,
        d <= amount,
{
    if n == 0 {
        0
    } else if n > UNIT as usize {
        proof {
            lemma_basic_div(amount as int, n as int);
            crate::fixed::lemma_div_abs_le(amount as int, n as int);
        }
        0
    } else {
        proof {
            crate::fixed::lemma_div_abs_le(amount as int, n as int);
        }
        amount / (n as u32)
    }
}

/// Within a ramp, the next multiple of the step still fits under the total:
/// `d == total / n` and `i < n` give `d * (i + 1) <= total`.
proof fn lemma_step_total(total: int, d: int, n: int, i: int)
    requires
        0 <= total,
        1 <= n,
        0 <= i < n,
        d == total / n,
    ensures
        d * (i + 1) <= total,
        0 <= d * i,
        d * (i + 1) == d * i + d,
{
    lemma_div_pos(total, n);
    lemma_fundamental_div_mod(total, n);
    assert(d * (i + 1) <= d * n <= total && 0 <= d * i && d * (i + 1) == d * i + d)
        by (nonlinear_arith)
        requires
            0 <= d,
            0 <= i < n,
            total == n * d + total % n,
            total % n >= 0,
    ;
}

/// A nonnegative numerator gives a nonnegative quotient.
proof fn lemma_div_pos(x: int, d: int) by (nonlinear_arith)
    requires
        0 <= x,
        0 < d,
    ensures
        0 <= x / d,
{
}

/// For a divisor larger than the magnitude of the dividend, the floor
/// quotient is `0` for a nonnegative dividend and `-1` for a negative one.
proof fn lemma_div_of_tiny(a: int, n: int)
    requires
        -0x8000_0000 <= a <= 0x7FFF_FFFF,
        n > 0x8000_0000,
    ensures
        a >= 0 ==> a / n == 0,
        a < 0 ==> a / n == -1,
{
    if a >= 0 {
        lemma_basic_div(a, n);
    } else {
        assert(a == (-1) * n + (a + n)) by (nonlinear_arith);
        vstd::arithmetic::div_mod::lemma_fundamental_div_mod_converse(a, n, -1, a + n);
    }
}

/// The saturation a color with maximum channel `v` and minimum channel `mn`
/// maps to.
spec fn sat_of(v: int, mn: int) -> int {
    1_000_000 - mn * 1_000_000 / v
}

/// The channel the HSV reconstruction produces for the minimum channel of a
/// color with maximum `v` and minimum `mn`.
spec fn pmin_of(v: int, mn: int) -> int {
    v * (1_000_000 - sat_of(v, mn)) / 1_000_000
}

/// The channel the HSV reconstruction produces for the middle channel `mid`
/// of a color with maximum `v` and minimum `mn`.
spec fn tmid_of(v: int, mn: int, mid: int) -> int {
    let f = (mid - mn) * 1_000_000 / (v - mn);
    v * (1_000_000 - (1_000_000 - f) * sat_of(v, mn) / 1_000_000) / 1_000_000
}

/// The saturation of a chromatic color is at least one step and at most full
/// scale.
proof fn lemma_sat_pos(v: int, mn: int)
    requires
        0 <= mn < v <= 1_000_000,
    ensures
        1 <= sat_of(v, mn) <= 1_000_000,
        0 <= mn * 1_000_000 / v,
{
    lemma_fundamental_div_mod(mn * 1_000_000, v);
    assert(1 <= 1_000_000 - mn * 1_000_000 / v <= 1_000_000) by (nonlinear_arith)
        requires
            0 <= mn < v <= 1_000_000,
            mn * 1_000_000 == v * (mn * 1_000_000 / v) + mn * 1_000_000 % v,
            0 <= mn * 1_000_000 % v < v,
    ;
    assert(0 <= mn * 1_000_000 / v) by (nonlinear_arith)
        requires
            0 <= mn < v,
            mn * 1_000_000 == v * (mn * 1_000_000 / v) + mn * 1_000_000 % v,
            0 <= mn * 1_000_000 % v < v,
    ;
}

/// The reconstructed minimum channel lands within one step below the
/// original minimum.
proof fn lemma_min_channel(v: int, mn: int)
    requires
        0 <= mn < v <= 1_000_000,
    ensures
        mn - 1 <= pmin_of(v, mn) <= mn,
        0 <= pmin_of(v, mn),
{
    let w = mn * 1_000_000 / v;
    lemma_fundamental_div_mod(mn * 1_000_000, v);
    lemma_sat_pos(v, mn);
    let p = v * (1_000_000 - sat_of(v, mn)) / 1_000_000;
    assert(1_000_000 - sat_of(v, mn) == w);
    lemma_fundamental_div_mod(v * w, 1_000_000);
    assert(mn - 1 <= p <= mn && 0 <= p) by (nonlinear_arith)
        requires
            0 <= mn < v <= 1_000_000,
            0 <= w,
            p == v * w / 1_000_000,
            mn * 1_000_000 == v * w + mn * 1_000_000 % v,
            0 <= mn * 1_000_000 % v < v,
            v * w == 1_000_000 * p + (v * w) % 1_000_000,
            0 <= (v * w) % 1_000_000 < 1_000_000,
    ;
}

/// The reconstructed middle channel lands within three steps below the
/// original middle channel.
proof fn lemma_mid_channel(v: int, mn: int, mid: int)
    requires
        0 <= mn <= mid <= v,
        mn < v,
        v <= 1_000_000,
    ensures
        mid - 3 <= tmid_of(v, mn, mid) <= mid,
        0 <= tmid_of(v, mn, mid),
{
    let c = v - mn;
    let f = (mid - mn) * 1_000_000 / c;
    let w = mn * 1_000_000 / v;
    let s = 1_000_000 - w;
    lemma_sat_pos(v, mn);
    assert(s == sat_of(v, mn));
    lemma_fundamental_div_mod((mid - mn) * 1_000_000, c);
    lemma_fundamental_div_mod(mn * 1_000_000, v);
    assert(0 <= f <= 1_000_000) by (nonlinear_arith)
        requires
            0 <= mid - mn <= c,
            0 < c,
            (mid - mn) * 1_000_000 == c * f + (mid - mn) * 1_000_000 % c,
            0 <= (mid - mn) * 1_000_000 % c < c,
    ;
    let u2 = (1_000_000 - f) * s / 1_000_000;
    lemma_fundamental_div_mod((1_000_000 - f) * s, 1_000_000);
    assert(0 <= u2 <= 1_000_000) by (nonlinear_arith)
        requires
            0 <= 1_000_000 - f <= 1_000_000,
            0 <= s <= 1_000_000,
            (1_000_000 - f) * s == 1_000_000 * u2 + ((1_000_000 - f) * s) % 1_000_000,
            0 <= ((1_000_000 - f) * s) % 1_000_000 < 1_000_000,
    ;
    let t = v * (1_000_000 - u2) / 1_000_000;
    lemma_fundamental_div_mod(v * (1_000_000 - u2), 1_000_000);
    assert(tmid_of(v, mn, mid) == t);
    lemma_mid_core(
        v,
        mn,
        mid,
        f,
        w,
        u2,
        t,
        (mid - mn) * 1_000_000 % c,
        mn * 1_000_000 % v,
        ((1_000_000 - f) * s) % 1_000_000,
        (v * (1_000_000 - u2)) % 1_000_000,
    );
}

/// The heart of the round-trip bound: with every floor division written as
/// its quotient-and-remainder equation, the reconstructed middle channel is
/// within three steps below the original.
proof fn lemma_mid_core(
    v: int,
    mn: int,
    mid: int,
    f: int,
    w: int,
    u2: int,
    t: int,
    ra: int,
    rb: int,
    rg: int,
    rh: int,
) by (nonlinear_arith)
    requires
        0 <= mn <= mid <= v,
        mn < v,
        v <= 1_000_000,
        (mid - mn) * 1_000_000 == (v - mn) * f + ra,
        0 <= ra < v - mn,
        mn * 1_000_000 == v * w + rb,
        0 <= rb < v,
        0 <= f <= 1_000_000,
        0 <= w,
        (1_000_000 - f) * (1_000_000 - w) == 1_000_000 * u2 + rg,
        0 <= rg < 1_000_000,
        0 <= u2 <= 1_000_000,
        v * (1_000_000 - u2) == 1_000_000 * t + rh,
        0 <= rh < 1_000_000,
    ensures
        mid - 3 <= t <= mid,
        0 <= t,
{
}

/// The hue fraction `num * UNIT / den` of a sector lies in `[0, UNIT]`,
/// reaches the ends exactly at the ends of its domain, and is positive off
/// the lower end.
proof fn lemma_frac_unit_range(num: int, den: int)
    requires
        0 <= num <= den,
        0 < den <= 1_000_000,
    ensures
        0 <= num * 1_000_000 / den <= 1_000_000,
        num == den ==> num * 1_000_000 / den == 1_000_000,
        num < den ==> num * 1_000_000 / den < 1_000_000,
        num > 0 ==> num * 1_000_000 / den >= 1,
{
    lemma_fundamental_div_mod(num * 1_000_000, den);
    assert({
        let q = num * 1_000_000 / den;
        let r = num * 1_000_000 % den;
        (0 <= q <= 1_000_000) && (num == den ==> q == 1_000_000) && (num < den ==> q
            < 1_000_000) && (num > 0 ==> q >= 1)
    }) by (nonlinear_arith)
        requires
            0 <= num <= den,
            0 < den <= 1_000_000,
            num * 1_000_000 == den * (num * 1_000_000 / den) + num * 1_000_000 % den,
            0 <= num * 1_000_000 % den < den,
    ;
}

/// Converting any color to HSV and back reproduces it within three
/// fixed-point steps (three millionths) per channel: the maximum channel is
/// reproduced exactly, the minimum within one step, and the middle one
/// within three.
pub proof fn lemma_hsv_round_trip(x: Rgb)
    requires
        x.wf(),
    ensures
        crate::rgb::abs_diff(Hsv::from_rgb_spec(x).to_rgb_spec().r as int, x.r as int) <= 3,
        crate::rgb::abs_diff(Hsv::from_rgb_spec(x).to_rgb_spec().g as int, x.g as int) <= 3,
        crate::rgb::abs_diff(Hsv::from_rgb_spec(x).to_rgb_spec().b as int, x.b as int) <= 3,
{
    let r = x.r as int;
    let g = x.g as int;
    let b = x.b as int;
    let mx = crate::rgb::max2(r, crate::rgb::max2(g, b));
    let mn = crate::rgb::min2(r, crate::rgb::min2(g, b));
    if mx == mn {
        lemma_gray_round_trip(x);
    } else {
        let c = mx - mn;
        lemma_sat_pos(mx, mn);
        let s = x.saturation_spec();
        assert(s == sat_of(mx, mn));
        let hsv = Hsv::from_rgb_spec(x);
        assert(hsv.s == s && hsv.v == mx);
        if mx == r {
            if g >= b {
                lemma_frac_unit_range(g - b, c);
                let h = (g - b) * 1_000_000 / c;
                assert(hsv.h == h);
                if g < r {
                    lemma_fundamental_div_mod_converse(h, 1_000_000, 0, h);
                    lemma_mid_channel(mx, mn, g);
                    lemma_min_channel(mx, mn);
                } else {
                    // The hue lands exactly on the sector boundary: the two
                    // largest channels are equal and both reproduce exactly.
                    assert(h == 1_000_000);
                    lemma_fundamental_div_mod_converse(h, 1_000_000, 1, 0);
                    assert(0int * s == 0) by (nonlinear_arith);
                    vstd::arithmetic::div_mod::lemma_div_of0(1_000_000);
                    crate::fixed::lemma_mul_div_cancel(mx, 1_000_000);
                    lemma_min_channel(mx, mn);
                }
            } else {
                lemma_frac_unit_range(b - g, c);
                let d = (b - g) * 1_000_000 / c;
                let h = 6_000_000 - d;
                assert(hsv.h == h);
                if b < r {
                    lemma_fundamental_div_mod_converse(h, 1_000_000, 5, 1_000_000 - d);
                    lemma_mid_channel(mx, mn, b);
                    lemma_min_channel(mx, mn);
                } else {
                    assert(d == 1_000_000);
                    lemma_fundamental_div_mod_converse(h, 1_000_000, 5, 0);
                    assert(0int * s == 0) by (nonlinear_arith);
                    vstd::arithmetic::div_mod::lemma_div_of0(1_000_000);
                    crate::fixed::lemma_mul_div_cancel(mx, 1_000_000);
                    lemma_min_channel(mx, mn);
                }
            }
        } else if mx == g {
            if b >= r {
                lemma_frac_unit_range(b - r, c);
                let f = (b - r) * 1_000_000 / c;
                let h = 2_000_000 + f;
                assert(hsv.h == h);
                if b < g {
                    lemma_fundamental_div_mod_converse(h, 1_000_000, 2, f);
                    lemma_mid_channel(mx, mn, b);
                    lemma_min_channel(mx, mn);
                } else {
                    assert(f == 1_000_000);
                    lemma_fundamental_div_mod_converse(h, 1_000_000, 3, 0);
                    assert(0int * s == 0) by (nonlinear_arith);
                    vstd::arithmetic::div_mod::lemma_div_of0(1_000_000);
                    crate::fixed::lemma_mul_div_cancel(mx, 1_000_000);
                    lemma_min_channel(mx, mn);
                }
            } else {
                lemma_frac_unit_range(r - b, c);
                let d = (r - b) * 1_000_000 / c;
                let h = 2_000_000 - d;
                assert(hsv.h == h);
                assert(r < g);
                assert(d < 1_000_000);
                lemma_fundamental_div_mod_converse(h, 1_000_000, 1, 1_000_000 - d);
                lemma_mid_channel(mx, mn, r);
                lemma_min_channel(mx, mn);
            }
        } else {
            assert(mx == b && r < b && g < b);
            if r >= g {
                lemma_frac_unit_range(r - g, c);
                let f = (r - g) * 1_000_000 / c;
                let h = 4_000_000 + f;
                assert(hsv.h == h);
                assert(f < 1_000_000);
                lemma_fundamental_div_mod_converse(h, 1_000_000, 4, f);
                lemma_mid_channel(mx, mn, r);
                lemma_min_channel(mx, mn);
            } else {
                lemma_frac_unit_range(g - r, c);
                let d = (g - r) * 1_000_000 / c;
                let h = 4_000_000 - d;
                assert(hsv.h == h);
                assert(d < 1_000_000);
                lemma_fundamental_div_mod_converse(h, 1_000_000, 3, 1_000_000 - d);
                lemma_mid_channel(mx, mn, g);
                lemma_min_channel(mx, mn);
            }
        }
    }
}

/// An achromatic color (all channels equal) maps to an HSV value whose
/// saturation is exactly zero, and converting that value back yields the
/// original color exactly.
pub proof fn lemma_gray_round_trip(x: Rgb)
    requires
        x.wf(),
        x.r == x.g,
        x.g == x.b,
    ensures
        Hsv::from_rgb_spec(x).s == 0,
        Hsv::from_rgb_spec(x).to_rgb_spec() == x,
{
}

/// Equivalent to calling `Hsv::new(h, s, v)`.
pub fn hsv(h: i64, s: i64, v: i64) -> (c: Hsv)
    ensures
        c == Hsv::new_spec(h as int, s as int, v as int),
        c.wf(),
{
    Hsv::new(h, s, v)
}

impl ColorSpace for Hsv {
    open spec fn inv(&self) -> bool {
        self.wf()
    }

    open spec fn from_rgb_spec(rgb: Rgb) -> Hsv {
        Hsv {
            h: rgb.hue_spec() as u32,
            s: rgb.saturation_spec() as u32,
            v: rgb.brightness_spec() as u32,
        }
    }

    open spec fn to_rgb_spec(&self) -> Rgb {
        let v = self.v as int;
        let s = self.s as int;
        if s == 0 {
            Rgb::new_spec(v, v, v)
        } else {
            let hi = self.h as int / UNIT as int;
            let f = self.h as int % UNIT as int;
            let p = v * (UNIT - s) / UNIT as int;
            let q = v * (UNIT - f * s / UNIT as int) / UNIT as int;
            let t = v * (UNIT - (UNIT - f) * s / UNIT as int) / UNIT as int;
            if hi == 0 {
                Rgb::new_spec(v, t, p)
            } else if hi == 1 {
                Rgb::new_spec(q, v, p)
            } else if hi == 2 {
                Rgb::new_spec(p, v, t)
            } else if hi == 3 {
                Rgb::new_spec(p, q, v)
            } else if hi == 4 {
                Rgb::new_spec(t, p, v)
            } else {
                Rgb::new_spec(v, p, q)
            }
        }
    }

    fn from_rgb(rgb: Rgb) -> (c: Hsv) {
        Hsv { h: rgb.hue(), s: rgb.saturation(), v: rgb.brightness() }
    }

    fn to_rgb(&self) -> (c: Rgb) {
        if self.s == 0 {
            Rgb::new(self.v as i64, self.v as i64, self.v as i64)
        } else {
            let hi = self.h / UNIT;
            let f = self.h % UNIT;
            let p = mul_unit(self.v, UNIT - self.s);
            let q = mul_unit(self.v, UNIT - mul_unit(f, self.s));
            let t = mul_unit(self.v, UNIT - mul_unit(UNIT - f, self.s));
            if hi == 0 {
                Rgb::new(self.v as i64, t as i64, p as i64)
            } else if hi == 1 {
                Rgb::new(q as i64, self.v as i64, p as i64)
            } else if hi == 2 {
                Rgb::new(p as i64, self.v as i64, t as i64)
            } else if hi == 3 {
                Rgb::new(p as i64, q as i64, self.v as i64)
            } else if hi == 4 {
                Rgb::new(t as i64, p as i64, self.v as i64)
            } else {
                Rgb::new(self.v as i64, p as i64, q as i64)
            }
        }
    }
}

} // verus!
