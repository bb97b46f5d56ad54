//! The linear RGB color space: the hub every other representation converts
//! through.

use vstd::prelude::*;

verus! {

use crate::fixed::{
    UNIT, TURN, clamp_unit, clamp_unit_spec, mul_unit, div_floor, lemma_div_le,
    lemma_mul_div_le, lemma_mul_div_cancel, lemma_mul_le, lemma_mul_abs_le, lemma_div_abs_le,
};
use crate::space::ColorSpace;
use crate::rng::rand_unit;

/// A linear RGB color value. Each channel is a fixed-point value in
/// `[0, UNIT]`, standing for the real interval `[0, 1]`.
#[derive(Clone, Copy, Debug, PartialEq, Eq, Structural)]
pub struct Rgb {
    pub r: u32,
    pub g: u32,
    pub b: u32,
}

/// The larger of two channel values.
pub open spec fn max2(a: int, b: int) -> int {
    if a >= b {
        a
    } else {
        b
    }
}

/// The smaller of two channel values.
pub open spec fn min2(a: int, b: int) -> int {
    if a <= b {
        a
    } else {
        b
    }
}

/// The numerator `num` as a fixed-point fraction of `den`: `num * UNIT / den`.
fn frac_unit(num: u32, den: u32) -> (q: u32)
    requires
        num <= den,
        0 < den <= UNIT,
    ensures
        q == num * UNIT / den as int,
        q <= UNIT,
        num == den ==> q == UNIT,
        num > 0 ==> 1 <= q,
{
    proof {
        lemma_mul_le(num as int, UNIT as int, 1_000_000, 1_000_000);
    }
    let wide: u64 = num as u64 * UNIT as u64;
    let q: u64 = wide / den as u64;
    proof {
        lemma_mul_div_le(num as int, UNIT as int, den as int);
        if num == den {
            lemma_mul_div_cancel(UNIT as int, den as int);
        }
        if num > 0 {
            assert(den <= num * UNIT) by (nonlinear_arith)
                requires
                    1 <= num,
                    den <= UNIT,
            ;
            lemma_div_le(den as int, num * UNIT, den as int);
            assert(den as int / den as int == 1) by (nonlinear_arith)
                requires
                    0 < den,
            ;
        }
    }
    q as u32
}

impl Rgb {
    /// Every channel lies within the fixed-point interval `[0, UNIT]`.
    pub open spec fn wf(&self) -> bool {
        self.r <= UNIT && self.g <= UNIT && self.b <= UNIT
    }

    /// The exact value `new` returns: each argument saturated at the channel
    /// bounds.
    pub open spec fn new_spec(red: int, green: int, blue: int) -> Rgb {
        Rgb { r: clamp_unit_spec(red), g: clamp_unit_spec(green), b: clamp_unit_spec(blue) }
    }

    /// Constructs a color from the given channel values, each clamped into
    /// `[0, UNIT]`.
    pub fn new(red: i64, green: i64, blue: i64) -> (c: Rgb)
        ensures
            c == Rgb::new_spec(red as int, green as int, blue as int),
            c.wf(),
    {
        Rgb { r: clamp_unit(red), g: clamp_unit(green), b: clamp_unit(blue) }
    }

    /// Returns the value of the red channel of _self_.
    pub fn red(&self) -> (v: u32)
        ensures
            v == self.r,
    {
        self.r
    }

    /// Returns the value of the green channel of _self_.
    pub fn green(&self) -> (v: u32)
        ensures
            v == self.g,
    {
        self.g
    }

    /// Returns the value of the blue channel of _self_.
    pub fn blue(&self) -> (v: u32)
        ensures
            v == self.b,
    {
        self.b
    }

    /// Returns a color with the given red value, clamped, and _self_'s other
    /// channels.
    pub fn with_red(&self, r: i64) -> (c: Rgb)
        ensures
            c == (Rgb { r: clamp_unit_spec(r as int), ..*self }),
    {
        Rgb { r: clamp_unit(r), g: self.g, b: self.b }
    }

    /// Changes the red value of _self_ to `r`, clamped.
    pub fn set_red(&mut self, r: i64)
        ensures
            *final(self) == (Rgb { r: clamp_unit_spec(r as int), ..*old(self) }),
    {
        self.r = clamp_unit(r);
    }

    /// Returns a color with the given green value, clamped, and _self_'s other
    /// channels.
    pub fn with_green(&self, g: i64) -> (c: Rgb)
        ensures
            c == (Rgb { g: clamp_unit_spec(g as int), ..*self }),
    {
        Rgb { r: self.r, g: clamp_unit(g), b: self.b }
    }

    /// Changes the green value of _self_ to `g`, clamped.
    pub fn set_green(&mut self, g: i64)
        ensures
            *final(self) == (Rgb { g: clamp_unit_spec(g as int), ..*old(self) }),
    {
        self.g = clamp_unit(g);
    }

    /// Returns a color with the given blue value, clamped, and _self_'s other
    /// channels.
    pub fn with_blue(&self, b: i64) -> (c: Rgb)
        ensures
            c == (Rgb { b: clamp_unit_spec(b as int), ..*self }),
    {
        Rgb { r: self.r, g: self.g, b: clamp_unit(b) }
    }

    /// Changes the blue value of _self_ to `b`, clamped.
    pub fn set_blue(&mut self, b: i64)
        ensures
            *final(self) == (Rgb { b: clamp_unit_spec(b as int), ..*old(self) }),
    {
        self.b = clamp_unit(b);
    }

    /// One 8-bit channel as a fixed-point channel: `c / 255` of full scale.
    pub open spec fn channel_of_u8(c: u8) -> int {
        c * UNIT / 255
    }

    /// The exact value `from_u8` returns.
    pub open spec fn from_u8_spec(r: u8, g: u8, b: u8) -> Rgb {
        Rgb {
            r: Rgb::channel_of_u8(r) as u32,
            g: Rgb::channel_of_u8(g) as u32,
            b: Rgb::channel_of_u8(b) as u32,
        }
    }

    /// Creates a color from red, green and blue values given in `u8`, each
    /// mapped onto `[0, UNIT]` with 255 as full scale.
    pub fn from_u8(r: u8, g: u8, b: u8) -> (c: Rgb)
        ensures
            c == Rgb::from_u8_spec(r, g, b),
            c.wf(),
    {
        Rgb { r: channel_from_u8(r), g: channel_from_u8(g), b: channel_from_u8(b) }
    }

    /// Constructs a color from a 32-bit unsigned integer `clr`.
    ///
    /// The lower 24 bits of `clr` are interpreted as three 8-bit values, from
    /// low to high, for B, G and R respectively.
    pub fn from_u32(clr: u32) -> (c: Rgb)
        ensures
            c == Rgb::from_u8_spec(
                ((clr >> 16) & 0xFF) as u8,
                ((clr >> 8) & 0xFF) as u8,
                (clr & 0xFF) as u8,
            ),
            c.wf(),
    {
        proof {
            assert((clr >> 16) & 0xFF < 256 && (clr >> 8) & 0xFF < 256 && clr & 0xFF < 256)
                by (bit_vector);
        }
        Rgb::from_u8(((clr >> 16) & 0xFF) as u8, ((clr >> 8) & 0xFF) as u8, (clr & 0xFF) as u8)
    }

    /// The exact value `hue` returns: the six-sector hue angle, in `TURN`
    /// steps of a full turn, and `0` for an achromatic color.
    pub open spec fn hue_spec(&self) -> int {
        let r = self.r as int;
        let g = self.g as int;
        let b = self.b as int;
        let mx = max2(r, max2(g, b));
        let mn = min2(r, min2(g, b));
        if mx == mn {
            0
        } else {
            let c = mx - mn;
            if mx == r {
                if g >= b {
                    (g - b) * UNIT / c
                } else {
                    TURN - (b - g) * UNIT / c
                }
            } else if mx == g {
                if b >= r {
                    2 * UNIT + (b - r) * UNIT / c
                } else {
                    2 * UNIT - (r - b) * UNIT / c
                }
            } else {
                if r >= g {
                    4 * UNIT + (r - g) * UNIT / c
                } else {
                    4 * UNIT - (g - r) * UNIT / c
                }
            }
        }
    }

    /// Returns the hue of _self_, a value in `[0, TURN)`; an achromatic color
    /// reports hue `0`.
    pub fn hue(&self) -> (h: u32)
        requires
            self.wf(),
        ensures
            h == self.hue_spec(),
            h < TURN,
    {
        let mx = max3(self.r, self.g, self.b);
        let mn = min3(self.r, self.g, self.b);
        if mx == mn {
            0
        } else {
            let c = mx - mn;
            if mx == self.r {
                if self.g >= self.b {
                    frac_unit(self.g - self.b, c)
                } else {
                    TURN - frac_unit(self.b - self.g, c)
                }
            } else if mx == self.g {
                if self.b >= self.r {
                    2 * UNIT + frac_unit(self.b - self.r, c)
                } else {
                    2 * UNIT - frac_unit(self.r - self.b, c)
                }
            } else {
                if self.r >= self.g {
                    4 * UNIT + frac_unit(self.r - self.g, c)
                } else {
                    4 * UNIT - frac_unit(self.g - self.r, c)
                }
            }
        }
    }

    /// The exact value `saturation` returns: `1 - min/max` in fixed point,
    /// and `0` for an achromatic color.
    pub open spec fn saturation_spec(&self) -> int {
        let r = self.r as int;
        let g = self.g as int;
        let b = self.b as int;
        let mx = max2(r, max2(g, b));
        let mn = min2(r, min2(g, b));
        if mx == mn {
            0
        } else {
            UNIT - mn * UNIT / mx
        }
    }

    /// Returns the saturation of _self_, a value in `[0, UNIT]`; an
    /// achromatic color reports saturation `0`.
    pub fn saturation(&self) -> (s: u32)
        requires
            self.wf(),
        ensures
            s == self.saturation_spec(),
            s <= UNIT,
    {
        let mx = max3(self.r, self.g, self.b);
        let mn = min3(self.r, self.g, self.b);
        if mx == mn {
            0
        } else {
            UNIT - frac_unit(mn, mx)
        }
    }

    /// The exact value `brightness` returns: the maximum channel.
    pub open spec fn brightness_spec(&self) -> int {
        max2(self.r as int, max2(self.g as int, self.b as int))
    }

    /// Returns the brightness of _self_: the maximum of the three channels.
    pub fn brightness(&self) -> (v: u32)
        requires
            self.wf(),
        ensures
            v == self.brightness_spec(),
            v <= UNIT,
    {
        max3(self.r, self.g, self.b)
    }

    /// The exact value `lunimance` returns: the BT.709 luma weights applied
    /// to the channels.
    pub open spec fn lunimance_spec(&self) -> int {
        (2126 * self.r + 7152 * self.g + 722 * self.b) / 10000
    }

    /// Returns _self_'s luminance, the weighted sum of the channels with the
    /// BT.709 luma coefficients. It equals the Y channel that the YCbCr
    /// conversion produces.
    pub fn lunimance(&self) -> (y: u32)
        requires
            self.wf(),
        ensures
            y == self.lunimance_spec(),
            y <= UNIT,
    {
        let wide: u64 = 2126 * self.r as u64 + 7152 * self.g as u64 + 722 * self.b as u64;
        let q: u64 = wide / 10000;
        proof {
            lemma_div_le(
                2126 * self.r + 7152 * self.g + 722 * self.b,
                10000 * UNIT as int,
                10000,
            );
            lemma_mul_div_cancel(UNIT as int, 10000);
            assert(10000 * UNIT as int == UNIT as int * 10000) by (nonlinear_arith);
        }
        q as u32
    }

    /// Whether every channel of `other` is within `max_diff` of _self_'s.
    pub fn is_close_to(&self, other: &Rgb, max_diff: u32) -> (close: bool)
        ensures
            close == (abs_diff(self.r as int, other.r as int) <= max_diff
                && abs_diff(self.g as int, other.g as int) <= max_diff
                && abs_diff(self.b as int, other.b as int) <= max_diff),
    {
        close_u32(self.r, other.r, max_diff) && close_u32(self.g, other.g, max_diff)
            && close_u32(self.b, other.b, max_diff)
    }

    /// The exact value `add` returns: channel-wise sum, clamped.
    pub open spec fn add_spec(&self, rhs: Rgb) -> Rgb {
        Rgb::new_spec(self.r + rhs.r, self.g + rhs.g, self.b + rhs.b)
    }

    /// Adds `rhs` channel-wise; sums saturate at full scale.
    pub fn add(&self, rhs: Rgb) -> (c: Rgb)
        ensures
            c == self.add_spec(rhs),
            c.wf(),
    {
        Rgb::new(
            self.r as i64 + rhs.r as i64,
            self.g as i64 + rhs.g as i64,
            self.b as i64 + rhs.b as i64,
        )
    }

    /// The exact value `sub` returns: channel-wise difference, clamped.
    pub open spec fn sub_spec(&self, rhs: Rgb) -> Rgb {
        Rgb::new_spec(self.r - rhs.r, self.g - rhs.g, self.b - rhs.b)
    }

    /// Subtracts `rhs` channel-wise; differences saturate at zero.
    pub fn sub(&self, rhs: Rgb) -> (c: Rgb)
        ensures
            c == self.sub_spec(rhs),
            c.wf(),
    {
        Rgb::new(
            self.r as i64 - rhs.r as i64,
            self.g as i64 - rhs.g as i64,
            self.b as i64 - rhs.b as i64,
        )
    }

    /// The exact value `mul` returns: channel-wise fixed-point product.
    pub open spec fn mul_spec(&self, rhs: Rgb) -> Rgb {
        Rgb::new_spec(
            self.r * rhs.r / UNIT as int,
            self.g * rhs.g / UNIT as int,
            self.b * rhs.b / UNIT as int,
        )
    }

    /// Multiplies `rhs` channel-wise, modelling filtering of light.
    pub fn mul(&self, rhs: Rgb) -> (c: Rgb)
        requires
            self.wf(),
            rhs.wf(),
        ensures
            c == self.mul_spec(rhs),
            c.wf(),
    {
        Rgb::new(
            mul_unit(self.r, rhs.r) as i64,
            mul_unit(self.g, rhs.g) as i64,
            mul_unit(self.b, rhs.b) as i64,
        )
    }

    /// The exact value `scale` returns: every channel multiplied by the
    /// magnitude of the fixed-point factor `k`, then clamped.
    pub open spec fn scale_spec(&self, k: int) -> Rgb {
        let a = if k < 0 {
            -k
        } else {
            k
        };
        Rgb::new_spec(
            self.r * a / UNIT as int,
            self.g * a / UNIT as int,
            self.b * a / UNIT as int,
        )
    }

    /// Scales every channel by the magnitude of the fixed-point factor `k`
    /// (`UNIT` leaves the color unchanged); results saturate at full scale.
    pub fn scale(&self, k: i64) -> (c: Rgb)
        requires
            self.wf(),
        ensures
            c == self.scale_spec(k as int),
            c.wf(),
    {
        let cap: i64 = 1_000_000_000_000;
        let a: i64 = if k <= -cap || k >= cap {
            cap
        } else if k < 0 {
            -k
        } else {
            k
        };
        let ghost a_true: int = if k < 0 { -(k as int) } else { k as int };
        proof {
            if a_true >= cap {
                lemma_scale_saturates(self.r as int, a_true);
                lemma_scale_saturates(self.g as int, a_true);
                lemma_scale_saturates(self.b as int, a_true);
                lemma_scale_saturates(self.r as int, cap as int);
                lemma_scale_saturates(self.g as int, cap as int);
                lemma_scale_saturates(self.b as int, cap as int);
            }
            lemma_mul_le(self.r as int, a as int, 1_000_000, 1_000_000_000_000);
            lemma_mul_le(self.g as int, a as int, 1_000_000, 1_000_000_000_000);
            lemma_mul_le(self.b as int, a as int, 1_000_000, 1_000_000_000_000);
        }
        Rgb::new(
            div_floor(self.r as i64 * a, UNIT as i64),
            div_floor(self.g as i64 * a, UNIT as i64),
            div_floor(self.b as i64 * a, UNIT as i64),
        )
    }

    /// Constructs a color by drawing each of the three channels independently
    /// and uniformly from the valid range.
    pub fn rand() -> (c: Rgb)
        ensures
            c.wf(),
    {
        Rgb { r: rand_unit(), g: rand_unit(), b: rand_unit() }
    }

    /// The exact value `offset_with` returns: all channels scaled by a shared
    /// ratio `1 + (2t - 1) * offset / avg` built from the draw `t`, with a
    /// flat gray fallback when the seed's channel average is zero.
    pub open spec fn offset_with_spec(&self, offset: int, t: int) -> Rgb {
        let os = clamp_unit_spec(offset) as int;
        let val = (self.r + self.g + self.b) / 3;
        if val == 0 {
            Rgb { r: os as u32, g: os as u32, b: os as u32 }
        } else {
            let delta = os * (2 * t - UNIT) / UNIT as int;
            let ratio = UNIT + delta * UNIT / val;
            Rgb::new_spec(
                self.r * ratio / UNIT as int,
                self.g * ratio / UNIT as int,
                self.b * ratio / UNIT as int,
            )
        }
    }

    /// Offsets all channels by the shared relative amount that the draw
    /// `t` selects within `[-offset, offset]`.
    pub fn offset_with(&self, offset: i64, t: u32) -> (c: Rgb)
        requires
            self.wf(),
            t <= UNIT,
        ensures
            c == self.offset_with_spec(offset as int, t as int),
            c.wf(),
    {
        let os: i64 = clamp_unit(offset) as i64;
        let sum: i64 = self.r as i64 + self.g as i64 + self.b as i64;
        let val: i64 = sum / 3;
        if val == 0 {
            Rgb { r: os as u32, g: os as u32, b: os as u32 }
        } else {
            proof {
                lemma_delta_bounds(os as int, t as int);
            }
            let delta: i64 = div_floor(os * (2 * t as i64 - UNIT as i64), UNIT as i64);
            proof {
                lemma_mul_abs_le(delta as int, UNIT as int, 1_000_000, 1_000_000);
                lemma_div_abs_le(delta as int * UNIT as int, val as int);
            }
            let ratio: i64 = UNIT as i64 + div_floor(delta * UNIT as i64, val);
            proof {
                lemma_mul_abs_le(ratio as int, self.r as int, 1_000_001_000_000, 1_000_000);
                lemma_mul_abs_le(ratio as int, self.g as int, 1_000_001_000_000, 1_000_000);
                lemma_mul_abs_le(ratio as int, self.b as int, 1_000_001_000_000, 1_000_000);
            }
            Rgb::new(
                div_floor(self.r as i64 * ratio, UNIT as i64),
                div_floor(self.g as i64 * ratio, UNIT as i64),
                div_floor(self.b as i64 * ratio, UNIT as i64),
            )
        }
    }

    /// Constructs a color by adding a random offset, at most `offset`
    /// (clamped to `[0, UNIT]`), to all channels of _self_ at once; a seed
    /// whose channel average is zero yields the flat gray of the offset.
    pub fn rand_offset(&self, offset: i64) -> (c: Rgb)
        requires
            self.wf(),
        ensures
            c.wf(),
            exists|t: int| 0 <= t <= UNIT && c == self.offset_with_spec(offset as int, t),
            (self.r + self.g + self.b) / 3 == 0 ==> c == (Rgb {
                r: clamp_unit_spec(offset as int),
                g: clamp_unit_spec(offset as int),
                b: clamp_unit_spec(offset as int),
            }),
    {
        let t = rand_unit();
        let c = self.offset_with(offset, t);
        proof {
            assert(c == self.offset_with_spec(offset as int, t as int));
        }
        c
    }
}

/// Whether `a` and `b` differ by more than `max_diff`.
pub(crate) fn close_u32(a: u32, b: u32, max_diff: u32) -> (close: bool)
    ensures
        close == (abs_diff(a as int, b as int) <= max_diff),
{
    if a >= b {
        a - b <= max_diff
    } else {
        b - a <= max_diff
    }
}

/// The absolute difference of two values.
pub open spec fn abs_diff(a: int, b: int) -> int {
    if a >= b {
        a - b
    } else {
        b - a
    }
}

/// The largest of three channel values.
fn max3(a: u32, b: u32, c: u32) -> (m: u32)
    ensures
        m == max2(a as int, max2(b as int, c as int)),
{
    if a >= b && a >= c {
        a
    } else if b >= c {
        b
    } else {
        c
    }
}

/// The smallest of three channel values.
fn min3(a: u32, b: u32, c: u32) -> (m: u32)
    ensures
        m == min2(a as int, min2(b as int, c as int)),
{
    if a <= b && a <= c {
        a
    } else if b <= c {
        b
    } else {
        c
    }
}

/// One 8-bit channel scaled onto `[0, UNIT]`.
fn channel_from_u8(c: u8) -> (v: u32)
    ensures
        v == Rgb::channel_of_u8(c),
        v <= UNIT,
{
    let wide: u64 = c as u64 * UNIT as u64;
    let q: u64 = wide / 255;
    proof {
        lemma_mul_div_le(c as int, UNIT as int, 255);
        assert(c * UNIT as int / 255 <= UNIT);
    }
    q as u32
}

/// A channel at least `UNIT * UNIT` times full scale saturates: the scaled
/// value clamps the same way the capped factor does.
proof fn lemma_scale_saturates(c: int, a: int) by (nonlinear_arith)
    requires
        0 <= c <= 1_000_000,
        a >= 1_000_000_000_000,
    ensures
        c >= 1 ==> c * a / 1_000_000 >= 1_000_000,
        c == 0 ==> c * a / 1_000_000 == 0,
{
}

/// The shared offset numerator stays within one unit on either side.
proof fn lemma_delta_bounds(os: int, t: int) by (nonlinear_arith)
    requires
        0 <= os <= 1_000_000,
        0 <= t <= 1_000_000,
    ensures
        -1_000_000_000_000 <= os * (2 * t - 1_000_000) <= 1_000_000_000_000,
        -1_000_000 <= os * (2 * t - 1_000_000) / 1_000_000 <= 1_000_000,
{
}

/// Multiplying any color by white leaves it unchanged, and multiplying it by
/// black yields black: white is the identity and black the annihilator of
/// channel-wise multiplication.
pub proof fn lemma_mul_identity_annihilator(x: Rgb)
    requires
        x.wf(),
    ensures
        x.mul_spec(Rgb::from_u8_spec(255, 255, 255)) == x,
        x.mul_spec(Rgb::from_u8_spec(0, 0, 0)) == Rgb::from_u8_spec(0, 0, 0),
{
    assert(Rgb::channel_of_u8(255) == UNIT) by {
        lemma_mul_div_cancel(UNIT as int, 255);
        assert(255 * UNIT as int == UNIT as int * 255);
    }
    lemma_mul_div_cancel(x.r as int, UNIT as int);
    lemma_mul_div_cancel(x.g as int, UNIT as int);
    lemma_mul_div_cancel(x.b as int, UNIT as int);
    assert(x.r * 0 == 0 && x.g * 0 == 0 && x.b * 0 == 0) by (nonlinear_arith);
    assert(0int / UNIT as int == 0) by {
        vstd::arithmetic::div_mod::lemma_div_of0(UNIT as int);
    }
}

impl ColorSpace for Rgb {
    open spec fn inv(&self) -> bool {
        self.wf()
    }

    open spec fn from_rgb_spec(rgb: Rgb) -> Rgb {
        rgb
    }

    open spec fn to_rgb_spec(&self) -> Rgb {
        *self
    }

    fn from_rgb(rgb: Rgb) -> Rgb {
        rgb
    }

    fn to_rgb(&self) -> Rgb {
        *self
    }
}

/// Constructs a color with the given RGB values in `u8`. Equivalent to
/// `Rgb::from_u8(r, g, b)`.
pub fn rgb(r: u8, g: u8, b: u8) -> (c: Rgb)
    ensures
        c == Rgb::from_u8_spec(r, g, b),
        c.wf(),
{
    Rgb::from_u8(r, g, b)
}

/// Constructs a gray color: all three channels set to the value `x` maps to.
pub fn gray(x: u8) -> (c: Rgb)
    ensures
        c == Rgb::from_u8_spec(x, x, x),
        c.wf(),
{
    rgb(x, x, x)
}

/// Alias of the function `gray`.
pub fn grey(x: u8) -> (c: Rgb)
    ensures
        c == Rgb::from_u8_spec(x, x, x),
        c.wf(),
{
    gray(x)
}

} // verus!
