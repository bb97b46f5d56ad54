//! The sRGB color space: the gamma-encoded representation behind most image
//! formats and displays.
//!
//! The transfer function is the standard piecewise curve: a linear segment
//! with slope 12.92 below the conventional break points (0.0031308 linear,
//! 0.04045 encoded) and a power law with exponent 2.4 and offset 0.055 above
//! them. In fixed point the two fractional powers are computed exactly as
//! floor roots: `x^(1/2.4) = x^(5/12)` is `sqrt(sqrt(x)) * sqrt(cbrt(x))`,
//! and `x^2.4` is `x^2 * fifth_root(x^2)`.

use vstd::prelude::*;

verus! {

use vstd::arithmetic::div_mod::lemma_fundamental_div_mod;
use crate::fixed::{
    UNIT, clamp_unit, clamp_unit_spec, mul_unit, isqrt, icbrt, ififth, rt2, rt3, rt5,
    lemma_div_le, lemma_mul_le,
};
use crate::rgb::Rgb;
use crate::rng::rand_unit;
use crate::space::ColorSpace;

/// An sRGB color value. Each channel is a gamma-encoded fixed-point value in
/// `[0, UNIT]`.
#[derive(Clone, Copy, Debug, PartialEq, Eq, Structural)]
pub struct Srgb {
    pub r: u32,
    pub g: u32,
    pub b: u32,
}

/// The floor square root of a channel value, at fixed-point scale.
pub open spec fn sqrt_u(v: int) -> int {
    rt2(v * 1_000_000)
}

/// The floor cube root of a channel value, at fixed-point scale.
pub open spec fn cbrt_u(v: int) -> int {
    rt3(v * 1_000_000_000_000)
}

/// The floor fifth root of a channel value, at fixed-point scale.
pub open spec fn fifth_u(v: int) -> int {
    rt5(v * 1_000_000_000_000_000_000_000_000)
}

/// A channel value raised to the power `5/12`: the root the gamma-encoding
/// curve applies, as `x^(1/4) * x^(1/6)` in fixed point.
pub open spec fn gamma_root_spec(x: int) -> int {
    sqrt_u(sqrt_u(x)) * sqrt_u(cbrt_u(x)) / UNIT as int
}

/// The exact value the channel encoder returns: the linear segment below the
/// break point, and the offset power law above it.
pub open spec fn encode_channel_spec(x: int) -> int {
    if x <= 3130 {
        x * 1292 / 100
    } else {
        let t = gamma_root_spec(x);
        if 1055 * t > 55 * UNIT as int {
            (1055 * t - 55 * UNIT as int) / 1000
        } else {
            0
        }
    }
}

/// The exact value the channel decoder returns: the linear segment below the
/// break point, and the power `2.4` of the offset-removed value above it,
/// as `base^2 * (base^2)^(1/5)` in fixed point.
pub open spec fn decode_channel_spec(x: int) -> int {
    if x <= 40450 {
        x * 100 / 1292
    } else {
        let base = (x + 55_000) * 1000 / 1055;
        let sq = base * base / UNIT as int;
        sq * fifth_u(sq) / UNIT as int
    }
}

/// The floor square root of a channel value, at fixed-point scale.
fn sqrt_unit(v: u32) -> (r: u32)
    requires
        v <= UNIT,
    ensures
        r == sqrt_u(v as int),
        r <= UNIT,
{
    isqrt(v as u64 * 1_000_000)
}

/// The floor cube root of a channel value, at fixed-point scale.
fn cbrt_unit(v: u32) -> (r: u32)
    requires
        v <= UNIT,
    ensures
        r == cbrt_u(v as int),
        r <= UNIT,
{
    icbrt(v as u128 * 1_000_000_000_000)
}

/// The floor fifth root of a channel value, at fixed-point scale.
fn fifth_unit(v: u32) -> (r: u32)
    requires
        v <= UNIT,
    ensures
        r == fifth_u(v as int),
        r <= UNIT,
{
    ififth(v as u128 * 1_000_000_000_000_000_000_000_000)
}

/// Gamma-encodes one linear channel value.
fn encode_channel(x: u32) -> (e: u32)
    requires
        x <= UNIT,
    ensures
        e == encode_channel_spec(x as int),
        e <= UNIT,
{
    if x <= 3130 {
        x * 1292 / 100
    } else {
        let a = sqrt_unit(sqrt_unit(x));
        let b = sqrt_unit(cbrt_unit(x));
        let t = mul_unit(a, b);
        let scaled: u64 = 1055 * t as u64;
        if scaled > 55_000_000 {
            proof {
                lemma_div_le(1055 * t - 55_000_000, 1_000_000_000, 1000);
                assert(55 * UNIT as int == 55_000_000);
            }
            ((scaled - 55_000_000) / 1000) as u32
        } else {
            0
        }
    }
}

/// Decodes one gamma-encoded channel value back to linear.
fn decode_channel(x: u32) -> (d: u32)
    requires
        x <= UNIT,
    ensures
        d == decode_channel_spec(x as int),
        d <= UNIT,
{
    if x <= 40450 {
        x * 100 / 1292
    } else {
        let base: u32 = (((x as u64 + 55_000) * 1000) / 1055) as u32;
        proof {
            lemma_div_le((x + 55_000) * 1000, 1_055_000_000, 1055);
        }
        let sq = mul_unit(base, base);
        let f = fifth_unit(sq);
        mul_unit(sq, f)
    }
}

impl Srgb {
    /// Every channel lies within the fixed-point interval `[0, UNIT]`.
    pub open spec fn wf(&self) -> bool {
        self.r <= UNIT && self.g <= UNIT && self.b <= UNIT
    }

    /// The exact value `new` returns: each argument saturated at the channel
    /// bounds.
    pub open spec fn new_spec(r: int, g: int, b: int) -> Srgb {
        Srgb { r: clamp_unit_spec(r), g: clamp_unit_spec(g), b: clamp_unit_spec(b) }
    }

    /// Creates an sRGB value; the parameters are clamped into `[0, UNIT]`.
    pub fn new(r: i64, g: i64, b: i64) -> (c: Srgb)
        ensures
            c == Srgb::new_spec(r as int, g as int, b as int),
            c.wf(),
    {
        Srgb { r: clamp_unit(r), g: clamp_unit(g), b: clamp_unit(b) }
    }

    /// Returns the value of the red channel of _self_.
    pub fn red(&self) -> (v: u32)
        ensures
            v == self.r,
    {
        self.r
    }

    /// Returns the value of the green channel of _self_.
    pub fn green(&self) -> (v: u32)
        ensures
            v == self.g,
    {
        self.g
    }

    /// Returns the value of the blue channel of _self_.
    pub fn blue(&self) -> (v: u32)
        ensures
            v == self.b,
    {
        self.b
    }

    /// Constructs an sRGB value by gamma-encoding a random linear color.
    pub fn rand() -> (c: Srgb)
        ensures
            c.wf(),
    {
        let rgb = Rgb::rand();
        Srgb::from_rgb(rgb)
    }

    /// Whether every channel of `other` is within `max_diff` of _self_'s.
    pub fn is_close_to(&self, other: &Srgb, max_diff: u32) -> (close: bool)
        ensures
            close == (crate::rgb::abs_diff(self.r as int, other.r as int) <= max_diff
                && crate::rgb::abs_diff(self.g as int, other.g as int) <= max_diff
                && crate::rgb::abs_diff(self.b as int, other.b as int) <= max_diff),
    {
        crate::rgb::close_u32(self.r, other.r, max_diff)
            && crate::rgb::close_u32(self.g, other.g, max_diff)
            && crate::rgb::close_u32(self.b, other.b, max_diff)
    }
}

impl ColorSpace for Srgb {
    open spec fn inv(&self) -> bool {
        self.wf()
    }

    open spec fn from_rgb_spec(rgb: Rgb) -> Srgb {
        Srgb {
            r: encode_channel_spec(rgb.r as int) as u32,
            g: encode_channel_spec(rgb.g as int) as u32,
            b: encode_channel_spec(rgb.b as int) as u32,
        }
    }

    open spec fn to_rgb_spec(&self) -> Rgb {
        Rgb::new_spec(
            decode_channel_spec(self.r as int),
            decode_channel_spec(self.g as int),
            decode_channel_spec(self.b as int),
        )
    }

    fn from_rgb(rgb: Rgb) -> (c: Srgb) {
        Srgb {
            r: encode_channel(rgb.red()),
            g: encode_channel(rgb.green()),
            b: encode_channel(rgb.blue()),
        }
    }

    fn to_rgb(&self) -> (c: Rgb) {
        Rgb::new(
            decode_channel(self.r) as i64,
            decode_channel(self.g) as i64,
            decode_channel(self.b) as i64,
        )
    }
}

/// Black and white are fixed points of the gamma transfer: encoding or
/// decoding channel zero yields zero, and encoding or decoding full scale
/// yields full scale.
pub proof fn lemma_gamma_endpoints()
    ensures
        encode_channel_spec(0) == 0,
        decode_channel_spec(0) == 0,
        encode_channel_spec(UNIT as int) == UNIT,
        decode_channel_spec(UNIT as int) == UNIT,
{
    crate::fixed::lemma_rt2_is(1_000_000_000_000, 1_000_000);
    crate::fixed::lemma_rt3_is(1_000_000_000_000_000_000, 1_000_000);
    crate::fixed::lemma_rt5_is(1_000_000_000_000_000_000_000_000_000_000, 1_000_000);
    assert(encode_channel_spec(UNIT as int) == UNIT);
    assert(decode_channel_spec(UNIT as int) == UNIT);
}

/// On the linear segment of the transfer (a channel at or below the dark
/// break point), decoding an encoded channel loses at most one fixed-point
/// step downward.
pub proof fn lemma_dark_round_trip(x: int)
    requires
        0 <= x <= 3130,
    ensures
        x - 1 <= decode_channel_spec(encode_channel_spec(x)) <= x,
{
    let e = x * 1292 / 100;
    lemma_div_le(x * 1292, 4_043_960, 100);
    assert(e <= 40450);
    let d = e * 100 / 1292;
    vstd::arithmetic::div_mod::lemma_fundamental_div_mod(x * 1292, 100);
    // e * 100 lies within 99 below the exact product.
    assert(x * 1292 - 99 <= 100 * e <= x * 1292);
    assert(100 * e == e * 100);
    lemma_div_le(e * 100, x * 1292, 1292);
    crate::fixed::lemma_mul_div_cancel(x, 1292);
    assert(d <= x);
    lemma_div_le((x - 1) * 1292 + 1193, e * 100, 1292);
    assert((x - 1) * 1292 <= x * 1292 - 99) by (nonlinear_arith);
    vstd::arithmetic::div_mod::lemma_fundamental_div_mod((x - 1) * 1292 + 1193, 1292);
    crate::fixed::lemma_mul_div_cancel(x - 1, 1292);
    assert(((x - 1) * 1292 + 1193) / 1292 == x - 1) by {
        vstd::arithmetic::div_mod::lemma_hoist_over_denominator(1193, x - 1, 1292nat);
    }
    assert(x - 1 <= d);
}

/// Sixth powers order with their arguments.
proof fn lemma_sixth_le(v: int, w: int)
    requires
        0 <= v <= w,
    ensures
        v * v * v * v * v * v <= w * w * w * w * w * w,
{
    crate::fixed::lemma_sq_le(v, w);
    assert(0 <= v * v) by (nonlinear_arith)
        requires
            0 <= v,
    ;
    crate::fixed::lemma_cube_le(v * v, w * w);
    assert((v * v) * (v * v) * (v * v) == v * v * v * v * v * v && (w * w) * (w * w) * (w * w)
        == w * w * w * w * w * w) by (nonlinear_arith);
}

/// Decoding an encoded channel never overshoots: every floor division and
/// floor root in the transfer rounds down, so the round trip gives back at
/// most the original value.
#[verifier::rlimit(50)]
pub proof fn lemma_round_trip_no_overshoot(x: int)
    requires
        0 <= x <= 1_000_000,
    ensures
        decode_channel_spec(encode_channel_spec(x)) <= x,
{
    let m: int = 1_000_000;
    if x <= 3130 {
        lemma_dark_round_trip(x);
    } else {
        let s1 = sqrt_u(x);
        crate::fixed::lemma_rt2_exists(x * 1_000_000);
        assert(0 <= s1 && s1 * s1 <= x * m);
        let a = sqrt_u(s1);
        crate::fixed::lemma_rt2_exists(s1 * 1_000_000);
        assert(0 <= a && a * a <= s1 * m);
        let c1 = cbrt_u(x);
        crate::fixed::lemma_rt3_exists(x * 1_000_000_000_000);
        assert(0 <= c1 && c1 * c1 * c1 <= x * (m * m));
        let b2 = sqrt_u(c1);
        crate::fixed::lemma_rt2_exists(c1 * 1_000_000);
        assert(0 <= b2 && b2 * b2 <= c1 * m);
        let t = gamma_root_spec(x);
        lemma_fundamental_div_mod(a * b2, 1_000_000);
        crate::fixed::lemma_mul_le(a as int, b2 as int, a, b2);
        crate::fixed::lemma_div_abs_le(a * b2, 1_000_000);
        assert(0 <= t && t * m <= a * b2);
        let e = encode_channel_spec(x);
        if 1055 * t > 55 * UNIT as int {
            lemma_fundamental_div_mod(1055 * t - 55_000_000, 1000);
            crate::fixed::lemma_div_abs_le(1055 * t - 55_000_000, 1000);
            assert(0 <= e && 1000 * e <= 1055 * t - 55_000_000);
            if e <= 40450 {
                // The reconstruction falls on the linear segment, below the
                // whole gamma domain.
                lemma_div_le(e * 100, 4_045_000, 1292);
                assert(decode_channel_spec(e) <= 3130);
            } else {
                let base = (e + 55_000) * 1000 / 1055;
                lemma_div_le((e + 55_000) * 1000, 1055 * t, 1055);
                crate::fixed::lemma_mul_div_cancel(t, 1055);
                assert(1055 * t == t * 1055);
                lemma_fundamental_div_mod((e + 55_000) * 1000, 1055);
                crate::fixed::lemma_div_abs_le((e + 55_000) * 1000, 1055);
                assert(0 <= base <= t);
                let sq = base * base / m;
                lemma_fundamental_div_mod(base * base, 1_000_000);
                crate::fixed::lemma_mul_le(base, base, base, base);
                crate::fixed::lemma_div_abs_le(base * base, 1_000_000);
                assert(0 <= sq && sq * m <= base * base);
                let ff = fifth_u(sq);
                crate::fixed::lemma_rt5_exists(sq * 1_000_000_000_000_000_000_000_000);
                assert(0 <= ff && ff * ff * ff * ff * ff <= sq * (m * m * m * m));
                let out = sq * ff / m;
                lemma_fundamental_div_mod(sq * ff, 1_000_000);
                crate::fixed::lemma_mul_le(sq, ff, sq, ff);
                crate::fixed::lemma_div_abs_le(sq * ff, 1_000_000);
                assert(0 <= out && out * m <= sq * ff);
                assert(decode_channel_spec(e) == out);
                // The gamma root is bounded: t * t <= s1 * c1.
                crate::fixed::lemma_sq_le(t * m, a * b2);
                crate::fixed::lemma_mul_le(a * a, b2 * b2, s1 * m, c1 * m);
                assert((t * m) * (t * m) == (t * t) * (m * m) && (a * b2) * (a * b2) == (a * a) * (
                b2 * b2) && (s1 * m) * (c1 * m) == (s1 * c1) * (m * m)) by (nonlinear_arith);
                assert((t * t) * (m * m) <= (s1 * c1) * (m * m));
                assert(t * t <= s1 * c1) by (nonlinear_arith)
                    requires
                        (t * t) * (m * m) <= (s1 * c1) * (m * m),
                        m == 1_000_000,
                ;
                // The decoded square is bounded by the same product.
                crate::fixed::lemma_sq_le(base, t);
                assert(sq * m <= s1 * c1);
                // Raise to the sixth power and unfold both roots.
                lemma_sixth_le(sq * m, s1 * c1);
                crate::fixed::lemma_cube_le(s1 * s1, x * m);
                crate::fixed::lemma_sq_le(c1 * c1 * c1, x * (m * m));
                assert(0 <= s1 * s1 && 0 <= c1 * c1 * c1) by (nonlinear_arith)
                    requires
                        0 <= s1 && 0 <= c1,
                ;
                let s16 = s1 * s1 * s1 * s1 * s1 * s1;
                let c16 = c1 * c1 * c1 * c1 * c1 * c1;
                assert((s1 * s1) * (s1 * s1) * (s1 * s1) == s16 && (c1 * c1 * c1) * (c1 * c1 * c1)
                    == c16) by (nonlinear_arith)
                    requires
                        s16 == s1 * s1 * s1 * s1 * s1 * s1,
                        c16 == c1 * c1 * c1 * c1 * c1 * c1,
                ;
                assert((x * m) * (x * m) * (x * m) == x * x * x * (m * m * m) && (x * (m * m)) * (x
                    * (m * m)) == x * x * (m * m * m * m)) by (nonlinear_arith);
                assert(s16 <= x * x * x * (m * m * m) && c16 <= x * x * (m * m * m * m));
                assert(0 <= s16 && 0 <= c16) by (nonlinear_arith)
                    requires
                        0 <= s1 && 0 <= c1,
                        s16 == s1 * s1 * s1 * s1 * s1 * s1,
                        c16 == c1 * c1 * c1 * c1 * c1 * c1,
                ;
                crate::fixed::lemma_mul_le(
                    s16,
                    c16,
                    x * x * x * (m * m * m),
                    x * x * (m * m * m * m),
                );
                assert((sq * m) * (sq * m) * (sq * m) * (sq * m) * (sq * m) * (sq * m) == (sq * sq
                    * sq * sq * sq * sq) * (m * m * m * m * m * m)) by (nonlinear_arith);
                assert((s1 * c1) * (s1 * c1) * (s1 * c1) * (s1 * c1) * (s1 * c1) * (s1 * c1) == s16
                    * c16) by (nonlinear_arith)
                    requires
                        s16 == s1 * s1 * s1 * s1 * s1 * s1,
                        c16 == c1 * c1 * c1 * c1 * c1 * c1,
                ;
                assert((x * x * x * (m * m * m)) * (x * x * (m * m * m * m)) == (x * x * x * x * x)
                    * (m * m * m * m * m * m) * m) by (nonlinear_arith);
                let sq6 = sq * sq * sq * sq * sq * sq;
                let x5 = x * x * x * x * x;
                let m6 = m * m * m * m * m * m;
                assert(sq6 * m6 <= x5 * m6 * m);
                assert(sq6 <= x5 * m) by (nonlinear_arith)
                    requires
                        sq6 * m6 <= x5 * m6 * m,
                        m6 > 0,
                ;
                // Raise the output side to the fifth power.
                crate::fixed::lemma_fifth_le(out * m, sq * ff);
                assert((out * m) * (out * m) * (out * m) * (out * m) * (out * m) == (out * out
                    * out * out * out) * (m * m * m * m * m)) by (nonlinear_arith);
                assert((sq * ff) * (sq * ff) * (sq * ff) * (sq * ff) * (sq * ff) == (sq * sq * sq
                    * sq * sq) * (ff * ff * ff * ff * ff)) by (nonlinear_arith);
                let out5 = out * out * out * out * out;
                let m5 = m * m * m * m * m;
                assert(0 <= sq * sq * sq * sq * sq) by (nonlinear_arith)
                    requires
                        0 <= sq,
                ;
                assert((sq * sq * sq * sq * sq) * (ff * ff * ff * ff * ff) <= (sq * sq * sq * sq
                    * sq) * (sq * (m * m * m * m))) by (nonlinear_arith)
                    requires
                        0 <= sq * sq * sq * sq * sq,
                        ff * ff * ff * ff * ff <= sq * (m * m * m * m),
                        0 <= ff,
                ;
                assert((sq * sq * sq * sq * sq) * (sq * (m * m * m * m)) == sq6 * (m * m * m * m))
                    by (nonlinear_arith)
                    requires
                        sq6 == sq * sq * sq * sq * sq * sq,
                ;
                assert(sq6 * (m * m * m * m) <= x5 * m * (m * m * m * m)) by (nonlinear_arith)
                    requires
                        sq6 <= x5 * m,
                ;
                assert(x5 * m * (m * m * m * m) == x5 * m5) by (nonlinear_arith)
                    requires
                        m5 == m * m * m * m * m,
                ;
                assert(out5 * m5 <= x5 * m5);
                assert(out5 <= x5) by (nonlinear_arith)
                    requires
                        out5 * m5 <= x5 * m5,
                        m5 > 0,
                ;
                // A fifth power that stays below forces the base below.
                if out > x {
                    crate::fixed::lemma_fifth_le(x + 1, out);
                    assert(x * x * x * x * x < (x + 1) * (x + 1) * (x + 1) * (x + 1) * (x + 1))
                        by (nonlinear_arith)
                        requires
                            0 <= x,
                    ;
                }
            }
        } else {
            assert(e == 0);
            assert(decode_channel_spec(0) == 0);
        }
    }
}

/// Decoding an encoded channel in the gamma domain falls short of the
/// original by less than one ten-thousandth of full scale.
#[verifier::rlimit(50)]
proof fn lemma_gamma_round_trip_lower(x: int)
    requires
        3131 <= x <= 1_000_000,
    ensures
        decode_channel_spec(encode_channel_spec(x)) >= x - 100,
{
    let m: int = 1_000_000;
    // The four roots of the encoder, with their floor characterizations,
    // their ranges, and numeric lower bounds at the dark end of the domain.
    let s1 = sqrt_u(x);
    crate::fixed::lemma_rt2_exists(x * 1_000_000);
    assert(0 <= s1 && s1 * s1 <= x * m && x * m < (s1 + 1) * (s1 + 1));
    assert(s1 <= m && s1 >= 55955) by (nonlinear_arith)
        requires
            0 <= s1,
            s1 * s1 <= x * m,
            x * m < (s1 + 1) * (s1 + 1),
            3131 <= x <= m,
            m == 1_000_000,
    ;
    let a = sqrt_u(s1);
    crate::fixed::lemma_rt2_exists(s1 * 1_000_000);
    assert(0 <= a && a * a <= s1 * m && s1 * m < (a + 1) * (a + 1));
    assert(a <= m && a >= 236000) by (nonlinear_arith)
        requires
            0 <= a,
            a * a <= s1 * m,
            s1 * m < (a + 1) * (a + 1),
            55955 <= s1 <= m,
            m == 1_000_000,
    ;
    let c1 = cbrt_u(x);
    crate::fixed::lemma_rt3_exists(x * 1_000_000_000_000);
    assert(0 <= c1 && c1 * c1 * c1 <= x * (m * m) && x * (m * m) < (c1 + 1) * (c1 + 1) * (c1 + 1));
    assert(c1 <= m && c1 >= 146000) by (nonlinear_arith)
        requires
            0 <= c1,
            c1 * c1 * c1 <= x * (m * m),
            x * (m * m) < (c1 + 1) * (c1 + 1) * (c1 + 1),
            3131 <= x <= m,
            m == 1_000_000,
    ;
    let b2 = sqrt_u(c1);
    crate::fixed::lemma_rt2_exists(c1 * 1_000_000);
    assert(0 <= b2 && b2 * b2 <= c1 * m && c1 * m < (b2 + 1) * (b2 + 1));
    assert(b2 <= m && b2 >= 382000) by (nonlinear_arith)
        requires
            0 <= b2,
            b2 * b2 <= c1 * m,
            c1 * m < (b2 + 1) * (b2 + 1),
            146000 <= c1 <= m,
            m == 1_000_000,
    ;
    // The gamma root, its floor bounds, and the encode branch it forces.
    let t = gamma_root_spec(x);
    lemma_fundamental_div_mod(a * b2, 1_000_000);
    crate::fixed::lemma_mul_le(a, b2, 1_000_000, 1_000_000);
    crate::fixed::lemma_div_abs_le(a * b2, 1_000_000);
    assert(t * m <= a * b2 && a * b2 < t * m + m && 0 <= t) by {
        assert(a * b2 == 1_000_000 * (a * b2 / 1_000_000) + (a * b2) % 1_000_000);
    }
    assert(90152 <= t && t <= m) by (nonlinear_arith)
        requires
            t * m <= a * b2,
            a * b2 < t * m + m,
            236000 <= a <= m,
            382000 <= b2 <= m,
            m == 1_000_000,
            0 <= t,
    ;
    assert(1055 * t > 55 * UNIT as int);
    let e = encode_channel_spec(x);
    lemma_fundamental_div_mod(1055 * t - 55_000_000, 1000);
    crate::fixed::lemma_div_abs_le(1055 * t - 55_000_000, 1000);
    assert(1000 * e <= 1055 * t - 55_000_000 && 1055 * t - 55_000_000 < 1000 * e + 1000 && 0 <= e);
    assert(e >= 40110) by (nonlinear_arith)
        requires
            1055 * t - 55_000_000 < 1000 * e + 1000,
            t >= 90152,
    ;
    // The squared gamma root brackets the product of the two outer roots.
    assert(a * a >= s1 * m - 2 * m - 1) by (nonlinear_arith)
        requires
            s1 * m < (a + 1) * (a + 1),
            0 <= a <= m,
    ;
    assert(b2 * b2 >= c1 * m - 2 * m - 1) by (nonlinear_arith)
        requires
            c1 * m < (b2 + 1) * (b2 + 1),
            0 <= b2 <= m,
    ;
    assert((a * b2) * (a * b2) >= (s1 * c1 - 5 * m) * (m * m)) by (nonlinear_arith)
        requires
            a * a >= s1 * m - 2 * m - 1,
            b2 * b2 >= c1 * m - 2 * m - 1,
            55955 <= s1 <= m,
            146000 <= c1 <= m,
            0 <= a,
            0 <= b2,
            m == 1_000_000,
    ;
    assert((t + 1) * (t + 1) > s1 * c1 - 5 * m) by (nonlinear_arith)
        requires
            a * b2 < t * m + m,
            (a * b2) * (a * b2) >= (s1 * c1 - 5 * m) * (m * m),
            0 <= a * b2,
            0 <= t,
            m == 1_000_000,
    ;
    assert(t * t <= s1 * c1) by (nonlinear_arith)
        requires
            t * m <= a * b2,
            a * a <= s1 * m,
            b2 * b2 <= c1 * m,
            0 <= t,
            0 <= a,
            0 <= b2,
            0 <= s1,
            0 <= c1,
            m == 1_000_000,
    ;
    // Both outer roots, raised to the sixth power, bound the channel.
    crate::fixed::lemma_cube_le(s1 * s1, x * m);
    crate::fixed::lemma_sq_le(c1 * c1 * c1, x * (m * m));
    assert(0 <= s1 * s1 && 0 <= c1 * c1 * c1) by (nonlinear_arith)
        requires
            0 <= s1 && 0 <= c1,
    ;
    let s16 = s1 * s1 * s1 * s1 * s1 * s1;
    let c16 = c1 * c1 * c1 * c1 * c1 * c1;
    let x5 = x * x * x * x * x;
    assert((s1 * s1) * (s1 * s1) * (s1 * s1) == s16 && (c1 * c1 * c1) * (c1 * c1 * c1) == c16)
        by (nonlinear_arith)
        requires
            s16 == s1 * s1 * s1 * s1 * s1 * s1,
            c16 == c1 * c1 * c1 * c1 * c1 * c1,
    ;
    assert((x * m) * (x * m) * (x * m) == x * x * x * (m * m * m) && (x * (m * m)) * (x * (m * m))
        == x * x * (m * m * m * m)) by (nonlinear_arith);
    assert(s16 <= x * x * x * (m * m * m) && c16 <= x * x * (m * m * m * m));
    if e <= 40450 {
        // The reconstruction falls on the linear decode segment; the encode
        // value this small pins the channel to the very bottom of the gamma
        // domain, where the linear segment still lands within bounds.
        assert(t <= 90474) by (nonlinear_arith)
            requires
                1055 * t - 55_000_000 < 1000 * e + 1000,
                e <= 40450,
        ;
        // The channel is bounded above through the rounded-up roots.
        assert(x * x * x * (m * m * m) < (s1 + 1) * (s1 + 1) * (s1 + 1) * (s1 + 1) * (s1 + 1) * (s1
            + 1)) by (nonlinear_arith)
            requires
                x * m < (s1 + 1) * (s1 + 1),
                0 <= x * m,
                0 <= s1,
        ;
        assert(x * x * (m * m * m * m) < (c1 + 1) * (c1 + 1) * (c1 + 1) * (c1 + 1) * (c1 + 1) * (c1
            + 1)) by (nonlinear_arith)
            requires
                x * (m * m) < (c1 + 1) * (c1 + 1) * (c1 + 1),
                0 <= x * (m * m),
                0 <= c1,
        ;
        let s2 = (s1 + 1) * (c1 + 1);
        let p1 = x * x * x * (m * m * m);
        let p2 = x * x * (m * m * m * m);
        assert(0 <= p1 && 0 <= p2) by (nonlinear_arith)
            requires
                p1 == x * x * x * (m * m * m),
                p2 == x * x * (m * m * m * m),
                0 <= x,
                m == 1_000_000,
        ;
        let a6 = (s1 + 1) * (s1 + 1) * (s1 + 1) * (s1 + 1) * (s1 + 1) * (s1 + 1);
        let b6 = (c1 + 1) * (c1 + 1) * (c1 + 1) * (c1 + 1) * (c1 + 1) * (c1 + 1);
        assert(p1 * p2 < a6 * b6) by (nonlinear_arith)
            requires
                0 <= p1 && p1 < a6,
                0 <= p2 && p2 < b6,
        ;
        assert(p1 * p2 == x5 * (m * m * m * m * m * m * m)) by (nonlinear_arith)
            requires
                p1 == x * x * x * (m * m * m),
                p2 == x * x * (m * m * m * m),
                x5 == x * x * x * x * x,
        ;
        assert(a6 * b6 == s2 * s2 * s2 * s2 * s2 * s2) by (nonlinear_arith)
            requires
                a6 == (s1 + 1) * (s1 + 1) * (s1 + 1) * (s1 + 1) * (s1 + 1) * (s1 + 1),
                b6 == (c1 + 1) * (c1 + 1) * (c1 + 1) * (c1 + 1) * (c1 + 1) * (c1 + 1),
                s2 == (s1 + 1) * (c1 + 1),
        ;
        assert(x5 * (m * m * m * m * m * m * m) < s2 * s2 * s2 * s2 * s2 * s2);
        assert(s2 <= (t + 1) * (t + 1) + 8 * m) by (nonlinear_arith)
            requires
                s2 == (s1 + 1) * (c1 + 1),
                (t + 1) * (t + 1) > s1 * c1 - 5 * m,
                0 <= s1 <= m,
                0 <= c1 <= m,
                m == 1_000_000,
        ;
        assert((t + 1) * (t + 1) + 8 * m <= 8_193_725_625) by (nonlinear_arith)
            requires
                0 <= t <= 90474,
                m == 1_000_000,
        ;
        assert(0 <= s2) by (nonlinear_arith)
            requires
                0 <= s1 && 0 <= c1,
                s2 == (s1 + 1) * (c1 + 1),
        ;
        lemma_sixth_le(s2, 8_193_725_625);
        assert(x5 * (m * m * m * m * m * m * m)
            < 302613642074115651314436435017967791879401266574859619140625int);
        assert(x <= 3134) by {
            if x >= 3135 {
                crate::fixed::lemma_fifth_le(3135, x);
                assert(x5 >= 302_822_210_849_709_375);
                assert(x5 * (m * m * m * m * m * m * m) >= 302_822_210_849_709_375 * (m * m * m
                    * m * m * m * m)) by (nonlinear_arith)
                    requires
                        x5 >= 302_822_210_849_709_375,
                        m * m * m * m * m * m * m > 0,
                ;
            }
        }
        let out = decode_channel_spec(e);
        assert(out == e * 100 / 1292);
        lemma_fundamental_div_mod(e * 100, 1292);
        assert(out >= 3103) by (nonlinear_arith)
            requires
                e * 100 < 1292 * out + 1292,
                e >= 40110,
        ;
        assert(x - 100 <= out);
    } else {
        // The gamma decode branch: the decoded square is pinned on both
        // sides by the product of the outer roots, and the fifth root pulls
        // the channel back up to within one hundred steps.
        let base = (e + 55_000) * 1000 / 1055;
        lemma_fundamental_div_mod((e + 55_000) * 1000, 1055);
        crate::fixed::lemma_div_abs_le((e + 55_000) * 1000, 1055);
        assert(0 <= base);
        assert(base <= t && base >= t - 1) by (nonlinear_arith)
            requires
                1055 * base <= (e + 55_000) * 1000,
                (e + 55_000) * 1000 < 1055 * base + 1055,
                1000 * e <= 1055 * t - 55_000_000,
                1055 * t - 55_000_000 < 1000 * e + 1000,
        ;
        let sq = base * base / m;
        assert(sq == base * base / 1_000_000);
        lemma_fundamental_div_mod(base * base, 1_000_000);
        crate::fixed::lemma_mul_le(base, base, base, base);
        crate::fixed::lemma_div_abs_le(base * base, 1_000_000);
        assert(0 <= sq && sq * m <= base * base && base * base < sq * m + m);
        // The upper side: the decoded square never passes the root product.
        crate::fixed::lemma_sq_le(base, t);
        assert(sq * m <= s1 * c1);
        let sq6 = sq * sq * sq * sq * sq * sq;
        lemma_sixth_le(sq * m, s1 * c1);
        assert((sq * m) * (sq * m) * (sq * m) * (sq * m) * (sq * m) * (sq * m) == sq6 * (m * m * m
            * m * m * m)) by (nonlinear_arith)
            requires
                sq6 == sq * sq * sq * sq * sq * sq,
        ;
        assert((s1 * c1) * (s1 * c1) * (s1 * c1) * (s1 * c1) * (s1 * c1) * (s1 * c1) == s16 * c16)
            by (nonlinear_arith)
            requires
                s16 == s1 * s1 * s1 * s1 * s1 * s1,
                c16 == c1 * c1 * c1 * c1 * c1 * c1,
        ;
        assert(0 <= s16 && 0 <= c16) by (nonlinear_arith)
            requires
                0 <= s1 && 0 <= c1,
                s16 == s1 * s1 * s1 * s1 * s1 * s1,
                c16 == c1 * c1 * c1 * c1 * c1 * c1,
        ;
        crate::fixed::lemma_mul_le(s16, c16, x * x * x * (m * m * m), x * x * (m * m * m * m));
        assert((x * x * x * (m * m * m)) * (x * x * (m * m * m * m)) == x5 * (m * m * m * m * m * m)
            * m) by (nonlinear_arith)
            requires
                x5 == x * x * x * x * x,
        ;
        let m6 = m * m * m * m * m * m;
        assert(sq6 * m6 <= x5 * m6 * m);
        assert(sq6 <= x5 * m) by (nonlinear_arith)
            requires
                sq6 * m6 <= x5 * m6 * m,
                m6 > 0,
        ;
        // The lower side: the decoded square reaches nearly as high.
        assert(m * (sq + 10) > s1 * c1) by (nonlinear_arith)
            requires
                base * base < sq * m + m,
                base >= t - 1,
                (t + 1) * (t + 1) > s1 * c1 - 5 * m,
                1 <= t <= m,
                m == 1_000_000,
        ;
        // The floor slack of the outer roots, pushed down to the channel.
        assert(s1 * s1 >= (x - 3) * m) by (nonlinear_arith)
            requires
                x * m < (s1 + 1) * (s1 + 1),
                0 <= s1 <= m,
                m == 1_000_000,
        ;
        assert(c1 * c1 * c1 >= (x - 4) * (m * m)) by (nonlinear_arith)
            requires
                x * (m * m) < (c1 + 1) * (c1 + 1) * (c1 + 1),
                0 <= c1 <= m,
                m == 1_000_000,
        ;
        assert(0 <= (x - 3) * m && 0 <= (x - 4) * (m * m)) by (nonlinear_arith)
            requires
                3131 <= x,
                m == 1_000_000,
        ;
        crate::fixed::lemma_cube_le((x - 3) * m, s1 * s1);
        crate::fixed::lemma_sq_le((x - 4) * (m * m), c1 * c1 * c1);
        let g5 = (x - 4) * (x - 4) * (x - 4) * (x - 4) * (x - 4);
        let m6 = m * m * m * m * m * m;
        assert(s16 * c16 >= g5 * m6 * m) by (nonlinear_arith)
            requires
                s16 >= ((x - 3) * m) * ((x - 3) * m) * ((x - 3) * m),
                c16 >= ((x - 4) * (m * m)) * ((x - 4) * (m * m)),
                g5 == (x - 4) * (x - 4) * (x - 4) * (x - 4) * (x - 4),
                m6 == m * m * m * m * m * m,
                3131 <= x,
                m == 1_000_000,
        ;
        // The near-exact lower face of the decoded square, raised to the
        // sixth power.
        let sqp = sq + 10;
        assert(0 <= s1 * c1 && s1 * c1 <= m * sqp) by (nonlinear_arith)
            requires
                m * (sq + 10) > s1 * c1,
                0 <= s1,
                0 <= c1,
                sqp == sq + 10,
        ;
        lemma_sixth_le(s1 * c1, m * sqp);
        let sqp6 = sqp * sqp * sqp * sqp * sqp * sqp;
        assert((m * sqp) * (m * sqp) * (m * sqp) * (m * sqp) * (m * sqp) * (m * sqp) == sqp6 * m6)
            by (nonlinear_arith)
            requires
                sqp6 == sqp * sqp * sqp * sqp * sqp * sqp,
                m6 == m * m * m * m * m * m,
        ;
        assert((s1 * c1) * (s1 * c1) * (s1 * c1) * (s1 * c1) * (s1 * c1) * (s1 * c1) == s16 * c16)
            by (nonlinear_arith)
            requires
                s16 == s1 * s1 * s1 * s1 * s1 * s1,
                c16 == c1 * c1 * c1 * c1 * c1 * c1,
        ;
        assert(sqp6 * m6 >= g5 * m6 * m);
        assert(sqp6 >= g5 * m) by (nonlinear_arith)
            requires
                sqp6 * m6 >= g5 * m6 * m,
                m6 > 0,
        ;
        // The decoded square and the square bound pin the fifth root.
        assert(sq <= m) by (nonlinear_arith)
            requires
                sq * m <= base * base,
                base * base < sq * m + m,
                base <= t,
                0 <= base,
                1 <= t <= m,
                0 <= sq,
                m == 1_000_000,
        ;
        let ff = fifth_u(sq);
        crate::fixed::lemma_rt5_exists(sq * 1_000_000_000_000_000_000_000_000);
        assert(0 <= ff && ff * ff * ff * ff * ff <= sq * 1_000_000_000_000_000_000_000_000 && sq
            * 1_000_000_000_000_000_000_000_000 < (ff + 1) * (ff + 1) * (ff + 1) * (ff + 1) * (ff
            + 1));
        assert(ff <= m) by (nonlinear_arith)
            requires
                ff * ff * ff * ff * ff <= sq * 1_000_000_000_000_000_000_000_000,
                0 <= ff,
                0 <= sq <= m,
                m == 1_000_000,
        ;
        let ff5 = ff * ff * ff * ff * ff;
        assert(ff5 >= (sq - 6) * 1_000_000_000_000_000_000_000_000) by (nonlinear_arith)
            requires
                sq * 1_000_000_000_000_000_000_000_000 < (ff + 1) * (ff + 1) * (ff + 1) * (ff + 1)
                    * (ff + 1),
                ff5 == ff * ff * ff * ff * ff,
                0 <= ff <= m,
                m == 1_000_000,
        ;
        // The channel bound from above caps the fifth power of the square.
        let h4 = (x - 100) * (x - 100) * (x - 100) * (x - 100);
        let h5 = (x - 100) * (x - 100) * (x - 100) * (x - 100) * (x - 100);
        let sqp5 = sqp * sqp * sqp * sqp * sqp;
        assert(66 * sqp5 <= 480 * h4 * m) by (nonlinear_arith)
            requires
                sq6 <= x5 * m,
                sq6 == sq * sq * sq * sq * sq * sq,
                x5 == x * x * x * x * x,
                sqp == sq + 10,
                sqp5 == sqp * sqp * sqp * sqp * sqp,
                h4 == (x - 100) * (x - 100) * (x - 100) * (x - 100),
                3131 <= x <= 1_000_000,
                0 <= sq <= 1_000_000,
                m == 1_000_000,
        ;
        let sq5 = sq * sq * sq * sq * sq;
        crate::fixed::lemma_fifth_le(sq, sqp);
        assert(sqp6 <= sq6 + 60 * sqp5) by (nonlinear_arith)
            requires
                sqp == sq + 10,
                sqp6 == sqp * sqp * sqp * sqp * sqp * sqp,
                sqp5 == sqp * sqp * sqp * sqp * sqp,
                sq6 == sq * sq * sq * sq * sq * sq,
                0 <= sq,
        ;
        assert(g5 - h5 >= 480 * h4) by (nonlinear_arith)
            requires
                g5 == (x - 4) * (x - 4) * (x - 4) * (x - 4) * (x - 4),
                h5 == (x - 100) * (x - 100) * (x - 100) * (x - 100) * (x - 100),
                h4 == (x - 100) * (x - 100) * (x - 100) * (x - 100),
                x >= 3131,
        ;
        assert(sq6 - 6 * sq5 >= h5 * m) by (nonlinear_arith)
            requires
                sqp6 >= g5 * m,
                sqp6 <= sq6 + 60 * sqp5,
                66 * sqp5 <= 480 * h4 * m,
                g5 - h5 >= 480 * h4,
                sq5 <= sqp5,
                0 <= sq5,
                m == 1_000_000,
        ;
        // The product of the square and its fifth root reaches the channel,
        // one hundred steps short at worst.
        assert(sq5 * ff5 >= (sq6 - 6 * sq5) * 1_000_000_000_000_000_000_000_000) by (
        nonlinear_arith)
            requires
                ff5 >= (sq - 6) * 1_000_000_000_000_000_000_000_000,
                sq5 == sq * sq * sq * sq * sq,
                sq6 == sq * sq * sq * sq * sq * sq,
                0 <= sq,
        ;
        let out = decode_channel_spec(e);
        assert(out == sq * ff / m);
        lemma_fundamental_div_mod(sq * ff, 1_000_000);
        crate::fixed::lemma_mul_le(sq, ff, sq, ff);
        crate::fixed::lemma_div_abs_le(sq * ff, 1_000_000);
        assert(0 <= out && sq * ff < out * m + m);
        assert(sq * ff >= (x - 100) * m) by {
            if sq * ff < (x - 100) * m {
                crate::fixed::lemma_fifth_le(sq * ff, (x - 100) * m - 1);
                assert(((x - 100) * m - 1) * ((x - 100) * m - 1) * ((x - 100) * m - 1) * ((x - 100)
                    * m - 1) * ((x - 100) * m - 1) < h5 * (m * m * m * m * m)) by (nonlinear_arith)
                    requires
                        h5 == (x - 100) * (x - 100) * (x - 100) * (x - 100) * (x - 100),
                        x >= 3131,
                        m == 1_000_000,
                ;
                assert((sq * ff) * (sq * ff) * (sq * ff) * (sq * ff) * (sq * ff) == sq5 * ff5)
                    by (nonlinear_arith)
                    requires
                        sq5 == sq * sq * sq * sq * sq,
                        ff5 == ff * ff * ff * ff * ff,
                ;
                assert((sq6 - 6 * sq5) * 1_000_000_000_000_000_000_000_000 >= h5 * (m * m * m * m
                    * m)) by (nonlinear_arith)
                    requires
                        sq6 - 6 * sq5 >= h5 * m,
                        m == 1_000_000,
                ;
            }
        }
        assert(out * m + m > (x - 100) * m);
        assert(out >= x - 100) by (nonlinear_arith)
            requires
                out * m + m > (x - 100) * m,
                m == 1_000_000,
        ;
    }
}

/// The encoded channel lies in `[0, UNIT]` for a channel within range.
proof fn lemma_encode_range(x: int)
    requires
        0 <= x <= 1_000_000,
    ensures
        0 <= encode_channel_spec(x) <= 1_000_000,
{
    let m: int = 1_000_000;
    if x <= 3130 {
        lemma_div_le(x * 1292, 4_043_960, 100);
        crate::fixed::lemma_div_abs_le(x * 1292, 100);
    } else {
        let s1 = sqrt_u(x);
        crate::fixed::lemma_rt2_exists(x * 1_000_000);
        assert(s1 <= m) by (nonlinear_arith)
            requires
                0 <= s1,
                s1 * s1 <= x * m,
                x <= m,
                m == 1_000_000,
        ;
        let a = sqrt_u(s1);
        crate::fixed::lemma_rt2_exists(s1 * 1_000_000);
        assert(a <= m) by (nonlinear_arith)
            requires
                0 <= a,
                a * a <= s1 * m,
                s1 <= m,
                m == 1_000_000,
        ;
        let c1 = cbrt_u(x);
        crate::fixed::lemma_rt3_exists(x * 1_000_000_000_000);
        assert(c1 <= m) by (nonlinear_arith)
            requires
                0 <= c1,
                c1 * c1 * c1 <= x * (m * m),
                x <= m,
                m == 1_000_000,
        ;
        let b2 = sqrt_u(c1);
        crate::fixed::lemma_rt2_exists(c1 * 1_000_000);
        assert(b2 <= m) by (nonlinear_arith)
            requires
                0 <= b2,
                b2 * b2 <= c1 * m,
                c1 <= m,
                m == 1_000_000,
        ;
        let t = gamma_root_spec(x);
        crate::fixed::lemma_mul_le(a, b2, 1_000_000, 1_000_000);
        lemma_div_le(a * b2, 1_000_000_000_000, 1_000_000);
        crate::fixed::lemma_div_abs_le(a * b2, 1_000_000);
        assert(0 <= t <= m);
        if 1055 * t > 55 * UNIT as int {
            lemma_div_le(1055 * t - 55_000_000, 1_000_000_000, 1000);
            crate::fixed::lemma_div_abs_le(1055 * t - 55_000_000, 1000);
        }
    }
}

/// Decoding an encoded channel reproduces it to within one ten-thousandth of
/// full scale: the round trip never overshoots, and falls short by at most
/// one hundred fixed-point steps.
pub proof fn lemma_gamma_round_trip(x: int)
    requires
        0 <= x <= 1_000_000,
    ensures
        x - 100 <= decode_channel_spec(encode_channel_spec(x)) <= x,
{
    lemma_round_trip_no_overshoot(x);
    if x <= 3130 {
        lemma_dark_round_trip(x);
    } else {
        lemma_gamma_round_trip_lower(x);
    }
}

/// Converting a color to sRGB and back reproduces it to within one
/// ten-thousandth of full scale per channel, and never overshoots.
pub proof fn lemma_srgb_round_trip_bounds(x: Rgb)
    requires
        x.wf(),
    ensures
        x.r - 100 <= Srgb::from_rgb_spec(x).to_rgb_spec().r <= x.r,
        x.g - 100 <= Srgb::from_rgb_spec(x).to_rgb_spec().g <= x.g,
        x.b - 100 <= Srgb::from_rgb_spec(x).to_rgb_spec().b <= x.b,
{
    lemma_encode_range(x.r as int);
    lemma_encode_range(x.g as int);
    lemma_encode_range(x.b as int);
    lemma_gamma_round_trip(x.r as int);
    lemma_gamma_round_trip(x.g as int);
    lemma_gamma_round_trip(x.b as int);
}

/// Equivalent to calling `Srgb::new(r, g, b)`.
pub fn srgb(r: i64, g: i64, b: i64) -> (c: Srgb)
    ensures
        c == Srgb::new_spec(r as int, g as int, b as int),
        c.wf(),
{
    Srgb::new(r, g, b)
}

} // verus!
