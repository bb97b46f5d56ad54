//! The YCbCr color model: luma plus blue-difference and red-difference
//! chroma, with the ITU-R BT.709 coefficients.
//!
//! The two conversion matrices are the ones conventionally published for
//! BT.709; the decoding matrix is not the exact algebraic inverse of the
//! encoding one, so a round trip is approximate by design.

use vstd::prelude::*;

verus! {

use crate::fixed::{UNIT, clamp_unit, clamp_unit_spec, div_floor, lemma_div_le};
use crate::rgb::Rgb;
use crate::rng::rand_unit;
use crate::space::ColorSpace;

/// Half of full scale: the chroma channels lie in `[-HALF_UNIT, HALF_UNIT]`.
pub const HALF_UNIT: u32 = 500_000;

/// A YCbCr color value: a luma channel in `[0, UNIT]` and two chroma
/// channels in `[-HALF_UNIT, HALF_UNIT]`, all fixed point.
#[derive(Clone, Copy, Debug, PartialEq, Eq, Structural)]
pub struct YCbCr {
    pub y: u32,
    pub cb: i32,
    pub cr: i32,
}

/// A chroma argument saturated at half scale on either side.
pub open spec fn clamp_half_spec(x: int) -> i32 {
    if x < -500_000 {
        -500_000i32
    } else if x > 500_000 {
        500_000i32
    } else {
        x as i32
    }
}

/// Clamps a chroma argument into `[-HALF_UNIT, HALF_UNIT]`.
fn clamp_half(x: i64) -> (r: i32)
    ensures
        r == clamp_half_spec(x as int),
{
    if x < -500_000 {
        -500_000
    } else if x > 500_000 {
        500_000
    } else {
        x as i32
    }
}

impl YCbCr {
    /// The luma lies in `[0, UNIT]` and both chroma channels in
    /// `[-HALF_UNIT, HALF_UNIT]`.
    pub open spec fn wf(&self) -> bool {
        self.y <= UNIT && -500_000 <= self.cb <= 500_000 && -500_000 <= self.cr <= 500_000
    }

    /// The exact value `new` returns: luma clamped to `[0, UNIT]` and chroma
    /// clamped to `[-HALF_UNIT, HALF_UNIT]`.
    pub open spec fn new_spec(y: int, cb: int, cr: int) -> YCbCr {
        YCbCr { y: clamp_unit_spec(y), cb: clamp_half_spec(cb), cr: clamp_half_spec(cr) }
    }

    /// Constructs a YCbCr value; `y` is clamped to `[0, UNIT]`, and `cb` and
    /// `cr` to `[-HALF_UNIT, HALF_UNIT]`.
    pub fn new(y: i64, cb: i64, cr: i64) -> (c: YCbCr)
        ensures
            c == YCbCr::new_spec(y as int, cb as int, cr as int),
            c.wf(),
    {
        YCbCr { y: clamp_unit(y), cb: clamp_half(cb), cr: clamp_half(cr) }
    }

    /// Returns the luma component, a value in `[0, UNIT]`.
    pub fn y(&self) -> (v: u32)
        ensures
            v == self.y,
    {
        self.y
    }

    /// Returns the blue-difference chroma component, a value in
    /// `[-HALF_UNIT, HALF_UNIT]`.
    pub fn cb(&self) -> (v: i32)
        ensures
            v == self.cb,
    {
        self.cb
    }

    /// Returns the red-difference chroma component, a value in
    /// `[-HALF_UNIT, HALF_UNIT]`.
    pub fn cr(&self) -> (v: i32)
        ensures
            v == self.cr,
    {
        self.cr
    }

    /// Constructs a YCbCr value by drawing each channel independently and
    /// uniformly from its valid range.
    pub fn rand() -> (c: YCbCr)
        ensures
            c.wf(),
    {
        let y = rand_unit();
        let cb = rand_unit() as i64 - 500_000;
        let cr = rand_unit() as i64 - 500_000;
        YCbCr { y, cb: cb as i32, cr: cr as i32 }
    }

    /// Whether every channel of `other` is within `max_diff` of _self_'s.
    pub fn is_close_to(&self, other: &YCbCr, max_diff: u32) -> (close: bool)
        requires
            self.wf(),
            other.wf(),
        ensures
            close == (crate::rgb::abs_diff(self.y as int, other.y as int) <= max_diff
                && crate::rgb::abs_diff(self.cb as int, other.cb as int) <= max_diff
                && crate::rgb::abs_diff(self.cr as int, other.cr as int) <= max_diff),
    {
        let dy: i64 = self.y as i64 - other.y as i64;
        let db: i64 = self.cb as i64 - other.cb as i64;
        let dr: i64 = self.cr as i64 - other.cr as i64;
        abs_le(dy, max_diff) && abs_le(db, max_diff) && abs_le(dr, max_diff)
    }
}

/// Whether the magnitude of `d` is at most `bound`.
fn abs_le(d: i64, bound: u32) -> (r: bool)
    requires
        -0x7000_0000_0000_0000 <= d <= 0x7000_0000_0000_0000,
    ensures
        r == (crate::rgb::abs_diff(d as int, 0) <= bound),
{
    if d >= 0 {
        d <= bound as i64
    } else {
        -d <= bound as i64
    }
}

impl ColorSpace for YCbCr {
    open spec fn inv(&self) -> bool {
        self.wf()
    }

    open spec fn from_rgb_spec(rgb: Rgb) -> YCbCr {
        YCbCr {
            y: rgb.lunimance_spec() as u32,
            cb: ((5000 * rgb.b - 1146 * rgb.r - 3854 * rgb.g) / 10000) as i32,
            cr: ((5000 * rgb.r - 4542 * rgb.g - 458 * rgb.b) / 10000) as i32,
        }
    }

    open spec fn to_rgb_spec(&self) -> Rgb {
        Rgb::new_spec(
            (10000 * self.y + 15748 * self.cr) / 10000,
            (10000 * self.y - 1873 * self.cb - 4682 * self.cr) / 10000,
            (10000 * self.y + 18556 * self.cb) / 10000,
        )
    }

    fn from_rgb(rgb: Rgb) -> (c: YCbCr) {
        let y = rgb.lunimance();
        let cb = div_floor(
            5000 * rgb.blue() as i64 - 1146 * rgb.red() as i64 - 3854 * rgb.green() as i64,
            10000,
        );
        let cr = div_floor(
            5000 * rgb.red() as i64 - 4542 * rgb.green() as i64 - 458 * rgb.blue() as i64,
            10000,
        );
        proof {
            lemma_chroma_bounds(rgb.r as int, rgb.g as int, rgb.b as int);
        }
        YCbCr { y, cb: cb as i32, cr: cr as i32 }
    }

    fn to_rgb(&self) -> (c: Rgb) {
        let r = div_floor(10000 * self.y as i64 + 15748 * self.cr as i64, 10000);
        let g = div_floor(
            10000 * self.y as i64 - 1873 * self.cb as i64 - 4682 * self.cr as i64,
            10000,
        );
        let b = div_floor(10000 * self.y as i64 + 18556 * self.cb as i64, 10000);
        Rgb::new(r, g, b)
    }
}

/// Both chroma rows of the encoding matrix stay within half scale on
/// channels within full scale.
proof fn lemma_chroma_bounds(r: int, g: int, b: int)
    requires
        0 <= r <= 1_000_000,
        0 <= g <= 1_000_000,
        0 <= b <= 1_000_000,
    ensures
        -500_000 <= (5000 * b - 1146 * r - 3854 * g) / 10000 <= 500_000,
        -500_000 <= (5000 * r - 4542 * g - 458 * b) / 10000 <= 500_000,
{
    lemma_div_le(5000 * b - 1146 * r - 3854 * g, 5_000_000_000, 10000);
    lemma_div_le(-5_000_000_000, 5000 * b - 1146 * r - 3854 * g, 10000);
    lemma_div_le(5000 * r - 4542 * g - 458 * b, 5_000_000_000, 10000);
    lemma_div_le(-5_000_000_000, 5000 * r - 4542 * g - 458 * b, 10000);
}

/// Converting a color to YCbCr yields a luma channel exactly equal to the
/// color's luminance, and chroma channels within half scale on either side.
pub proof fn lemma_luma_is_luminance(x: Rgb)
    requires
        x.wf(),
    ensures
        YCbCr::from_rgb_spec(x).y == x.lunimance_spec(),
        -500_000 <= YCbCr::from_rgb_spec(x).cb <= 500_000,
        -500_000 <= YCbCr::from_rgb_spec(x).cr <= 500_000,
{
    lemma_chroma_bounds(x.r as int, x.g as int, x.b as int);
    lemma_div_le(2126 * x.r + 7152 * x.g + 722 * x.b, 10_000_000_000, 10000);
}

/// Equivalent to calling `YCbCr::new(y, cb, cr)`.
pub fn ycbcr(y: i64, cb: i64, cr: i64) -> (c: YCbCr)
    ensures
        c == YCbCr::new_spec(y as int, cb as int, cr as int),
        c.wf(),
{
    YCbCr::new(y, cb, cr)
}

} // verus!
