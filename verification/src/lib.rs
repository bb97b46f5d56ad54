//! Color-value manipulation: representations of linear RGB, HSV, sRGB and
//! YCbCr colors, conversions among them, and procedural palette generation.
//!
//! Every channel is a fixed-point value: the interval `[0, 1]` is carried as
//! an integer number of millionths (`UNIT`), and a hue angle is carried as a
//! fraction of the full turn (`TURN` steps per turn), so that all color
//! arithmetic is exact integer arithmetic.

use vstd::prelude::*;

pub mod consts;
pub mod fixed;
pub mod hsv;
pub mod rgb;
mod rng;
pub mod space;
pub mod srgb;
pub mod ycbcr;

verus! {

pub use crate::hsv::{Hsv, hsv};
pub use crate::rgb::{Rgb, rgb, gray, grey};
pub use crate::space::{ColorSpace, from_rgb, to_rgb};
pub use crate::srgb::{Srgb, srgb};
pub use crate::ycbcr::{YCbCr, ycbcr};

} // verus!

