//! The conversion contract every color representation satisfies.

use vstd::prelude::*;

verus! {

use crate::rgb::Rgb;

/// A color representation that converts to and from the linear RGB hub space.
///
/// Each implementation names its own validity condition (`inv`) and gives the
/// exact value of both conversions as specification functions, so that a
/// caller of `from_rgb` or `to_rgb` knows the result precisely.
pub trait ColorSpace: Sized {
    /// The representation's own invariant: every channel within its range.
    spec fn inv(&self) -> bool;

    /// The exact value `from_rgb` returns.
    spec fn from_rgb_spec(rgb: Rgb) -> Self;

    /// The exact value `to_rgb` returns.
    spec fn to_rgb_spec(&self) -> Rgb;

    /// Constructs the color in this space that stands for `rgb`.
    fn from_rgb(rgb: Rgb) -> (c: Self)
        requires
            rgb.wf(),
        ensures
            c == Self::from_rgb_spec(rgb),
            c.inv(),
    ;

    /// Converts _self_ to the linear RGB space.
    fn to_rgb(&self) -> (c: Rgb)
        requires
            self.inv(),
        ensures
            c == self.to_rgb_spec(),
            c.wf(),
    ;
}

/// Converts `clr` in linear RGB space to color space `T`.
pub fn from_rgb<T: ColorSpace>(clr: Rgb) -> (c: T)
    requires
        clr.wf(),
    ensures
        c == T::from_rgb_spec(clr),
        c.inv(),
{
    <T as ColorSpace>::from_rgb(clr)
}

/// Converts `clr` in color space `T` to linear RGB color space.
pub fn to_rgb<T: ColorSpace>(clr: &T) -> (c: Rgb)
    requires
        clr.inv(),
    ensures
        c == clr.to_rgb_spec(),
        c.wf(),
{
    clr.to_rgb()
}

} // verus!
