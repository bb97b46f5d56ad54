use chroma::consts;
use chroma::fixed::UNIT;
use chroma::{srgb, ColorSpace, Rgb, Srgb};

#[test]
fn srgb_test_to_rgb() {
    fn prop(r: u32, g: u32, b: u32) -> bool {
        let clr = Rgb::new(
            (r % (UNIT + 1)) as i64,
            (g % (UNIT + 1)) as i64,
            (b % (UNIT + 1)) as i64,
        );
        let s: Srgb = ColorSpace::from_rgb(clr);
        let rgb = s.to_rgb();
        // The round trip stays within one ten-thousandth and never
        // overshoots.
        rgb.is_close_to(&clr, 100)
            && rgb.red() <= clr.red()
            && rgb.green() <= clr.green()
            && rgb.blue() <= clr.blue()
    }
    quickcheck::quickcheck(prop as fn(u32, u32, u32) -> bool);
}

#[test]
fn test_endpoints_exact() {
    let white: Srgb = ColorSpace::from_rgb(consts::white());
    assert_eq!((white.red(), white.green(), white.blue()), (UNIT, UNIT, UNIT));
    assert_eq!(white.to_rgb(), consts::white());
    let black: Srgb = ColorSpace::from_rgb(consts::black());
    assert_eq!((black.red(), black.green(), black.blue()), (0, 0, 0));
    assert_eq!(black.to_rgb(), consts::black());
}

#[test]
fn test_linear_segment_exact() {
    // Below the dark break point the transfer is the line with slope 12.92.
    let dark: Srgb = ColorSpace::from_rgb(Rgb::new(1000, 3130, 0));
    assert_eq!((dark.red(), dark.green(), dark.blue()), (12_920, 40_439, 0));
    // Decoding loses at most one floor step on the linear segment.
    assert_eq!(dark.to_rgb(), Rgb::new(1000, 3129, 0));
}

#[test]
fn test_gamma_segment_value() {
    // The gamma branch of the transfer on a middle gray: the floor fixed
    // point of 1.055 * 0.5^(5/12) - 0.055.
    let mid: Srgb = chroma::from_rgb(Rgb::new(500_000, 0, 0));
    assert_eq!(mid.red(), 735_354);
    // Just past the break point the curve continues near the line.
    let edge: Srgb = ColorSpace::from_rgb(Rgb::new(3131, 0, 0));
    assert_eq!(edge.red(), 40_451);
}

#[test]
fn test_srgb_new_clamps() {
    let s = srgb(-5, 2_000_000, 300_000);
    assert_eq!((s.red(), s.green(), s.blue()), (0, UNIT, 300_000));
    assert_eq!(Srgb::new(-5, 2_000_000, 300_000), s);
}

#[test]
fn test_srgb_rand_in_range() {
    for _ in 0..16 {
        let s = Srgb::rand();
        assert!(s.red() <= UNIT && s.green() <= UNIT && s.blue() <= UNIT);
    }
}

#[test]
fn test_srgb_is_close_to() {
    let a = srgb(100, 200, 300);
    let b = srgb(104, 200, 300);
    assert!(a.is_close_to(&b, 4));
    assert!(!a.is_close_to(&b, 3));
}
