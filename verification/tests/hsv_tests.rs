use chroma::consts;
use chroma::fixed::{HALF_TURN, TURN, UNIT};
use chroma::{from_rgb, hsv, ColorSpace, Hsv, Rgb};

#[test]
fn hsv_test_to_rgb() {
    fn prop(r: u32, g: u32, b: u32) -> bool {
        let clr = Rgb::new(
            (r % (UNIT + 1)) as i64,
            (g % (UNIT + 1)) as i64,
            (b % (UNIT + 1)) as i64,
        );
        let hsv: Hsv = ColorSpace::from_rgb(clr);
        hsv.to_rgb().is_close_to(&clr, 3)
    }
    quickcheck::quickcheck(prop as fn(u32, u32, u32) -> bool);
}

#[test]
fn test_to_rgb_gray() {
    fn prop(v: u32) -> bool {
        let gray = Rgb::new((v % (UNIT + 1)) as i64, (v % (UNIT + 1)) as i64, (v % (UNIT + 1)) as i64);
        let hsv: Hsv = ColorSpace::from_rgb(gray);
        hsv.saturation() == 0 && hsv.to_rgb() == gray
    }
    quickcheck::quickcheck(prop as fn(u32) -> bool);
}

#[test]
fn test_new_wraps_and_clamps() {
    // A hue past the full turn (seven radians, here in turn steps) wraps to
    // zero, and an overlarge saturation clamps to full scale.
    let red = Hsv::new(6_684_507, 2_000_000, 1_000_000);
    assert_eq!(red.hue(), 0);
    assert_eq!(red.saturation(), UNIT);
    // A hue of exactly one full turn wraps to zero as well.
    assert_eq!(Hsv::new(TURN as i64, 0, 0).hue(), 0);
    // A hue inside the circle is kept.
    assert_eq!(hsv(123, 456, 789), Hsv::new(123, 456, 789));
    assert_eq!(Hsv::new(TURN as i64 - 1, 0, 0).hue(), TURN - 1);
}

#[test]
fn test_from_hue() {
    let y = Hsv::from_hue(1_000_000);
    assert_eq!(y.hue(), 1_000_000);
    assert_eq!(y.saturation(), UNIT);
    assert_eq!(y.brightness(), UNIT);
}

#[test]
fn test_complement() {
    let red = Hsv::from_hue(0);
    let green = Hsv::from_hue(HALF_TURN as i64);
    assert_eq!(red.complement(), green);
    assert_eq!(green.complement(), red);
}

#[test]
fn test_split_complement() {
    let (c1, c2) = Hsv::from_hue(0).split_complement();
    assert_eq!(c1.hue(), 2_500_000);
    assert_eq!(c2.hue(), 3_500_000);
}

#[test]
fn test_double_complement() {
    let ((d1, c1), (d2, c2)) = Hsv::from_hue(0).double_complement();
    assert_eq!(c1.hue(), 2_500_000);
    assert_eq!(c2.hue(), 3_500_000);
    assert_eq!(d1.hue(), 5_500_000);
    assert_eq!(d2.hue(), 500_000);
}

#[test]
fn test_triad() {
    let red: Hsv = from_rgb(consts::red());
    let (green, blue) = red.triad();
    assert_eq!(green.hue(), 2_000_000);
    assert_eq!(blue.hue(), 4_000_000);
}

#[test]
fn test_analogs() {
    let seed = Hsv::new(5_900_000, 700_000, 800_000);
    assert_eq!(seed.analogs(0, 600_000).len(), 0);
    assert_eq!(seed.analogs(5, 0).len(), 0);
    let clrs = seed.analogs(4, 600_000);
    assert_eq!(clrs.len(), 4);
    // Hues step by span / n and wrap around the circle.
    assert_eq!(clrs[0], seed);
    assert_eq!(clrs[1].hue(), 50_000);
    assert_eq!(clrs[2].hue(), 200_000);
    assert_eq!(clrs[3].hue(), 350_000);
    assert_eq!(clrs[1].saturation(), 700_000);
    assert_eq!(clrs[1].brightness(), 800_000);
    // A negative span walks the other way around the wheel.
    let back = seed.analogs(2, -600_000);
    assert_eq!(back[1].hue(), 5_600_000);
}

#[test]
fn test_color_wheel() {
    let cs0 = Hsv::color_wheel(0);
    assert_eq!(cs0.len(), 0);
    let cs1 = Hsv::color_wheel(1);
    assert_eq!(cs1[0], Hsv::from_hue(0));
    let csn = Hsv::color_wheel(3);
    assert_eq!(csn.len(), 3);
    assert_eq!(csn[1].hue(), 2_000_000);
    assert_eq!(csn[2].hue(), 4_000_000);
}

#[test]
fn test_tint_and_tints() {
    let red = Hsv::new(1_000_000, 500_000, 200_000);
    assert_eq!(red.tint(UNIT as i64), Hsv::new(1_000_000, 500_000, 1_000_000));
    assert_eq!(red.tint(100_000).brightness(), 300_000);
    let clrs = red.tints(4);
    assert_eq!(clrs.len(), 4);
    assert_eq!(clrs[0], red);
    assert_eq!(clrs[1].brightness(), 400_000);
    assert_eq!(clrs[2].brightness(), 600_000);
    assert_eq!(clrs[3].brightness(), 800_000);
}

#[test]
fn test_shade_and_shades() {
    let clr = Hsv::new(0, 500_000, 800_000);
    assert_eq!(clr.shade(100_000).brightness(), 700_000);
    assert_eq!(clr.shade(UNIT as i64).brightness(), 0);
    let clrs = clr.shades(4);
    assert_eq!(clrs.len(), 4);
    assert_eq!(clrs[0], clr);
    assert_eq!(clrs[1].brightness(), 600_000);
    assert_eq!(clrs[2].brightness(), 400_000);
    assert_eq!(clrs[3].brightness(), 200_000);
}

#[test]
fn test_tone_and_tones() {
    let clr = Hsv::new(0, 600_000, 800_000);
    assert_eq!(clr.tone(100_000).saturation(), 500_000);
    assert_eq!(clr.tone(UNIT as i64).saturation(), 0);
    // The tones series steps the value that starts at the saturation, but
    // writes it through the brightness channel: the saturation stays put.
    let clrs = clr.tones(4);
    assert_eq!(clrs.len(), 4);
    assert_eq!(clrs[0].saturation(), 600_000);
    assert_eq!(clrs[0].brightness(), 600_000);
    assert_eq!(clrs[1].brightness(), 700_000);
    assert_eq!(clrs[2].brightness(), 800_000);
    assert_eq!(clrs[3].brightness(), 900_000);
    assert_eq!(clrs[3].saturation(), 600_000);
}

#[test]
fn test_hsv_rand_in_range() {
    for _ in 0..32 {
        let clr = Hsv::rand();
        assert!(clr.hue() < TURN);
        assert!(clr.saturation() <= UNIT && clr.brightness() <= UNIT);
    }
}

#[test]
fn test_primary_round_trips_exact() {
    for clr in [
        consts::red(),
        consts::green(),
        consts::blue(),
        consts::yellow(),
        consts::cyan(),
        consts::magenta(),
        consts::white(),
        consts::black(),
    ] {
        let hsv: Hsv = from_rgb(clr);
        assert_eq!(hsv.to_rgb(), clr);
    }
}

#[test]
fn test_hsv_is_close_to() {
    let a = Hsv::new(1000, 2000, 3000);
    let b = Hsv::new(1002, 2000, 2998);
    assert!(a.is_close_to(&b, 2));
    assert!(!a.is_close_to(&b, 1));
}
