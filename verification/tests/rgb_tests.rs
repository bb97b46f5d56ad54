use chroma::consts;
use chroma::fixed::UNIT;
use chroma::{gray, grey, rgb, ColorSpace, Rgb};

#[test]
fn test_add() {
    assert_eq!(consts::red().add(consts::green()), consts::yellow());
    assert_eq!(consts::green().add(consts::blue()), consts::cyan());
    assert_eq!(consts::red().add(consts::blue()), consts::magenta());
    assert_eq!(
        consts::red().add(consts::green()).add(consts::blue()),
        consts::white()
    );
}

#[test]
fn test_add_clamp() {
    assert_eq!(consts::red().add(consts::red()), consts::red());
}

#[test]
fn test_mul() {
    fn prop(r: u32, g: u32, b: u32) -> bool {
        let clr = Rgb::new(
            (r % (UNIT + 1)) as i64,
            (g % (UNIT + 1)) as i64,
            (b % (UNIT + 1)) as i64,
        );
        clr.mul(consts::white()) == clr && clr.mul(consts::black()) == consts::black()
    }
    quickcheck::quickcheck(prop as fn(u32, u32, u32) -> bool);
}

#[test]
fn test_new_clamps() {
    let blue = Rgb::new(-10_000_000, 0, 1_000_000_000);
    assert_eq!(blue, consts::blue());
    assert_eq!(blue.red(), 0);
    assert_eq!(blue.green(), 0);
    assert_eq!(blue.blue(), UNIT);
}

#[test]
fn test_from_u32_cyan() {
    let cyan = Rgb::from_u32(0x00FFFF);
    assert_eq!(cyan, consts::cyan());
    assert_eq!(cyan.red(), 0);
}

#[test]
fn test_from_u8_extremes() {
    let red = Rgb::from_u8(255, 0, 0);
    assert_eq!(red.red(), UNIT);
    assert_eq!(red.green(), 0);
    assert_eq!(rgb(255, 0, 0), red);
    assert_eq!(gray(128), rgb(128, 128, 128));
    assert_eq!(grey(128), gray(128));
    // A middle channel maps to floor(c * UNIT / 255).
    assert_eq!(Rgb::from_u8(128, 0, 0).red(), 128u32 * UNIT / 255);
}

#[test]
fn test_setters() {
    let clr = consts::red().with_red(750_000);
    assert_eq!(clr.red(), 750_000);
    assert_eq!(clr.green(), 0);
    assert_eq!(clr.blue(), 0);
    let mut clr = consts::blue();
    clr.set_red(100_000_000);
    assert_eq!(clr.red(), UNIT);
    clr.set_green(-5);
    assert_eq!(clr.green(), 0);
    let clr2 = clr.with_green(5).with_blue(6);
    assert_eq!((clr2.green(), clr2.blue()), (5, 6));
    let mut clr3 = clr2;
    clr3.set_blue(7);
    assert_eq!(clr3.blue(), 7);
}

#[test]
fn test_hue_primaries() {
    assert_eq!(consts::red().hue(), 0);
    assert_eq!(consts::green().hue(), 2_000_000);
    assert_eq!(consts::blue().hue(), 4_000_000);
    assert_eq!(consts::yellow().hue(), 1_000_000);
}

#[test]
fn test_saturation_and_brightness() {
    assert_eq!(consts::gray().saturation(), 0);
    assert_eq!(consts::red().saturation(), UNIT);
    assert_eq!(consts::red().brightness(), UNIT);
    assert_eq!(consts::black().brightness(), 0);
}

#[test]
fn test_lunimance() {
    assert_eq!(consts::white().lunimance(), UNIT);
    assert_eq!(consts::black().lunimance(), 0);
    // The BT.709 weights of pure red.
    assert_eq!(consts::red().lunimance(), 212_600);
}

#[test]
fn test_sub() {
    assert_eq!(consts::white().sub(consts::green()), consts::magenta());
    assert_eq!(consts::black().sub(consts::red()), consts::black());
}

#[test]
fn test_scale() {
    let half = Rgb::new(600_000, 400_000, 0);
    assert_eq!(half.scale(UNIT as i64), half);
    assert_eq!(half.scale(-(UNIT as i64)), half);
    assert_eq!(half.scale(UNIT as i64 / 2), Rgb::new(300_000, 200_000, 0));
    assert_eq!(half.scale(10 * UNIT as i64), Rgb::new(1_000_000, 1_000_000, 0));
}

#[test]
fn test_rgb_identity_conversion() {
    let clr = Rgb::new(123, 456, 789);
    assert_eq!(Rgb::from_rgb(clr), clr);
    assert_eq!(clr.to_rgb(), clr);
    let via_generic: Rgb = chroma::from_rgb(clr);
    assert_eq!(via_generic, clr);
    assert_eq!(chroma::to_rgb(&clr), clr);
}

#[test]
fn test_rgb_rand_in_range() {
    for _ in 0..32 {
        let clr = Rgb::rand();
        assert!(clr.red() <= UNIT && clr.green() <= UNIT && clr.blue() <= UNIT);
    }
}

#[test]
fn test_rand_offset_gray_seed() {
    let seed = consts::black();
    let clr = seed.rand_offset(300_000);
    assert_eq!(clr, Rgb::new(300_000, 300_000, 300_000));
    // The offset itself clamps into the channel range.
    assert_eq!(seed.rand_offset(2_000_000), consts::white());
}

#[test]
fn test_rand_offset_in_range() {
    let seed = Rgb::new(200_000, 400_000, 600_000);
    for _ in 0..32 {
        let clr = seed.rand_offset(100_000);
        assert!(clr.red() <= UNIT && clr.green() <= UNIT && clr.blue() <= UNIT);
    }
}

#[test]
fn test_rgb_is_close_to() {
    let a = Rgb::new(100, 200, 300);
    let b = Rgb::new(103, 198, 300);
    assert!(a.is_close_to(&b, 3));
    assert!(!a.is_close_to(&b, 2));
}
