use chroma::consts;
use chroma::fixed::UNIT;
use chroma::ycbcr::HALF_UNIT;
use chroma::{ycbcr, ColorSpace, Rgb, YCbCr};

#[test]
fn ycbcr_test_to_rgb() {
    fn prop(r: u32, g: u32, b: u32) -> bool {
        let clr = Rgb::new(
            (r % (UNIT + 1)) as i64,
            (g % (UNIT + 1)) as i64,
            (b % (UNIT + 1)) as i64,
        );
        let yuv: YCbCr = ColorSpace::from_rgb(clr);
        let rgb = yuv.to_rgb();
        yuv.cb().abs() <= HALF_UNIT as i32
            && yuv.cr().abs() <= HALF_UNIT as i32
            && rgb.is_close_to(&clr, 100)
    }
    quickcheck::quickcheck(prop as fn(u32, u32, u32) -> bool);
}

#[test]
fn test_luma_is_luminance() {
    let brown = consts::brown();
    let brown_yuv: YCbCr = ColorSpace::from_rgb(brown);
    assert_eq!(brown_yuv.y(), brown.lunimance());
    let salmon = consts::salmon();
    let salmon_yuv: YCbCr = chroma::from_rgb(salmon);
    assert_eq!(salmon_yuv.y(), salmon.lunimance());
}

#[test]
fn test_encode_red_exact() {
    // The BT.709 matrix row values of pure red.
    let red_yuv: YCbCr = ColorSpace::from_rgb(consts::red());
    assert_eq!(red_yuv.y(), 212_600);
    assert_eq!(red_yuv.cb(), -114_600);
    assert_eq!(red_yuv.cr(), 500_000);
}

#[test]
fn test_ycbcr_new_clamps() {
    let c = ycbcr(2_000_000, -700_000, 300_000);
    assert_eq!(c.y(), UNIT);
    assert_eq!(c.cb(), -(HALF_UNIT as i32));
    assert_eq!(c.cr(), 300_000);
    assert_eq!(YCbCr::new(2_000_000, -700_000, 300_000), c);
}

#[test]
fn test_gray_axis() {
    // An achromatic color has zero chroma, and decodes back exactly.
    let gray_yuv: YCbCr = ColorSpace::from_rgb(chroma::gray(128));
    assert_eq!(gray_yuv.cb(), 0);
    assert_eq!(gray_yuv.cr(), 0);
    assert_eq!(gray_yuv.to_rgb(), chroma::gray(128));
}

#[test]
fn test_ycbcr_rand_in_range() {
    for _ in 0..16 {
        let c = YCbCr::rand();
        assert!(c.y() <= UNIT);
        assert!(c.cb().abs() <= HALF_UNIT as i32);
        assert!(c.cr().abs() <= HALF_UNIT as i32);
    }
}

#[test]
fn test_ycbcr_is_close_to() {
    let a = ycbcr(1000, -100, 100);
    let b = ycbcr(1000, -105, 100);
    assert!(a.is_close_to(&b, 5));
    assert!(!a.is_close_to(&b, 4));
}
