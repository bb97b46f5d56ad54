//! Named color constants: the SVG color keywords, exposed as functions
//! returning the corresponding linear RGB value.

use vstd::prelude::*;

verus! {

use crate::rgb::Rgb;

/// The exact value of the color `alice blue`.
pub open spec fn alice_blue_spec() -> Rgb {
    Rgb::from_u8_spec(240, 248, 255)
}

/// The color `alice blue`.
pub fn alice_blue() -> (c: Rgb)
    ensures
        c == alice_blue_spec(),
        c.wf(),
{
    Rgb::from_u8(240, 248, 255)
}

/// The exact value of the color `antique white`.
pub open spec fn antique_white_spec() -> Rgb {
    Rgb::from_u8_spec(250, 235, 215)
}

/// The color `antique white`.
pub fn antique_white() -> (c: Rgb)
    ensures
        c == antique_white_spec(),
        c.wf(),
{
    Rgb::from_u8(250, 235, 215)
}

/// The exact value of the color `aqua`.
pub open spec fn aqua_spec() -> Rgb {
    Rgb::from_u8_spec(0, 255, 255)
}

/// The color `aqua`.
pub fn aqua() -> (c: Rgb)
    ensures
        c == aqua_spec(),
        c.wf(),
{
    Rgb::from_u8(0, 255, 255)
}

/// The exact value of the color `aqua marine`.
pub open spec fn aqua_marine_spec() -> Rgb {
    Rgb::from_u8_spec(127, 255, 212)
}

/// The color `aqua marine`.
pub fn aqua_marine() -> (c: Rgb)
    ensures
        c == aqua_marine_spec(),
        c.wf(),
{
    Rgb::from_u8(127, 255, 212)
}

/// The exact value of the color `azure`.
pub open spec fn azure_spec() -> Rgb {
    Rgb::from_u8_spec(240, 255, 255)
}

/// The color `azure`.
pub fn azure() -> (c: Rgb)
    ensures
        c == azure_spec(),
        c.wf(),
{
    Rgb::from_u8(240, 255, 255)
}

/// The exact value of the color `beige`.
pub open spec fn beige_spec() -> Rgb {
    Rgb::from_u8_spec(245, 245, 220)
}

/// The color `beige`.
pub fn beige() -> (c: Rgb)
    ensures
        c == beige_spec(),
        c.wf(),
{
    Rgb::from_u8(245, 245, 220)
}

/// The exact value of the color `bisque`.
pub open spec fn bisque_spec() -> Rgb {
    Rgb::from_u8_spec(255, 228, 196)
}

/// The color `bisque`.
pub fn bisque() -> (c: Rgb)
    ensures
        c == bisque_spec(),
        c.wf(),
{
    Rgb::from_u8(255, 228, 196)
}

/// The exact value of the color `black`.
pub open spec fn black_spec() -> Rgb {
    Rgb::from_u8_spec(0, 0, 0)
}

/// The color `black`.
pub fn black() -> (c: Rgb)
    ensures
        c == black_spec(),
        c.wf(),
{
    Rgb::from_u8(0, 0, 0)
}

/// The exact value of the color `blanched almond`.
pub open spec fn blanched_almond_spec() -> Rgb {
    Rgb::from_u8_spec(255, 235, 205)
}

/// The color `blanched almond`.
pub fn blanched_almond() -> (c: Rgb)
    ensures
        c == blanched_almond_spec(),
        c.wf(),
{
    Rgb::from_u8(255, 235, 205)
}

/// The exact value of the color `blue`.
pub open spec fn blue_spec() -> Rgb {
    Rgb::from_u8_spec(0, 0, 255)
}

/// The color `blue`.
pub fn blue() -> (c: Rgb)
    ensures
        c == blue_spec(),
        c.wf(),
{
    Rgb::from_u8(0, 0, 255)
}

/// The exact value of the color `blue violet`.
pub open spec fn blue_violet_spec() -> Rgb {
    Rgb::from_u8_spec(138, 43, 226)
}

/// The color `blue violet`.
pub fn blue_violet() -> (c: Rgb)
    ensures
        c == blue_violet_spec(),
        c.wf(),
{
    Rgb::from_u8(138, 43, 226)
}

/// The exact value of the color `brown`.
pub open spec fn brown_spec() -> Rgb {
    Rgb::from_u8_spec(165, 42, 42)
}

/// The color `brown`.
pub fn brown() -> (c: Rgb)
    ensures
        c == brown_spec(),
        c.wf(),
{
    Rgb::from_u8(165, 42, 42)
}

/// The exact value of the color `burly wood`.
pub open spec fn burly_wood_spec() -> Rgb {
    Rgb::from_u8_spec(222, 184, 135)
}

/// The color `burly wood`.
pub fn burly_wood() -> (c: Rgb)
    ensures
        c == burly_wood_spec(),
        c.wf(),
{
    Rgb::from_u8(222, 184, 135)
}

/// The exact value of the color `cadet blue`.
pub open spec fn cadet_blue_spec() -> Rgb {
    Rgb::from_u8_spec(95, 158, 160)
}

/// The color `cadet blue`.
pub fn cadet_blue() -> (c: Rgb)
    ensures
        c == cadet_blue_spec(),
        c.wf(),
{
    Rgb::from_u8(95, 158, 160)
}

/// The exact value of the color `chartreuse`.
pub open spec fn chartreuse_spec() -> Rgb {
    Rgb::from_u8_spec(127, 255, 0)
}

/// The color `chartreuse`.
pub fn chartreuse() -> (c: Rgb)
    ensures
        c == chartreuse_spec(),
        c.wf(),
{
    Rgb::from_u8(127, 255, 0)
}

/// The exact value of the color `chocolate`.
pub open spec fn chocolate_spec() -> Rgb {
    Rgb::from_u8_spec(210, 105, 30)
}

/// The color `chocolate`.
pub fn chocolate() -> (c: Rgb)
    ensures
        c == chocolate_spec(),
        c.wf(),
{
    Rgb::from_u8(210, 105, 30)
}

/// The exact value of the color `coral`.
pub open spec fn coral_spec() -> Rgb {
    Rgb::from_u8_spec(255, 127, 80)
}

/// The color `coral`.
pub fn coral() -> (c: Rgb)
    ensures
        c == coral_spec(),
        c.wf(),
{
    Rgb::from_u8(255, 127, 80)
}

/// The exact value of the color `cornflower blue`.
pub open spec fn cornflower_blue_spec() -> Rgb {
    Rgb::from_u8_spec(100, 149, 237)
}

/// The color `cornflower blue`.
pub fn cornflower_blue() -> (c: Rgb)
    ensures
        c == cornflower_blue_spec(),
        c.wf(),
{
    Rgb::from_u8(100, 149, 237)
}

/// The exact value of the color `cornsilk`.
pub open spec fn cornsilk_spec() -> Rgb {
    Rgb::from_u8_spec(255, 248, 220)
}

/// The color `cornsilk`.
pub fn cornsilk() -> (c: Rgb)
    ensures
        c == cornsilk_spec(),
        c.wf(),
{
    Rgb::from_u8(255, 248, 220)
}

/// The exact value of the color `crimson`.
pub open spec fn crimson_spec() -> Rgb {
    Rgb::from_u8_spec(220, 20, 60)
}

/// The color `crimson`.
pub fn crimson() -> (c: Rgb)
    ensures
        c == crimson_spec(),
        c.wf(),
{
    Rgb::from_u8(220, 20, 60)
}

/// The exact value of the color `cyan`.
pub open spec fn cyan_spec() -> Rgb {
    Rgb::from_u8_spec(0, 255, 255)
}

/// The color `cyan`.
pub fn cyan() -> (c: Rgb)
    ensures
        c == cyan_spec(),
        c.wf(),
{
    Rgb::from_u8(0, 255, 255)
}

/// The exact value of the color `dark blue`.
pub open spec fn dark_blue_spec() -> Rgb {
    Rgb::from_u8_spec(0, 0, 139)
}

/// The color `dark blue`.
pub fn dark_blue() -> (c: Rgb)
    ensures
        c == dark_blue_spec(),
        c.wf(),
{
    Rgb::from_u8(0, 0, 139)
}

/// The exact value of the color `dark cyan`.
pub open spec fn dark_cyan_spec() -> Rgb {
    Rgb::from_u8_spec(0, 139, 139)
}

/// The color `dark cyan`.
pub fn dark_cyan() -> (c: Rgb)
    ensures
        c == dark_cyan_spec(),
        c.wf(),
{
    Rgb::from_u8(0, 139, 139)
}

/// The exact value of the color `dark golden rod`.
pub open spec fn dark_golden_rod_spec() -> Rgb {
    Rgb::from_u8_spec(184, 134, 11)
}

/// The color `dark golden rod`.
pub fn dark_golden_rod() -> (c: Rgb)
    ensures
        c == dark_golden_rod_spec(),
        c.wf(),
{
    Rgb::from_u8(184, 134, 11)
}

/// The exact value of the color `dark gray`.
pub open spec fn dark_gray_spec() -> Rgb {
    Rgb::from_u8_spec(169, 169, 169)
}

/// The color `dark gray`.
pub fn dark_gray() -> (c: Rgb)
    ensures
        c == dark_gray_spec(),
        c.wf(),
{
    Rgb::from_u8(169, 169, 169)
}

/// The exact value of the color `dark green`.
pub open spec fn dark_green_spec() -> Rgb {
    Rgb::from_u8_spec(0, 100, 0)
}

/// The color `dark green`.
pub fn dark_green() -> (c: Rgb)
    ensures
        c == dark_green_spec(),
        c.wf(),
{
    Rgb::from_u8(0, 100, 0)
}

/// The color `dark grey`, an alias of `dark gray`.
pub fn dark_grey() -> (c: Rgb)
    ensures
        c == dark_gray_spec(),
        c.wf(),
{
    dark_gray()
}

/// The exact value of the color `dark khaki`.
pub open spec fn dark_khaki_spec() -> Rgb {
    Rgb::from_u8_spec(189, 183, 107)
}

/// The color `dark khaki`.
pub fn dark_khaki() -> (c: Rgb)
    ensures
        c == dark_khaki_spec(),
        c.wf(),
{
    Rgb::from_u8(189, 183, 107)
}

/// The exact value of the color `dark magenta`.
pub open spec fn dark_magenta_spec() -> Rgb {
    Rgb::from_u8_spec(139, 0, 139)
}

/// The color `dark magenta`.
pub fn dark_magenta() -> (c: Rgb)
    ensures
        c == dark_magenta_spec(),
        c.wf(),
{
    Rgb::from_u8(139, 0, 139)
}

/// The exact value of the color `dark olivegreen`.
pub open spec fn dark_olivegreen_spec() -> Rgb {
    Rgb::from_u8_spec(85, 107, 47)
}

/// The color `dark olivegreen`.
pub fn dark_olivegreen() -> (c: Rgb)
    ensures
        c == dark_olivegreen_spec(),
        c.wf(),
{
    Rgb::from_u8(85, 107, 47)
}

/// The exact value of the color `dark orange`.
pub open spec fn dark_orange_spec() -> Rgb {
    Rgb::from_u8_spec(255, 140, 0)
}

/// The color `dark orange`.
pub fn dark_orange() -> (c: Rgb)
    ensures
        c == dark_orange_spec(),
        c.wf(),
{
    Rgb::from_u8(255, 140, 0)
}

/// The exact value of the color `dark orchid`.
pub open spec fn dark_orchid_spec() -> Rgb {
    Rgb::from_u8_spec(153, 50, 204)
}

/// The color `dark orchid`.
pub fn dark_orchid() -> (c: Rgb)
    ensures
        c == dark_orchid_spec(),
        c.wf(),
{
    Rgb::from_u8(153, 50, 204)
}

/// The exact value of the color `dark red`.
pub open spec fn dark_red_spec() -> Rgb {
    Rgb::from_u8_spec(139, 0, 0)
}

/// The color `dark red`.
pub fn dark_red() -> (c: Rgb)
    ensures
        c == dark_red_spec(),
        c.wf(),
{
    Rgb::from_u8(139, 0, 0)
}

/// The exact value of the color `dark salmon`.
pub open spec fn dark_salmon_spec() -> Rgb {
    Rgb::from_u8_spec(233, 150, 122)
}

/// The color `dark salmon`.
pub fn dark_salmon() -> (c: Rgb)
    ensures
        c == dark_salmon_spec(),
        c.wf(),
{
    Rgb::from_u8(233, 150, 122)
}

/// The exact value of the color `dark sea green`.
pub open spec fn dark_sea_green_spec() -> Rgb {
    Rgb::from_u8_spec(143, 188, 143)
}

/// The color `dark sea green`.
pub fn dark_sea_green() -> (c: Rgb)
    ensures
        c == dark_sea_green_spec(),
        c.wf(),
{
    Rgb::from_u8(143, 188, 143)
}

/// The exact value of the color `dark slate blue`.
pub open spec fn dark_slate_blue_spec() -> Rgb {
    Rgb::from_u8_spec(72, 61, 139)
}

/// The color `dark slate blue`.
pub fn dark_slate_blue() -> (c: Rgb)
    ensures
        c == dark_slate_blue_spec(),
        c.wf(),
{
    Rgb::from_u8(72, 61, 139)
}

/// The exact value of the color `dark slate gray`.
pub open spec fn dark_slate_gray_spec() -> Rgb {
    Rgb::from_u8_spec(47, 79, 79)
}

/// The color `dark slate gray`.
pub fn dark_slate_gray() -> (c: Rgb)
    ensures
        c == dark_slate_gray_spec(),
        c.wf(),
{
    Rgb::from_u8(47, 79, 79)
}

/// The color `dark slate grey`, an alias of `dark slate gray`.
pub fn dark_slate_grey() -> (c: Rgb)
    ensures
        c == dark_slate_gray_spec(),
        c.wf(),
{
    dark_slate_gray()
}

/// The exact value of the color `dark turquoise`.
pub open spec fn dark_turquoise_spec() -> Rgb {
    Rgb::from_u8_spec(0, 206, 209)
}

/// The color `dark turquoise`.
pub fn dark_turquoise() -> (c: Rgb)
    ensures
        c == dark_turquoise_spec(),
        c.wf(),
{
    Rgb::from_u8(0, 206, 209)
}

/// The exact value of the color `dark violet`.
pub open spec fn dark_violet_spec() -> Rgb {
    Rgb::from_u8_spec(148, 0, 211)
}

/// The color `dark violet`.
pub fn dark_violet() -> (c: Rgb)
    ensures
        c == dark_violet_spec(),
        c.wf(),
{
    Rgb::from_u8(148, 0, 211)
}

/// The exact value of the color `deep pink`.
pub open spec fn deep_pink_spec() -> Rgb {
    Rgb::from_u8_spec(255, 20, 147)
}

/// The color `deep pink`.
pub fn deep_pink() -> (c: Rgb)
    ensures
        c == deep_pink_spec(),
        c.wf(),
{
    Rgb::from_u8(255, 20, 147)
}

/// The exact value of the color `deep sky blue`.
pub open spec fn deep_sky_blue_spec() -> Rgb {
    Rgb::from_u8_spec(0, 191, 255)
}

/// The color `deep sky blue`.
pub fn deep_sky_blue() -> (c: Rgb)
    ensures
        c == deep_sky_blue_spec(),
        c.wf(),
{
    Rgb::from_u8(0, 191, 255)
}

/// The exact value of the color `dim gray`.
pub open spec fn dim_gray_spec() -> Rgb {
    Rgb::from_u8_spec(105, 105, 105)
}

/// The color `dim gray`.
pub fn dim_gray() -> (c: Rgb)
    ensures
        c == dim_gray_spec(),
        c.wf(),
{
    Rgb::from_u8(105, 105, 105)
}

/// The color `dim grey`, an alias of `dim gray`.
pub fn dim_grey() -> (c: Rgb)
    ensures
        c == dim_gray_spec(),
        c.wf(),
{
    dim_gray()
}

/// The exact value of the color `dodger blue`.
pub open spec fn dodger_blue_spec() -> Rgb {
    Rgb::from_u8_spec(30, 144, 255)
}

/// The color `dodger blue`.
pub fn dodger_blue() -> (c: Rgb)
    ensures
        c == dodger_blue_spec(),
        c.wf(),
{
    Rgb::from_u8(30, 144, 255)
}

/// The exact value of the color `fire brick`.
pub open spec fn fire_brick_spec() -> Rgb {
    Rgb::from_u8_spec(178, 34, 34)
}

/// The color `fire brick`.
pub fn fire_brick() -> (c: Rgb)
    ensures
        c == fire_brick_spec(),
        c.wf(),
{
    Rgb::from_u8(178, 34, 34)
}

/// The exact value of the color `floral white`.
pub open spec fn floral_white_spec() -> Rgb {
    Rgb::from_u8_spec(255, 250, 240)
}

/// The color `floral white`.
pub fn floral_white() -> (c: Rgb)
    ensures
        c == floral_white_spec(),
        c.wf(),
{
    Rgb::from_u8(255, 250, 240)
}

/// The exact value of the color `forest green`.
pub open spec fn forest_green_spec() -> Rgb {
    Rgb::from_u8_spec(34, 139, 34)
}

/// The color `forest green`.
pub fn forest_green() -> (c: Rgb)
    ensures
        c == forest_green_spec(),
        c.wf(),
{
    Rgb::from_u8(34, 139, 34)
}

/// The exact value of the color `fuchsia`.
pub open spec fn fuchsia_spec() -> Rgb {
    Rgb::from_u8_spec(255, 0, 255)
}

/// The color `fuchsia`.
pub fn fuchsia() -> (c: Rgb)
    ensures
        c == fuchsia_spec(),
        c.wf(),
{
    Rgb::from_u8(255, 0, 255)
}

/// The exact value of the color `gainsboro`.
pub open spec fn gainsboro_spec() -> Rgb {
    Rgb::from_u8_spec(220, 220, 220)
}

/// The color `gainsboro`.
pub fn gainsboro() -> (c: Rgb)
    ensures
        c == gainsboro_spec(),
        c.wf(),
{
    Rgb::from_u8(220, 220, 220)
}

/// The exact value of the color `ghost white`.
pub open spec fn ghost_white_spec() -> Rgb {
    Rgb::from_u8_spec(248, 248, 255)
}

/// The color `ghost white`.
pub fn ghost_white() -> (c: Rgb)
    ensures
        c == ghost_white_spec(),
        c.wf(),
{
    Rgb::from_u8(248, 248, 255)
}

/// The exact value of the color `gold`.
pub open spec fn gold_spec() -> Rgb {
    Rgb::from_u8_spec(255, 215, 0)
}

/// The color `gold`.
pub fn gold() -> (c: Rgb)
    ensures
        c == gold_spec(),
        c.wf(),
{
    Rgb::from_u8(255, 215, 0)
}

/// The exact value of the color `golden rod`.
pub open spec fn golden_rod_spec() -> Rgb {
    Rgb::from_u8_spec(218, 165, 32)
}

/// The color `golden rod`.
pub fn golden_rod() -> (c: Rgb)
    ensures
        c == golden_rod_spec(),
        c.wf(),
{
    Rgb::from_u8(218, 165, 32)
}

/// The exact value of the color `gray`.
pub open spec fn gray_spec() -> Rgb {
    Rgb::from_u8_spec(128, 128, 128)
}

/// The color `gray`.
pub fn gray() -> (c: Rgb)
    ensures
        c == gray_spec(),
        c.wf(),
{
    Rgb::from_u8(128, 128, 128)
}

/// The color `grey`, an alias of `gray`.
pub fn grey() -> (c: Rgb)
    ensures
        c == gray_spec(),
        c.wf(),
{
    gray()
}

/// The exact value of the color `green`.
pub open spec fn green_spec() -> Rgb {
    Rgb::from_u8_spec(0, 255, 0)
}

/// The color `green`.
pub fn green() -> (c: Rgb)
    ensures
        c == green_spec(),
        c.wf(),
{
    Rgb::from_u8(0, 255, 0)
}

/// The exact value of the color `green yellow`.
pub open spec fn green_yellow_spec() -> Rgb {
    Rgb::from_u8_spec(173, 255, 47)
}

/// The color `green yellow`.
pub fn green_yellow() -> (c: Rgb)
    ensures
        c == green_yellow_spec(),
        c.wf(),
{
    Rgb::from_u8(173, 255, 47)
}

/// The exact value of the color `honeydew`.
pub open spec fn honeydew_spec() -> Rgb {
    Rgb::from_u8_spec(240, 255, 240)
}

/// The color `honeydew`.
pub fn honeydew() -> (c: Rgb)
    ensures
        c == honeydew_spec(),
        c.wf(),
{
    Rgb::from_u8(240, 255, 240)
}

/// The exact value of the color `hot pink`.
pub open spec fn hot_pink_spec() -> Rgb {
    Rgb::from_u8_spec(255, 105, 180)
}

/// The color `hot pink`.
pub fn hot_pink() -> (c: Rgb)
    ensures
        c == hot_pink_spec(),
        c.wf(),
{
    Rgb::from_u8(255, 105, 180)
}

/// The exact value of the color `indian red`.
pub open spec fn indian_red_spec() -> Rgb {
    Rgb::from_u8_spec(205, 92, 92)
}

/// The color `indian red`.
pub fn indian_red() -> (c: Rgb)
    ensures
        c == indian_red_spec(),
        c.wf(),
{
    Rgb::from_u8(205, 92, 92)
}

/// The exact value of the color `indigo`.
pub open spec fn indigo_spec() -> Rgb {
    Rgb::from_u8_spec(75, 0, 130)
}

/// The color `indigo`.
pub fn indigo() -> (c: Rgb)
    ensures
        c == indigo_spec(),
        c.wf(),
{
    Rgb::from_u8(75, 0, 130)
}

/// The exact value of the color `ivory`.
pub open spec fn ivory_spec() -> Rgb {
    Rgb::from_u8_spec(255, 255, 240)
}

/// The color `ivory`.
pub fn ivory() -> (c: Rgb)
    ensures
        c == ivory_spec(),
        c.wf(),
{
    Rgb::from_u8(255, 255, 240)
}

/// The exact value of the color `khaki`.
pub open spec fn khaki_spec() -> Rgb {
    Rgb::from_u8_spec(240, 230, 140)
}

/// The color `khaki`.
pub fn khaki() -> (c: Rgb)
    ensures
        c == khaki_spec(),
        c.wf(),
{
    Rgb::from_u8(240, 230, 140)
}

/// The exact value of the color `lavender`.
pub open spec fn lavender_spec() -> Rgb {
    Rgb::from_u8_spec(230, 230, 250)
}

/// The color `lavender`.
pub fn lavender() -> (c: Rgb)
    ensures
        c == lavender_spec(),
        c.wf(),
{
    Rgb::from_u8(230, 230, 250)
}

/// The exact value of the color `lavender blush`.
pub open spec fn lavender_blush_spec() -> Rgb {
    Rgb::from_u8_spec(255, 240, 245)
}

/// The color `lavender blush`.
pub fn lavender_blush() -> (c: Rgb)
    ensures
        c == lavender_blush_spec(),
        c.wf(),
{
    Rgb::from_u8(255, 240, 245)
}

/// The exact value of the color `lawn green`.
pub open spec fn lawn_green_spec() -> Rgb {
    Rgb::from_u8_spec(124, 252, 0)
}

/// The color `lawn green`.
pub fn lawn_green() -> (c: Rgb)
    ensures
        c == lawn_green_spec(),
        c.wf(),
{
    Rgb::from_u8(124, 252, 0)
}

/// The exact value of the color `lemon chiffon`.
pub open spec fn lemon_chiffon_spec() -> Rgb {
    Rgb::from_u8_spec(255, 250, 205)
}

/// The color `lemon chiffon`.
pub fn lemon_chiffon() -> (c: Rgb)
    ensures
        c == lemon_chiffon_spec(),
        c.wf(),
{
    Rgb::from_u8(255, 250, 205)
}

/// The exact value of the color `light blue`.
pub open spec fn light_blue_spec() -> Rgb {
    Rgb::from_u8_spec(173, 216, 230)
}

/// The color `light blue`.
pub fn light_blue() -> (c: Rgb)
    ensures
        c == light_blue_spec(),
        c.wf(),
{
    Rgb::from_u8(173, 216, 230)
}

/// The exact value of the color `light coral`.
pub open spec fn light_coral_spec() -> Rgb {
    Rgb::from_u8_spec(240, 128, 128)
}

/// The color `light coral`.
pub fn light_coral() -> (c: Rgb)
    ensures
        c == light_coral_spec(),
        c.wf(),
{
    Rgb::from_u8(240, 128, 128)
}

/// The exact value of the color `light cyan`.
pub open spec fn light_cyan_spec() -> Rgb {
    Rgb::from_u8_spec(224, 255, 255)
}

/// The color `light cyan`.
pub fn light_cyan() -> (c: Rgb)
    ensures
        c == light_cyan_spec(),
        c.wf(),
{
    Rgb::from_u8(224, 255, 255)
}

/// The exact value of the color `light golden rod yellow`.
pub open spec fn light_golden_rod_yellow_spec() -> Rgb {
    Rgb::from_u8_spec(250, 250, 210)
}

/// The color `light golden rod yellow`.
pub fn light_golden_rod_yellow() -> (c: Rgb)
    ensures
        c == light_golden_rod_yellow_spec(),
        c.wf(),
{
    Rgb::from_u8(250, 250, 210)
}

/// The exact value of the color `light gray`.
pub open spec fn light_gray_spec() -> Rgb {
    Rgb::from_u8_spec(211, 211, 211)
}

/// The color `light gray`.
pub fn light_gray() -> (c: Rgb)
    ensures
        c == light_gray_spec(),
        c.wf(),
{
    Rgb::from_u8(211, 211, 211)
}

/// The exact value of the color `light green`.
pub open spec fn light_green_spec() -> Rgb {
    Rgb::from_u8_spec(144, 238, 144)
}

/// The color `light green`.
pub fn light_green() -> (c: Rgb)
    ensures
        c == light_green_spec(),
        c.wf(),
{
    Rgb::from_u8(144, 238, 144)
}

/// The color `light grey`, an alias of `light gray`.
pub fn light_grey() -> (c: Rgb)
    ensures
        c == light_gray_spec(),
        c.wf(),
{
    light_gray()
}

/// The exact value of the color `light pink`.
pub open spec fn light_pink_spec() -> Rgb {
    Rgb::from_u8_spec(255, 182, 193)
}

/// The color `light pink`.
pub fn light_pink() -> (c: Rgb)
    ensures
        c == light_pink_spec(),
        c.wf(),
{
    Rgb::from_u8(255, 182, 193)
}

/// The exact value of the color `light salmon`.
pub open spec fn light_salmon_spec() -> Rgb {
    Rgb::from_u8_spec(255, 160, 122)
}

/// The color `light salmon`.
pub fn light_salmon() -> (c: Rgb)
    ensures
        c == light_salmon_spec(),
        c.wf(),
{
    Rgb::from_u8(255, 160, 122)
}

/// The exact value of the color `light sea green`.
pub open spec fn light_sea_green_spec() -> Rgb {
    Rgb::from_u8_spec(32, 178, 170)
}

/// The color `light sea green`.
pub fn light_sea_green() -> (c: Rgb)
    ensures
        c == light_sea_green_spec(),
        c.wf(),
{
    Rgb::from_u8(32, 178, 170)
}

/// The exact value of the color `light sky blue`.
pub open spec fn light_sky_blue_spec() -> Rgb {
    Rgb::from_u8_spec(135, 206, 250)
}

/// The color `light sky blue`.
pub fn light_sky_blue() -> (c: Rgb)
    ensures
        c == light_sky_blue_spec(),
        c.wf(),
{
    Rgb::from_u8(135, 206, 250)
}

/// The exact value of the color `light slate gray`.
pub open spec fn light_slate_gray_spec() -> Rgb {
    Rgb::from_u8_spec(119, 136, 153)
}

/// The color `light slate gray`.
pub fn light_slate_gray() -> (c: Rgb)
    ensures
        c == light_slate_gray_spec(),
        c.wf(),
{
    Rgb::from_u8(119, 136, 153)
}

/// The color `light slate grey`, an alias of `light slate gray`.
pub fn light_slate_grey() -> (c: Rgb)
    ensures
        c == light_slate_gray_spec(),
        c.wf(),
{
    light_slate_gray()
}

/// The exact value of the color `light steel blue`.
pub open spec fn light_steel_blue_spec() -> Rgb {
    Rgb::from_u8_spec(176, 196, 222)
}

/// The color `light steel blue`.
pub fn light_steel_blue() -> (c: Rgb)
    ensures
        c == light_steel_blue_spec(),
        c.wf(),
{
    Rgb::from_u8(176, 196, 222)
}

/// The exact value of the color `light yellow`.
pub open spec fn light_yellow_spec() -> Rgb {
    Rgb::from_u8_spec(255, 255, 224)
}

/// The color `light yellow`.
pub fn light_yellow() -> (c: Rgb)
    ensures
        c == light_yellow_spec(),
        c.wf(),
{
    Rgb::from_u8(255, 255, 224)
}

/// The exact value of the color `lime`.
pub open spec fn lime_spec() -> Rgb {
    Rgb::from_u8_spec(0, 255, 0)
}

/// The color `lime`.
pub fn lime() -> (c: Rgb)
    ensures
        c == lime_spec(),
        c.wf(),
{
    Rgb::from_u8(0, 255, 0)
}

/// The exact value of the color `lime green`.
pub open spec fn lime_green_spec() -> Rgb {
    Rgb::from_u8_spec(50, 205, 50)
}

/// The color `lime green`.
pub fn lime_green() -> (c: Rgb)
    ensures
        c == lime_green_spec(),
        c.wf(),
{
    Rgb::from_u8(50, 205, 50)
}

/// The exact value of the color `linen`.
pub open spec fn linen_spec() -> Rgb {
    Rgb::from_u8_spec(250, 240, 230)
}

/// The color `linen`.
pub fn linen() -> (c: Rgb)
    ensures
        c == linen_spec(),
        c.wf(),
{
    Rgb::from_u8(250, 240, 230)
}

/// The exact value of the color `magenta`.
pub open spec fn magenta_spec() -> Rgb {
    Rgb::from_u8_spec(255, 0, 255)
}

/// The color `magenta`.
pub fn magenta() -> (c: Rgb)
    ensures
        c == magenta_spec(),
        c.wf(),
{
    Rgb::from_u8(255, 0, 255)
}

/// The exact value of the color `maroon`.
pub open spec fn maroon_spec() -> Rgb {
    Rgb::from_u8_spec(128, 0, 0)
}

/// The color `maroon`.
pub fn maroon() -> (c: Rgb)
    ensures
        c == maroon_spec(),
        c.wf(),
{
    Rgb::from_u8(128, 0, 0)
}

/// The exact value of the color `medium aqua marine`.
pub open spec fn medium_aqua_marine_spec() -> Rgb {
    Rgb::from_u8_spec(102, 205, 170)
}

/// The color `medium aqua marine`.
pub fn medium_aqua_marine() -> (c: Rgb)
    ensures
        c == medium_aqua_marine_spec(),
        c.wf(),
{
    Rgb::from_u8(102, 205, 170)
}

/// The exact value of the color `medium blue`.
pub open spec fn medium_blue_spec() -> Rgb {
    Rgb::from_u8_spec(0, 0, 205)
}

/// The color `medium blue`.
pub fn medium_blue() -> (c: Rgb)
    ensures
        c == medium_blue_spec(),
        c.wf(),
{
    Rgb::from_u8(0, 0, 205)
}

/// The exact value of the color `medium orchid`.
pub open spec fn medium_orchid_spec() -> Rgb {
    Rgb::from_u8_spec(186, 85, 211)
}

/// The color `medium orchid`.
pub fn medium_orchid() -> (c: Rgb)
    ensures
        c == medium_orchid_spec(),
        c.wf(),
{
    Rgb::from_u8(186, 85, 211)
}

/// The exact value of the color `medium purple`.
pub open spec fn medium_purple_spec() -> Rgb {
    Rgb::from_u8_spec(147, 112, 219)
}

/// The color `medium purple`.
pub fn medium_purple() -> (c: Rgb)
    ensures
        c == medium_purple_spec(),
        c.wf(),
{
    Rgb::from_u8(147, 112, 219)
}

/// The exact value of the color `medium sea green`.
pub open spec fn medium_sea_green_spec() -> Rgb {
    Rgb::from_u8_spec(60, 179, 113)
}

/// The color `medium sea green`.
pub fn medium_sea_green() -> (c: Rgb)
    ensures
        c == medium_sea_green_spec(),
        c.wf(),
{
    Rgb::from_u8(60, 179, 113)
}

/// The exact value of the color `medium slate blue`.
pub open spec fn medium_slate_blue_spec() -> Rgb {
    Rgb::from_u8_spec(123, 104, 238)
}

/// The color `medium slate blue`.
pub fn medium_slate_blue() -> (c: Rgb)
    ensures
        c == medium_slate_blue_spec(),
        c.wf(),
{
    Rgb::from_u8(123, 104, 238)
}

/// The exact value of the color `medium spring green`.
pub open spec fn medium_spring_green_spec() -> Rgb {
    Rgb::from_u8_spec(0, 250, 154)
}

/// The color `medium spring green`.
pub fn medium_spring_green() -> (c: Rgb)
    ensures
        c == medium_spring_green_spec(),
        c.wf(),
{
    Rgb::from_u8(0, 250, 154)
}

/// The exact value of the color `medium turquoise`.
pub open spec fn medium_turquoise_spec() -> Rgb {
    Rgb::from_u8_spec(72, 209, 204)
}

/// The color `medium turquoise`.
pub fn medium_turquoise() -> (c: Rgb)
    ensures
        c == medium_turquoise_spec(),
        c.wf(),
{
    Rgb::from_u8(72, 209, 204)
}

/// The exact value of the color `medium violet red`.
pub open spec fn medium_violet_red_spec() -> Rgb {
    Rgb::from_u8_spec(199, 21, 133)
}

/// The color `medium violet red`.
pub fn medium_violet_red() -> (c: Rgb)
    ensures
        c == medium_violet_red_spec(),
        c.wf(),
{
    Rgb::from_u8(199, 21, 133)
}

/// The exact value of the color `midnight blue`.
pub open spec fn midnight_blue_spec() -> Rgb {
    Rgb::from_u8_spec(25, 25, 112)
}

/// The color `midnight blue`.
pub fn midnight_blue() -> (c: Rgb)
    ensures
        c == midnight_blue_spec(),
        c.wf(),
{
    Rgb::from_u8(25, 25, 112)
}

/// The exact value of the color `mint cream`.
pub open spec fn mint_cream_spec() -> Rgb {
    Rgb::from_u8_spec(245, 255, 250)
}

/// The color `mint cream`.
pub fn mint_cream() -> (c: Rgb)
    ensures
        c == mint_cream_spec(),
        c.wf(),
{
    Rgb::from_u8(245, 255, 250)
}

/// The exact value of the color `misty rose`.
pub open spec fn misty_rose_spec() -> Rgb {
    Rgb::from_u8_spec(255, 228, 225)
}

/// The color `misty rose`.
pub fn misty_rose() -> (c: Rgb)
    ensures
        c == misty_rose_spec(),
        c.wf(),
{
    Rgb::from_u8(255, 228, 225)
}

/// The exact value of the color `moccasin`.
pub open spec fn moccasin_spec() -> Rgb {
    Rgb::from_u8_spec(255, 228, 181)
}

/// The color `moccasin`.
pub fn moccasin() -> (c: Rgb)
    ensures
        c == moccasin_spec(),
        c.wf(),
{
    Rgb::from_u8(255, 228, 181)
}

/// The exact value of the color `navajo white`.
pub open spec fn navajo_white_spec() -> Rgb {
    Rgb::from_u8_spec(255, 222, 173)
}

/// The color `navajo white`.
pub fn navajo_white() -> (c: Rgb)
    ensures
        c == navajo_white_spec(),
        c.wf(),
{
    Rgb::from_u8(255, 222, 173)
}

/// The exact value of the color `navy`.
pub open spec fn navy_spec() -> Rgb {
    Rgb::from_u8_spec(0, 0, 128)
}

/// The color `navy`.
pub fn navy() -> (c: Rgb)
    ensures
        c == navy_spec(),
        c.wf(),
{
    Rgb::from_u8(0, 0, 128)
}

/// The exact value of the color `old lace`.
pub open spec fn old_lace_spec() -> Rgb {
    Rgb::from_u8_spec(253, 245, 230)
}

/// The color `old lace`.
pub fn old_lace() -> (c: Rgb)
    ensures
        c == old_lace_spec(),
        c.wf(),
{
    Rgb::from_u8(253, 245, 230)
}

/// The exact value of the color `olive`.
pub open spec fn olive_spec() -> Rgb {
    Rgb::from_u8_spec(128, 128, 0)
}

/// The color `olive`.
pub fn olive() -> (c: Rgb)
    ensures
        c == olive_spec(),
        c.wf(),
{
    Rgb::from_u8(128, 128, 0)
}

/// The exact value of the color `olive drab`.
pub open spec fn olive_drab_spec() -> Rgb {
    Rgb::from_u8_spec(107, 142, 35)
}

/// The color `olive drab`.
pub fn olive_drab() -> (c: Rgb)
    ensures
        c == olive_drab_spec(),
        c.wf(),
{
    Rgb::from_u8(107, 142, 35)
}

/// The exact value of the color `orange`.
pub open spec fn orange_spec() -> Rgb {
    Rgb::from_u8_spec(255, 165, 0)
}

/// The color `orange`.
pub fn orange() -> (c: Rgb)
    ensures
        c == orange_spec(),
        c.wf(),
{
    Rgb::from_u8(255, 165, 0)
}

/// The exact value of the color `orange red`.
pub open spec fn orange_red_spec() -> Rgb {
    Rgb::from_u8_spec(255, 69, 0)
}

/// The color `orange red`.
pub fn orange_red() -> (c: Rgb)
    ensures
        c == orange_red_spec(),
        c.wf(),
{
    Rgb::from_u8(255, 69, 0)
}

/// The exact value of the color `orchid`.
pub open spec fn orchid_spec() -> Rgb {
    Rgb::from_u8_spec(218, 112, 214)
}

/// The color `orchid`.
pub fn orchid() -> (c: Rgb)
    ensures
        c == orchid_spec(),
        c.wf(),
{
    Rgb::from_u8(218, 112, 214)
}

/// The exact value of the color `pale golden rod`.
pub open spec fn pale_golden_rod_spec() -> Rgb {
    Rgb::from_u8_spec(238, 232, 170)
}

/// The color `pale golden rod`.
pub fn pale_golden_rod() -> (c: Rgb)
    ensures
        c == pale_golden_rod_spec(),
        c.wf(),
{
    Rgb::from_u8(238, 232, 170)
}

/// The exact value of the color `pale green`.
pub open spec fn pale_green_spec() -> Rgb {
    Rgb::from_u8_spec(152, 251, 152)
}

/// The color `pale green`.
pub fn pale_green() -> (c: Rgb)
    ensures
        c == pale_green_spec(),
        c.wf(),
{
    Rgb::from_u8(152, 251, 152)
}

/// The exact value of the color `pale turquoise`.
pub open spec fn pale_turquoise_spec() -> Rgb {
    Rgb::from_u8_spec(175, 238, 238)
}

/// The color `pale turquoise`.
pub fn pale_turquoise() -> (c: Rgb)
    ensures
        c == pale_turquoise_spec(),
        c.wf(),
{
    Rgb::from_u8(175, 238, 238)
}

/// The exact value of the color `pale violet red`.
pub open spec fn pale_violet_red_spec() -> Rgb {
    Rgb::from_u8_spec(219, 112, 147)
}

/// The color `pale violet red`.
pub fn pale_violet_red() -> (c: Rgb)
    ensures
        c == pale_violet_red_spec(),
        c.wf(),
{
    Rgb::from_u8(219, 112, 147)
}

/// The exact value of the color `papaya whip`.
pub open spec fn papaya_whip_spec() -> Rgb {
    Rgb::from_u8_spec(255, 239, 213)
}

/// The color `papaya whip`.
pub fn papaya_whip() -> (c: Rgb)
    ensures
        c == papaya_whip_spec(),
        c.wf(),
{
    Rgb::from_u8(255, 239, 213)
}

/// The exact value of the color `peach puff`.
pub open spec fn peach_puff_spec() -> Rgb {
    Rgb::from_u8_spec(255, 218, 185)
}

/// The color `peach puff`.
pub fn peach_puff() -> (c: Rgb)
    ensures
        c == peach_puff_spec(),
        c.wf(),
{
    Rgb::from_u8(255, 218, 185)
}

/// The exact value of the color `peru`.
pub open spec fn peru_spec() -> Rgb {
    Rgb::from_u8_spec(205, 133, 63)
}

/// The color `peru`.
pub fn peru() -> (c: Rgb)
    ensures
        c == peru_spec(),
        c.wf(),
{
    Rgb::from_u8(205, 133, 63)
}

/// The exact value of the color `pink`.
pub open spec fn pink_spec() -> Rgb {
    Rgb::from_u8_spec(255, 192, 203)
}

/// The color `pink`.
pub fn pink() -> (c: Rgb)
    ensures
        c == pink_spec(),
        c.wf(),
{
    Rgb::from_u8(255, 192, 203)
}

/// The exact value of the color `plum`.
pub open spec fn plum_spec() -> Rgb {
    Rgb::from_u8_spec(221, 160, 221)
}

/// The color `plum`.
pub fn plum() -> (c: Rgb)
    ensures
        c == plum_spec(),
        c.wf(),
{
    Rgb::from_u8(221, 160, 221)
}

/// The exact value of the color `powder blue`.
pub open spec fn powder_blue_spec() -> Rgb {
    Rgb::from_u8_spec(176, 224, 230)
}

/// The color `powder blue`.
pub fn powder_blue() -> (c: Rgb)
    ensures
        c == powder_blue_spec(),
        c.wf(),
{
    Rgb::from_u8(176, 224, 230)
}

/// The exact value of the color `purple`.
pub open spec fn purple_spec() -> Rgb {
    Rgb::from_u8_spec(128, 0, 128)
}

/// The color `purple`.
pub fn purple() -> (c: Rgb)
    ensures
        c == purple_spec(),
        c.wf(),
{
    Rgb::from_u8(128, 0, 128)
}

/// The exact value of the color `red`.
pub open spec fn red_spec() -> Rgb {
    Rgb::from_u8_spec(255, 0, 0)
}

/// The color `red`.
pub fn red() -> (c: Rgb)
    ensures
        c == red_spec(),
        c.wf(),
{
    Rgb::from_u8(255, 0, 0)
}

/// The exact value of the color `rosy brown`.
pub open spec fn rosy_brown_spec() -> Rgb {
    Rgb::from_u8_spec(188, 143, 143)
}

/// The color `rosy brown`.
pub fn rosy_brown() -> (c: Rgb)
    ensures
        c == rosy_brown_spec(),
        c.wf(),
{
    Rgb::from_u8(188, 143, 143)
}

/// The exact value of the color `royal blue`.
pub open spec fn royal_blue_spec() -> Rgb {
    Rgb::from_u8_spec(65, 105, 225)
}

/// The color `royal blue`.
pub fn royal_blue() -> (c: Rgb)
    ensures
        c == royal_blue_spec(),
        c.wf(),
{
    Rgb::from_u8(65, 105, 225)
}

/// The exact value of the color `saddle brown`.
pub open spec fn saddle_brown_spec() -> Rgb {
    Rgb::from_u8_spec(139, 69, 19)
}

/// The color `saddle brown`.
pub fn saddle_brown() -> (c: Rgb)
    ensures
        c == saddle_brown_spec(),
        c.wf(),
{
    Rgb::from_u8(139, 69, 19)
}

/// The exact value of the color `salmon`.
pub open spec fn salmon_spec() -> Rgb {
    Rgb::from_u8_spec(250, 128, 114)
}

/// The color `salmon`.
pub fn salmon() -> (c: Rgb)
    ensures
        c == salmon_spec(),
        c.wf(),
{
    Rgb::from_u8(250, 128, 114)
}

/// The exact value of the color `sandy brown`.
pub open spec fn sandy_brown_spec() -> Rgb {
    Rgb::from_u8_spec(244, 164, 96)
}

/// The color `sandy brown`.
pub fn sandy_brown() -> (c: Rgb)
    ensures
        c == sandy_brown_spec(),
        c.wf(),
{
    Rgb::from_u8(244, 164, 96)
}

/// The exact value of the color `sea green`.
pub open spec fn sea_green_spec() -> Rgb {
    Rgb::from_u8_spec(46, 139, 87)
}

/// The color `sea green`.
pub fn sea_green() -> (c: Rgb)
    ensures
        c == sea_green_spec(),
        c.wf(),
{
    Rgb::from_u8(46, 139, 87)
}

/// The exact value of the color `sea shell`.
pub open spec fn sea_shell_spec() -> Rgb {
    Rgb::from_u8_spec(255, 245, 238)
}

/// The color `sea shell`.
pub fn sea_shell() -> (c: Rgb)
    ensures
        c == sea_shell_spec(),
        c.wf(),
{
    Rgb::from_u8(255, 245, 238)
}

/// The exact value of the color `sienna`.
pub open spec fn sienna_spec() -> Rgb {
    Rgb::from_u8_spec(160, 82, 45)
}

/// The color `sienna`.
pub fn sienna() -> (c: Rgb)
    ensures
        c == sienna_spec(),
        c.wf(),
{
    Rgb::from_u8(160, 82, 45)
}

/// The exact value of the color `silver`.
pub open spec fn silver_spec() -> Rgb {
    Rgb::from_u8_spec(192, 192, 192)
}

/// The color `silver`.
pub fn silver() -> (c: Rgb)
    ensures
        c == silver_spec(),
        c.wf(),
{
    Rgb::from_u8(192, 192, 192)
}

/// The exact value of the color `sky blue`.
pub open spec fn sky_blue_spec() -> Rgb {
    Rgb::from_u8_spec(135, 206, 235)
}

/// The color `sky blue`.
pub fn sky_blue() -> (c: Rgb)
    ensures
        c == sky_blue_spec(),
        c.wf(),
{
    Rgb::from_u8(135, 206, 235)
}

/// The exact value of the color `slate blue`.
pub open spec fn slate_blue_spec() -> Rgb {
    Rgb::from_u8_spec(106, 90, 205)
}

/// The color `slate blue`.
pub fn slate_blue() -> (c: Rgb)
    ensures
        c == slate_blue_spec(),
        c.wf(),
{
    Rgb::from_u8(106, 90, 205)
}

/// The exact value of the color `slate gray`.
pub open spec fn slate_gray_spec() -> Rgb {
    Rgb::from_u8_spec(112, 128, 144)
}

/// The color `slate gray`.
pub fn slate_gray() -> (c: Rgb)
    ensures
        c == slate_gray_spec(),
        c.wf(),
{
    Rgb::from_u8(112, 128, 144)
}

/// The color `slate grey`, an alias of `slate gray`.
pub fn slate_grey() -> (c: Rgb)
    ensures
        c == slate_gray_spec(),
        c.wf(),
{
    slate_gray()
}

/// The exact value of the color `snow`.
pub open spec fn snow_spec() -> Rgb {
    Rgb::from_u8_spec(255, 250, 250)
}

/// The color `snow`.
pub fn snow() -> (c: Rgb)
    ensures
        c == snow_spec(),
        c.wf(),
{
    Rgb::from_u8(255, 250, 250)
}

/// The exact value of the color `spring green`.
pub open spec fn spring_green_spec() -> Rgb {
    Rgb::from_u8_spec(0, 255, 127)
}

/// The color `spring green`.
pub fn spring_green() -> (c: Rgb)
    ensures
        c == spring_green_spec(),
        c.wf(),
{
    Rgb::from_u8(0, 255, 127)
}

/// The exact value of the color `steel blue`.
pub open spec fn steel_blue_spec() -> Rgb {
    Rgb::from_u8_spec(70, 130, 180)
}

/// The color `steel blue`.
pub fn steel_blue() -> (c: Rgb)
    ensures
        c == steel_blue_spec(),
        c.wf(),
{
    Rgb::from_u8(70, 130, 180)
}

/// The exact value of the color `tan`.
pub open spec fn tan_spec() -> Rgb {
    Rgb::from_u8_spec(210, 180, 140)
}

/// The color `tan`.
pub fn tan() -> (c: Rgb)
    ensures
        c == tan_spec(),
        c.wf(),
{
    Rgb::from_u8(210, 180, 140)
}

/// The exact value of the color `teal`.
pub open spec fn teal_spec() -> Rgb {
    Rgb::from_u8_spec(0, 128, 128)
}

/// The color `teal`.
pub fn teal() -> (c: Rgb)
    ensures
        c == teal_spec(),
        c.wf(),
{
    Rgb::from_u8(0, 128, 128)
}

/// The exact value of the color `thistle`.
pub open spec fn thistle_spec() -> Rgb {
    Rgb::from_u8_spec(216, 191, 216)
}

/// The color `thistle`.
pub fn thistle() -> (c: Rgb)
    ensures
        c == thistle_spec(),
        c.wf(),
{
    Rgb::from_u8(216, 191, 216)
}

/// The exact value of the color `tomato`.
pub open spec fn tomato_spec() -> Rgb {
    Rgb::from_u8_spec(255, 99, 71)
}

/// The color `tomato`.
pub fn tomato() -> (c: Rgb)
    ensures
        c == tomato_spec(),
        c.wf(),
{
    Rgb::from_u8(255, 99, 71)
}

/// The exact value of the color `turquoise`.
pub open spec fn turquoise_spec() -> Rgb {
    Rgb::from_u8_spec(64, 224, 208)
}

/// The color `turquoise`.
pub fn turquoise() -> (c: Rgb)
    ensures
        c == turquoise_spec(),
        c.wf(),
{
    Rgb::from_u8(64, 224, 208)
}

/// The exact value of the color `violet`.
pub open spec fn violet_spec() -> Rgb {
    Rgb::from_u8_spec(238, 130, 238)
}

/// The color `violet`.
pub fn violet() -> (c: Rgb)
    ensures
        c == violet_spec(),
        c.wf(),
{
    Rgb::from_u8(238, 130, 238)
}

/// The exact value of the color `wheat`.
pub open spec fn wheat_spec() -> Rgb {
    Rgb::from_u8_spec(245, 222, 179)
}

/// The color `wheat`.
pub fn wheat() -> (c: Rgb)
    ensures
        c == wheat_spec(),
        c.wf(),
{
    Rgb::from_u8(245, 222, 179)
}

/// The exact value of the color `white`.
pub open spec fn white_spec() -> Rgb {
    Rgb::from_u8_spec(255, 255, 255)
}

/// The color `white`.
pub fn white() -> (c: Rgb)
    ensures
        c == white_spec(),
        c.wf(),
{
    Rgb::from_u8(255, 255, 255)
}

/// The exact value of the color `white smoke`.
pub open spec fn white_smoke_spec() -> Rgb {
    Rgb::from_u8_spec(245, 245, 245)
}

/// The color `white smoke`.
pub fn white_smoke() -> (c: Rgb)
    ensures
        c == white_smoke_spec(),
        c.wf(),
{
    Rgb::from_u8(245, 245, 245)
}

/// The exact value of the color `yellow`.
pub open spec fn yellow_spec() -> Rgb {
    Rgb::from_u8_spec(255, 255, 0)
}

/// The color `yellow`.
pub fn yellow() -> (c: Rgb)
    ensures
        c == yellow_spec(),
        c.wf(),
{
    Rgb::from_u8(255, 255, 0)
}

/// The exact value of the color `yellow green`.
pub open spec fn yellow_green_spec() -> Rgb {
    Rgb::from_u8_spec(154, 205, 50)
}

/// The color `yellow green`.
pub fn yellow_green() -> (c: Rgb)
    ensures
        c == yellow_green_spec(),
        c.wf(),
{
    Rgb::from_u8(154, 205, 50)
}

} // verus!
