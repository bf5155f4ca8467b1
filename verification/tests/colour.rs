use qolpy::ColourError;
use qolpy::ColourType;
use qolpy::RawColour;
use qolpy::compute_color;
use qolpy::convert_colour;
use qolpy::random_colour;
use qolpy::rgb_to_hex;
use qolpy::to_cmyk;
use qolpy::to_hsl;
use qolpy::to_hsv;
use qolpy::to_rgb;

#[test]
fn parse_lowercase() {
    let col = to_rgb("a1b2c3").unwrap();
    assert_eq!(col, RawColour { r: 0xa1, g: 0xb2, b: 0xc3 });
}

#[test]
fn parse_uppercase() {
    let col = to_rgb("A1B2C3").unwrap();
    assert_eq!(col, RawColour { r: 0xa1, g: 0xb2, b: 0xc3 });
}

#[test]
fn hex_round_trip_lowercase() {
    let col = to_rgb("04f9ce").unwrap();
    assert_eq!(rgb_to_hex(&col), "04f9ce");
}

#[test]
fn hex_round_trip_case_normalized() {
    let col = to_rgb("A1b2C3").unwrap();
    assert_eq!(rgb_to_hex(&col), "a1b2c3");
}

#[test]
fn malformed_bad_digits() {
    assert_eq!(to_rgb("zz0000"), Err(ColourError::MalformedInput));
}

#[test]
fn malformed_five_characters() {
    assert_eq!(to_rgb("abcde"), Err(ColourError::MalformedInput));
}

#[test]
fn malformed_seven_characters() {
    assert_eq!(to_rgb("#zz0000"), Err(ColourError::MalformedInput));
    assert_eq!(to_rgb("#ff0000"), Err(ColourError::MalformedInput));
}

#[test]
fn malformed_empty() {
    assert_eq!(to_rgb(""), Err(ColourError::MalformedInput));
}

#[test]
fn malformed_non_ascii() {
    assert_eq!(to_rgb("ff00é1"), Err(ColourError::MalformedInput));
}

#[test]
fn extrema_are_distinct_reductions() {
    let col = to_rgb("102030").unwrap();
    let e = compute_color(&col);
    assert_eq!(e.min, 0x10);
    assert_eq!(e.max, 0x30);
}

#[test]
fn extrema_of_grey_coincide() {
    let e = compute_color(&RawColour { r: 77, g: 77, b: 77 });
    assert_eq!(e.min, 77);
    assert_eq!(e.max, 77);
}

#[test]
fn cmyk_inverse_is_exact() {
    // The exact fractions c = (max - r)/max and k = (255 - max)/255 invert:
    // 255 * (1 - c) * (1 - k) == channel, here with denominators cleared.
    let col = RawColour { r: 120, g: 200, b: 40 };
    let e = compute_color(&col);
    let mx = e.max as u32;
    let c_num = mx - col.r as u32;
    let m_num = mx - col.g as u32;
    let y_num = mx - col.b as u32;
    let k_num = 255 - mx;
    assert_eq!((mx - c_num) * (255 - k_num), col.r as u32 * mx);
    assert_eq!((mx - m_num) * (255 - k_num), col.g as u32 * mx);
    assert_eq!((mx - y_num) * (255 - k_num), col.b as u32 * mx);
}

#[test]
fn grey_is_achromatic() {
    for v in [1u8, 77, 128, 254] {
        let col = RawColour { r: v, g: v, b: v };
        let hsv = to_hsv(&col);
        assert_eq!(hsv.h, 0);
        assert_eq!(hsv.s, 0);
        let hsl = to_hsl(&col);
        assert_eq!(hsl.h, 0);
        assert_eq!(hsl.s, 0);
    }
}

#[test]
fn grey_value_and_lightness() {
    let col = RawColour { r: 77, g: 77, b: 77 };
    // 77 / 255 scaled to a percentage is 30.19..., rounded to 30.
    assert_eq!(to_hsv(&col).v, 30);
    assert_eq!(to_hsl(&col).l, 30);
}

#[test]
fn pure_black() {
    let col = to_rgb("000000").unwrap();
    let cmyk = to_cmyk(&col);
    assert_eq!((cmyk.c, cmyk.m, cmyk.y, cmyk.k), (0, 0, 0, 100));
    let hsv = to_hsv(&col);
    assert_eq!((hsv.h, hsv.s, hsv.v), (0, 0, 0));
    let hsl = to_hsl(&col);
    assert_eq!((hsl.h, hsl.s, hsl.l), (0, 0, 0));
}

#[test]
fn pure_white() {
    let col = to_rgb("ffffff").unwrap();
    let cmyk = to_cmyk(&col);
    assert_eq!((cmyk.c, cmyk.m, cmyk.y, cmyk.k), (0, 0, 0, 0));
    let hsv = to_hsv(&col);
    assert_eq!((hsv.h, hsv.s, hsv.v), (0, 0, 100));
    let hsl = to_hsl(&col);
    assert_eq!((hsl.h, hsl.s, hsl.l), (0, 0, 100));
}

#[test]
fn pure_red() {
    let col = to_rgb("ff0000").unwrap();
    let hsv = to_hsv(&col);
    assert_eq!((hsv.h, hsv.s, hsv.v), (0, 100, 100));
    let hsl = to_hsl(&col);
    assert_eq!((hsl.h, hsl.s, hsl.l), (0, 100, 50));
}

#[test]
fn red_cmyk() {
    let col = to_rgb("ff0000").unwrap();
    let cmyk = to_cmyk(&col);
    assert_eq!((cmyk.c, cmyk.m, cmyk.y, cmyk.k), (0, 100, 100, 0));
}

#[test]
fn one_channel_zero_has_no_division_by_zero() {
    // The key gate is max == 0, not "some channel is zero": a colour with
    // one zero channel still gets real CMYK components.
    let col = to_rgb("00ff00").unwrap();
    let cmyk = to_cmyk(&col);
    assert_eq!((cmyk.c, cmyk.m, cmyk.y, cmyk.k), (100, 0, 100, 0));
}

#[test]
fn steel_blue_hsv_and_hsl() {
    // r 51, g 102, b 153: blue is the maximum, chroma 102.
    let col = to_rgb("336699").unwrap();
    let hsv = to_hsv(&col);
    assert_eq!((hsv.h, hsv.s, hsv.v), (210, 67, 60));
    let hsl = to_hsl(&col);
    assert_eq!((hsl.h, hsl.s, hsl.l), (210, 50, 40));
}

#[test]
fn magenta_hue_wraps_positive() {
    // Red and blue tie for the maximum; red wins the tie-break and the
    // negative raw hue is shifted by 360 degrees.
    let col = to_rgb("ff00ff").unwrap();
    let hsv = to_hsv(&col);
    assert_eq!((hsv.h, hsv.s, hsv.v), (300, 100, 100));
}

#[test]
fn half_percent_rounds_up() {
    // max 200, cyan numerator 1: 0.5% rounds up to 1%.
    let col = RawColour { r: 199, g: 200, b: 0 };
    let cmyk = to_cmyk(&col);
    assert_eq!(cmyk.c, 1);
    assert_eq!(cmyk.m, 0);
    assert_eq!(cmyk.y, 100);
    // key is 55/255, i.e. 21.57%, rounded to 22.
    assert_eq!(cmyk.k, 22);
}

#[test]
fn lightness_above_half_uses_other_divisor() {
    // r 230, g 128, b 128: max + min = 358 > 255, so the saturation divisor
    // is 510 - 358 = 152; s = 102/152 = 67.1%, l = 358/510 = 70.2%.
    let col = RawColour { r: 230, g: 128, b: 128 };
    let hsl = to_hsl(&col);
    assert_eq!((hsl.h, hsl.s, hsl.l), (0, 67, 70));
}

#[test]
fn convert_hex_echoes_input() {
    assert_eq!(convert_colour("F7f7F7", &ColourType::HEX).unwrap(), "#F7f7F7");
}

#[test]
fn convert_rgb_notation() {
    assert_eq!(convert_colour("ff0040", &ColourType::RGB).unwrap(), "rgb(255, 0, 64)");
}

#[test]
fn convert_cmyk_notation() {
    assert_eq!(
        convert_colour("ff0000", &ColourType::CMYK).unwrap(),
        "cmyk(0%, 100%, 100%, 0%)"
    );
}

#[test]
fn convert_hsv_notation() {
    assert_eq!(convert_colour("ff0000", &ColourType::HSV).unwrap(), "hsv(0, 100%, 100%)");
}

#[test]
fn convert_hsl_notation() {
    assert_eq!(convert_colour("336699", &ColourType::HSL).unwrap(), "hsl(210, 50%, 40%)");
}

#[test]
fn convert_malformed() {
    assert_eq!(convert_colour("zz0000", &ColourType::HSV), Err(ColourError::MalformedInput));
    assert_eq!(convert_colour("abcde", &ColourType::HEX), Err(ColourError::MalformedInput));
}

#[test]
fn random_hex_shape() {
    for _ in 0..50 {
        let s = random_colour(ColourType::HEX);
        assert_eq!(s.len(), 7);
        let mut chars = s.chars();
        assert_eq!(chars.next(), Some('#'));
        for c in chars {
            assert!(c.is_ascii_hexdigit() && !c.is_ascii_uppercase());
        }
    }
}

#[test]
fn random_rgb_shape() {
    for _ in 0..50 {
        let s = random_colour(ColourType::RGB);
        assert!(s.starts_with("rgb(") && s.ends_with(')'));
        let inner = &s[4..s.len() - 1];
        let parts: Vec<&str> = inner.split(", ").collect();
        assert_eq!(parts.len(), 3);
        for p in parts {
            let v: u32 = p.parse().unwrap();
            assert!(v <= 255);
        }
    }
}

#[test]
fn random_percent_models_shape() {
    for _ in 0..20 {
        let s = random_colour(ColourType::CMYK);
        assert!(s.starts_with("cmyk(") && s.ends_with(')'));
        assert_eq!(s.matches('%').count(), 4);
        let s = random_colour(ColourType::HSV);
        assert!(s.starts_with("hsv(") && s.ends_with(')'));
        assert_eq!(s.matches('%').count(), 2);
        let s = random_colour(ColourType::HSL);
        assert!(s.starts_with("hsl(") && s.ends_with(')'));
        assert_eq!(s.matches('%').count(), 2);
    }
}

#[test]
fn random_round_trips_through_parser() {
    for _ in 0..50 {
        let s = random_colour(ColourType::HEX);
        let col = to_rgb(&s[1..]).unwrap();
        assert_eq!(format!("#{}", rgb_to_hex(&col)), s);
    }
}
