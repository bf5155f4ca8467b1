//! The colour-model converters: channel extrema, and the CMYK, HSV and HSL
//! derivations from the three RGB channels.
//!
//! The standard formulas work over channels normalized to `[0, 1]`. Here they
//! are carried out in exact fixed point: every intermediate value is a
//! fraction whose numerator and denominator are kept as integers, and only
//! the final percentage (or degree) is rounded to the nearest integer, so no
//! precision is lost before the rounding step.

use vstd::prelude::*;
use crate::hex::RawColour;

verus! {

/// The least and the greatest of the three channel values.
#[derive(Clone, Copy, Debug, PartialEq, Eq)]
pub struct Extrema {
    pub min: u8,
    pub max: u8,
}

/// Cyan, magenta, yellow and key, each a percentage in `[0, 100]`.
#[derive(Clone, Copy, Debug, PartialEq, Eq)]
pub struct Cmyk {
    pub c: u8,
    pub m: u8,
    pub y: u8,
    pub k: u8,
}

/// Hue in degrees in `[0, 360)`, saturation and value as percentages.
#[derive(Clone, Copy, Debug, PartialEq, Eq)]
pub struct Hsv {
    pub h: u16,
    pub s: u8,
    pub v: u8,
}

/// Hue in degrees in `[0, 360)`, saturation and lightness as percentages.
#[derive(Clone, Copy, Debug, PartialEq, Eq)]
pub struct Hsl {
    pub h: u16,
    pub s: u8,
    pub l: u8,
}

/// Well-formed CMYK: every component is a percentage.
pub open spec fn cmyk_wf(v: Cmyk) -> bool {
    v.c <= 100 && v.m <= 100 && v.y <= 100 && v.k <= 100
}

/// Well-formed HSV: hue below 360 degrees, the rest percentages.
pub open spec fn hsv_wf(v: Hsv) -> bool {
    v.h < 360 && v.s <= 100 && v.v <= 100
}

/// Well-formed HSL: hue below 360 degrees, the rest percentages.
pub open spec fn hsl_wf(v: Hsl) -> bool {
    v.h < 360 && v.s <= 100 && v.l <= 100
}

/// The least of three values.
pub open spec fn min3(a: int, b: int, c: int) -> int {
    if a <= b && a <= c {
        a
    } else if b <= c {
        b
    } else {
        c
    }
}

/// The greatest of three values.
pub open spec fn max3(a: int, b: int, c: int) -> int {
    if a >= b && a >= c {
        a
    } else if b >= c {
        b
    } else {
        c
    }
}

/// `n / d` rounded to the nearest integer (halves round up).
pub open spec fn round_div(n: int, d: int) -> int
    recommends
        0 <= n,
        1 <= d,
{
    (2 * n + d) / (2 * d)
}

/// The fraction `num / den` as a percentage rounded to the nearest integer.
pub open spec fn pct(num: int, den: int) -> int
    recommends
        0 <= num <= den,
        1 <= den,
{
    round_div(100 * num, den)
}

/// Rounding `n / d` stays within `[0, bound]` when `n` is within `[0, bound * d]`.
pub proof fn lemma_round_div_bound(n: int, d: int, bound: int)
    requires
        1 <= d,
        0 <= n <= bound * d,
    ensures
        0 <= round_div(n, d) <= bound,
{
    let x = 2 * n + d;
    let dd = 2 * d;
    vstd::arithmetic::div_mod::lemma_fundamental_div_mod(x, dd);
    let q = x / dd;
    assert(0 <= x % dd < dd);
    assert(dd * q == x - x % dd);
    assert(x < (bound + 1) * dd) by (nonlinear_arith)
        requires
            x == 2 * n + d,
            dd == 2 * d,
            n <= bound * d,
            1 <= d,
    ;
    assert(q <= bound) by (nonlinear_arith)
        requires
            dd * q == x - x % dd,
            0 <= x % dd < dd,
            x < (bound + 1) * dd,
            dd >= 2,
    ;
    assert(q >= 0) by (nonlinear_arith)
        requires
            dd * q == x - x % dd,
            x % dd < dd,
            x >= 0,
            dd >= 2,
    ;
}

/// The rounded percentage of `num / den`, for `num <= den`.
fn pct_of(num: u32, den: u32) -> (p: u8)
    requires
        1 <= den <= 510,
        num <= den,
    ensures
        p as int == pct(num as int, den as int),
        p <= 100,
{
    proof {
        assert(100 * (num as int) <= 100 * (den as int)) by (nonlinear_arith)
            requires
                num as int <= den as int,
        ;
        lemma_round_div_bound(100 * (num as int), den as int, 100);
    }
    let q = (200 * num + den) / (2 * den);
    q as u8
}

/// Computes the extrema of the three channels, the shared input of the HSV
/// and HSL converters. The minimum and the maximum are two genuinely
/// distinct reductions; they coincide exactly on grey colours.
pub fn compute_color(col: &RawColour) -> (e: Extrema)
    ensures
        e.min as int == min3(col.r as int, col.g as int, col.b as int),
        e.max as int == max3(col.r as int, col.g as int, col.b as int),
        e.min <= e.max,
        e.min == e.max <==> col.r == col.g && col.g == col.b,
{
    let mut mn = col.r;
    if col.g < mn {
        mn = col.g;
    }
    if col.b < mn {
        mn = col.b;
    }
    let mut mx = col.r;
    if col.g > mx {
        mx = col.g;
    }
    if col.b > mx {
        mx = col.b;
    }
    Extrema { min: mn, max: mx }
}

/// Numerator of the exact cyan fraction `(max - r) / max`.
pub open spec fn cmyk_c_num(r: int, g: int, b: int) -> int {
    max3(r, g, b) - r
}

/// Numerator of the exact magenta fraction `(max - g) / max`.
pub open spec fn cmyk_m_num(r: int, g: int, b: int) -> int {
    max3(r, g, b) - g
}

/// Numerator of the exact yellow fraction `(max - b) / max`.
pub open spec fn cmyk_y_num(r: int, g: int, b: int) -> int {
    max3(r, g, b) - b
}

/// Numerator of the exact key fraction `(255 - max) / 255`.
pub open spec fn cmyk_k_num(r: int, g: int, b: int) -> int {
    255 - max3(r, g, b)
}

/// Cyan percentage: `(1 - r - k) / (1 - k)` scaled to `[0, 100]`, and `0`
/// for pure black, where the formula would divide by zero.
pub open spec fn cmyk_c_pct(r: int, g: int, b: int) -> int {
    if max3(r, g, b) == 0 {
        0
    } else {
        pct(cmyk_c_num(r, g, b), max3(r, g, b))
    }
}

/// Magenta percentage; see `cmyk_c_pct`.
pub open spec fn cmyk_m_pct(r: int, g: int, b: int) -> int {
    if max3(r, g, b) == 0 {
        0
    } else {
        pct(cmyk_m_num(r, g, b), max3(r, g, b))
    }
}

/// Yellow percentage; see `cmyk_c_pct`.
pub open spec fn cmyk_y_pct(r: int, g: int, b: int) -> int {
    if max3(r, g, b) == 0 {
        0
    } else {
        pct(cmyk_y_num(r, g, b), max3(r, g, b))
    }
}

/// Key percentage: `1 - max` scaled to `[0, 100]`.
pub open spec fn cmyk_k_pct(r: int, g: int, b: int) -> int {
    pct(cmyk_k_num(r, g, b), 255)
}

/// Derives the CMYK percentages from the colour. Pure black is the one
/// special case: its key is 100% and the other components are 0%.
pub fn to_cmyk(col: &RawColour) -> (res: Cmyk)
    ensures
        res.c as int == cmyk_c_pct(col.r as int, col.g as int, col.b as int),
        res.m as int == cmyk_m_pct(col.r as int, col.g as int, col.b as int),
        res.y as int == cmyk_y_pct(col.r as int, col.g as int, col.b as int),
        res.k as int == cmyk_k_pct(col.r as int, col.g as int, col.b as int),
        cmyk_wf(res),
{
    let e = compute_color(col);
    let mx = e.max as u32;
    let k = pct_of(255 - mx, 255);
    if mx == 0 {
        proof {
            vstd::arithmetic::div_mod::lemma_fundamental_div_mod_converse(51255, 510, 100, 255);
            assert(pct(255, 255) == 100);
        }
        Cmyk { c: 0, m: 0, y: 0, k }
    } else {
        let c = pct_of(mx - col.r as u32, mx);
        let m = pct_of(mx - col.g as u32, mx);
        let y = pct_of(mx - col.b as u32, mx);
        Cmyk { c, m, y, k }
    }
}

/// Numerator of the hue fraction over the chroma `max - min`, already
/// shifted into `[0, 360 * (max - min)]`. The channel that equals the
/// maximum decides the branch, ties broken in red, green, blue order.
pub open spec fn hue_num(r: int, g: int, b: int) -> int
    recommends
        min3(r, g, b) < max3(r, g, b),
{
    let d = max3(r, g, b) - min3(r, g, b);
    if r == max3(r, g, b) {
        if g >= b {
            60 * (g - b)
        } else {
            360 * d - 60 * (b - g)
        }
    } else if g == max3(r, g, b) {
        120 * d + 60 * b - 60 * r
    } else {
        240 * d + 60 * r - 60 * g
    }
}

/// Hue in integer degrees in `[0, 360)`: the standard piecewise formula,
/// rounded to the nearest degree and wrapped at 360. A grey colour has no
/// chroma and reports hue 0.
pub open spec fn hue_deg(r: int, g: int, b: int) -> int {
    if max3(r, g, b) == min3(r, g, b) {
        0
    } else {
        let h = round_div(hue_num(r, g, b), max3(r, g, b) - min3(r, g, b));
        if h == 360 {
            0
        } else {
            h
        }
    }
}

/// HSV saturation percentage: chroma over the maximum, `0` for grey.
pub open spec fn hsv_s_pct(r: int, g: int, b: int) -> int {
    if max3(r, g, b) == min3(r, g, b) {
        0
    } else {
        pct(max3(r, g, b) - min3(r, g, b), max3(r, g, b))
    }
}

/// HSV value percentage: the maximum channel.
pub open spec fn hsv_v_pct(r: int, g: int, b: int) -> int {
    pct(max3(r, g, b), 255)
}

/// HSL lightness percentage: the mean of the extrema.
pub open spec fn hsl_l_pct(r: int, g: int, b: int) -> int {
    pct(max3(r, g, b) + min3(r, g, b), 510)
}

/// HSL saturation percentage: chroma over `1 - |2l - 1|`, `0` for grey.
/// With lightness above one half the divisor is `2 - max - min`, otherwise
/// `max + min`, both in channel units.
pub open spec fn hsl_s_pct(r: int, g: int, b: int) -> int {
    let mx = max3(r, g, b);
    let mn = min3(r, g, b);
    if mx == mn {
        0
    } else if mx + mn > 255 {
        pct(mx - mn, 510 - (mx + mn))
    } else {
        pct(mx - mn, mx + mn)
    }
}

/// The hue in degrees, shared by the HSV and HSL converters.
fn hue_of(col: &RawColour, e: &Extrema) -> (h: u16)
    requires
        e.min as int == min3(col.r as int, col.g as int, col.b as int),
        e.max as int == max3(col.r as int, col.g as int, col.b as int),
        e.min < e.max,
    ensures
        h as int == hue_deg(col.r as int, col.g as int, col.b as int),
        h < 360,
{
    let r = col.r as u32;
    let g = col.g as u32;
    let b = col.b as u32;
    let mn = e.min as u32;
    let mx = e.max as u32;
    let d = mx - mn;
    let n: u32 = if r == mx {
        if g >= b {
            60 * (g - b)
        } else {
            360 * d - 60 * (b - g)
        }
    } else if g == mx {
        120 * d + 60 * b - 60 * r
    } else {
        240 * d + 60 * r - 60 * g
    };
    proof {
        assert(n as int == hue_num(col.r as int, col.g as int, col.b as int));
        assert(n as int <= 360 * (d as int)) by (nonlinear_arith)
            requires
                n as int == hue_num(col.r as int, col.g as int, col.b as int),
                d as int == max3(col.r as int, col.g as int, col.b as int) - min3(
                    col.r as int,
                    col.g as int,
                    col.b as int,
                ),
                min3(col.r as int, col.g as int, col.b as int) <= col.r as int <= max3(
                    col.r as int,
                    col.g as int,
                    col.b as int,
                ),
                min3(col.r as int, col.g as int, col.b as int) <= col.g as int <= max3(
                    col.r as int,
                    col.g as int,
                    col.b as int,
                ),
                min3(col.r as int, col.g as int, col.b as int) <= col.b as int <= max3(
                    col.r as int,
                    col.g as int,
                    col.b as int,
                ),
                1 <= d as int,
        ;
        lemma_round_div_bound(n as int, d as int, 360);
    }
    let h32 = (2 * n + d) / (2 * d);
    if h32 == 360 {
        0
    } else {
        h32 as u16
    }
}

/// Derives hue, saturation and value from the colour, with the grey case
/// (no chroma) reporting hue 0 and saturation 0%.
pub fn to_hsv(col: &RawColour) -> (res: Hsv)
    ensures
        res.h as int == hue_deg(col.r as int, col.g as int, col.b as int),
        res.s as int == hsv_s_pct(col.r as int, col.g as int, col.b as int),
        res.v as int == hsv_v_pct(col.r as int, col.g as int, col.b as int),
        hsv_wf(res),
{
    let e = compute_color(col);
    let mn = e.min as u32;
    let mx = e.max as u32;
    let v = pct_of(mx, 255);
    if mn == mx {
        Hsv { h: 0, s: 0, v }
    } else {
        let h = hue_of(col, &e);
        let s = pct_of(mx - mn, mx);
        Hsv { h, s, v }
    }
}

/// Derives hue, saturation and lightness from the colour, with the grey
/// case (no chroma) reporting hue 0 and saturation 0%.
pub fn to_hsl(col: &RawColour) -> (res: Hsl)
    ensures
        res.h as int == hue_deg(col.r as int, col.g as int, col.b as int),
        res.s as int == hsl_s_pct(col.r as int, col.g as int, col.b as int),
        res.l as int == hsl_l_pct(col.r as int, col.g as int, col.b as int),
        hsl_wf(res),
{
    let e = compute_color(col);
    let mn = e.min as u32;
    let mx = e.max as u32;
    let l = pct_of(mx + mn, 510);
    if mn == mx {
        Hsl { h: 0, s: 0, l }
    } else {
        let h = hue_of(col, &e);
        let s = if mx + mn > 255 {
            pct_of(mx - mn, 510 - (mx + mn))
        } else {
            pct_of(mx - mn, mx + mn)
        };
        Hsl { h, s, l }
    }
}

/// Law: the exact CMYK fractions invert back to the original channels.
/// For a colour that is not pure black, the standard inverse
/// `channel = 255 * (1 - component) * (1 - k)` reproduces each channel
/// exactly; stated with the denominators `max` and `255` cleared, using
/// `1 - c == (max - cmyk_c_num) / max` and `1 - k == (255 - cmyk_k_num) / 255`.
/// Pure black itself carries full information: all channels are zero.
pub proof fn lemma_cmyk_round_trip(r: int, g: int, b: int)
    requires
        0 <= r <= 255,
        0 <= g <= 255,
        0 <= b <= 255,
    ensures
        max3(r, g, b) == 0 ==> r == 0 && g == 0 && b == 0,
        max3(r, g, b) != 0 ==> (max3(r, g, b) - cmyk_c_num(r, g, b)) * (255 - cmyk_k_num(r, g, b))
            == r * max3(r, g, b),
        max3(r, g, b) != 0 ==> (max3(r, g, b) - cmyk_m_num(r, g, b)) * (255 - cmyk_k_num(r, g, b))
            == g * max3(r, g, b),
        max3(r, g, b) != 0 ==> (max3(r, g, b) - cmyk_y_num(r, g, b)) * (255 - cmyk_k_num(r, g, b))
            == b * max3(r, g, b),
{
}

/// Law: a grey colour (all channels equal) is achromatic in both HSV and
/// HSL: saturation 0% and hue 0, whatever the shared channel value.
pub proof fn lemma_grey_achromatic(v: int)
    requires
        0 <= v <= 255,
    ensures
        hue_deg(v, v, v) == 0,
        hsv_s_pct(v, v, v) == 0,
        hsl_s_pct(v, v, v) == 0,
{
}

} // verus!
