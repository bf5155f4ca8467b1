//! Rendering a colour in the canonical textual notation of each model, and
//! the conversion entry point that goes from a hexadecimal string to the
//! requested notation.

use vstd::prelude::*;
use crate::convert::Cmyk;
use crate::convert::Hsl;
use crate::convert::Hsv;
use crate::convert::cmyk_c_pct;
use crate::convert::cmyk_k_pct;
use crate::convert::cmyk_m_pct;
use crate::convert::cmyk_wf;
use crate::convert::cmyk_y_pct;
use crate::convert::hsl_l_pct;
use crate::convert::hsl_s_pct;
use crate::convert::hsl_wf;
use crate::convert::hsv_s_pct;
use crate::convert::hsv_v_pct;
use crate::convert::hsv_wf;
use crate::convert::hue_deg;
use crate::convert::to_cmyk;
use crate::convert::to_hsl;
use crate::convert::to_hsv;
use crate::hex::ColourError;
use crate::hex::RawColour;
use crate::hex::hex_byte;
use crate::hex::hex_char;
use crate::hex::hex_of_colour;
use crate::hex::rgb_to_hex;
use crate::hex::to_rgb;
use crate::hex::valid_hex6;

verus! {

/// The colour models a colour can be rendered in. This `enum` selects the
/// notation that `random_colour` and `convert_colour` produce.
#[derive(Debug, PartialEq, Eq)]
pub enum ColourType {
    HEX,
    RGB,
    CMYK,
    HSV,
    HSL,
}

/// The decimal digits of a non-negative number, most significant first.
pub open spec fn dec_seq(n: int) -> Seq<char>
    recommends
        0 <= n,
    decreases n,
{
    if n <= 9 {
        seq![hex_char(n)]
    } else {
        dec_seq(n / 10).push(hex_char(n % 10))
    }
}

/// The decimal digits of a percentage followed by `%`.
pub open spec fn pct_seq(p: int) -> Seq<char>
    recommends
        0 <= p <= 100,
{
    dec_seq(p).push('%')
}

/// Appends the decimal digits of `n` (at most three digits).
fn append_dec(s: &mut String, n: u16)
    requires
        n <= 999,
    ensures
        final(s)@ == old(s)@ + dec_seq(n as int),
{
    if n >= 100 {
        let d2 = (n / 10) / 10;
        let d1 = (n / 10) % 10;
        let d0 = n % 10;
        crate::hex::append_hex_digit(s, d2 as u8);
        crate::hex::append_hex_digit(s, d1 as u8);
        crate::hex::append_hex_digit(s, d0 as u8);
        proof {
            let ni = n as int;
            assert(dec_seq((ni / 10) / 10) =~= seq![hex_char((ni / 10) / 10)]);
            assert(dec_seq(ni / 10) =~= dec_seq((ni / 10) / 10).push(hex_char((ni / 10) % 10)));
            assert(dec_seq(ni) =~= dec_seq(ni / 10).push(hex_char(ni % 10)));
            assert(s@ =~= old(s)@ + dec_seq(ni));
        }
    } else if n >= 10 {
        let d1 = n / 10;
        let d0 = n % 10;
        crate::hex::append_hex_digit(s, d1 as u8);
        crate::hex::append_hex_digit(s, d0 as u8);
        proof {
            let ni = n as int;
            assert(dec_seq(ni / 10) =~= seq![hex_char(ni / 10)]);
            assert(dec_seq(ni) =~= dec_seq(ni / 10).push(hex_char(ni % 10)));
            assert(s@ =~= old(s)@ + dec_seq(ni));
        }
    } else {
        crate::hex::append_hex_digit(s, n as u8);
        proof {
            assert(s@ =~= old(s)@ + dec_seq(n as int));
        }
    }
}

/// Appends the decimal digits of a percentage and the `%` sign.
fn append_pct(s: &mut String, p: u16)
    requires
        p <= 100,
    ensures
        final(s)@ == old(s)@ + pct_seq(p as int),
{
    append_dec(s, p);
    s.append("%");
    proof {
        reveal_strlit("%");
        assert(s@ =~= old(s)@ + pct_seq(p as int));
    }
}

/// The `rgb(r, g, b)` notation.
pub open spec fn rgb_seq(r: int, g: int, b: int) -> Seq<char> {
    "rgb("@ + dec_seq(r) + ", "@ + dec_seq(g) + ", "@ + dec_seq(b) + ")"@
}

/// The `cmyk(c%, m%, y%, k%)` notation.
pub open spec fn cmyk_seq(c: int, m: int, y: int, k: int) -> Seq<char> {
    "cmyk("@ + pct_seq(c) + ", "@ + pct_seq(m) + ", "@ + pct_seq(y) + ", "@ + pct_seq(k) + ")"@
}

/// The `hsv(h, s%, v%)` notation; the hue carries no unit suffix.
pub open spec fn hsv_seq(h: int, s: int, v: int) -> Seq<char> {
    "hsv("@ + dec_seq(h) + ", "@ + pct_seq(s) + ", "@ + pct_seq(v) + ")"@
}

/// The `hsl(h, s%, l%)` notation; the hue carries no unit suffix.
pub open spec fn hsl_seq(h: int, s: int, l: int) -> Seq<char> {
    "hsl("@ + dec_seq(h) + ", "@ + pct_seq(s) + ", "@ + pct_seq(l) + ")"@
}

/// The canonical rendering of a colour in the chosen model: for `HEX` the
/// lowercase six-digit form behind `#`, otherwise the model's notation
/// applied to the components the converters derive.
pub open spec fn rendered(r: int, g: int, b: int, setting: ColourType) -> Seq<char> {
    match setting {
        ColourType::HEX => "#"@ + hex_of_colour(r, g, b),
        ColourType::RGB => rgb_seq(r, g, b),
        ColourType::CMYK => cmyk_seq(
            cmyk_c_pct(r, g, b),
            cmyk_m_pct(r, g, b),
            cmyk_y_pct(r, g, b),
            cmyk_k_pct(r, g, b),
        ),
        ColourType::HSV => hsv_seq(hue_deg(r, g, b), hsv_s_pct(r, g, b), hsv_v_pct(r, g, b)),
        ColourType::HSL => hsl_seq(hue_deg(r, g, b), hsl_s_pct(r, g, b), hsl_l_pct(r, g, b)),
    }
}

/// Renders the colour as `rgb(r, g, b)`.
pub fn rgb_string(col: &RawColour) -> (s: String)
    ensures
        s@ == rgb_seq(col.r as int, col.g as int, col.b as int),
{
    let mut s = String::from_str("rgb(");
    append_dec(&mut s, col.r as u16);
    s.append(", ");
    append_dec(&mut s, col.g as u16);
    s.append(", ");
    append_dec(&mut s, col.b as u16);
    s.append(")");
    proof {
        assert(s@ =~= rgb_seq(col.r as int, col.g as int, col.b as int));
    }
    s
}

/// Renders the components as `cmyk(c%, m%, y%, k%)`.
pub fn cmyk_string(v: &Cmyk) -> (s: String)
    requires
        cmyk_wf(*v),
    ensures
        s@ == cmyk_seq(v.c as int, v.m as int, v.y as int, v.k as int),
{
    let mut s = String::from_str("cmyk(");
    append_pct(&mut s, v.c as u16);
    s.append(", ");
    append_pct(&mut s, v.m as u16);
    s.append(", ");
    append_pct(&mut s, v.y as u16);
    s.append(", ");
    append_pct(&mut s, v.k as u16);
    s.append(")");
    proof {
        assert(s@ =~= cmyk_seq(v.c as int, v.m as int, v.y as int, v.k as int));
    }
    s
}

/// Renders the components as `hsv(h, s%, v%)`.
pub fn hsv_string(v: &Hsv) -> (s: String)
    requires
        hsv_wf(*v),
    ensures
        s@ == hsv_seq(v.h as int, v.s as int, v.v as int),
{
    let mut s = String::from_str("hsv(");
    append_dec(&mut s, v.h);
    s.append(", ");
    append_pct(&mut s, v.s as u16);
    s.append(", ");
    append_pct(&mut s, v.v as u16);
    s.append(")");
    proof {
        assert(s@ =~= hsv_seq(v.h as int, v.s as int, v.v as int));
    }
    s
}

/// Renders the components as `hsl(h, s%, l%)`.
pub fn hsl_string(v: &Hsl) -> (s: String)
    requires
        hsl_wf(*v),
    ensures
        s@ == hsl_seq(v.h as int, v.s as int, v.l as int),
{
    let mut s = String::from_str("hsl(");
    append_dec(&mut s, v.h);
    s.append(", ");
    append_pct(&mut s, v.s as u16);
    s.append(", ");
    append_pct(&mut s, v.l as u16);
    s.append(")");
    proof {
        assert(s@ =~= hsl_seq(v.h as int, v.s as int, v.l as int));
    }
    s
}

/// Renders the colour as `#` followed by its six lowercase hex digits.
pub fn hex_string(col: &RawColour) -> (s: String)
    ensures
        s@ == rendered(col.r as int, col.g as int, col.b as int, ColourType::HEX),
{
    let mut s = String::from_str("#");
    let digits = rgb_to_hex(col);
    s.append(digits.as_str());
    proof {
        assert(s@ =~= "#"@ + hex_of_colour(col.r as int, col.g as int, col.b as int));
    }
    s
}

/// Converts a six-digit hexadecimal string (case-insensitive, no leading
/// `#`) into the requested notation. `HEX` echoes the caller's string
/// behind a `#`; the other models render the components derived from it.
/// Returns `MalformedInput` exactly when the string is not six hexadecimal
/// digits.
pub fn convert_colour(hex: &str, setting: &ColourType) -> (res: Result<String, ColourError>)
    ensures
        res is Ok <==> valid_hex6(hex@),
        res matches Ok(s) ==> (*setting is HEX ==> s@ == "#"@ + hex@),
        res matches Ok(s) ==> (!(*setting is HEX) ==> s@ == rendered(
            hex_byte(hex@, 0),
            hex_byte(hex@, 1),
            hex_byte(hex@, 2),
            *setting,
        )),
        res matches Err(e) ==> e == ColourError::MalformedInput,
{
    let col = match to_rgb(hex) {
        Ok(c) => c,
        Err(e) => { return Err(e) },
    };
    match setting {
        ColourType::HEX => {
            let mut s = String::from_str("#");
            s.append(hex);
            Ok(s)
        },
        ColourType::RGB => Ok(rgb_string(&col)),
        ColourType::CMYK => Ok(cmyk_string(&to_cmyk(&col))),
        ColourType::HSV => Ok(hsv_string(&to_hsv(&col))),
        ColourType::HSL => Ok(hsl_string(&to_hsl(&col))),
    }
}

} // verus!
