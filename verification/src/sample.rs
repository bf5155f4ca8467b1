//! Sampling a uniformly random colour and rendering it in a chosen model.

use vstd::prelude::*;
use rand::Rng;
use crate::hex::RawColour;
use crate::hex::rgb_to_hex;
use crate::render::ColourType;
use crate::render::cmyk_string;
use crate::render::hsl_string;
use crate::render::hsv_string;
use crate::render::rendered;
use crate::render::rgb_string;
use crate::convert::to_cmyk;
use crate::convert::to_hsl;
use crate::convert::to_hsv;

verus! {

/// Relies on rand's `Rng::gen_range` over `0..bound` on the thread-local
/// generator: it panics only on an empty range, and the sample is always
/// below the bound. Nothing more is promised of a random value.
#[verifier::external_body]
fn random_below(bound: u8) -> (r: u8)
    requires
        1 <= bound,
    ensures
        r < bound,
{
    rand::thread_rng().gen_range(0..bound)
}

/// Generates a uniformly random colour and returns it written in the chosen
/// model's notation: whatever the random source yields, the result is the
/// canonical rendering of some colour.
pub fn random_colour(setting: ColourType) -> (res: String)
    ensures
        exists|r: int, g: int, b: int|
            0 <= r <= 255 && 0 <= g <= 255 && 0 <= b <= 255 && res@ == rendered(r, g, b, setting),
{
    let d0 = random_below(16);
    let d1 = random_below(16);
    let d2 = random_below(16);
    let d3 = random_below(16);
    let d4 = random_below(16);
    let d5 = random_below(16);
    let col = RawColour { r: 16 * d0 + d1, g: 16 * d2 + d3, b: 16 * d4 + d5 };
    let res = match setting {
        ColourType::HEX => {
            let mut s = String::from_str("#");
            let digits = rgb_to_hex(&col);
            s.append(digits.as_str());
            proof {
                assert(s@ =~= rendered(col.r as int, col.g as int, col.b as int, ColourType::HEX));
            }
            s
        },
        ColourType::RGB => rgb_string(&col),
        ColourType::CMYK => cmyk_string(&to_cmyk(&col)),
        ColourType::HSV => hsv_string(&to_hsv(&col)),
        ColourType::HSL => hsl_string(&to_hsl(&col)),
    };
    proof {
        assert(res@ == rendered(col.r as int, col.g as int, col.b as int, setting));
    }
    res
}

} // verus!
