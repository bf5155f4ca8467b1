//! Random colour generation and colour-model conversion.
//!
//! A colour is parsed from a six-digit hexadecimal string into three 8-bit
//! channels and converted to CMYK, HSV or HSL with the standard formulas,
//! carried out in exact fixed-point arithmetic (percentages and degrees are
//! rounded to the nearest integer). A uniformly random colour can be sampled
//! and rendered in any of the supported notations.

pub mod convert;
pub mod hex;
pub mod render;
pub mod sample;

pub use convert::Cmyk;
pub use convert::Extrema;
pub use convert::Hsl;
pub use convert::Hsv;
pub use convert::compute_color;
pub use convert::to_cmyk;
pub use convert::to_hsl;
pub use convert::to_hsv;
pub use hex::ColourError;
pub use hex::RawColour;
pub use hex::rgb_to_hex;
pub use hex::to_rgb;
pub use render::ColourType;
pub use render::cmyk_string;
pub use render::convert_colour;
pub use render::hex_string;
pub use render::hsl_string;
pub use render::hsv_string;
pub use render::rgb_string;
pub use sample::random_colour;
