//! Parsing a six-digit hexadecimal colour string into its three 8-bit
//! channels, and encoding the channels back to lowercase hexadecimal.

use vstd::prelude::*;

verus! {

/// Error returned when an input string is not exactly six hexadecimal digits.
#[derive(Clone, Copy, Debug, PartialEq, Eq)]
pub enum ColourError {
    MalformedInput,
}

/// A colour as three 8-bit channels: red, green and blue.
#[derive(Clone, Copy, Debug, PartialEq, Eq)]
pub struct RawColour {
    pub r: u8,
    pub g: u8,
    pub b: u8,
}

/// True when `c` is one of `0`-`9`, `a`-`f` or `A`-`F`.
pub open spec fn is_hex_digit(c: char) -> bool {
    ('0' as int <= c as int && c as int <= '9' as int)
        || ('a' as int <= c as int && c as int <= 'f' as int)
        || ('A' as int <= c as int && c as int <= 'F' as int)
}

/// Numeric value of a hexadecimal digit (either case).
pub open spec fn hex_val(c: char) -> int
    recommends
        is_hex_digit(c),
{
    if c as int <= '9' as int {
        c as int - '0' as int
    } else if 'a' as int <= c as int {
        c as int - 'a' as int + 10
    } else {
        c as int - 'A' as int + 10
    }
}

/// Lowercase hexadecimal character for a digit value.
pub open spec fn hex_char(d: int) -> char
    recommends
        0 <= d < 16,
{
    if d == 0 {
        '0'
    } else if d == 1 {
        '1'
    } else if d == 2 {
        '2'
    } else if d == 3 {
        '3'
    } else if d == 4 {
        '4'
    } else if d == 5 {
        '5'
    } else if d == 6 {
        '6'
    } else if d == 7 {
        '7'
    } else if d == 8 {
        '8'
    } else if d == 9 {
        '9'
    } else if d == 10 {
        'a'
    } else if d == 11 {
        'b'
    } else if d == 12 {
        'c'
    } else if d == 13 {
        'd'
    } else if d == 14 {
        'e'
    } else {
        'f'
    }
}

/// A hexadecimal digit with any uppercase letter lowered.
pub open spec fn hex_lower(c: char) -> char {
    if c == 'A' {
        'a'
    } else if c == 'B' {
        'b'
    } else if c == 'C' {
        'c'
    } else if c == 'D' {
        'd'
    } else if c == 'E' {
        'e'
    } else if c == 'F' {
        'f'
    } else {
        c
    }
}

/// True when `s` is exactly six hexadecimal digits.
pub open spec fn valid_hex6(s: Seq<char>) -> bool {
    s.len() == 6 && (forall|i: int| 0 <= i < 6 ==> is_hex_digit(#[trigger] s[i]))
}

/// Value of the two-digit group at positions `2i`, `2i + 1` of `s`.
pub open spec fn hex_byte(s: Seq<char>, i: int) -> int
    recommends
        s.len() == 6,
        0 <= i < 3,
{
    16 * hex_val(s[2 * i]) + hex_val(s[2 * i + 1])
}

/// The two lowercase digits of a channel value in `[0, 255]`.
pub open spec fn hex_pair(v: int) -> Seq<char>
    recommends
        0 <= v <= 255,
{
    seq![hex_char(v / 16), hex_char(v % 16)]
}

/// The six lowercase digits encoding the three channels.
pub open spec fn hex_of_colour(r: int, g: int, b: int) -> Seq<char> {
    hex_pair(r) + hex_pair(g) + hex_pair(b)
}

/// Value of a single hexadecimal digit, or `None` when `c` is not one.
fn hex_digit_val(c: char) -> (res: Option<u8>)
    ensures
        res is Some <==> is_hex_digit(c),
        res matches Some(v) ==> v < 16 && v as int == hex_val(c),
{
    let u = c as u32;
    if 48 <= u && u <= 57 {
        Some((u - 48) as u8)
    } else if 97 <= u && u <= 102 {
        Some((u - 97 + 10) as u8)
    } else if 65 <= u && u <= 70 {
        Some((u - 65 + 10) as u8)
    } else {
        None
    }
}

/// Parses a six-digit hexadecimal string (case-insensitive) into a colour.
/// Returns `MalformedInput` exactly when the string is not six hexadecimal
/// digits; a well-formed string always parses.
pub fn to_rgb(hex: &str) -> (res: Result<RawColour, ColourError>)
    ensures
        res is Ok <==> valid_hex6(hex@),
        res matches Ok(col) ==> col.r as int == hex_byte(hex@, 0) && col.g as int == hex_byte(
            hex@,
            1,
        ) && col.b as int == hex_byte(hex@, 2),
        res matches Err(e) ==> e == ColourError::MalformedInput,
{
    if hex.unicode_len() != 6 {
        return Err(ColourError::MalformedInput);
    }
    let d0 = match hex_digit_val(hex.get_char(0)) {
        Some(v) => v,
        None => { return Err(ColourError::MalformedInput) },
    };
    let d1 = match hex_digit_val(hex.get_char(1)) {
        Some(v) => v,
        None => { return Err(ColourError::MalformedInput) },
    };
    let d2 = match hex_digit_val(hex.get_char(2)) {
        Some(v) => v,
        None => { return Err(ColourError::MalformedInput) },
    };
    let d3 = match hex_digit_val(hex.get_char(3)) {
        Some(v) => v,
        None => { return Err(ColourError::MalformedInput) },
    };
    let d4 = match hex_digit_val(hex.get_char(4)) {
        Some(v) => v,
        None => { return Err(ColourError::MalformedInput) },
    };
    let d5 = match hex_digit_val(hex.get_char(5)) {
        Some(v) => v,
        None => { return Err(ColourError::MalformedInput) },
    };
    proof {
        assert(valid_hex6(hex@));
    }
    Ok(RawColour { r: 16 * d0 + d1, g: 16 * d2 + d3, b: 16 * d4 + d5 })
}

/// Appends the lowercase hexadecimal character for a digit value.
pub(crate) fn append_hex_digit(s: &mut String, d: u8)
    requires
        d < 16,
    ensures
        final(s)@ == old(s)@.push(hex_char(d as int)),
{
    if d == 0 {
        s.append("0");
        proof {
            reveal_strlit("0");
            assert(s@ =~= old(s)@.push(hex_char(d as int)));
        }
    } else if d == 1 {
        s.append("1");
        proof {
            reveal_strlit("1");
            assert(s@ =~= old(s)@.push(hex_char(d as int)));
        }
    } else if d == 2 {
        s.append("2");
        proof {
            reveal_strlit("2");
            assert(s@ =~= old(s)@.push(hex_char(d as int)));
        }
    } else if d == 3 {
        s.append("3");
        proof {
            reveal_strlit("3");
            assert(s@ =~= old(s)@.push(hex_char(d as int)));
        }
    } else if d == 4 {
        s.append("4");
        proof {
            reveal_strlit("4");
            assert(s@ =~= old(s)@.push(hex_char(d as int)));
        }
    } else if d == 5 {
        s.append("5");
        proof {
            reveal_strlit("5");
            assert(s@ =~= old(s)@.push(hex_char(d as int)));
        }
    } else if d == 6 {
        s.append("6");
        proof {
            reveal_strlit("6");
            assert(s@ =~= old(s)@.push(hex_char(d as int)));
        }
    } else if d == 7 {
        s.append("7");
        proof {
            reveal_strlit("7");
            assert(s@ =~= old(s)@.push(hex_char(d as int)));
        }
    } else if d == 8 {
        s.append("8");
        proof {
            reveal_strlit("8");
            assert(s@ =~= old(s)@.push(hex_char(d as int)));
        }
    } else if d == 9 {
        s.append("9");
        proof {
            reveal_strlit("9");
            assert(s@ =~= old(s)@.push(hex_char(d as int)));
        }
    } else if d == 10 {
        s.append("a");
        proof {
            reveal_strlit("a");
            assert(s@ =~= old(s)@.push(hex_char(d as int)));
        }
    } else if d == 11 {
        s.append("b");
        proof {
            reveal_strlit("b");
            assert(s@ =~= old(s)@.push(hex_char(d as int)));
        }
    } else if d == 12 {
        s.append("c");
        proof {
            reveal_strlit("c");
            assert(s@ =~= old(s)@.push(hex_char(d as int)));
        }
    } else if d == 13 {
        s.append("d");
        proof {
            reveal_strlit("d");
            assert(s@ =~= old(s)@.push(hex_char(d as int)));
        }
    } else if d == 14 {
        s.append("e");
        proof {
            reveal_strlit("e");
            assert(s@ =~= old(s)@.push(hex_char(d as int)));
        }
    } else {
        s.append("f");
        proof {
            reveal_strlit("f");
            assert(s@ =~= old(s)@.push(hex_char(d as int)));
        }
    }
}

/// Encodes the three channels as six lowercase hexadecimal digits.
pub fn rgb_to_hex(col: &RawColour) -> (s: String)
    ensures
        s@ == hex_of_colour(col.r as int, col.g as int, col.b as int),
{
    let mut s = String::new();
    append_hex_digit(&mut s, col.r / 16);
    append_hex_digit(&mut s, col.r % 16);
    append_hex_digit(&mut s, col.g / 16);
    append_hex_digit(&mut s, col.g % 16);
    append_hex_digit(&mut s, col.b / 16);
    append_hex_digit(&mut s, col.b % 16);
    proof {
        assert(s@ =~= hex_of_colour(col.r as int, col.g as int, col.b as int));
    }
    s
}

/// A lowercase digit character encodes its own value.
proof fn lemma_hex_char_val(c: char)
    requires
        is_hex_digit(c),
    ensures
        0 <= hex_val(c) < 16,
        hex_char(hex_val(c)) == hex_lower(c),
{
}

/// Law: parsing a valid six-digit string and re-encoding the three channels
/// reproduces the string, with every digit lowered to its lowercase form.
#[verifier::rlimit(50)]
pub proof fn lemma_hex_round_trip(s: Seq<char>)
    requires
        valid_hex6(s),
    ensures
        hex_of_colour(hex_byte(s, 0), hex_byte(s, 1), hex_byte(s, 2)) == s.map_values(
            |c: char| hex_lower(c),
        ),
{
    let t = s.map_values(|c: char| hex_lower(c));
    assert forall|i: int| 0 <= i < 6 implies #[trigger] t[i] == hex_lower(s[i]) by {}
    assert forall|i: int| 0 <= i < 3 implies 0 <= #[trigger] hex_byte(s, i) <= 255 by {
        lemma_hex_char_val(s[2 * i]);
        lemma_hex_char_val(s[2 * i + 1]);
    }
    assert forall|i: int| 0 <= i < 3 implies #[trigger] hex_pair(hex_byte(s, i)) =~= seq![
        hex_lower(s[2 * i]),
        hex_lower(s[2 * i + 1]),
    ] by {
        let hi = hex_val(s[2 * i]);
        let lo = hex_val(s[2 * i + 1]);
        lemma_hex_char_val(s[2 * i]);
        lemma_hex_char_val(s[2 * i + 1]);
        vstd::arithmetic::div_mod::lemma_fundamental_div_mod_converse(16 * hi + lo, 16, hi, lo);
        assert(hex_byte(s, i) / 16 == hi);
        assert(hex_byte(s, i) % 16 == lo);
    }
    assert(hex_of_colour(hex_byte(s, 0), hex_byte(s, 1), hex_byte(s, 2)) =~= t);
}

} // verus!
