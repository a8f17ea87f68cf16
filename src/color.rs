use vstd::prelude::*;
use vstd::string::StringSliceAdditionalSpecFns;

verus! {

/// A colour as three 8-bit channels.
#[derive(Clone, Copy, Debug, PartialEq, Eq, Structural)]
pub struct Rgb {
    pub r: u8,
    pub g: u8,
    pub b: u8,
}

/// The value of one hexadecimal digit, in either case.
pub open spec fn hex_digit(c: u8) -> Option<u8> {
    if 48 <= c <= 57 {
        Some((c - 48) as u8)
    } else if 97 <= c <= 102 {
        Some((c - 87) as u8)
    } else if 65 <= c <= 70 {
        Some((c - 55) as u8)
    } else {
        None
    }
}

/// The six digits of a colour written `RRGGBB` or `#RRGGBB`.
pub open spec fn color_digits(s: Seq<u8>) -> Seq<u8> {
    if s.len() == 7 && s[0] == 35 {
        s.drop_first()
    } else {
        s
    }
}

/// The byte written by the two hexadecimal digits `hi` and `lo`.
pub open spec fn hex_byte(hi: u8, lo: u8) -> u8 {
    (16 * hex_digit(hi).unwrap() + hex_digit(lo).unwrap()) as u8
}

/// The colour that the text `s` writes, if it is one.
pub open spec fn parse_color(s: Seq<u8>) -> Option<Rgb> {
    let d = color_digits(s);
    if d.len() == 6 && forall|i: int| 0 <= i < 6 ==> #[trigger] hex_digit(d[i]) is Some {
        Some(Rgb { r: hex_byte(d[0], d[1]), g: hex_byte(d[2], d[3]), b: hex_byte(d[4], d[5]) })
    } else {
        None
    }
}

fn digit_value(c: u8) -> (r: Option<u8>)
    ensures
        r == hex_digit(c),
        r matches Some(v) ==> v < 16,
{
    if 48 <= c && c <= 57 {
        Some(c - 48)
    } else if 97 <= c && c <= 102 {
        Some(c - 87)
    } else if 65 <= c && c <= 70 {
        Some(c - 55)
    } else {
        None
    }
}

fn byte_at(d: &[u8], i: usize) -> (r: Option<u8>)
    requires
        i + 1 < d@.len(),
    ensures
        r matches Some(v) ==> hex_digit(d@[i as int]) is Some && hex_digit(d@[i + 1]) is Some
            && v == hex_byte(d@[i as int], d@[i + 1]),
        r is None ==> hex_digit(d@[i as int]) is None || hex_digit(d@[i + 1]) is None,
{
    match (digit_value(d[i]), digit_value(d[i + 1])) {
        (Some(hi), Some(lo)) => Some(16 * hi + lo),
        _ => None,
    }
}

/// Reads a colour written as six hexadecimal digits, optionally after `#`.
/// `None` for any other text.
pub fn hex_to_color(hexcolor: &str) -> (r: Option<Rgb>)
    ensures
        r == parse_color(hexcolor.spec_bytes()),
{
    let s = hexcolor.as_bytes();
    let d: &[u8] = if s.len() == 7 && s[0] == 35 {
        let (_, rest) = s.split_at(1);
        rest
    } else {
        s
    };
    proof {
        assert(d@ =~= color_digits(s@));
    }
    if d.len() != 6 {
        return None;
    }
    let red = byte_at(d, 0);
    let green = byte_at(d, 2);
    let blue = byte_at(d, 4);
    match (red, green, blue) {
        (Some(r), Some(g), Some(b)) => {
            proof {
                assert forall|i: int| 0 <= i < 6 implies #[trigger] hex_digit(d@[i]) is Some by {
                    if i < 2 {
                    } else if i < 4 {
                    } else {
                    }
                }
            }
            Some(Rgb { r, g, b })
        },
        _ => None,
    }
}

} // verus!
