use vstd::prelude::*;

verus! {

/// A colour as red, green, blue and alpha channels.
#[derive(Clone, Copy, PartialEq, Eq, Structural, Debug)]
pub struct Color {
    pub r: u8,
    pub g: u8,
    pub b: u8,
    pub a: u8,
}

/// Why a text is not a hex colour.
#[derive(Clone, Copy, PartialEq, Eq, Structural, Debug)]
pub enum ColorParseError {
    /// The digits after the leading `#` are neither 6 nor 8 characters
    /// (nor 3, see `Empty`).
    InvalidLength,
    /// A three-digit colour: each of its channels reads as an empty number.
    Empty,
    /// A channel is not a hexadecimal number.
    InvalidDigit,
}

/// `s` without its leading `#` characters.
pub open spec fn trim_hashes(s: Seq<char>) -> Seq<char>
    decreases s.len(),
{
    if s.len() > 0 && s[0] == '#' {
        trim_hashes(s.drop_first())
    } else {
        s
    }
}

/// The value of a hexadecimal digit.
pub open spec fn hex_value(c: char) -> Option<int> {
    if '0' <= c <= '9' {
        Some(c as int - '0' as int)
    } else if 'a' <= c <= 'f' {
        Some(c as int - 'a' as int + 10)
    } else if 'A' <= c <= 'F' {
        Some(c as int - 'A' as int + 10)
    } else {
        None
    }
}

/// The value of a two-character hexadecimal number; a leading `+` sign is
/// allowed in place of the first digit.
pub open spec fn pair_value(c1: char, c2: char) -> Option<int> {
    if c1 == '+' {
        hex_value(c2)
    } else {
        match (hex_value(c1), hex_value(c2)) {
            (Some(h), Some(l)) => Some(16 * h + l),
            _ => None,
        }
    }
}

/// The channel read from characters `i` and `i + 1` of `t`.
pub open spec fn channel(t: Seq<char>, i: int) -> Option<int> {
    pair_value(t[i], t[i + 1])
}

/// The colour that the digits `t` (after the leading `#`s) denote.
pub open spec fn color_of_digits(t: Seq<char>) -> Result<Color, ColorParseError> {
    if t.len() == 3 {
        Err(ColorParseError::Empty)
    } else if t.len() != 6 && t.len() != 8 {
        Err(ColorParseError::InvalidLength)
    } else {
        match (channel(t, 0), channel(t, 2), channel(t, 4)) {
            (Some(r), Some(g), Some(b)) => if t.len() == 6 {
                Ok(Color { r: r as u8, g: g as u8, b: b as u8, a: 255 })
            } else {
                match channel(t, 6) {
                    Some(a) => Ok(Color { r: r as u8, g: g as u8, b: b as u8, a: a as u8 }),
                    None => Err(ColorParseError::InvalidDigit),
                }
            },
            _ => Err(ColorParseError::InvalidDigit),
        }
    }
}

fn hex_digit(c: char) -> (r: Option<u8>)
    ensures
        match r {
            Some(v) => hex_value(c) == Some(v as int) && v < 16,
            None => hex_value(c) == None::<int>,
        },
{
    if '0' <= c && c <= '9' {
        Some((c as u32 - '0' as u32) as u8)
    } else if 'a' <= c && c <= 'f' {
        Some((c as u32 - 'a' as u32 + 10) as u8)
    } else if 'A' <= c && c <= 'F' {
        Some((c as u32 - 'A' as u32 + 10) as u8)
    } else {
        None
    }
}

fn parse_pair(c1: char, c2: char) -> (r: Option<u8>)
    ensures
        match r {
            Some(v) => pair_value(c1, c2) == Some(v as int),
            None => pair_value(c1, c2) == None::<int>,
        },
{
    if c1 == '+' {
        hex_digit(c2)
    } else {
        match (hex_digit(c1), hex_digit(c2)) {
            (Some(h), Some(l)) => Some(16 * h + l),
            _ => None,
        }
    }
}

proof fn lemma_trim_hashes_prefix(s: Seq<char>, i: int)
    requires
        0 <= i <= s.len(),
        forall|j: int| 0 <= j < i ==> s[j] == '#',
    ensures
        trim_hashes(s) == trim_hashes(s.subrange(i, s.len() as int)),
    decreases i,
{
    if i > 0 {
        assert(s.drop_first() =~= s.subrange(1, s.len() as int));
        lemma_trim_hashes_prefix(s.drop_first(), i - 1);
        assert(s.drop_first().subrange(i - 1, s.drop_first().len() as int) =~= s.subrange(
            i,
            s.len() as int,
        ));
    } else {
        assert(s.subrange(0, s.len() as int) =~= s);
    }
}

/// Reads a colour written as `#rrggbb` or `#rrggbbaa` in hexadecimal; any
/// number of leading `#` may stand before the digits, and none is needed.
pub fn hex_to_color(hex: &str) -> (r: Result<Color, ColorParseError>)
    ensures
        r == color_of_digits(trim_hashes(hex@)),
{
    let n = hex.unicode_len();
    let mut i: usize = 0;
    while i < n && hex.get_char(i) == '#'
        invariant
            n == hex@.len(),
            i <= n,
            forall|j: int| 0 <= j < i ==> hex@[j] == '#',
        decreases n - i,
    {
        i = i + 1;
    }
    let ghost t = hex@.subrange(i as int, n as int);
    proof {
        lemma_trim_hashes_prefix(hex@, i as int);
        if i < n {
            assert(hex@[i as int] != '#');
            assert(trim_hashes(t) == t);
        }
    }
    let len = n - i;
    if len == 3 {
        return Err(ColorParseError::Empty);
    }
    if len != 6 && len != 8 {
        return Err(ColorParseError::InvalidLength);
    }
    let r = parse_pair(hex.get_char(i), hex.get_char(i + 1));
    let g = parse_pair(hex.get_char(i + 2), hex.get_char(i + 3));
    let b = parse_pair(hex.get_char(i + 4), hex.get_char(i + 5));
    match (r, g, b) {
        (Some(r), Some(g), Some(b)) => {
            if len == 6 {
                Ok(Color { r, g, b, a: 255 })
            } else {
                match parse_pair(hex.get_char(i + 6), hex.get_char(i + 7)) {
                    Some(a) => Ok(Color { r, g, b, a }),
                    None => Err(ColorParseError::InvalidDigit),
                }
            }
        },
        _ => Err(ColorParseError::InvalidDigit),
    }
}

} // verus!
