//! RGB colours and their `#RRGGBB` text form.

use vstd::prelude::*;
use vstd::string::*;

verus! {

/// An opaque RGB colour of three 8-bit channels.
#[derive(Clone, Copy, Debug, PartialEq, Eq, Structural, Hash)]
pub struct Color {
    pub r: u8,
    pub g: u8,
    pub b: u8,
}

/// The failure of [`Color::parse_hex`]: the text is not `#` and six hex digits.
#[derive(Clone, Copy, Debug, PartialEq, Eq, Structural)]
pub struct InvalidHex;

/// Whether `c` is one of `0-9`, `a-f`, `A-F`.
pub open spec fn is_hex_digit(c: char) -> bool {
    ('0' <= c <= '9') || ('a' <= c <= 'f') || ('A' <= c <= 'F')
}

/// Whether `c` is one of `0-9`, `A-F`.
pub open spec fn is_upper_hex_digit(c: char) -> bool {
    ('0' <= c <= '9') || ('A' <= c <= 'F')
}

/// The number that the hex digit `c` stands for.
pub open spec fn hex_value(c: char) -> int
    recommends
        is_hex_digit(c),
{
    if '0' <= c <= '9' {
        c as int - 48
    } else if 'a' <= c <= 'f' {
        c as int - 87
    } else {
        c as int - 55
    }
}

/// The upper-case hex digit for `n`, which is below 16.
pub open spec fn upper_hex_digit(n: int) -> char
    recommends
        0 <= n < 16,
{
    if n < 10 {
        (n + 48) as char
    } else {
        (n + 55) as char
    }
}

/// Whether `s` is `#` followed by exactly six hex digits of either case.
pub open spec fn is_hex_color(s: Seq<char>) -> bool {
    &&& s.len() == 7
    &&& s[0] == '#'
    &&& forall|i: int| 1 <= i < 7 ==> is_hex_digit(#[trigger] s[i])
}

/// Whether `s` is `#` followed by exactly six upper-case hex digits.
pub open spec fn is_canonical_hex(s: Seq<char>) -> bool {
    &&& s.len() == 7
    &&& s[0] == '#'
    &&& forall|i: int| 1 <= i < 7 ==> is_upper_hex_digit(#[trigger] s[i])
}

/// The channel written by the two hex digits `hi` and `lo`.
pub open spec fn channel_value(hi: char, lo: char) -> u8
    recommends
        is_hex_digit(hi),
        is_hex_digit(lo),
{
    (16 * hex_value(hi) + hex_value(lo)) as u8
}

/// What a text parses to: the colour it writes, or nothing where it is no
/// `#RRGGBB`.
pub open spec fn parse_hex_spec(s: Seq<char>) -> Option<Color> {
    if is_hex_color(s) {
        Some(
            Color {
                r: channel_value(s[1], s[2]),
                g: channel_value(s[3], s[4]),
                b: channel_value(s[5], s[6]),
            },
        )
    } else {
        None
    }
}

/// The canonical text of a colour: `#` and six upper-case hex digits.
pub open spec fn hex_text(c: Color) -> Seq<char> {
    seq![
        '#',
        upper_hex_digit(c.r as int / 16),
        upper_hex_digit(c.r as int % 16),
        upper_hex_digit(c.g as int / 16),
        upper_hex_digit(c.g as int % 16),
        upper_hex_digit(c.b as int / 16),
        upper_hex_digit(c.b as int % 16),
    ]
}

/// The value of an ASCII byte read as a hex digit.
fn hex_digit_value(byte: u8) -> (r: Option<u8>)
    ensures
        r is Some <==> is_hex_digit(byte as char),
        r matches Some(v) ==> v as int == hex_value(byte as char) && v < 16,
{
    if 48 <= byte && byte <= 57 {
        Some(byte - 48)
    } else if 97 <= byte && byte <= 102 {
        Some(byte - 87)
    } else if 65 <= byte && byte <= 70 {
        Some(byte - 55)
    } else {
        None
    }
}

/// The one-character text of the upper-case hex digit for `n`.
fn upper_hex_digit_str(n: u8) -> (s: &'static str)
    requires
        n < 16,
    ensures
        s@ == seq![upper_hex_digit(n as int)],
{
    proof {
        reveal_strlit("0");
        reveal_strlit("1");
        reveal_strlit("2");
        reveal_strlit("3");
        reveal_strlit("4");
        reveal_strlit("5");
        reveal_strlit("6");
        reveal_strlit("7");
        reveal_strlit("8");
        reveal_strlit("9");
        reveal_strlit("A");
        reveal_strlit("B");
        reveal_strlit("C");
        reveal_strlit("D");
        reveal_strlit("E");
        reveal_strlit("F");
    }
    let s = if n == 0 {
        "0"
    } else if n == 1 {
        "1"
    } else if n == 2 {
        "2"
    } else if n == 3 {
        "3"
    } else if n == 4 {
        "4"
    } else if n == 5 {
        "5"
    } else if n == 6 {
        "6"
    } else if n == 7 {
        "7"
    } else if n == 8 {
        "8"
    } else if n == 9 {
        "9"
    } else if n == 10 {
        "A"
    } else if n == 11 {
        "B"
    } else if n == 12 {
        "C"
    } else if n == 13 {
        "D"
    } else if n == 14 {
        "E"
    } else {
        "F"
    };
    assert(s@ =~= seq![upper_hex_digit(n as int)]);
    s
}

/// An upper-case hex digit is the digit of its own value.
proof fn lemma_digit_of_value(c: char)
    requires
        is_upper_hex_digit(c),
    ensures
        0 <= hex_value(c) < 16,
        upper_hex_digit(hex_value(c)) == c,
{
}

/// A digit below 16 is written as an upper-case hex digit of that value.
proof fn lemma_value_of_digit(n: int)
    requires
        0 <= n < 16,
    ensures
        is_upper_hex_digit(upper_hex_digit(n)),
        hex_value(upper_hex_digit(n)) == n,
{
}

/// The two digits of a channel are its quotient and remainder by 16.
proof fn lemma_channel_digits(hi: char, lo: char)
    requires
        is_upper_hex_digit(hi),
        is_upper_hex_digit(lo),
    ensures
        upper_hex_digit(channel_value(hi, lo) as int / 16) == hi,
        upper_hex_digit(channel_value(hi, lo) as int % 16) == lo,
{
    lemma_digit_of_value(hi);
    lemma_digit_of_value(lo);
}

/// Round trip from text: a canonical text parses, and the colour it parses to
/// is written back as the same text.
pub proof fn lemma_parse_then_format(s: Seq<char>)
    requires
        is_canonical_hex(s),
    ensures
        parse_hex_spec(s) is Some,
        hex_text(parse_hex_spec(s).unwrap()) == s,
{
    assert forall|i: int| 1 <= i < 7 implies is_hex_digit(#[trigger] s[i]) by {
        assert(is_upper_hex_digit(s[i]));
    }
    assert(is_upper_hex_digit(s[1]));
    assert(is_upper_hex_digit(s[2]));
    assert(is_upper_hex_digit(s[3]));
    assert(is_upper_hex_digit(s[4]));
    assert(is_upper_hex_digit(s[5]));
    assert(is_upper_hex_digit(s[6]));
    lemma_channel_digits(s[1], s[2]);
    lemma_channel_digits(s[3], s[4]);
    lemma_channel_digits(s[5], s[6]);
    assert(hex_text(parse_hex_spec(s).unwrap()) =~= s);
}

/// Round trip from a colour: its text is canonical and parses to the colour.
pub proof fn lemma_format_then_parse(c: Color)
    ensures
        is_canonical_hex(hex_text(c)),
        is_hex_color(hex_text(c)),
        parse_hex_spec(hex_text(c)) == Some(c),
{
    let s = hex_text(c);
    lemma_value_of_digit(c.r as int / 16);
    lemma_value_of_digit(c.r as int % 16);
    lemma_value_of_digit(c.g as int / 16);
    lemma_value_of_digit(c.g as int % 16);
    lemma_value_of_digit(c.b as int / 16);
    lemma_value_of_digit(c.b as int % 16);
    assert forall|i: int| 1 <= i < 7 implies is_upper_hex_digit(#[trigger] s[i]) && is_hex_digit(
        s[i],
    ) by {
        if i == 1 {
        } else if i == 2 {
        } else if i == 3 {
        } else if i == 4 {
        } else if i == 5 {
        } else {
        }
    }
}

impl Color {
    /// Reads `#RRGGBB`, with hex digits of either case.
    pub fn parse_hex(text: &str) -> (r: Result<Color, InvalidHex>)
        ensures
            r == match parse_hex_spec(text@) {
                Some(c) => Ok::<Color, InvalidHex>(c),
                None => Err(InvalidHex),
            },
    {
        broadcast use is_ascii_spec_bytes;

        if !text.is_ascii() {
            assert(!is_hex_color(text@)) by {
                if is_hex_color(text@) {
                    assert forall|i: int| 0 <= i < text@.len() implies '\0' <= #[trigger] text@[i]
                        <= '\u{7f}' by {
                        if i >= 1 {
                            assert(is_hex_digit(text@[i]));
                        }
                    }
                }
            }
            return Err(InvalidHex);
        }
        let bytes = text.as_bytes();
        if bytes.len() != 7 {
            return Err(InvalidHex);
        }
        assert(text@.len() == 7);
        assert(forall|i: int| 0 <= i < 7 ==> bytes@[i] == text@[i] as u8);
        assert(forall|i: int| 0 <= i < 7 ==> (#[trigger] bytes@[i]) as char == text@[i]);
        if bytes[0] != 35 {
            return Err(InvalidHex);
        }
        let d1 = hex_digit_value(bytes[1]);
        let d2 = hex_digit_value(bytes[2]);
        let d3 = hex_digit_value(bytes[3]);
        let d4 = hex_digit_value(bytes[4]);
        let d5 = hex_digit_value(bytes[5]);
        let d6 = hex_digit_value(bytes[6]);
        match (d1, d2, d3, d4, d5, d6) {
            (Some(a), Some(b), Some(c), Some(d), Some(e), Some(f)) => {
                assert(is_hex_color(text@));
                Ok(Color { r: a * 16 + b, g: c * 16 + d, b: e * 16 + f })
            },
            _ => {
                assert(!is_hex_color(text@)) by {
                    if is_hex_color(text@) {
                        assert(is_hex_digit(text@[1]));
                        assert(is_hex_digit(text@[2]));
                        assert(is_hex_digit(text@[3]));
                        assert(is_hex_digit(text@[4]));
                        assert(is_hex_digit(text@[5]));
                        assert(is_hex_digit(text@[6]));
                    }
                }
                Err(InvalidHex)
            },
        }
    }

    /// Writes the colour as `#` and six upper-case hex digits.
    pub fn to_hex(&self) -> (s: String)
        ensures
            s@ == hex_text(*self),
    {
        proof {
            reveal_strlit("#");
        }
        let mut out = String::from_str("#");
        out.append(upper_hex_digit_str(self.r / 16));
        out.append(upper_hex_digit_str(self.r % 16));
        out.append(upper_hex_digit_str(self.g / 16));
        out.append(upper_hex_digit_str(self.g % 16));
        out.append(upper_hex_digit_str(self.b / 16));
        out.append(upper_hex_digit_str(self.b % 16));
        assert(out@ =~= hex_text(*self));
        out
    }
}

} // verus!
