//! RGB colors and their `#RRGGBB` notation.

use vstd::prelude::*;

verus! {

/// An RGB color, one byte per channel.
#[derive(Clone, Copy, PartialEq, Eq, Hash, Debug, Structural)]
pub struct Color {
    pub r: u8,
    pub g: u8,
    pub b: u8,
}

/// White.
#[allow(non_snake_case)]
pub fn WHITE() -> (c: Color)
    ensures
        c == (Color { r: 255, g: 255, b: 255 }),
{
    Color { r: 255, g: 255, b: 255 }
}

/// Black.
#[allow(non_snake_case)]
pub fn BLACK() -> (c: Color)
    ensures
        c == (Color { r: 0, g: 0, b: 0 }),
{
    Color { r: 0, g: 0, b: 0 }
}

/// Mid gray.
#[allow(non_snake_case)]
pub fn GRAY() -> (c: Color)
    ensures
        c == (Color { r: 128, g: 128, b: 128 }),
{
    Color { r: 128, g: 128, b: 128 }
}

/// Red.
#[allow(non_snake_case)]
pub fn RED() -> (c: Color)
    ensures
        c == (Color { r: 255, g: 0, b: 0 }),
{
    Color { r: 255, g: 0, b: 0 }
}

/// Blue.
#[allow(non_snake_case)]
pub fn BLUE() -> (c: Color)
    ensures
        c == (Color { r: 0, g: 0, b: 255 }),
{
    Color { r: 0, g: 0, b: 255 }
}

/// Green.
#[allow(non_snake_case)]
pub fn GREEN() -> (c: Color)
    ensures
        c == (Color { r: 0, g: 255, b: 0 }),
{
    Color { r: 0, g: 255, b: 0 }
}

/// Yellow.
#[allow(non_snake_case)]
pub fn YELLOW() -> (c: Color)
    ensures
        c == (Color { r: 255, g: 255, b: 0 }),
{
    Color { r: 255, g: 255, b: 0 }
}

/// Cyan.
#[allow(non_snake_case)]
pub fn CYAN() -> (c: Color)
    ensures
        c == (Color { r: 0, g: 255, b: 255 }),
{
    Color { r: 0, g: 255, b: 255 }
}

/// Magenta.
#[allow(non_snake_case)]
pub fn MAGENTA() -> (c: Color)
    ensures
        c == (Color { r: 255, g: 0, b: 255 }),
{
    Color { r: 255, g: 0, b: 255 }
}

/// The upper-case hexadecimal digit of `d` (for `d < 16`).
pub open spec fn hex_digit_char(d: nat) -> char {
    if d == 0 {
        '0'
    } else if d == 1 {
        '1'
    } else if d == 2 {
        '2'
    } else if d == 3 {
        '3'
    } else if d == 4 {
        '4'
    } else if d == 5 {
        '5'
    } else if d == 6 {
        '6'
    } else if d == 7 {
        '7'
    } else if d == 8 {
        '8'
    } else if d == 9 {
        '9'
    } else if d == 10 {
        'A'
    } else if d == 11 {
        'B'
    } else if d == 12 {
        'C'
    } else if d == 13 {
        'D'
    } else if d == 14 {
        'E'
    } else {
        'F'
    }
}

/// The value of a hexadecimal digit of either case, `None` for any other
/// character.
pub open spec fn hex_digit_value(c: char) -> Option<nat> {
    if c == '0' {
        Some(0)
    } else if c == '1' {
        Some(1)
    } else if c == '2' {
        Some(2)
    } else if c == '3' {
        Some(3)
    } else if c == '4' {
        Some(4)
    } else if c == '5' {
        Some(5)
    } else if c == '6' {
        Some(6)
    } else if c == '7' {
        Some(7)
    } else if c == '8' {
        Some(8)
    } else if c == '9' {
        Some(9)
    } else if c == 'A' || c == 'a' {
        Some(10)
    } else if c == 'B' || c == 'b' {
        Some(11)
    } else if c == 'C' || c == 'c' {
        Some(12)
    } else if c == 'D' || c == 'd' {
        Some(13)
    } else if c == 'E' || c == 'e' {
        Some(14)
    } else if c == 'F' || c == 'f' {
        Some(15)
    } else {
        None
    }
}

/// Two upper-case hexadecimal digits for one byte.
pub open spec fn hex_byte(v: u8) -> Seq<char> {
    seq![hex_digit_char((v / 16) as nat), hex_digit_char((v % 16) as nat)]
}

/// The `#RRGGBB` notation of a color.
pub open spec fn hex_string(c: Color) -> Seq<char> {
    seq!['#'] + hex_byte(c.r) + hex_byte(c.g) + hex_byte(c.b)
}

/// The text after one optional leading `#`.
pub open spec fn strip_hash(s: Seq<char>) -> Seq<char> {
    if s.len() > 0 && s[0] == '#' {
        s.subrange(1, s.len() as int)
    } else {
        s
    }
}

/// The byte written by the two characters of `digits` that start at `at`:
/// their hexadecimal value when both are there and both are hexadecimal
/// digits, zero otherwise.
pub open spec fn hex_pair_value(digits: Seq<char>, at: int) -> u8 {
    if 0 <= at && at + 2 <= digits.len() {
        match (hex_digit_value(digits[at]), hex_digit_value(digits[at + 1])) {
            (Some(hi), Some(lo)) => (hi * 16 + lo) as u8,
            _ => 0,
        }
    } else {
        0
    }
}

/// The color that a text denotes: after one optional leading `#`, three
/// pairs of hexadecimal digits give red, green and blue. A pair that is
/// missing or malformed gives zero; whatever follows the third pair is
/// ignored.
pub open spec fn parse_hex(s: Seq<char>) -> Color {
    let digits = strip_hash(s);
    Color {
        r: hex_pair_value(digits, 0),
        g: hex_pair_value(digits, 2),
        b: hex_pair_value(digits, 4),
    }
}

/// The text of one upper-case hexadecimal digit.
fn hex_digit_of(d: u8) -> (s: &'static str)
    requires
        d < 16,
    ensures
        s@ == seq![hex_digit_char(d as nat)],
{
    proof {
        reveal_strlit("0");
        reveal_strlit("1");
        reveal_strlit("2");
        reveal_strlit("3");
        reveal_strlit("4");
        reveal_strlit("5");
        reveal_strlit("6");
        reveal_strlit("7");
        reveal_strlit("8");
        reveal_strlit("9");
        reveal_strlit("A");
        reveal_strlit("B");
        reveal_strlit("C");
        reveal_strlit("D");
        reveal_strlit("E");
        reveal_strlit("F");
    }
    let s = if d == 0 {
        "0"
    } else if d == 1 {
        "1"
    } else if d == 2 {
        "2"
    } else if d == 3 {
        "3"
    } else if d == 4 {
        "4"
    } else if d == 5 {
        "5"
    } else if d == 6 {
        "6"
    } else if d == 7 {
        "7"
    } else if d == 8 {
        "8"
    } else if d == 9 {
        "9"
    } else if d == 10 {
        "A"
    } else if d == 11 {
        "B"
    } else if d == 12 {
        "C"
    } else if d == 13 {
        "D"
    } else if d == 14 {
        "E"
    } else {
        "F"
    };
    assert(s@ =~= seq![hex_digit_char(d as nat)]);
    s
}

fn hex_value_of(c: char) -> (v: Option<u8>)
    ensures
        match v {
            Some(d) => hex_digit_value(c) == Some(d as nat) && d < 16,
            None => hex_digit_value(c) is None,
        },
{
    if c == '0' {
        Some(0)
    } else if c == '1' {
        Some(1)
    } else if c == '2' {
        Some(2)
    } else if c == '3' {
        Some(3)
    } else if c == '4' {
        Some(4)
    } else if c == '5' {
        Some(5)
    } else if c == '6' {
        Some(6)
    } else if c == '7' {
        Some(7)
    } else if c == '8' {
        Some(8)
    } else if c == '9' {
        Some(9)
    } else if c == 'A' || c == 'a' {
        Some(10)
    } else if c == 'B' || c == 'b' {
        Some(11)
    } else if c == 'C' || c == 'c' {
        Some(12)
    } else if c == 'D' || c == 'd' {
        Some(13)
    } else if c == 'E' || c == 'e' {
        Some(14)
    } else if c == 'F' || c == 'f' {
        Some(15)
    } else {
        None
    }
}

fn push_hex_byte(out: &mut String, v: u8)
    ensures
        final(out)@ == old(out)@ + hex_byte(v),
{
    out.append(hex_digit_of(v / 16));
    out.append(hex_digit_of(v % 16));
    assert(out@ =~= old(out)@ + hex_byte(v));
}

/// Appends the `#RRGGBB` notation of `c` to `out`.
pub fn push_color(out: &mut String, c: Color)
    ensures
        final(out)@ == old(out)@ + hex_string(c),
{
    proof {
        reveal_strlit("#");
    }
    out.append("#");
    push_hex_byte(out, c.r);
    push_hex_byte(out, c.g);
    push_hex_byte(out, c.b);
    assert(out@ =~= old(out)@ + hex_string(c));
}

fn read_hex_pair(s: &str, len: usize, skip: usize, at: usize) -> (v: u8)
    requires
        len == s@.len(),
        skip <= 1,
        at <= 4,
        skip <= len,
    ensures
        v == hex_pair_value(s@.subrange(skip as int, len as int), at as int),
{
    if len - skip < at + 2 {
        return 0;
    }
    let hi = hex_value_of(s.get_char(skip + at));
    let lo = hex_value_of(s.get_char(skip + at + 1));
    match (hi, lo) {
        (Some(h), Some(l)) => h * 16 + l,
        _ => 0,
    }
}

impl Color {
    pub fn new(r: u8, g: u8, b: u8) -> (c: Color)
        ensures
            c == (Color { r, g, b }),
    {
        Color { r, g, b }
    }

    /// The color as `#RRGGBB`, upper case.
    pub fn to_hex_string(&self) -> (s: String)
        ensures
            s@ == hex_string(*self),
    {
        let mut out = String::new();
        push_color(&mut out, *self);
        out
    }

    /// Reads a color from its hexadecimal notation. Never fails: what cannot
    /// be read counts as zero.
    pub fn from_hex(s: &str) -> (c: Color)
        ensures
            c == parse_hex(s@),
    {
        let len = s.unicode_len();
        let skip: usize = if len > 0 && s.get_char(0) == '#' {
            1
        } else {
            0
        };
        assert(strip_hash(s@) =~= s@.subrange(skip as int, len as int));
        let r = read_hex_pair(s, len, skip, 0);
        let g = read_hex_pair(s, len, skip, 2);
        let b = read_hex_pair(s, len, skip, 4);
        Color { r, g, b }
    }

    /// A number that identifies the color: `0xRRGGBB`.
    pub open spec fn spec_code(&self) -> u64 {
        (self.r as u64 * 65536 + self.g as u64 * 256 + self.b as u64) as u64
    }

    #[verifier::when_used_as_spec(spec_code)]
    pub fn code(&self) -> (k: u64)
        ensures
            k == self.spec_code(),
    {
        let r: u64 = self.r as u64;
        let g: u64 = self.g as u64;
        let b: u64 = self.b as u64;
        r * 65536 + g * 256 + b
    }
}

impl From<&String> for Color {
    fn from(s: &String) -> (c: Color) {
        Color::from_hex(s.as_str())
    }
}

impl vstd::std_specs::convert::FromSpecImpl<&String> for Color {
    open spec fn obeys_from_spec() -> bool {
        true
    }

    open spec fn from_spec(s: &String) -> Color {
        parse_hex(s@)
    }
}

/// Writing a color and reading the text back gives the same color.
pub proof fn lemma_hex_round_trip(c: Color)
    ensures
        parse_hex(hex_string(c)) == c,
{
    let s = hex_string(c);
    let digits = strip_hash(s);
    assert(digits =~= hex_byte(c.r) + hex_byte(c.g) + hex_byte(c.b));
    lemma_hex_byte_round_trip(c.r);
    lemma_hex_byte_round_trip(c.g);
    lemma_hex_byte_round_trip(c.b);
    assert(digits[0] == hex_byte(c.r)[0] && digits[1] == hex_byte(c.r)[1]);
    assert(digits[2] == hex_byte(c.g)[0] && digits[3] == hex_byte(c.g)[1]);
    assert(digits[4] == hex_byte(c.b)[0] && digits[5] == hex_byte(c.b)[1]);
}

/// The two digits of a byte read back as that byte.
pub proof fn lemma_hex_byte_round_trip(v: u8)
    ensures
        hex_pair_value(hex_byte(v), 0) == v,
        hex_digit_value(hex_byte(v)[0]) == Some((v / 16) as nat),
        hex_digit_value(hex_byte(v)[1]) == Some((v % 16) as nat),
{
    let hi = (v / 16) as nat;
    let lo = (v % 16) as nat;
    assert(hi < 16 && lo < 16);
    assert(hex_digit_value(hex_digit_char(hi)) == Some(hi));
    assert(hex_digit_value(hex_digit_char(lo)) == Some(lo));
    assert(hi * 16 + lo == v);
}

/// Different colors have different codes.
pub proof fn lemma_code_injective(a: Color, b: Color)
    requires
        a.spec_code() == b.spec_code(),
    ensures
        a == b,
{
}

} // verus!
