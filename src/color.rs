use vstd::prelude::*;

verus! {

/// A color of three 8-bit channels.
#[derive(Clone, Copy, Debug, PartialEq, Eq, Structural)]
pub struct Color {
    pub red: u8,
    pub green: u8,
    pub blue: u8,
}

/// The sixteen hexadecimal digits, upper case, in order of value.
pub open spec fn hex_digits() -> Seq<char> {
    seq!['0', '1', '2', '3', '4', '5', '6', '7', '8', '9', 'A', 'B', 'C', 'D', 'E', 'F']
}

/// The digit of value `n`, for `0 <= n < 16`.
pub open spec fn hex_char(n: int) -> char
    recommends
        0 <= n < 16,
{
    hex_digits()[n]
}

/// Two digits for a byte, the high one first.
pub open spec fn hex_byte(b: u8) -> Seq<char> {
    seq![hex_char(b as int / 16), hex_char(b as int % 16)]
}

/// `#RRGGBB`: a `#` and two digits per channel, red, green, then blue.
pub open spec fn hex_of(c: Color) -> Seq<char> {
    seq!['#'] + hex_byte(c.red) + hex_byte(c.green) + hex_byte(c.blue)
}

pub open spec fn is_upper_hex_digit(c: char) -> bool {
    ('0' <= c && c <= '9') || ('A' <= c && c <= 'F')
}

/// The text has the shape `#` followed by six upper-case hexadecimal digits.
pub open spec fn is_hex_color(s: Seq<char>) -> bool {
    &&& s.len() == 7
    &&& s[0] == '#'
    &&& forall|i: int| 1 <= i < 7 ==> is_upper_hex_digit(#[trigger] s[i])
}

/// The color that a pixel buffer starts with: its first three bytes as red,
/// green and blue, or nothing when it holds fewer than three.
pub open spec fn color_of_pixels(pixels: Seq<u8>) -> Option<Color> {
    if pixels.len() >= 3 {
        Some(Color { red: pixels[0], green: pixels[1], blue: pixels[2] })
    } else {
        None
    }
}

/// The digit of value `n` as a one-character string.
fn hex_digit(n: u8) -> (r: &'static str)
    requires
        n < 16,
    ensures
        r@ == seq![hex_char(n as int)],
{
    match n {
        0 => { proof { reveal_strlit("0"); } "0" },
        1 => { proof { reveal_strlit("1"); } "1" },
        2 => { proof { reveal_strlit("2"); } "2" },
        3 => { proof { reveal_strlit("3"); } "3" },
        4 => { proof { reveal_strlit("4"); } "4" },
        5 => { proof { reveal_strlit("5"); } "5" },
        6 => { proof { reveal_strlit("6"); } "6" },
        7 => { proof { reveal_strlit("7"); } "7" },
        8 => { proof { reveal_strlit("8"); } "8" },
        9 => { proof { reveal_strlit("9"); } "9" },
        10 => { proof { reveal_strlit("A"); } "A" },
        11 => { proof { reveal_strlit("B"); } "B" },
        12 => { proof { reveal_strlit("C"); } "C" },
        13 => { proof { reveal_strlit("D"); } "D" },
        14 => { proof { reveal_strlit("E"); } "E" },
        _ => { proof { reveal_strlit("F"); } "F" },
    }
}

/// Appends the two digits of `b` to `s`.
fn push_hex_byte(s: &mut String, b: u8)
    ensures
        final(s)@ == old(s)@ + hex_byte(b),
{
    s.append(hex_digit(b / 16));
    s.append(hex_digit(b % 16));
    assert(final(s)@ =~= old(s)@ + hex_byte(b));
}

impl Color {
    /// The color as `#RRGGBB`, with upper-case digits.
    pub fn to_hex(&self) -> (r: String)
        ensures
            r@ == hex_of(*self),
            is_hex_color(r@),
    {
        proof { reveal_strlit("#"); }
        let mut s = String::from_str("#");
        push_hex_byte(&mut s, self.red);
        push_hex_byte(&mut s, self.green);
        push_hex_byte(&mut s, self.blue);
        proof { lemma_hex_of_is_hex_color(*self); }
        s
    }
}

/// Every `#RRGGBB` string that a color gives has the shape `#` and six
/// upper-case hexadecimal digits.
pub proof fn lemma_hex_of_is_hex_color(c: Color)
    ensures
        is_hex_color(hex_of(c)),
{
    let s = hex_of(c);
    assert forall|i: int| 0 <= i < 16 implies is_upper_hex_digit(#[trigger] hex_char(i)) by {
        assert(is_upper_hex_digit(hex_digits()[i]));
    }
    assert(s[1] == hex_char(c.red as int / 16));
    assert(s[2] == hex_char(c.red as int % 16));
    assert(s[3] == hex_char(c.green as int / 16));
    assert(s[4] == hex_char(c.green as int % 16));
    assert(s[5] == hex_char(c.blue as int / 16));
    assert(s[6] == hex_char(c.blue as int % 16));
}

/// The color that a captured pixel buffer starts with.
///
/// The buffer holds the channels of a single pixel, red first; any bytes
/// after the third (alpha) are ignored. A buffer of fewer than three bytes
/// gives `InsufficientPixelData`.
pub fn pixel_color(pixels: &[u8]) -> (r: Result<Color, crate::error::PickError>)
    ensures
        pixels@.len() >= 3 <==> r.is_ok(),
        r.is_ok() ==> Some(r->Ok_0) == color_of_pixels(pixels@),
        r.is_err() ==> r->Err_0 == crate::error::PickError::InsufficientPixelData,
{
    if pixels.len() >= 3 {
        Ok(Color { red: pixels[0], green: pixels[1], blue: pixels[2] })
    } else {
        Err(crate::error::PickError::InsufficientPixelData)
    }
}

/// The `#RRGGBB` string of the color that a captured pixel buffer starts
/// with, or `InsufficientPixelData`.
pub fn sample_hex(pixels: &[u8]) -> (r: Result<String, crate::error::PickError>)
    ensures
        match color_of_pixels(pixels@) {
            Some(c) => r.is_ok() && r->Ok_0@ == hex_of(c),
            None => r == Err::<String, _>(crate::error::PickError::InsufficientPixelData),
        },
        r.is_ok() ==> is_hex_color(r->Ok_0@),
{
    match pixel_color(pixels) {
        Ok(c) => Ok(c.to_hex()),
        Err(e) => Err(e),
    }
}

} // verus!
