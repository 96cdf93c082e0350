//! The `<color>` type: hexadecimal notations and color keywords.

use vstd::prelude::*;
use vstd::string::StringSliceAdditionalSpecFns;
use vstd::utf8::*;

use crate::color_names::{find_named_color, named_color};
use crate::error::{Error, ErrorView};
use crate::stream::{char_pos, lemma_skip_while, lemma_skip_while_boundary, skip_while, ByteClass, Stream};
use crate::text::lemma_boundary_after_ascii;

verus! {

broadcast use vstd::utf8::group_utf8_lib;

/// An 8-bit RGBA color.
#[derive(Clone, Copy, PartialEq, Eq, Debug)]
pub struct Color {
    pub red: u8,
    pub green: u8,
    pub blue: u8,
    pub alpha: u8,
}

impl Color {
    /// An opaque color.
    pub fn new_rgb(red: u8, green: u8, blue: u8) -> (c: Color)
        ensures
            c == (Color { red, green, blue, alpha: 255 }),
    {
        Color { red, green, blue, alpha: 255 }
    }

    /// A color with the given opacity.
    pub fn new_rgba(red: u8, green: u8, blue: u8, alpha: u8) -> (c: Color)
        ensures
            c == (Color { red, green, blue, alpha }),
    {
        Color { red, green, blue, alpha }
    }

    /// Opaque black.
    pub fn black() -> (c: Color)
        ensures
            c == (Color { red: 0, green: 0, blue: 0, alpha: 255 }),
    {
        Color::new_rgb(0, 0, 0)
    }

    /// Opaque white.
    pub fn white() -> (c: Color)
        ensures
            c == (Color { red: 255, green: 255, blue: 255, alpha: 255 }),
    {
        Color::new_rgb(255, 255, 255)
    }

    /// Opaque red.
    pub fn red() -> (c: Color)
        ensures
            c == (Color { red: 255, green: 0, blue: 0, alpha: 255 }),
    {
        Color::new_rgb(255, 0, 0)
    }

    /// Opaque green (`#008000`, the CSS keyword `green`).
    pub fn green() -> (c: Color)
        ensures
            c == (Color { red: 0, green: 128, blue: 0, alpha: 255 }),
    {
        Color::new_rgb(0, 128, 0)
    }

    /// Opaque blue.
    pub fn blue() -> (c: Color)
        ensures
            c == (Color { red: 0, green: 0, blue: 255, alpha: 255 }),
    {
        Color::new_rgb(0, 0, 255)
    }
}

/// The value of a hexadecimal digit.
pub open spec fn hex_value(c: u8) -> int {
    if 0x30 <= c <= 0x39 {
        c - 0x30
    } else if 0x41 <= c <= 0x46 {
        c - 0x37
    } else {
        c - 0x57
    }
}

/// The byte that two hexadecimal digits give.
pub open spec fn hex_pair(a: u8, b: u8) -> u8 {
    (hex_value(a) * 16 + hex_value(b)) as u8
}

/// The byte that one hexadecimal digit gives when it stands for two equal digits.
pub open spec fn hex_short(a: u8) -> u8 {
    (hex_value(a) * 17) as u8
}

/// The color that the hexadecimal digits `h` after `#` give:
/// `rgb`, `rgba`, `rrggbb` or `rrggbbaa`.
pub open spec fn spec_hex_color(h: Seq<u8>) -> Option<Color> {
    if h.len() == 6 {
        Some(Color { red: hex_pair(h[0], h[1]), green: hex_pair(h[2], h[3]), blue: hex_pair(h[4], h[5]), alpha: 255 })
    } else if h.len() == 8 {
        Some(Color { red: hex_pair(h[0], h[1]), green: hex_pair(h[2], h[3]), blue: hex_pair(h[4], h[5]), alpha: hex_pair(h[6], h[7]) })
    } else if h.len() == 3 {
        Some(Color { red: hex_short(h[0]), green: hex_short(h[1]), blue: hex_short(h[2]), alpha: 255 })
    } else if h.len() == 4 {
        Some(Color { red: hex_short(h[0]), green: hex_short(h[1]), blue: hex_short(h[2]), alpha: hex_short(h[3]) })
    } else {
        None
    }
}

/// `b` with ASCII upper-case letters made lower-case.
pub open spec fn ascii_lower(b: Seq<u8>) -> Seq<u8> {
    Seq::new(b.len(), |i: int| if 0x41 <= b[i] <= 0x5a { (b[i] + 0x20) as u8 } else { b[i] })
}

/// A color at offset `p`, after optional spaces: `#` and hexadecimal digits,
/// or a color keyword in any case. The offset after it, and the color.
pub open spec fn spec_parse_color(b: Seq<u8>, p: int) -> Result<(int, Color), ErrorView> {
    let p1 = skip_while(b, p, ByteClass::Space);
    if p1 >= b.len() {
        Err(ErrorView::UnexpectedEndOfStream)
    } else if b[p1] == 0x23 {
        let e = skip_while(b, p1 + 1, ByteClass::HexDigit);
        match spec_hex_color(b.subrange(p1 + 1, e)) {
            Some(c) => Ok((e, c)),
            None => Err(ErrorView::InvalidValue),
        }
    } else {
        let e = skip_while(b, p1, ByteClass::Ident);
        match named_color(ascii_lower(b.subrange(p1, e))) {
            Some(c) => Ok((e, c)),
            None => Err(ErrorView::InvalidValue),
        }
    }
}

/// What parsing a whole text as a color gives: only spaces may follow the color.
pub open spec fn spec_color_from_str(b: Seq<u8>) -> Result<Color, ErrorView> {
    match spec_parse_color(b, 0) {
        Err(e) => Err(e),
        Ok((p, c)) => {
            let q = skip_while(b, p, ByteClass::Space);
            if q < b.len() {
                Err(ErrorView::UnexpectedData(char_pos(b, q)))
            } else {
                Ok(c)
            }
        },
    }
}

fn hex_digit_value(c: u8) -> (r: u8)
    requires
        (0x30 <= c <= 0x39) || (0x41 <= c <= 0x46) || (0x61 <= c <= 0x66),
    ensures
        r == hex_value(c),
        r < 16,
{
    if 0x30 <= c && c <= 0x39 {
        c - 0x30
    } else if 0x41 <= c && c <= 0x46 {
        c - 0x37
    } else {
        c - 0x57
    }
}

fn hex_color(h: &[u8]) -> (r: Option<Color>)
    requires
        forall|i: int| 0 <= i < h@.len() ==> ByteClass::HexDigit.spec_matches(#[trigger] h@[i]),
    ensures
        r == spec_hex_color(h@),
{
    let n = h.len();
    if n == 6 || n == 8 {
        let red = hex_digit_value(h[0]) * 16 + hex_digit_value(h[1]);
        let green = hex_digit_value(h[2]) * 16 + hex_digit_value(h[3]);
        let blue = hex_digit_value(h[4]) * 16 + hex_digit_value(h[5]);
        let alpha = if n == 8 {
            hex_digit_value(h[6]) * 16 + hex_digit_value(h[7])
        } else {
            255
        };
        Some(Color { red, green, blue, alpha })
    } else if n == 3 || n == 4 {
        let red = hex_digit_value(h[0]) * 17;
        let green = hex_digit_value(h[1]) * 17;
        let blue = hex_digit_value(h[2]) * 17;
        let alpha = if n == 4 {
            hex_digit_value(h[3]) * 17
        } else {
            255
        };
        Some(Color { red, green, blue, alpha })
    } else {
        None
    }
}

fn ascii_lowercase(b: &[u8]) -> (r: Vec<u8>)
    ensures
        r@ == ascii_lower(b@),
{
    let mut r: Vec<u8> = Vec::new();
    let mut i: usize = 0;
    while i < b.len()
        invariant
            i <= b@.len(),
            r@ =~= ascii_lower(b@).take(i as int),
        decreases b.len() - i,
    {
        let c = b[i];
        if 0x41 <= c && c <= 0x5a {
            r.push(c + 0x20);
        } else {
            r.push(c);
        }
        i = i + 1;
    }
    assert(ascii_lower(b@).take(b@.len() as int) =~= ascii_lower(b@));
    r
}

impl Color {
    /// Parses a color from a whole text; only spaces may surround it.
    ///
    /// Supported are `#rgb`, `#rgba`, `#rrggbb`, `#rrggbbaa` and the CSS
    /// color keywords, in any case.
    pub fn from_str(text: &str) -> (r: Result<Color, Error>)
        ensures
            match r {
                Ok(c) => spec_color_from_str(text.spec_bytes()) == Ok::<Color, ErrorView>(c),
                Err(e) => spec_color_from_str(text.spec_bytes()) == Err::<Color, ErrorView>(e@),
            },
    {
        let mut s = Stream::from(text);
        proof {
            is_char_boundary_start_end_of_seq(s@.bytes);
        }
        let color = s.parse_color()?;
        s.skip_spaces();
        if !s.at_end() {
            return Err(Error::UnexpectedData(s.calc_char_pos()));
        }
        Ok(color)
    }
}

impl<'a> Stream<'a> {
    /// Parses a color: `#` and hexadecimal digits, or a color keyword.
    pub fn parse_color(&mut self) -> (r: Result<Color, Error>)
        requires
            old(self).wf(),
            is_char_boundary(old(self)@.bytes, old(self)@.pos),
        ensures
            final(self).wf(),
            final(self)@.bytes == old(self)@.bytes,
            old(self)@.pos <= final(self)@.pos,
            match r {
                Ok(c) => spec_parse_color(old(self)@.bytes, old(self)@.pos) == Ok::<
                    (int, Color),
                    ErrorView,
                >((final(self)@.pos, c)),
                Err(e) => spec_parse_color(old(self)@.bytes, old(self)@.pos) == Err::<
                    (int, Color),
                    ErrorView,
                >(e@),
            },
    {
        let ghost b = self@.bytes;
        proof {
            lemma_skip_while(b, self@.pos, ByteClass::Space);
            lemma_skip_while_boundary(b, self@.pos, ByteClass::Space);
        }
        self.skip_spaces();
        let c = self.curr_byte()?;
        if c == 0x23 {
            self.advance(1);
            proof {
                lemma_boundary_after_ascii(b, self@.pos);
                lemma_skip_while(b, self@.pos, ByteClass::HexDigit);
            }
            let start = self.pos();
            let digits = self.consume_bytes(ByteClass::HexDigit);
            let h = digits.as_bytes();
            proof {
                assert forall|i: int| 0 <= i < h@.len() implies ByteClass::HexDigit.spec_matches(
                    #[trigger] h@[i],
                ) by {
                    assert(h@[i] == b[start + i]);
                }
            }
            match hex_color(h) {
                Some(color) => Ok(color),
                None => Err(Error::InvalidValue),
            }
        } else {
            proof {
                lemma_skip_while(b, self@.pos, ByteClass::Ident);
            }
            let name = self.consume_ascii_ident();
            let lower = ascii_lowercase(name.as_bytes());
            match find_named_color(lower.as_slice()) {
                Some(color) => Ok(color),
                None => Err(Error::InvalidValue),
            }
        }
    }
}

} // verus!
