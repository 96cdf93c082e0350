//! The `<angle>` type: everything but turning the number's text into a float.

use vstd::prelude::*;
use vstd::string::StringSliceAdditionalSpecFns;
use vstd::utf8::*;

use crate::error::{Error, ErrorView};
use crate::stream::{char_pos, lemma_skip_while, skip_while, starts_with_at, ByteClass, Stream};
use crate::text::{ascii_literal, lemma_boundary_after_ascii, lemma_boundary_at_start_byte};
use crate::variable::{
    fallback_of, spec_parse_var_func, var_open, VariableFallback, VariableFunction,
    VariableFunctionView,
};

verus! {

broadcast use vstd::utf8::group_utf8_lib;

/// List of all SVG angle units.
#[derive(Clone, Copy, PartialEq, Eq, Debug)]
pub enum AngleUnit {
    Degrees,
    Gradians,
    Radians,
    Turns,
}

/// `+` or `-`.
pub open spec fn is_sign(c: u8) -> bool {
    c == 0x2b || c == 0x2d
}

/// `0-9`.
pub open spec fn is_digit(c: u8) -> bool {
    0x30 <= c <= 0x39
}

/// The end of the number that starts at offset `p` and whether Rust's float
/// syntax accepts it: an optional sign, digits with an optional fraction (at
/// least one digit in all), and an optional exponent. An `e` or `E` followed
/// by `m` or `x` starts a unit (`em`, `ex`), not an exponent. `None` where
/// no number can start or the text ends inside the exponent marker.
pub open spec fn spec_number_end(b: Seq<u8>, p: int) -> Option<(int, bool)> {
    let i0 = if is_sign(b[p]) { p + 1 } else { p };
    if i0 >= b.len() {
        None
    } else if !is_digit(b[i0]) && b[i0] != 0x2e {
        None
    } else {
        let i1 = skip_while(b, i0, ByteClass::Digit);
        let i2 = if i1 < b.len() && b[i1] == 0x2e {
            skip_while(b, i1 + 1, ByteClass::Digit)
        } else {
            i1
        };
        let mantissa_digits = i1 > i0 || i2 > i1 + 1;
        if i2 < b.len() && (b[i2] == 0x65 || b[i2] == 0x45) {
            if i2 + 1 >= b.len() {
                None
            } else if b[i2 + 1] == 0x6d || b[i2 + 1] == 0x78 {
                Some((i2, mantissa_digits))
            } else if is_sign(b[i2 + 1]) {
                let i3 = skip_while(b, i2 + 2, ByteClass::Digit);
                Some((i3, mantissa_digits && i3 > i2 + 2))
            } else if is_digit(b[i2 + 1]) {
                Some((skip_while(b, i2 + 1, ByteClass::Digit), mantissa_digits))
            } else {
                None
            }
        } else {
            Some((i2, mantissa_digits))
        }
    }
}

/// The text of a number at offset `p`, after optional spaces: the offset
/// after it and its bytes, or `InvalidNumber` at the number's position.
pub open spec fn spec_parse_number_text(b: Seq<u8>, p: int) -> Result<(int, Seq<u8>), ErrorView> {
    let start = skip_while(b, p, ByteClass::Space);
    if start >= b.len() {
        Err(ErrorView::InvalidNumber(char_pos(b, start)))
    } else {
        match spec_number_end(b, start) {
            Some((end, true)) => Ok((end, b.subrange(start, end))),
            _ => Err(ErrorView::InvalidNumber(char_pos(b, start))),
        }
    }
}

/// `deg`
pub open spec fn unit_deg() -> Seq<u8> {
    seq![0x64u8, 0x65, 0x67]
}

/// `grad`
pub open spec fn unit_grad() -> Seq<u8> {
    seq![0x67u8, 0x72, 0x61, 0x64]
}

/// `rad`
pub open spec fn unit_rad() -> Seq<u8> {
    seq![0x72u8, 0x61, 0x64]
}

/// `turn`
pub open spec fn unit_turn() -> Seq<u8> {
    seq![0x74u8, 0x75, 0x72, 0x6e]
}

/// The unit suffix at offset `q`, lowercase only, and the offset after it;
/// no known suffix (or the end of the text) means degrees and consumes nothing.
pub open spec fn spec_angle_unit(b: Seq<u8>, q: int) -> (int, AngleUnit) {
    if q >= b.len() {
        (q, AngleUnit::Degrees)
    } else if starts_with_at(b, q, unit_deg()) {
        (q + 3, AngleUnit::Degrees)
    } else if starts_with_at(b, q, unit_grad()) {
        (q + 4, AngleUnit::Gradians)
    } else if starts_with_at(b, q, unit_rad()) {
        (q + 3, AngleUnit::Radians)
    } else if starts_with_at(b, q, unit_turn()) {
        (q + 4, AngleUnit::Turns)
    } else {
        (q, AngleUnit::Degrees)
    }
}

/// An angle as read from text, before its number is turned into a float.
#[derive(Clone, Copy, PartialEq, Eq, Debug)]
pub enum AngleParts<'a> {
    /// A number with a unit. `number` is text that Rust's float syntax
    /// accepts; `position` is where it starts, in characters from 1.
    Discrete { number: &'a str, position: usize, unit: AngleUnit },
    /// A `var()` function.
    Variable(VariableFunction<'a>),
}

/// Angle parts as a mathematical value.
pub enum AnglePartsView {
    Discrete { number: Seq<u8>, position: int, unit: AngleUnit },
    Variable(VariableFunctionView),
}

impl<'a> View for AngleParts<'a> {
    type V = AnglePartsView;

    open spec fn view(&self) -> AnglePartsView {
        match self {
            AngleParts::Discrete { number, position, unit } => AnglePartsView::Discrete {
                number: number.spec_bytes(),
                position: *position as int,
                unit: *unit,
            },
            AngleParts::Variable(v) => AnglePartsView::Variable(v@),
        }
    }
}

/// An angle at offset `p`, after optional spaces: a `var()` function, or a
/// number with an optional unit. The offset after it and its parts.
pub open spec fn spec_parse_angle_parts(b: Seq<u8>, p: int) -> Result<(int, AnglePartsView), ErrorView> {
    let p1 = skip_while(b, p, ByteClass::Space);
    if starts_with_at(b, p1, var_open()) {
        match spec_parse_var_func(b, p1) {
            Err(e) => Err(e),
            Ok((np, name, value)) => Ok(
                (
                    np,
                    AnglePartsView::Variable(
                        VariableFunctionView { variable: name, fallback: fallback_of(value) },
                    ),
                ),
            ),
        }
    } else {
        match spec_parse_number_text(b, p1) {
            Err(e) => Err(e),
            Ok((q, number)) => {
                let (np, unit) = spec_angle_unit(b, q);
                Ok((np, AnglePartsView::Discrete { number, position: char_pos(b, p1), unit }))
            },
        }
    }
}

/// What parsing a whole text as angle parts gives: the angle must end the text.
pub open spec fn spec_angle_parts_from_str(b: Seq<u8>) -> Result<AnglePartsView, ErrorView> {
    match spec_parse_angle_parts(b, 0) {
        Err(e) => Err(e),
        Ok((p, a)) => if p < b.len() {
            Err(ErrorView::UnexpectedData(char_pos(b, p)))
        } else {
            Ok(a)
        },
    }
}

impl<'a> AngleParts<'a> {
    /// Parses the parts of an angle from a whole text; nothing may follow it.
    pub fn from_str(text: &'a str) -> (r: Result<Self, Error>)
        ensures
            match r {
                Ok(a) => spec_angle_parts_from_str(text.spec_bytes()) == Ok::<
                    AnglePartsView,
                    ErrorView,
                >(a@),
                Err(e) => spec_angle_parts_from_str(text.spec_bytes()) == Err::<
                    AnglePartsView,
                    ErrorView,
                >(e@),
            },
    {
        let mut s = Stream::from(text);
        let a = s.parse_angle_parts()?;
        if !s.at_end() {
            return Err(Error::UnexpectedData(s.calc_char_pos()));
        }
        Ok(a)
    }
}

impl<'a> Stream<'a> {
    /// Reads the text of a number: an optional sign, digits with an optional
    /// fraction, and an optional exponent, in a form that Rust's float syntax
    /// accepts.
    pub fn parse_number_text(&mut self) -> (r: Result<&'a str, Error>)
        requires
            old(self).wf(),
        ensures
            final(self).wf(),
            final(self)@.bytes == old(self)@.bytes,
            old(self)@.pos <= final(self)@.pos,
            match r {
                Ok(v) => spec_parse_number_text(old(self)@.bytes, old(self)@.pos) matches Ok(
                    (np, m),
                ) && final(self)@.pos == np && v.spec_bytes() == m,
                Err(e) => spec_parse_number_text(old(self)@.bytes, old(self)@.pos) == Err::<
                    (int, Seq<u8>),
                    ErrorView,
                >(e@),
            },
    {
        let ghost b = self@.bytes;
        proof {
            lemma_skip_while(b, self@.pos, ByteClass::Space);
        }
        self.skip_spaces();
        let start = self.pos();
        if self.at_end() {
            return Err(Error::InvalidNumber(self.calc_char_pos_at(start)));
        }
        let mut c = self.curr_byte_or_zero();
        if c == 0x2b || c == 0x2d {
            self.advance(1);
            if self.at_end() {
                return Err(Error::InvalidNumber(self.calc_char_pos_at(start)));
            }
            c = self.curr_byte_or_zero();
        }
        let i0 = self.pos();
        if !(0x30 <= c && c <= 0x39) && c != 0x2e {
            return Err(Error::InvalidNumber(self.calc_char_pos_at(start)));
        }
        proof {
            lemma_skip_while(b, self@.pos, ByteClass::Digit);
        }
        self.skip_bytes(ByteClass::Digit);
        let i1 = self.pos();
        let mut has_digits = i1 > i0;
        if !self.at_end() && self.curr_byte_or_zero() == 0x2e {
            self.advance(1);
            proof {
                lemma_skip_while(b, self@.pos, ByteClass::Digit);
            }
            self.skip_bytes(ByteClass::Digit);
            has_digits = has_digits || self.pos() > i1 + 1;
        }
        let i2 = self.pos();
        if !self.at_end() && (self.curr_byte_or_zero() == 0x65 || self.curr_byte_or_zero() == 0x45) {
            let c2 = match self.next_byte() {
                Ok(c2) => c2,
                Err(_) => {
                    return Err(Error::InvalidNumber(self.calc_char_pos_at(start)));
                },
            };
            // `em` and `ex` are units, not exponents.
            if c2 != 0x6d && c2 != 0x78 {
                self.advance(1);
                let c3 = self.curr_byte_or_zero();
                if c3 == 0x2b || c3 == 0x2d {
                    self.advance(1);
                    proof {
                        lemma_skip_while(b, self@.pos, ByteClass::Digit);
                    }
                    self.skip_bytes(ByteClass::Digit);
                    has_digits = has_digits && self.pos() > i2 + 2;
                } else if 0x30 <= c3 && c3 <= 0x39 {
                    proof {
                        lemma_skip_while(b, self@.pos, ByteClass::Digit);
                    }
                    self.skip_bytes(ByteClass::Digit);
                } else {
                    return Err(Error::InvalidNumber(self.calc_char_pos_at(start)));
                }
            }
        }
        if !has_digits {
            return Err(Error::InvalidNumber(self.calc_char_pos_at(start)));
        }
        proof {
            lemma_boundary_at_start_byte(b, start as int);
            lemma_boundary_after_ascii(b, self@.pos);
        }
        Ok(self.slice_back(start))
    }

    /// Parses the parts of an angle: a `var()` function, or a number and an
    /// optional unit suffix, which must be lowercase.
    pub fn parse_angle_parts(&mut self) -> (r: Result<AngleParts<'a>, Error>)
        requires
            old(self).wf(),
        ensures
            final(self).wf(),
            final(self)@.bytes == old(self)@.bytes,
            old(self)@.pos <= final(self)@.pos,
            match r {
                Ok(v) => spec_parse_angle_parts(old(self)@.bytes, old(self)@.pos) == Ok::<
                    (int, AnglePartsView),
                    ErrorView,
                >((final(self)@.pos, v@)),
                Err(e) => spec_parse_angle_parts(old(self)@.bytes, old(self)@.pos) == Err::<
                    (int, AnglePartsView),
                    ErrorView,
                >(e@),
            },
    {
        let ghost b = self@.bytes;
        proof {
            lemma_skip_while(b, self@.pos, ByteClass::Space);
            reveal_strlit("var(");
            reveal_strlit("deg");
            reveal_strlit("grad");
            reveal_strlit("rad");
            reveal_strlit("turn");
        }
        self.skip_spaces();
        let ghost p1 = self@.pos;
        if self.starts_with(ascii_literal("var(", Ghost(var_open()))) {
            proof {
                assert(b[p1] == b.subrange(p1, p1 + 4)[0]);
                lemma_boundary_at_start_byte(b, p1);
            }
            let (variable, fallback) = self.parse_var_func()?;
            proof {
                crate::variable::lemma_fallback_from(fallback);
            }
            return Ok(
                AngleParts::Variable(
                    VariableFunction { variable, fallback: VariableFallback::from(fallback) },
                ),
            );
        }
        let position = self.calc_char_pos();
        let number = self.parse_number_text()?;
        proof {
            lemma_skip_while(b, p1, ByteClass::Space);
        }
        if self.at_end() {
            return Ok(AngleParts::Discrete { number, position, unit: AngleUnit::Degrees });
        }
        let unit = if self.starts_with(ascii_literal("deg", Ghost(unit_deg()))) {
            self.advance(3);
            AngleUnit::Degrees
        } else if self.starts_with(ascii_literal("grad", Ghost(unit_grad()))) {
            self.advance(4);
            AngleUnit::Gradians
        } else if self.starts_with(ascii_literal("rad", Ghost(unit_rad()))) {
            self.advance(3);
            AngleUnit::Radians
        } else if self.starts_with(ascii_literal("turn", Ghost(unit_turn()))) {
            self.advance(4);
            AngleUnit::Turns
        } else {
            AngleUnit::Degrees
        };
        Ok(AngleParts::Discrete { number, position, unit })
    }
}

} // verus!
