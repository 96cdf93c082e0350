//! Parsing for CSS Variables Level 1: `var()` substitution functions.

use std::marker::PhantomData;

use vstd::prelude::*;
use vstd::string::StringSliceAdditionalSpecFns;
use vstd::utf8::*;

use crate::error::{Error, ErrorView};
use crate::stream::{
    lemma_func_iri_end, lemma_quoted_end, lemma_skip_while, skip_while, spec_consume_byte,
    spec_consume_string, spec_parse_func_iri, spec_parse_quoted_string, starts_with_at, url_open,
    ByteClass, Stream,
};
use crate::text::{
    ascii_literal, lemma_boundary_after_ascii, lemma_boundary_at_start_byte, trim_end_bytes,
    trim_end_str,
};

verus! {

broadcast use vstd::utf8::group_utf8_lib;

/// Fallback values for variable functions.
#[derive(Debug, Clone, Copy, PartialEq, Eq)]
pub enum VariableFallback<'a> {
    /// No fallback specified.
    ///
    /// Discard the rule on substitution failure.
    Unspecified,
    /// Empty fallback is specified.
    ///
    /// Treat as empty value on substitution failure.
    Empty(PhantomData<&'a str>),
    /// Fallback is specified.
    ///
    /// Use the fallback on substitution failure.
    Given(&'a str),
}

/// A fallback as a mathematical value; a text is given by its UTF-8 bytes.
pub enum FallbackView {
    Unspecified,
    Empty,
    Given(Seq<u8>),
}

impl<'a> View for VariableFallback<'a> {
    type V = FallbackView;

    open spec fn view(&self) -> FallbackView {
        match self {
            VariableFallback::Unspecified => FallbackView::Unspecified,
            VariableFallback::Empty(_) => FallbackView::Empty,
            VariableFallback::Given(s) => FallbackView::Given(s.spec_bytes()),
        }
    }
}

/// The bytes of an optional text.
pub open spec fn opt_bytes(o: Option<&str>) -> Option<Seq<u8>> {
    match o {
        Some(s) => Some(s.spec_bytes()),
        None => None,
    }
}

/// The fallback that an optional declaration value gives: none without one,
/// empty for an empty one, else the value.
pub open spec fn fallback_of(o: Option<Seq<u8>>) -> FallbackView {
    match o {
        None => FallbackView::Unspecified,
        Some(v) => if v.len() == 0 {
            FallbackView::Empty
        } else {
            FallbackView::Given(v)
        },
    }
}

impl<'a> From<Option<&'a str>> for VariableFallback<'a> {
    /// The fallback for an optional declaration value.
    fn from(value: Option<&'a str>) -> (r: Self) {
        match value {
            Some(s) => {
                if s.is_empty() {
                    proof {
                        assert(s.spec_bytes().len() == 0) by {
                            if s@.len() == 0 {
                                assert(encode_utf8(s@) =~= Seq::<u8>::empty());
                            }
                        }
                    }
                    VariableFallback::Empty(PhantomData)
                } else {
                    proof {
                        assert(s.spec_bytes().len() != 0) by {
                            if encode_utf8(s@).len() == 0 {
                                encode_utf8_decode_utf8(s@);
                                assert(decode_utf8(encode_utf8(s@)) =~= Seq::<char>::empty());
                            }
                        }
                    }
                    VariableFallback::Given(s)
                }
            },
            None => VariableFallback::Unspecified,
        }
    }
}

impl<'a> vstd::std_specs::convert::FromSpecImpl<Option<&'a str>> for VariableFallback<'a> {
    open spec fn obeys_from_spec() -> bool {
        true
    }

    /// No fallback without a value, an empty one for an empty value, else the value.
    open spec fn from_spec(value: Option<&'a str>) -> Self {
        match value {
            Some(s) => if s.spec_bytes().len() == 0 {
                VariableFallback::Empty(PhantomData)
            } else {
                VariableFallback::Given(s)
            },
            None => VariableFallback::Unspecified,
        }
    }
}

/// The fallback that `From` gives is the one `fallback_of` describes.
pub proof fn lemma_fallback_from(value: Option<&str>)
    ensures
        <VariableFallback as vstd::std_specs::convert::FromSpec<Option<&str>>>::from_spec(
            value,
        )@ == fallback_of(opt_bytes(value)),
{
}

/// Arbitrary substitution function with optional fallback (`var()`).
#[derive(Debug, Clone, Copy, PartialEq, Eq)]
pub struct VariableFunction<'a> {
    pub variable: &'a str,
    pub fallback: VariableFallback<'a>,
}

/// A variable function as a mathematical value.
pub struct VariableFunctionView {
    pub variable: Seq<u8>,
    pub fallback: FallbackView,
}

impl<'a> View for VariableFunction<'a> {
    type V = VariableFunctionView;

    open spec fn view(&self) -> VariableFunctionView {
        VariableFunctionView { variable: self.variable.spec_bytes(), fallback: self.fallback@ }
    }
}

/// The bytes of `var(`.
pub open spec fn var_open() -> Seq<u8> {
    seq![0x76u8, 0x61, 0x72, 0x28]
}

/// The bytes of `--`.
pub open spec fn double_dash() -> Seq<u8> {
    seq![0x2du8, 0x2d]
}

/// A custom property name at offset `p`, after optional spaces: it starts
/// with `--` and runs up to the next ASCII white space, `,`, `)` or the end.
/// The bare name `--` is reserved.
pub open spec fn spec_parse_custom_property(b: Seq<u8>, p: int) -> Result<(int, Seq<u8>), ErrorView> {
    let p1 = skip_while(b, p, ByteClass::Space);
    if !starts_with_at(b, p1, double_dash()) {
        Err(ErrorView::InvalidIdent)
    } else {
        let e = skip_while(b, p1, ByteClass::Name);
        if e - p1 <= 2 {
            Err(ErrorView::InvalidValue)
        } else {
            Ok((e, b.subrange(p1, e)))
        }
    }
}

/// The scan of a declaration value that began at `start`, with the stream at
/// `p` and `wrap` the closing brackets still expected. Quoted texts and
/// `url()`s are read whole; brackets must match; `;` and `!` may stand only
/// inside brackets. The first unmatched `)` ends the value, which runs up to
/// it without trailing white space; the offset after that `)` comes first.
pub open spec fn spec_declaration_value(b: Seq<u8>, start: int, p: int, wrap: Seq<u8>) -> Result<
    (int, Seq<u8>),
    ErrorView,
>
    decreases b.len() - p,
{
    if p < 0 || p >= b.len() {
        Err(ErrorView::UnexpectedEndOfStream)
    } else {
        let c = b[p];
        if c == 0x28 {
            spec_declaration_value(b, start, p + 1, wrap.push(0x29))
        } else if c == 0x5b {
            spec_declaration_value(b, start, p + 1, wrap.push(0x5d))
        } else if c == 0x7b {
            spec_declaration_value(b, start, p + 1, wrap.push(0x7d))
        } else if c == 0x22 || c == 0x27 {
            match spec_parse_quoted_string(b, p) {
                Err(e) => Err(e),
                Ok((q, _)) => {
                    proof {
                        lemma_quoted_end(b, p + 1, b[p], b[p]);
                    }
                    spec_declaration_value(b, start, q, wrap)
                },
            }
        } else if c == 0x75 && starts_with_at(b, p, url_open()) {
            match spec_parse_func_iri(b, p) {
                Err(e) => Err(e),
                Ok((q, _)) => {
                    proof {
                        lemma_func_iri_end(b, p);
                    }
                    spec_declaration_value(b, start, q, wrap)
                },
            }
        } else if c == 0x29 {
            if wrap.len() == 0 {
                Ok((p + 1, trim_end_bytes(b.subrange(start, p))))
            } else if wrap.last() == 0x29 {
                spec_declaration_value(b, start, p + 1, wrap.drop_last())
            } else {
                Err(ErrorView::InvalidValue)
            }
        } else if c == 0x5d || c == 0x7d {
            if wrap.len() > 0 && wrap.last() == c {
                spec_declaration_value(b, start, p + 1, wrap.drop_last())
            } else {
                Err(ErrorView::InvalidValue)
            }
        } else if (c == 0x3b || c == 0x21) && wrap.len() == 0 {
            Err(ErrorView::InvalidValue)
        } else {
            spec_declaration_value(b, start, p + 1, wrap)
        }
    }
}

/// A declaration value ends at an unmatched `)`, which the scan consumes; the
/// value is shorter than the text and ends without white space.
pub proof fn lemma_declaration_value_shorter(b: Seq<u8>, start: int, p: int, wrap: Seq<u8>)
    requires
        0 <= start <= p,
    ensures
        spec_declaration_value(b, start, p, wrap) matches Ok((q, v)) ==> p < q <= b.len() && b[q
            - 1] == 0x29 && v.len() <= q - 1 - start && trim_end_bytes(v) == v,
    decreases b.len() - p,
{
    if 0 <= p < b.len() {
        let c = b[p];
        if c == 0x28 {
            lemma_declaration_value_shorter(b, start, p + 1, wrap.push(0x29));
        } else if c == 0x5b {
            lemma_declaration_value_shorter(b, start, p + 1, wrap.push(0x5d));
        } else if c == 0x7b {
            lemma_declaration_value_shorter(b, start, p + 1, wrap.push(0x7d));
        } else if c == 0x22 || c == 0x27 {
            lemma_quoted_end(b, p + 1, b[p], b[p]);
            if let Ok((q, _)) = spec_parse_quoted_string(b, p) {
                lemma_declaration_value_shorter(b, start, q, wrap);
            }
        } else if c == 0x75 && starts_with_at(b, p, url_open()) {
            lemma_func_iri_end(b, p);
            if let Ok((q, _)) = spec_parse_func_iri(b, p) {
                lemma_declaration_value_shorter(b, start, q, wrap);
            }
        } else if c == 0x29 {
            if wrap.len() == 0 {
                crate::text::lemma_trim_end_len(b.subrange(start, p));
                crate::text::lemma_trim_end_idempotent(b.subrange(start, p));
            } else if wrap.last() == 0x29 {
                lemma_declaration_value_shorter(b, start, p + 1, wrap.drop_last());
            }
        } else if c == 0x5d || c == 0x7d {
            lemma_declaration_value_shorter(b, start, p + 1, wrap.drop_last());
        } else {
            lemma_declaration_value_shorter(b, start, p + 1, wrap);
        }
    }
}

/// A `var( <custom-property-name> [, <declaration-value>?] )` at offset `p`:
/// the offset after its closing `)`, the name and the optional value
/// (`Some` of an empty value for `var(--a,)`).
pub open spec fn spec_parse_var_func(b: Seq<u8>, p: int) -> Result<
    (int, Seq<u8>, Option<Seq<u8>>),
    ErrorView,
> {
    let p1 = skip_while(b, p, ByteClass::Space);
    match spec_consume_string(b, p1, var_open()) {
        Err(e) => Err(e),
        Ok(p2) => {
            let p3 = skip_while(b, p2, ByteClass::Space);
            match spec_parse_custom_property(b, p3) {
                Err(e) => Err(e),
                Ok((p4, name)) => {
                    let p5 = skip_while(b, p4, ByteClass::Space);
                    if p5 >= b.len() {
                        Err(ErrorView::UnexpectedEndOfStream)
                    } else if b[p5] != 0x2c {
                        match spec_consume_byte(b, p5, 0x29) {
                            Err(e) => Err(e),
                            Ok(p6) => Ok((p6, name, None)),
                        }
                    } else {
                        let p6 = skip_while(b, p5 + 1, ByteClass::Space);
                        match spec_declaration_value(b, p6, p6, Seq::empty()) {
                            Err(e) => Err(e),
                            Ok((p7, value)) => Ok((p7, name, Some(value))),
                        }
                    }
                },
            }
        },
    }
}

/// A variable function is read up to and including its closing `)`; its
/// declaration value is shorter than the text and ends without white space.
pub proof fn lemma_var_func_value_shorter(b: Seq<u8>, p: int)
    requires
        0 <= p <= b.len(),
    ensures
        spec_parse_var_func(b, p) matches Ok((np, _, _)) ==> p < np <= b.len() && b[np - 1]
            == 0x29,
        spec_parse_var_func(b, p) matches Ok((_, _, Some(v))) ==> v.len() < b.len()
            && trim_end_bytes(v) == v,
{
    assert(trim_end_bytes(Seq::<u8>::empty()) == Seq::<u8>::empty());
    let p1 = skip_while(b, p, ByteClass::Space);
    lemma_skip_while(b, p, ByteClass::Space);
    if let Ok(p2) = spec_consume_string(b, p1, var_open()) {
        let p3 = skip_while(b, p2, ByteClass::Space);
        lemma_skip_while(b, p2, ByteClass::Space);
        if let Ok((p4, name)) = spec_parse_custom_property(b, p3) {
            lemma_skip_while(b, p3, ByteClass::Space);
            lemma_skip_while(b, skip_while(b, p3, ByteClass::Space), ByteClass::Name);
            let p5 = skip_while(b, p4, ByteClass::Space);
            lemma_skip_while(b, p4, ByteClass::Space);
            if p5 < b.len() && b[p5] == 0x2c {
                let p6 = skip_while(b, p5 + 1, ByteClass::Space);
                lemma_skip_while(b, p5 + 1, ByteClass::Space);
                lemma_declaration_value_shorter(b, p6, p6, Seq::empty());
            }
        }
    }
}

/// What parsing a whole text as a variable function gives.
pub open spec fn spec_variable_function(b: Seq<u8>) -> Result<VariableFunctionView, ErrorView> {
    match spec_parse_var_func(b, 0) {
        Err(e) => Err(e),
        Ok((_, name, value)) => Ok(
            VariableFunctionView { variable: name, fallback: fallback_of(value) },
        ),
    }
}

impl<'a> VariableFunction<'a> {
    /// Parses a `VariableFunction` from a string.
    pub fn from_str(text: &'a str) -> (r: Result<Self, Error>)
        ensures
            match r {
                Ok(v) => spec_variable_function(text.spec_bytes()) == Ok::<
                    VariableFunctionView,
                    ErrorView,
                >(v@),
                Err(e) => spec_variable_function(text.spec_bytes()) == Err::<
                    VariableFunctionView,
                    ErrorView,
                >(e@),
            },
    {
        let mut s = Stream::from(text);
        proof {
            is_char_boundary_start_end_of_seq(s@.bytes);
        }
        let (variable, fallback) = s.parse_var_func()?;
        proof {
            lemma_fallback_from(fallback);
        }
        Ok(VariableFunction { variable, fallback: VariableFallback::from(fallback) })
    }
}

impl<'a> Stream<'a> {
    /// Parses a single custom property identifier.
    ///
    /// It's expected to start with double dash ("--"); it runs up to the
    /// next ASCII white space, `,` or `)`. The bare name "--" is reserved.
    pub fn parse_custom_property(&mut self) -> (r: Result<&'a str, Error>)
        requires
            old(self).wf(),
        ensures
            final(self).wf(),
            final(self)@.bytes == old(self)@.bytes,
            old(self)@.pos <= final(self)@.pos,
            match r {
                Ok(v) => spec_parse_custom_property(old(self)@.bytes, old(self)@.pos) matches Ok(
                    (np, m),
                ) && final(self)@.pos == np && v.spec_bytes() == m,
                Err(e) => spec_parse_custom_property(old(self)@.bytes, old(self)@.pos) == Err::<
                    (int, Seq<u8>),
                    ErrorView,
                >(e@),
            },
    {
        proof {
            lemma_skip_while(self@.bytes, self@.pos, ByteClass::Space);
        }
        self.skip_spaces();
        proof {
            reveal_strlit("--");
        }
        if !self.starts_with(ascii_literal("--", Ghost(double_dash()))) {
            return Err(Error::InvalidIdent);
        }
        proof {
            assert(self@.bytes[self@.pos] == self@.bytes.subrange(self@.pos, self@.pos + 2)[0]);
            assert(self@.bytes[self@.pos + 1] == self@.bytes.subrange(self@.pos, self@.pos + 2)[1]);
            lemma_boundary_at_start_byte(self@.bytes, self@.pos);
            lemma_skip_while(self@.bytes, self@.pos, ByteClass::Name);
            lemma_skip_while(self@.bytes, self@.pos + 1, ByteClass::Name);
        }
        let name = self.consume_bytes(ByteClass::Name);
        if name.as_bytes().len() <= 2 {
            // only "--" is reserved by the spec for future use
            Err(Error::InvalidValue)
        } else {
            Ok(name)
        }
    }

    /// Parses `var( <custom-property-name> , <declaration-value>? )`, up to
    /// and including its closing `)`.
    ///
    /// The declaration value, if there is one, is returned without the white
    /// space around it; `var(--a,)` gives an empty value.
    pub fn parse_var_func(&mut self) -> (r: Result<(&'a str, Option<&'a str>), Error>)
        requires
            old(self).wf(),
            is_char_boundary(old(self)@.bytes, old(self)@.pos),
        ensures
            final(self).wf(),
            final(self)@.bytes == old(self)@.bytes,
            old(self)@.pos <= final(self)@.pos,
            match r {
                Ok((name, value)) => spec_parse_var_func(old(self)@.bytes, old(self)@.pos) matches Ok(
                    (np, n, v),
                ) && final(self)@.pos == np && name.spec_bytes() == n && opt_bytes(value) == v,
                Err(e) => spec_parse_var_func(old(self)@.bytes, old(self)@.pos) == Err::<
                    (int, Seq<u8>, Option<Seq<u8>>),
                    ErrorView,
                >(e@),
            },
    {
        // https://www.w3.org/TR/css-variables-1/#syntax
        // var() = var( <custom-property-name> , <declaration-value>? )
        let ghost b = self@.bytes;
        proof {
            lemma_skip_while(b, self@.pos, ByteClass::Space);
            crate::stream::lemma_skip_while_boundary(b, self@.pos, ByteClass::Space);
        }
        self.skip_spaces();
        proof {
            reveal_strlit("var(");
            reveal_strlit("url(");
        }
        self.consume_string(ascii_literal("var(", Ghost(var_open())))?;
        proof {
            lemma_skip_while(b, self@.pos, ByteClass::Space);
        }
        self.skip_spaces();

        let custom_property_name = self.parse_custom_property()?;

        proof {
            lemma_skip_while(b, self@.pos, ByteClass::Space);
        }
        self.skip_spaces();
        if self.curr_byte()? != 0x2c {
            self.consume_byte(0x29)?;
            return Ok((custom_property_name, None));
        }
        self.advance(1);
        proof {
            lemma_skip_while(b, self@.pos, ByteClass::Space);
        }
        self.skip_spaces();

        // The <declaration-value> production matches any sequence of one or
        // more tokens, so long as the sequence does not contain
        // <bad-string-token>, <bad-url-token>, unmatched <)-token>, <]-token>,
        // or <}-token>, or top-level <semicolon-token> tokens or <delim-token>
        // tokens with a value of "!". var(--a,) is valid too: its value is empty.
        let start = self.pos();
        proof {
            lemma_boundary_after_ascii(b, start as int);
        }
        let url = ascii_literal("url(", Ghost(crate::stream::url_open()));
        let ghost goal = spec_declaration_value(b, start as int, start as int, Seq::empty());
        let mut wrap: Vec<u8> = Vec::new();
        loop
            invariant
                self.wf(),
                self@.bytes == b,
                old(self)@.bytes == b,
                old(self)@.pos <= start <= self@.pos <= b.len(),
                is_char_boundary(b, start as int),
                url.spec_bytes() == crate::stream::url_open(),
                spec_parse_var_func(b, old(self)@.pos) == match goal {
                    Err(e) => Err(e),
                    Ok((p7, value)) => Ok((p7, custom_property_name.spec_bytes(), Some(value))),
                },
                spec_declaration_value(b, start as int, self@.pos, wrap@) == goal,
            decreases b.len() - self@.pos,
        {
            let c = self.curr_byte()?;
            if c == 0x28 {
                wrap.push(0x29);
                self.advance(1);
            } else if c == 0x5b {
                wrap.push(0x5d);
                self.advance(1);
            } else if c == 0x7b {
                wrap.push(0x7d);
                self.advance(1);
            } else if c == 0x22 || c == 0x27 {
                // check for <bad-string-token>
                proof {
                    lemma_quoted_end(b, self@.pos + 1, c, c);
                }
                self.parse_quoted_string()?;
            } else if c == 0x75 && self.starts_with(url) {
                // check for <bad-url-token>
                proof {
                    lemma_boundary_at_start_byte(b, self@.pos);
                    lemma_func_iri_end(b, self@.pos);
                }
                self.parse_func_iri()?;
            } else if c == 0x29 {
                let n = wrap.len();
                if n == 0 {
                    // <declaration-value> termination
                    let end = self.pos();
                    proof {
                        lemma_boundary_at_start_byte(b, end as int);
                    }
                    let value = trim_end_str(self.slice_region(start, end));
                    self.advance(1);
                    return Ok((custom_property_name, Some(value)));
                } else if wrap[n - 1] == 0x29 {
                    wrap.pop();
                    self.advance(1);
                } else {
                    // unmatched <)-token>
                    return Err(Error::InvalidValue);
                }
            } else if c == 0x5d || c == 0x7d {
                let n = wrap.len();
                if n > 0 && wrap[n - 1] == c {
                    wrap.pop();
                    self.advance(1);
                } else {
                    // unmatched <]-token> or <}-token>
                    return Err(Error::InvalidValue);
                }
            } else if (c == 0x3b || c == 0x21) && wrap.len() == 0 {
                // top-level <semicolon-token> or <delim-token> with value '!'
                return Err(Error::InvalidValue);
            } else {
                self.advance(1);
            }
        }
    }
}

} // verus!
