//! The `<paint>` type of SVG.

use vstd::prelude::*;
use vstd::string::StringSliceAdditionalSpecFns;
use vstd::utf8::*;

use crate::color::{spec_color_from_str, Color};
use crate::error::{Error, ErrorView};
use crate::stream::{
    lemma_skip_while, lemma_skip_while_boundary, skip_while, spec_parse_func_iri, starts_with_at,
    url_open, ByteClass, Stream,
};
use crate::text::{
    ascii_literal, lemma_boundary_after_ascii, lemma_trim_len, str_eq, trim_bytes, trim_str,
};
use crate::variable::{lemma_var_func_value_shorter, opt_bytes, spec_parse_var_func, var_open};

verus! {

broadcast use vstd::utf8::group_utf8_lib;

/// Representation of the fallback part of the `<paint>` type.
#[derive(PartialEq, Eq, Debug)]
pub enum PaintFallback<'a> {
    /// An empty value.
    ///
    /// Rule should be treated as invalid.
    Empty,
    /// The `none` value.
    NoneKeyword,
    /// The `currentColor` value.
    CurrentColor,
    /// `<color>` value.
    Color(Color),
    /// A `var()` function fallback: the variable's name and its own fallback.
    Variable(&'a str, Option<Box<PaintFallback<'a>>>),
}

/// A paint fallback as a mathematical value; texts are given by their bytes.
pub enum PaintFallbackView {
    Empty,
    NoneKeyword,
    CurrentColor,
    Color(Color),
    Variable(Seq<u8>, Option<Box<PaintFallbackView>>),
}

impl<'a> PaintFallback<'a> {
    /// This fallback as a mathematical value.
    pub open spec fn model(&self) -> PaintFallbackView
        decreases self,
    {
        match self {
            PaintFallback::Empty => PaintFallbackView::Empty,
            PaintFallback::NoneKeyword => PaintFallbackView::NoneKeyword,
            PaintFallback::CurrentColor => PaintFallbackView::CurrentColor,
            PaintFallback::Color(c) => PaintFallbackView::Color(*c),
            PaintFallback::Variable(name, f) => PaintFallbackView::Variable(
                name.spec_bytes(),
                match f {
                    Some(b) => Some(Box::new(b.model())),
                    None => None,
                },
            ),
        }
    }
}

impl<'a> Clone for PaintFallback<'a> {
    fn clone(&self) -> (r: Self)
        ensures
            r@ == self@,
        decreases self,
    {
        match self {
            PaintFallback::Empty => PaintFallback::Empty,
            PaintFallback::NoneKeyword => PaintFallback::NoneKeyword,
            PaintFallback::CurrentColor => PaintFallback::CurrentColor,
            PaintFallback::Color(c) => PaintFallback::Color(*c),
            PaintFallback::Variable(name, f) => PaintFallback::Variable(
                name,
                match f {
                    Some(b) => Some(Box::new((&**b).clone())),
                    None => None,
                },
            ),
        }
    }
}

impl<'a> View for PaintFallback<'a> {
    type V = PaintFallbackView;

    open spec fn view(&self) -> PaintFallbackView {
        self.model()
    }
}

/// Representation of the `<paint>` type.
///
/// Doesn't own the data. Use only for parsing.
///
/// `<icccolor>` isn't supported.
#[derive(Clone, PartialEq, Eq, Debug)]
pub enum Paint<'a> {
    /// The `none` value.
    NoneKeyword,
    /// The `inherit` value.
    Inherit,
    /// The `currentColor` value.
    CurrentColor,
    /// `<color>` value.
    Color(Color),
    /// `<FuncIRI>` value with an optional fallback.
    FuncIRI(&'a str, Option<PaintFallback<'a>>),
    /// The `context-fill` value.
    ContextFill,
    /// The `context-stroke` value.
    ContextStroke,
    /// A `var()` function.
    Variable(&'a str, Option<PaintFallback<'a>>),
}

/// A paint as a mathematical value; texts are given by their bytes.
pub enum PaintView {
    NoneKeyword,
    Inherit,
    CurrentColor,
    Color(Color),
    FuncIRI(Seq<u8>, Option<PaintFallbackView>),
    ContextFill,
    ContextStroke,
    Variable(Seq<u8>, Option<PaintFallbackView>),
}

/// An optional fallback as a mathematical value.
pub open spec fn opt_fallback(f: Option<PaintFallback>) -> Option<PaintFallbackView> {
    match f {
        Some(v) => Some(v@),
        None => None,
    }
}

impl<'a> View for Paint<'a> {
    type V = PaintView;

    open spec fn view(&self) -> PaintView {
        match self {
            Paint::NoneKeyword => PaintView::NoneKeyword,
            Paint::Inherit => PaintView::Inherit,
            Paint::CurrentColor => PaintView::CurrentColor,
            Paint::Color(c) => PaintView::Color(*c),
            Paint::FuncIRI(link, f) => PaintView::FuncIRI(link.spec_bytes(), opt_fallback(*f)),
            Paint::ContextFill => PaintView::ContextFill,
            Paint::ContextStroke => PaintView::ContextStroke,
            Paint::Variable(name, f) => PaintView::Variable(name.spec_bytes(), opt_fallback(*f)),
        }
    }
}

/// `none`
pub open spec fn kw_none() -> Seq<u8> {
    seq![0x6eu8, 0x6f, 0x6e, 0x65]
}

/// `inherit`
pub open spec fn kw_inherit() -> Seq<u8> {
    seq![0x69u8, 0x6e, 0x68, 0x65, 0x72, 0x69, 0x74]
}

/// `currentColor`
pub open spec fn kw_current_color() -> Seq<u8> {
    seq![0x63u8, 0x75, 0x72, 0x72, 0x65, 0x6e, 0x74, 0x43, 0x6f, 0x6c, 0x6f, 0x72]
}

/// `context-fill`
pub open spec fn kw_context_fill() -> Seq<u8> {
    seq![0x63u8, 0x6f, 0x6e, 0x74, 0x65, 0x78, 0x74, 0x2d, 0x66, 0x69, 0x6c, 0x6c]
}

/// `context-stroke`
pub open spec fn kw_context_stroke() -> Seq<u8> {
    seq![0x63u8, 0x6f, 0x6e, 0x74, 0x65, 0x78, 0x74, 0x2d, 0x73, 0x74, 0x72, 0x6f, 0x6b, 0x65]
}

/// What parsing text `t` as a paint fallback gives. Surrounding white space
/// is ignored; a `var()` fallback's own fallback is parsed in turn.
#[verifier::opaque]
pub open spec fn spec_paint_fallback(t: Seq<u8>) -> Result<PaintFallbackView, ErrorView>
    decreases t.len(),
{
    let s = trim_bytes(t);
    if s.len() == 0 {
        Ok(PaintFallbackView::Empty)
    } else if s == kw_none() {
        Ok(PaintFallbackView::NoneKeyword)
    } else if s == kw_current_color() {
        Ok(PaintFallbackView::CurrentColor)
    } else if starts_with_at(s, 0, var_open()) {
        match spec_parse_var_func(s, 0) {
            Err(e) => Err(e),
            Ok((_, name, value)) => match value {
                None => Ok(PaintFallbackView::Variable(name, None)),
                Some(v) => if v.len() == 0 {
                    Ok(PaintFallbackView::Variable(name, Some(Box::new(PaintFallbackView::Empty))))
                } else {
                    proof {
                        lemma_trim_len(t);
                        lemma_var_func_value_shorter(s, 0);
                    }
                    match spec_paint_fallback(v) {
                        Err(e) => Err(e),
                        Ok(f) => Ok(PaintFallbackView::Variable(name, Some(Box::new(f)))),
                    }
                },
            },
        }
    } else {
        match spec_color_from_str(s) {
            Err(e) => Err(e),
            Ok(c) => Ok(PaintFallbackView::Color(c)),
        }
    }
}

/// The fallback that an optional declaration value of a `var()` gives in a paint.
pub open spec fn spec_var_paint_fallback(value: Option<Seq<u8>>) -> Result<
    Option<PaintFallbackView>,
    ErrorView,
> {
    match value {
        None => Ok(None),
        Some(v) => if v.len() == 0 {
            Ok(Some(PaintFallbackView::Empty))
        } else {
            match spec_paint_fallback(v) {
                Err(e) => Err(e),
                Ok(f) => Ok(Some(f)),
            }
        },
    }
}

/// A paint text `s`, already trimmed, that starts with `url(`: the link and
/// what follows it, after spaces, as the fallback.
#[verifier::opaque]
pub open spec fn spec_func_iri_paint(s: Seq<u8>) -> Result<PaintView, ErrorView> {
    match spec_parse_func_iri(s, 0) {
        Err(e) => Err(e),
        Ok((p, link)) => {
            let q = skip_while(s, p, ByteClass::Space);
            if q < s.len() {
                match spec_paint_fallback(s.subrange(q, s.len() as int)) {
                    Err(e) => Err(e),
                    Ok(f) => Ok(PaintView::FuncIRI(link, Some(f))),
                }
            } else {
                Ok(PaintView::FuncIRI(link, None))
            }
        },
    }
}

/// A paint text `s`, already trimmed, that starts with `var(`.
#[verifier::opaque]
pub open spec fn spec_variable_paint(s: Seq<u8>) -> Result<PaintView, ErrorView> {
    match spec_parse_var_func(s, 0) {
        Err(e) => Err(e),
        Ok((_, name, value)) => match spec_var_paint_fallback(value) {
            Err(e) => Err(e),
            Ok(f) => Ok(PaintView::Variable(name, f)),
        },
    }
}

/// What parsing text `t` as a paint gives. Surrounding white space is ignored.
pub open spec fn spec_paint(t: Seq<u8>) -> Result<PaintView, ErrorView> {
    let s = trim_bytes(t);
    if s == kw_none() {
        Ok(PaintView::NoneKeyword)
    } else if s == kw_inherit() {
        Ok(PaintView::Inherit)
    } else if s == kw_current_color() {
        Ok(PaintView::CurrentColor)
    } else if s == kw_context_fill() {
        Ok(PaintView::ContextFill)
    } else if s == kw_context_stroke() {
        Ok(PaintView::ContextStroke)
    } else if starts_with_at(s, 0, url_open()) {
        spec_func_iri_paint(s)
    } else if starts_with_at(s, 0, var_open()) {
        spec_variable_paint(s)
    } else {
        match spec_color_from_str(s) {
            Err(_) => Err(ErrorView::InvalidValue),
            Ok(c) => Ok(PaintView::Color(c)),
        }
    }
}

impl<'a> PaintFallback<'a> {
    /// Parses a `PaintFallback` from a string.
    pub fn from_str(text: &'a str) -> (r: Result<Self, Error>)
        ensures
            match r {
                Ok(f) => spec_paint_fallback(text.spec_bytes()) == Ok::<
                    PaintFallbackView,
                    ErrorView,
                >(f@),
                Err(e) => spec_paint_fallback(text.spec_bytes()) == Err::<
                    PaintFallbackView,
                    ErrorView,
                >(e@),
            },
        decreases text.spec_bytes().len(),
    {
        let ghost original = text.spec_bytes();
        let text = trim_str(text);
        proof {
            lemma_trim_len(original);
            reveal(spec_paint_fallback);
            reveal_with_fuel(PaintFallback::model, 2);
        }
        if text.as_bytes().len() == 0 {
            return Ok(PaintFallback::Empty);
        }
        proof {
            reveal_strlit("none");
            reveal_strlit("currentColor");
            reveal_strlit("var(");
        }
        if str_eq(text, ascii_literal("none", Ghost(kw_none()))) {
            return Ok(PaintFallback::NoneKeyword);
        }
        if str_eq(text, ascii_literal("currentColor", Ghost(kw_current_color()))) {
            return Ok(PaintFallback::CurrentColor);
        }
        let mut s = Stream::from(text);
        if s.starts_with(ascii_literal("var(", Ghost(var_open()))) {
            proof {
                is_char_boundary_start_end_of_seq(s@.bytes);
                lemma_var_func_value_shorter(s@.bytes, 0);
            }
            let (variable, fallback) = s.parse_var_func()?;
            let fallback = match fallback {
                None => None,
                Some(other) => {
                    if other.as_bytes().len() == 0 {
                        Some(Box::new(PaintFallback::Empty))
                    } else {
                        let f = PaintFallback::from_str(other)?;
                        Some(Box::new(f))
                    }
                },
            };
            return Ok(PaintFallback::Variable(variable, fallback));
        }
        match Color::from_str(text) {
            Ok(c) => Ok(PaintFallback::Color(c)),
            Err(e) => Err(e),
        }
    }
}

/// The fallback that an optional declaration value of a `var()` gives in a paint.
fn var_paint_fallback<'a>(value: Option<&'a str>) -> (r: Result<Option<PaintFallback<'a>>, Error>)
    ensures
        match r {
            Ok(f) => spec_var_paint_fallback(opt_bytes(value)) == Ok::<
                Option<PaintFallbackView>,
                ErrorView,
            >(opt_fallback(f)),
            Err(e) => spec_var_paint_fallback(opt_bytes(value)) == Err::<
                Option<PaintFallbackView>,
                ErrorView,
            >(e@),
        },
{
    match value {
        None => Ok(None),
        Some(other) => {
            if other.as_bytes().len() == 0 {
                Ok(Some(PaintFallback::Empty))
            } else {
                let f = PaintFallback::from_str(other)?;
                Ok(Some(f))
            }
        },
    }
}

impl<'a> Paint<'a> {
    /// The paint of a trimmed text that starts with `url(`.
    fn func_iri_paint(s: &mut Stream<'a>) -> (r: Result<Self, Error>)
        requires
            old(s).wf(),
            old(s)@.pos == 0,
        ensures
            match r {
                Ok(p) => spec_func_iri_paint(old(s)@.bytes) == Ok::<PaintView, ErrorView>(p@),
                Err(e) => spec_func_iri_paint(old(s)@.bytes) == Err::<PaintView, ErrorView>(e@),
            },
    {
        proof {
            reveal(spec_func_iri_paint);
            is_char_boundary_start_end_of_seq(s@.bytes);
            crate::stream::lemma_func_iri_end(s@.bytes, 0);
        }
        let link = s.parse_func_iri()?;
        proof {
            lemma_boundary_after_ascii(s@.bytes, s@.pos);
            lemma_skip_while_boundary(s@.bytes, s@.pos, ByteClass::Space);
            lemma_skip_while(s@.bytes, s@.pos, ByteClass::Space);
        }
        s.skip_spaces();
        // get fallback
        if !s.at_end() {
            let fallback = s.slice_tail();
            let fallback = PaintFallback::from_str(fallback)?;
            Ok(Paint::FuncIRI(link, Some(fallback)))
        } else {
            Ok(Paint::FuncIRI(link, None))
        }
    }

    /// The paint of a trimmed text that starts with `var(`.
    fn variable_paint(s: &mut Stream<'a>) -> (r: Result<Self, Error>)
        requires
            old(s).wf(),
            old(s)@.pos == 0,
        ensures
            match r {
                Ok(p) => spec_variable_paint(old(s)@.bytes) == Ok::<PaintView, ErrorView>(p@),
                Err(e) => spec_variable_paint(old(s)@.bytes) == Err::<PaintView, ErrorView>(e@),
            },
    {
        proof {
            reveal(spec_variable_paint);
            is_char_boundary_start_end_of_seq(s@.bytes);
            lemma_var_func_value_shorter(s@.bytes, 0);
        }
        let (variable, fallback) = s.parse_var_func()?;
        let fallback = var_paint_fallback(fallback)?;
        Ok(Paint::Variable(variable, fallback))
    }

    /// Parses a `Paint` from a string.
    pub fn from_str(text: &'a str) -> (r: Result<Self, Error>)
        ensures
            match r {
                Ok(p) => spec_paint(text.spec_bytes()) == Ok::<PaintView, ErrorView>(p@),
                Err(e) => spec_paint(text.spec_bytes()) == Err::<PaintView, ErrorView>(e@),
            },
    {
        let ghost original = text.spec_bytes();
        let text = trim_str(text);
        proof {
            lemma_trim_len(original);
            reveal_strlit("none");
            reveal_strlit("inherit");
            reveal_strlit("currentColor");
            reveal_strlit("context-fill");
            reveal_strlit("context-stroke");
            reveal_strlit("url(");
            reveal_strlit("var(");
        }
        if str_eq(text, ascii_literal("none", Ghost(kw_none()))) {
            return Ok(Paint::NoneKeyword);
        }
        if str_eq(text, ascii_literal("inherit", Ghost(kw_inherit()))) {
            return Ok(Paint::Inherit);
        }
        if str_eq(text, ascii_literal("currentColor", Ghost(kw_current_color()))) {
            return Ok(Paint::CurrentColor);
        }
        if str_eq(text, ascii_literal("context-fill", Ghost(kw_context_fill()))) {
            return Ok(Paint::ContextFill);
        }
        if str_eq(text, ascii_literal("context-stroke", Ghost(kw_context_stroke()))) {
            return Ok(Paint::ContextStroke);
        }
        let mut s = Stream::from(text);
        if s.starts_with(ascii_literal("url(", Ghost(url_open()))) {
            return Paint::func_iri_paint(&mut s);
        }
        if s.starts_with(ascii_literal("var(", Ghost(var_open()))) {
            return Paint::variable_paint(&mut s);
        }
        match Color::from_str(text) {
            Ok(c) => Ok(Paint::Color(c)),
            Err(_) => Err(Error::InvalidValue),
        }
    }
}

} // verus!
