//! A cursor over text, with the primitives that the parsers are built from.

use vstd::prelude::*;
use vstd::string::StringSliceAdditionalSpecFns;
use vstd::utf8::*;

use crate::error::{Error, ErrorView};
use crate::text::{ascii_literal, lemma_boundary_after_ascii, lemma_boundary_at_start_byte, substr};

verus! {

broadcast use vstd::utf8::group_utf8_lib;

/// The number of characters that the valid UTF-8 bytes `b` encode:
/// each character has exactly one byte that is not a continuation byte.
pub open spec fn char_count(b: Seq<u8>) -> int
    decreases b.len(),
{
    if b.len() == 0 {
        0
    } else {
        char_count(b.drop_last()) + if is_continuation_byte(b.last()) {
            0int
        } else {
            1int
        }
    }
}

/// The position, in characters counted from 1, of byte offset `p` in `b`.
/// (It stops at `usize::MAX`, which no text that Rust can hold reaches.)
pub open spec fn char_pos(b: Seq<u8>, p: int) -> int {
    let n = char_count(b.take(p)) + 1;
    if n > usize::MAX {
        usize::MAX as int
    } else {
        n
    }
}

/// Classes of bytes that the stream can skip over.
#[derive(Clone, Copy, PartialEq, Eq, Debug)]
pub enum ByteClass {
    /// Space, tab, line feed and carriage return.
    Space,
    /// The bytes of a custom property name: every byte but an ASCII white
    /// space (space, tab, line feed, form feed, carriage return), `,` and `)`.
    Name,
    /// `0-9`, `A-F`, `a-f`.
    HexDigit,
    /// `0-9`, `A-Z`, `a-z`, `-` and `_`.
    Ident,
    /// `0-9`.
    Digit,
    /// Every byte but a space and `)`.
    IriChar,
}

/// ASCII white space as `u8::is_ascii_whitespace` has it.
pub open spec fn is_ascii_whitespace_byte(c: u8) -> bool {
    c == 0x20 || c == 0x09 || c == 0x0a || c == 0x0c || c == 0x0d
}

impl ByteClass {
    /// The bytes of this class.
    pub open spec fn spec_matches(self, c: u8) -> bool {
        match self {
            ByteClass::Space => c == 0x20 || c == 0x09 || c == 0x0a || c == 0x0d,
            ByteClass::Name => !is_ascii_whitespace_byte(c) && c != 0x2c && c != 0x29,
            ByteClass::HexDigit => (0x30 <= c <= 0x39) || (0x41 <= c <= 0x46) || (0x61 <= c
                <= 0x66),
            ByteClass::Ident => (0x30 <= c <= 0x39) || (0x41 <= c <= 0x5a) || (0x61 <= c <= 0x7a)
                || c == 0x2d || c == 0x5f,
            ByteClass::Digit => 0x30 <= c <= 0x39,
            ByteClass::IriChar => c != 0x20 && c != 0x29,
        }
    }

    /// Whether byte `c` belongs to this class.
    pub fn matches(&self, c: u8) -> (r: bool)
        ensures
            r == self.spec_matches(c),
    {
        match self {
            ByteClass::Space => c == 0x20 || c == 0x09 || c == 0x0a || c == 0x0d,
            ByteClass::Name => !(c == 0x20 || c == 0x09 || c == 0x0a || c == 0x0c || c == 0x0d
                || c == 0x2c || c == 0x29),
            ByteClass::HexDigit => (0x30 <= c && c <= 0x39) || (0x41 <= c && c <= 0x46) || (0x61
                <= c && c <= 0x66),
            ByteClass::Ident => (0x30 <= c && c <= 0x39) || (0x41 <= c && c <= 0x5a) || (0x61 <= c
                && c <= 0x7a) || c == 0x2d || c == 0x5f,
            ByteClass::Digit => 0x30 <= c && c <= 0x39,
            ByteClass::IriChar => c != 0x20 && c != 0x29,
        }
    }
}

/// The offset of the first byte at or after `p` that is not in `class`.
pub open spec fn skip_while(b: Seq<u8>, p: int, class: ByteClass) -> int
    decreases b.len() - p,
{
    if 0 <= p < b.len() && class.spec_matches(b[p]) {
        skip_while(b, p + 1, class)
    } else {
        p
    }
}

/// Skipping ends within the text, after bytes of the class only, before one
/// that is not in it.
pub proof fn lemma_skip_while(b: Seq<u8>, p: int, class: ByteClass)
    requires
        0 <= p <= b.len(),
    ensures
        p <= skip_while(b, p, class) <= b.len(),
        forall|i: int| p <= i < skip_while(b, p, class) ==> class.spec_matches(#[trigger] b[i]),
        skip_while(b, p, class) < b.len() ==> !class.spec_matches(b[skip_while(b, p, class)]),
    decreases b.len() - p,
{
    if p < b.len() && class.spec_matches(b[p]) {
        lemma_skip_while(b, p + 1, class);
    }
}

/// Skipping a class from `p` ends at `q` when the bytes from `p` up to `q`
/// are of the class and the byte at `q`, if any, is not.
pub proof fn lemma_skip_while_to(b: Seq<u8>, p: int, q: int, class: ByteClass)
    requires
        0 <= p <= q <= b.len(),
        forall|i: int| p <= i < q ==> class.spec_matches(#[trigger] b[i]),
        q == b.len() || !class.spec_matches(b[q]),
    ensures
        skip_while(b, p, class) == q,
    decreases q - p,
{
    if p < q {
        lemma_skip_while_to(b, p + 1, q, class);
    }
}

/// Whether `t` occurs in `b` at offset `p`.
pub open spec fn starts_with_at(b: Seq<u8>, p: int, t: Seq<u8>) -> bool {
    0 <= p && p + t.len() <= b.len() && b.subrange(p, p + t.len()) == t
}

/// The offset just after the character that starts at `p`.
pub open spec fn next_char_start(b: Seq<u8>, p: int) -> int
    decreases b.len() - p,
{
    if p + 1 < b.len() && is_continuation_byte(b[p + 1]) {
        next_char_start(b, p + 1)
    } else {
        p + 1
    }
}

/// The offset after `m` characters from `p`, or the end of `b` if it comes first.
pub open spec fn chars_end(b: Seq<u8>, p: int, m: int) -> int
    decreases m,
{
    if m <= 0 || p >= b.len() {
        p
    } else {
        chars_end(b, next_char_start(b, p), m - 1)
    }
}

/// Consuming byte `c` at offset `p`: the offset after it, or the error.
pub open spec fn spec_consume_byte(b: Seq<u8>, p: int, c: u8) -> Result<int, ErrorView> {
    if p >= b.len() {
        Err(ErrorView::UnexpectedEndOfStream)
    } else if b[p] != c {
        Err(ErrorView::InvalidChar(seq![b[p], c], char_pos(b, p)))
    } else {
        Ok(p + 1)
    }
}

/// Consuming text `t` at offset `p`: the offset after it, or the error,
/// which holds as many characters of `b` as `t` has bytes (or fewer, at the end).
pub open spec fn spec_consume_string(b: Seq<u8>, p: int, t: Seq<u8>) -> Result<int, ErrorView> {
    if p >= b.len() {
        Err(ErrorView::UnexpectedEndOfStream)
    } else if !starts_with_at(b, p, t) {
        let m = if t.len() < b.len() - p {
            t.len() as int
        } else {
            b.len() - p
        };
        Err(ErrorView::InvalidString(seq![b.subrange(p, chars_end(b, p, m)), t], char_pos(b, p)))
    } else {
        Ok(p + t.len())
    }
}

/// The offset of the closing quote `q` of a quoted text whose content starts
/// at `i`; `prev` is the byte before `i`. A quote after a backslash does not close.
pub open spec fn quoted_end(b: Seq<u8>, i: int, q: u8, prev: u8) -> int
    decreases b.len() - i,
{
    if i < 0 || i >= b.len() {
        i
    } else if b[i] == q && prev != 0x5c {
        i
    } else {
        quoted_end(b, i + 1, q, b[i])
    }
}

/// A quoted text ends at its closing quote or at the end of the text.
pub proof fn lemma_quoted_end(b: Seq<u8>, i: int, q: u8, prev: u8)
    requires
        0 <= i <= b.len(),
    ensures
        i <= quoted_end(b, i, q, prev) <= b.len(),
        quoted_end(b, i, q, prev) < b.len() ==> b[quoted_end(b, i, q, prev)] == q,
    decreases b.len() - i,
{
    if i < b.len() && !(b[i] == q && prev != 0x5c) {
        lemma_quoted_end(b, i + 1, q, b[i]);
    }
}

/// A quoted text at offset `p`: the offset after its closing quote and its content.
pub open spec fn spec_parse_quoted_string(b: Seq<u8>, p: int) -> Result<(int, Seq<u8>), ErrorView> {
    if p >= b.len() {
        Err(ErrorView::UnexpectedEndOfStream)
    } else if b[p] != 0x27 && b[p] != 0x22 {
        Err(ErrorView::InvalidValue)
    } else {
        let e = quoted_end(b, p + 1, b[p], b[p]);
        match spec_consume_byte(b, e, b[p]) {
            Err(err) => Err(err),
            Ok(np) => Ok((np, b.subrange(p + 1, e))),
        }
    }
}

/// The bytes of `url(`.
pub open spec fn url_open() -> Seq<u8> {
    seq![0x75u8, 0x72, 0x6c, 0x28]
}

/// A `url(#link)` at offset `p`, spaces allowed around the link: the offset
/// after `)` and the link. Any failure is `InvalidValue`.
pub open spec fn spec_parse_func_iri(b: Seq<u8>, p: int) -> Result<(int, Seq<u8>), ErrorView> {
    match spec_func_iri_steps(b, p) {
        Err(_) => Err(ErrorView::InvalidValue),
        Ok(r) => Ok(r),
    }
}

/// The steps of reading `url(#link)`, each with its own error.
pub open spec fn spec_func_iri_steps(b: Seq<u8>, p: int) -> Result<(int, Seq<u8>), ErrorView> {
    let p1 = skip_while(b, p, ByteClass::Space);
    match spec_consume_string(b, p1, url_open()) {
        Err(e) => Err(e),
        Ok(p2) => {
            let p3 = skip_while(b, p2, ByteClass::Space);
            match spec_consume_byte(b, p3, 0x23) {
                Err(e) => Err(e),
                Ok(p4) => {
                    let e = skip_while(b, p4, ByteClass::IriChar);
                    if e == p4 {
                        Err(ErrorView::InvalidValue)
                    } else {
                        let p5 = skip_while(b, e, ByteClass::Space);
                        match spec_consume_byte(b, p5, 0x29) {
                            Err(err) => Err(err),
                            Ok(p6) => Ok((p6, b.subrange(p4, e))),
                        }
                    }
                },
            }
        },
    }
}

/// A class whose bytes are all ASCII.
pub open spec fn ascii_only(class: ByteClass) -> bool {
    class != ByteClass::Name && class != ByteClass::IriChar
}

/// Skipping the bytes of a class from a character boundary ends at one.
pub proof fn lemma_skip_while_boundary(b: Seq<u8>, p: int, class: ByteClass)
    requires
        valid_utf8(b),
        0 <= p <= b.len(),
        is_char_boundary(b, p),
    ensures
        is_char_boundary(b, skip_while(b, p, class)),
{
    lemma_skip_while(b, p, class);
    let e = skip_while(b, p, class);
    if e > p {
        if ascii_only(class) {
            assert(class.spec_matches(b[e - 1]));
            lemma_boundary_after_ascii(b, e);
        } else {
            lemma_boundary_at_start_byte(b, e);
        }
    }
}

/// The next character starts after `p`, within the text, at a byte that is
/// not a continuation byte (or at the end).
pub proof fn lemma_next_char_start(b: Seq<u8>, p: int)
    requires
        0 <= p < b.len(),
    ensures
        p < next_char_start(b, p) <= b.len(),
        next_char_start(b, p) < b.len() ==> !is_continuation_byte(b[next_char_start(b, p)]),
    decreases b.len() - p,
{
    if p + 1 < b.len() && is_continuation_byte(b[p + 1]) {
        lemma_next_char_start(b, p + 1);
    }
}

/// A `url()` ends with `)`, after the offset it started at.
pub proof fn lemma_func_iri_end(b: Seq<u8>, p: int)
    requires
        0 <= p <= b.len(),
    ensures
        spec_parse_func_iri(b, p) matches Ok((np, _)) ==> p < np <= b.len() && b[np - 1] == 0x29,
        spec_func_iri_steps(b, p) matches Ok((np, _)) ==> p < np <= b.len() && b[np - 1] == 0x29,
{
    lemma_skip_while(b, p, ByteClass::Space);
    let p1 = skip_while(b, p, ByteClass::Space);
    if let Ok(p2) = spec_consume_string(b, p1, url_open()) {
        lemma_skip_while(b, p2, ByteClass::Space);
        let p3 = skip_while(b, p2, ByteClass::Space);
        if let Ok(p4) = spec_consume_byte(b, p3, 0x23) {
            lemma_skip_while(b, p4, ByteClass::IriChar);
            let e = skip_while(b, p4, ByteClass::IriChar);
            lemma_skip_while(b, e, ByteClass::Space);
        }
    }
}

/// The state of a stream: the text's bytes and the current byte offset.
pub struct StreamView {
    pub bytes: Seq<u8>,
    pub pos: int,
}

/// A cursor over a text, at a byte offset.
#[derive(Clone, Copy, PartialEq, Eq, Debug)]
pub struct Stream<'a> {
    text: &'a str,
    pos: usize,
}

impl<'a> View for Stream<'a> {
    type V = StreamView;

    closed spec fn view(&self) -> StreamView {
        StreamView { bytes: self.text.spec_bytes(), pos: self.pos as int }
    }
}

impl<'a> Stream<'a> {
    /// The stream is within its text, which is valid UTF-8.
    pub open spec fn wf(&self) -> bool {
        &&& 0 <= self@.pos <= self@.bytes.len() <= usize::MAX
        &&& valid_utf8(self@.bytes)
    }

    /// A stream at the start of `text`.
    pub fn from(text: &'a str) -> (s: Self)
        ensures
            s@.bytes == text.spec_bytes(),
            s@.pos == 0,
            s.wf(),
    {
        proof {
            encode_utf8_valid_utf8(text@);
        }
        // The text's length is a `usize`.
        let _len = text.as_bytes().len();
        Stream { text, pos: 0 }
    }

    /// The byte length of the text.
    fn len(&self) -> (n: usize)
        ensures
            n == self@.bytes.len(),
    {
        self.text.as_bytes().len()
    }

    /// The current byte offset.
    pub fn pos(&self) -> (r: usize)
        ensures
            r == self@.pos,
    {
        self.pos
    }

    /// Whether the stream is at the end of its text.
    pub fn at_end(&self) -> (r: bool)
        requires
            self.wf(),
        ensures
            r == (self@.pos >= self@.bytes.len()),
    {
        self.pos >= self.len()
    }

    /// The byte at the current offset.
    pub fn curr_byte(&self) -> (r: Result<u8, Error>)
        requires
            self.wf(),
        ensures
            match r {
                Ok(c) => self@.pos < self@.bytes.len() && c == self@.bytes[self@.pos],
                Err(e) => self@.pos >= self@.bytes.len() && e@ == ErrorView::UnexpectedEndOfStream,
            },
    {
        if self.at_end() {
            return Err(Error::UnexpectedEndOfStream);
        }
        Ok(self.text.as_bytes()[self.pos])
    }

    /// The byte at the current offset, or 0 at the end.
    pub fn curr_byte_or_zero(&self) -> (r: u8)
        requires
            self.wf(),
        ensures
            self@.pos < self@.bytes.len() ==> r == self@.bytes[self@.pos],
            self@.pos >= self@.bytes.len() ==> r == 0,
    {
        if self.at_end() {
            0
        } else {
            self.text.as_bytes()[self.pos]
        }
    }

    /// The byte after the current one.
    pub fn next_byte(&self) -> (r: Result<u8, Error>)
        requires
            self.wf(),
        ensures
            match r {
                Ok(c) => self@.pos + 1 < self@.bytes.len() && c == self@.bytes[self@.pos + 1],
                Err(e) => self@.pos + 1 >= self@.bytes.len() && e@
                    == ErrorView::UnexpectedEndOfStream,
            },
    {
        if self.len() - self.pos <= 1 {
            return Err(Error::UnexpectedEndOfStream);
        }
        Ok(self.text.as_bytes()[self.pos + 1])
    }

    /// Moves `n` bytes forward.
    pub fn advance(&mut self, n: usize)
        requires
            old(self).wf(),
            old(self)@.pos + n <= old(self)@.bytes.len(),
        ensures
            final(self).wf(),
            final(self)@.bytes == old(self)@.bytes,
            final(self)@.pos == old(self)@.pos + n,
    {
        self.pos = self.pos + n;
    }

    /// Moves past the bytes of `class` at the current offset.
    pub fn skip_bytes(&mut self, class: ByteClass)
        requires
            old(self).wf(),
        ensures
            final(self).wf(),
            final(self)@.bytes == old(self)@.bytes,
            final(self)@.pos == skip_while(old(self)@.bytes, old(self)@.pos, class),
    {
        let bytes = self.text.as_bytes();
        let n = bytes.len();
        while self.pos < n && class.matches(bytes[self.pos])
            invariant
                self.wf(),
                bytes@ == self@.bytes,
                n == bytes@.len(),
                self@.bytes == old(self)@.bytes,
                old(self)@.pos <= self@.pos,
                skip_while(self@.bytes, self@.pos, class) == skip_while(
                    old(self)@.bytes,
                    old(self)@.pos,
                    class,
                ),
            decreases n - self.pos,
        {
            self.pos = self.pos + 1;
        }
    }

    /// Moves past spaces, tabs, line feeds and carriage returns.
    pub fn skip_spaces(&mut self)
        requires
            old(self).wf(),
        ensures
            final(self).wf(),
            final(self)@.bytes == old(self)@.bytes,
            final(self)@.pos == skip_while(old(self)@.bytes, old(self)@.pos, ByteClass::Space),
    {
        self.skip_bytes(ByteClass::Space)
    }

    /// Whether `text` follows at the current offset.
    pub fn starts_with(&self, text: &str) -> (r: bool)
        requires
            self.wf(),
        ensures
            r == starts_with_at(self@.bytes, self@.pos, text.spec_bytes()),
    {
        let b = self.text.as_bytes();
        let t = text.as_bytes();
        if t.len() > b.len() - self.pos {
            return false;
        }
        let mut i: usize = 0;
        while i < t.len()
            invariant
                self.wf(),
                b@ == self@.bytes,
                t@ == text.spec_bytes(),
                self@.pos + t@.len() <= b@.len(),
                i <= t@.len(),
                forall|j: int| 0 <= j < i ==> b@[self@.pos + j] == t@[j],
            decreases t.len() - i,
        {
            if b[self.pos + i] != t[i] {
                assert(b@.subrange(self@.pos, self@.pos + t@.len())[i as int] != t@[i as int]);
                return false;
            }
            i = i + 1;
        }
        assert(b@.subrange(self@.pos, self@.pos + t@.len()) =~= t@);
        true
    }

    /// The character position (from 1) of byte offset `p`.
    pub fn calc_char_pos_at(&self, p: usize) -> (r: usize)
        requires
            self.wf(),
            p <= self@.bytes.len(),
        ensures
            r == char_pos(self@.bytes, p as int),
    {
        let b = self.text.as_bytes();
        let mut count: usize = 0;
        let mut i: usize = 0;
        while i < p
            invariant
                self.wf(),
                b@ == self@.bytes,
                p <= b@.len(),
                i <= p,
                count <= i,
                count == char_count(b@.take(i as int)),
            decreases p - i,
        {
            assert(b@.take(i + 1).drop_last() =~= b@.take(i as int));
            if !(0x80 <= b[i] && b[i] <= 0xbf) {
                count = count + 1;
            }
            i = i + 1;
        }
        count.saturating_add(1)
    }

    /// The character position (from 1) of the current offset.
    pub fn calc_char_pos(&self) -> (r: usize)
        requires
            self.wf(),
        ensures
            r == char_pos(self@.bytes, self@.pos),
    {
        self.calc_char_pos_at(self.pos)
    }

    /// Consumes byte `c`.
    pub fn consume_byte(&mut self, c: u8) -> (r: Result<(), Error>)
        requires
            old(self).wf(),
        ensures
            final(self).wf(),
            final(self)@.bytes == old(self)@.bytes,
            match r {
                Ok(_) => spec_consume_byte(old(self)@.bytes, old(self)@.pos, c) == Ok::<
                    int,
                    ErrorView,
                >(final(self)@.pos),
                Err(e) => spec_consume_byte(old(self)@.bytes, old(self)@.pos, c) == Err::<
                    int,
                    ErrorView,
                >(e@) && final(self)@.pos == old(self)@.pos,
            },
    {
        let curr = self.curr_byte()?;
        if curr != c {
            let pos = self.calc_char_pos();
            let v = vec![curr, c];
            assert(v@ =~= seq![curr, c]);
            return Err(Error::InvalidChar(v, pos));
        }
        self.advance(1);
        Ok(())
    }

    /// The offset after `m` characters from `p`, or the end.
    fn chars_end_at(&self, p: usize, m: usize) -> (r: usize)
        requires
            self.wf(),
            p <= self@.bytes.len(),
        ensures
            r == chars_end(self@.bytes, p as int, m as int),
            p <= r <= self@.bytes.len(),
            r == p || r == self@.bytes.len() || !is_continuation_byte(self@.bytes[r as int]),
    {
        let b = self.text.as_bytes();
        let n = b.len();
        let mut e = p;
        let mut k = m;
        while k > 0 && e < n
            invariant
                self.wf(),
                b@ == self@.bytes,
                n == b@.len(),
                p <= e <= n,
                k <= m,
                chars_end(b@, p as int, m as int) == chars_end(b@, e as int, k as int),
                e == p || e == n || !is_continuation_byte(b@[e as int]),
            decreases k,
        {
            proof {
                lemma_next_char_start(b@, e as int);
            }
            let mut q = e;
            while q + 1 < n && 0x80 <= b[q + 1] && b[q + 1] <= 0xbf
                invariant
                    b@ == self@.bytes,
                    n == b@.len(),
                    e <= q < n,
                    next_char_start(b@, e as int) == next_char_start(b@, q as int),
                decreases n - q,
            {
                q = q + 1;
            }
            e = q + 1;
            k = k - 1;
        }
        e
    }

    /// Consumes `text`.
    pub fn consume_string(&mut self, text: &str) -> (r: Result<(), Error>)
        requires
            old(self).wf(),
            is_char_boundary(old(self)@.bytes, old(self)@.pos),
        ensures
            final(self).wf(),
            final(self)@.bytes == old(self)@.bytes,
            match r {
                Ok(_) => spec_consume_string(old(self)@.bytes, old(self)@.pos, text.spec_bytes())
                    == Ok::<int, ErrorView>(final(self)@.pos),
                Err(e) => spec_consume_string(old(self)@.bytes, old(self)@.pos, text.spec_bytes())
                    == Err::<int, ErrorView>(e@) && final(self)@.pos == old(self)@.pos,
            },
    {
        if self.at_end() {
            return Err(Error::UnexpectedEndOfStream);
        }
        if !self.starts_with(text) {
            let tlen = text.as_bytes().len();
            let rest = self.len() - self.pos;
            let m = if tlen < rest {
                tlen
            } else {
                rest
            };
            let end = self.chars_end_at(self.pos, m);
            proof {
                lemma_boundary_at_start_byte(self@.bytes, end as int);
            }
            let actual = self.slice_region(self.pos, end).to_owned();
            let expected = text.to_owned();
            let pos = self.calc_char_pos();
            let v = vec![actual, expected];
            assert(v@.map_values(|s: String| encode_utf8(s@)) =~= seq![
                self@.bytes.subrange(self@.pos, end as int),
                text.spec_bytes(),
            ]);
            return Err(Error::InvalidString(v, pos));
        }
        self.advance(text.as_bytes().len());
        Ok(())
    }

    /// Consumes the bytes of `class` from the current offset, a character
    /// boundary, and returns them.
    pub fn consume_bytes(&mut self, class: ByteClass) -> (r: &'a str)
        requires
            old(self).wf(),
            is_char_boundary(old(self)@.bytes, old(self)@.pos),
        ensures
            final(self).wf(),
            final(self)@.bytes == old(self)@.bytes,
            final(self)@.pos == skip_while(old(self)@.bytes, old(self)@.pos, class),
            is_char_boundary(final(self)@.bytes, final(self)@.pos),
            r.spec_bytes() == old(self)@.bytes.subrange(old(self)@.pos, final(self)@.pos),
    {
        let start = self.pos;
        proof {
            lemma_skip_while_boundary(self@.bytes, self@.pos, class);
            lemma_skip_while(self@.bytes, self@.pos, class);
        }
        self.skip_bytes(class);
        self.slice_back(start)
    }

    /// Consumes an ASCII identifier: letters, digits, `-` and `_`.
    pub fn consume_ascii_ident(&mut self) -> (r: &'a str)
        requires
            old(self).wf(),
            is_char_boundary(old(self)@.bytes, old(self)@.pos),
        ensures
            final(self).wf(),
            final(self)@.bytes == old(self)@.bytes,
            final(self)@.pos == skip_while(old(self)@.bytes, old(self)@.pos, ByteClass::Ident),
            is_char_boundary(final(self)@.bytes, final(self)@.pos),
            r.spec_bytes() == old(self)@.bytes.subrange(old(self)@.pos, final(self)@.pos),
    {
        self.consume_bytes(ByteClass::Ident)
    }

    /// Parses a text in single or double quotes at the current offset and
    /// returns what stands between the quotes. A quote after a backslash
    /// does not end the text.
    pub fn parse_quoted_string(&mut self) -> (r: Result<&'a str, Error>)
        requires
            old(self).wf(),
        ensures
            final(self).wf(),
            final(self)@.bytes == old(self)@.bytes,
            old(self)@.pos <= final(self)@.pos,
            match r {
                Ok(v) => spec_parse_quoted_string(old(self)@.bytes, old(self)@.pos) matches Ok(
                    (np, m),
                ) && final(self)@.pos == np && v.spec_bytes() == m,
                Err(e) => spec_parse_quoted_string(old(self)@.bytes, old(self)@.pos) == Err::<
                    (int, Seq<u8>),
                    ErrorView,
                >(e@),
            },
    {
        let quote = self.curr_byte()?;
        if quote != 0x27 && quote != 0x22 {
            return Err(Error::InvalidValue);
        }
        let b = self.text.as_bytes();
        let mut prev = quote;
        self.advance(1);
        let start = self.pos;
        proof {
            lemma_boundary_after_ascii(self@.bytes, start as int);
            lemma_quoted_end(self@.bytes, start as int, quote, quote);
        }
        while !self.at_end()
            invariant
                self.wf(),
                b@ == self@.bytes,
                self@.bytes == old(self)@.bytes,
                start <= self@.pos,
                quoted_end(self@.bytes, self@.pos, quote, prev) == quoted_end(
                    self@.bytes,
                    start as int,
                    quote,
                    quote,
                ),
            ensures
                self.wf(),
                self@.bytes == old(self)@.bytes,
                start <= self@.pos,
                self@.pos == quoted_end(self@.bytes, start as int, quote, quote),
            decreases self@.bytes.len() - self@.pos,
        {
            let curr = b[self.pos];
            if curr == quote && prev != 0x5c {
                break;
            }
            prev = curr;
            self.advance(1);
        }
        proof {
            lemma_quoted_end(self@.bytes, start as int, quote, quote);
            lemma_boundary_at_start_byte(self@.bytes, self@.pos);
        }
        let value = self.slice_back(start);
        self.consume_byte(quote)?;
        Ok(value)
    }

    /// The steps of `parse_func_iri`, each with its own error.
    fn func_iri_steps(&mut self) -> (r: Result<&'a str, Error>)
        requires
            old(self).wf(),
            is_char_boundary(old(self)@.bytes, old(self)@.pos),
        ensures
            final(self).wf(),
            final(self)@.bytes == old(self)@.bytes,
            old(self)@.pos <= final(self)@.pos,
            match r {
                Ok(v) => spec_func_iri_steps(old(self)@.bytes, old(self)@.pos) matches Ok(
                    (np, m),
                ) && final(self)@.pos == np && v.spec_bytes() == m,
                Err(e) => spec_func_iri_steps(old(self)@.bytes, old(self)@.pos) == Err::<
                    (int, Seq<u8>),
                    ErrorView,
                >(e@),
            },
    {
        proof {
            lemma_skip_while_boundary(self@.bytes, self@.pos, ByteClass::Space);
            lemma_skip_while(self@.bytes, self@.pos, ByteClass::Space);
        }
        self.skip_spaces();
        proof {
            reveal_strlit("url(");
        }
        self.consume_string(ascii_literal("url(", Ghost(url_open())))?;
        proof {
            lemma_skip_while(self@.bytes, self@.pos, ByteClass::Space);
        }
        self.skip_spaces();
        self.consume_byte(0x23)?;
        proof {
            lemma_boundary_after_ascii(self@.bytes, self@.pos);
            lemma_skip_while(self@.bytes, self@.pos, ByteClass::IriChar);
        }
        let link = self.consume_bytes(ByteClass::IriChar);
        if link.len() == 0 {
            return Err(Error::InvalidValue);
        }
        proof {
            lemma_skip_while(self@.bytes, self@.pos, ByteClass::Space);
        }
        self.skip_spaces();
        self.consume_byte(0x29)?;
        Ok(link)
    }

    /// Parses `url(#link)`, with optional spaces around the link, and
    /// returns the link. Any failure is reported as `InvalidValue`.
    pub fn parse_func_iri(&mut self) -> (r: Result<&'a str, Error>)
        requires
            old(self).wf(),
            is_char_boundary(old(self)@.bytes, old(self)@.pos),
        ensures
            final(self).wf(),
            final(self)@.bytes == old(self)@.bytes,
            old(self)@.pos <= final(self)@.pos,
            match r {
                Ok(v) => spec_parse_func_iri(old(self)@.bytes, old(self)@.pos) matches Ok(
                    (np, m),
                ) && final(self)@.pos == np && v.spec_bytes() == m,
                Err(e) => spec_parse_func_iri(old(self)@.bytes, old(self)@.pos) == Err::<
                    (int, Seq<u8>),
                    ErrorView,
                >(e@),
            },
    {
        match self.func_iri_steps() {
            Ok(link) => Ok(link),
            Err(_) => Err(Error::InvalidValue),
        }
    }

    /// The text between two character boundaries.
    pub fn slice_region(&self, start: usize, end: usize) -> (r: &'a str)
        requires
            self.wf(),
            start <= end <= self@.bytes.len(),
            is_char_boundary(self@.bytes, start as int),
            is_char_boundary(self@.bytes, end as int),
        ensures
            r.spec_bytes() == self@.bytes.subrange(start as int, end as int),
    {
        substr(self.text, start, end)
    }

    /// The text from character boundary `start` to the current offset.
    pub fn slice_back(&self, start: usize) -> (r: &'a str)
        requires
            self.wf(),
            start <= self@.pos,
            is_char_boundary(self@.bytes, start as int),
            is_char_boundary(self@.bytes, self@.pos),
        ensures
            r.spec_bytes() == self@.bytes.subrange(start as int, self@.pos),
    {
        substr(self.text, start, self.pos)
    }

    /// The text from the current offset, a character boundary, to the end.
    pub fn slice_tail(&self) -> (r: &'a str)
        requires
            self.wf(),
            is_char_boundary(self@.bytes, self@.pos),
        ensures
            r.spec_bytes() == self@.bytes.subrange(self@.pos, self@.bytes.len() as int),
    {
        proof {
            is_char_boundary_start_end_of_seq(self@.bytes);
        }
        substr(self.text, self.pos, self.len())
    }
}

} // verus!
