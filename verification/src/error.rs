//! The errors that the parsers report.

use vstd::prelude::*;
use vstd::string::StringSliceAdditionalSpecFns;
use vstd::utf8::*;

verus! {

broadcast use vstd::utf8::group_utf8_lib;

/// A parsing error.
///
/// Positions are counted in characters, starting from 1.
#[derive(Clone, PartialEq, Eq, Debug)]
pub enum Error {
    /// The input ended where more data was expected.
    UnexpectedEndOfStream,
    /// Data was left over after a complete value, at the given position.
    UnexpectedData(usize),
    /// The value is not valid.
    InvalidValue,
    /// An identifier was expected.
    InvalidIdent,
    /// A byte was not the expected one: the found byte comes first,
    /// then the expected ones.
    InvalidChar(Vec<u8>, usize),
    /// A text was not the expected one: the found text comes first,
    /// then the expected ones.
    InvalidString(Vec<String>, usize),
    /// A number could not be read at the given position.
    InvalidNumber(usize),
}

/// An error as a mathematical value; texts are given by their UTF-8 bytes.
pub enum ErrorView {
    UnexpectedEndOfStream,
    UnexpectedData(int),
    InvalidValue,
    InvalidIdent,
    InvalidChar(Seq<u8>, int),
    InvalidString(Seq<Seq<u8>>, int),
    InvalidNumber(int),
}

impl View for Error {
    type V = ErrorView;

    open spec fn view(&self) -> ErrorView {
        match self {
            Error::UnexpectedEndOfStream => ErrorView::UnexpectedEndOfStream,
            Error::UnexpectedData(p) => ErrorView::UnexpectedData(*p as int),
            Error::InvalidValue => ErrorView::InvalidValue,
            Error::InvalidIdent => ErrorView::InvalidIdent,
            Error::InvalidChar(v, p) => ErrorView::InvalidChar(v@, *p as int),
            Error::InvalidString(v, p) => ErrorView::InvalidString(
                v@.map_values(|s: String| encode_utf8(s@)),
                *p as int,
            ),
            Error::InvalidNumber(p) => ErrorView::InvalidNumber(*p as int),
        }
    }
}

/// The decimal digits of `n`.
pub open spec fn decimal(n: nat) -> Seq<u8>
    decreases n,
{
    if n < 10 {
        seq![(0x30 + n) as u8]
    } else {
        decimal(n / 10) + seq![(0x30 + n % 10) as u8]
    }
}

/// The UTF-8 encoding of the character whose code is byte `c`.
pub open spec fn char_of_byte(c: u8) -> Seq<u8> {
    if c < 0x80 {
        seq![c]
    } else {
        seq![(0xc0 + c / 64) as u8, (0x80 + c % 64) as u8]
    }
}

/// `parts` with `sep` between each two of them.
pub open spec fn join(parts: Seq<Seq<u8>>, sep: Seq<u8>) -> Seq<u8>
    decreases parts.len(),
{
    if parts.len() == 0 {
        Seq::empty()
    } else if parts.len() == 1 {
        parts[0]
    } else {
        join(parts.drop_last(), sep) + sep + parts.last()
    }
}

/// `expected 'A', 'B' not 'F' at position P`, for what was found, what was
/// expected and where.
pub open spec fn expected_message(expected: Seq<Seq<u8>>, found: Seq<u8>, pos: int) -> Seq<u8> {
    "expected '".spec_bytes() + join(expected, "', '".spec_bytes()) + "' not '".spec_bytes() + found
        + "' at position ".spec_bytes() + decimal(pos as nat)
}

/// The UTF-8 bytes of an error's message.
pub open spec fn message_bytes(e: ErrorView) -> Seq<u8> {
    match e {
        ErrorView::UnexpectedEndOfStream => "unexpected end of stream".spec_bytes(),
        ErrorView::UnexpectedData(p) => "unexpected data at position ".spec_bytes() + decimal(
            p as nat,
        ),
        ErrorView::InvalidValue => "invalid value".spec_bytes(),
        ErrorView::InvalidIdent => "invalid ident".spec_bytes(),
        ErrorView::InvalidChar(cs, p) => expected_message(
            cs.subrange(1, cs.len() as int).map_values(|c: u8| seq![c]),
            char_of_byte(cs[0]),
            p,
        ),
        ErrorView::InvalidString(ss, p) => expected_message(
            ss.subrange(1, ss.len() as int),
            ss[0],
            p,
        ),
        ErrorView::InvalidNumber(p) => "invalid number at position ".spec_bytes() + decimal(
            p as nat,
        ),
    }
}

proof fn lemma_ascii_valid(b: Seq<u8>)
    requires
        forall|i: int| 0 <= i < b.len() ==> #[trigger] b[i] < 0x80,
    ensures
        valid_utf8(b),
    decreases b.len(),
{
    if b.len() > 0 {
        let rest = b.subrange(1, b.len() as int);
        assert forall|i: int| 0 <= i < rest.len() implies #[trigger] rest[i] < 0x80 by {
            assert(rest[i] == b[i + 1]);
        }
        lemma_ascii_valid(rest);
        assert(pop_first_scalar(b) == rest);
    }
}

proof fn lemma_decimal_ascii(n: nat)
    ensures
        valid_utf8(decimal(n)),
    decreases n,
{
    if n < 10 {
        lemma_ascii_valid(decimal(n));
    } else {
        lemma_decimal_ascii(n / 10);
        lemma_ascii_valid(seq![(0x30 + n % 10) as u8]);
        valid_utf8_concat(decimal(n / 10), seq![(0x30 + n % 10) as u8]);
    }
}

proof fn lemma_char_of_byte_valid(c: u8)
    ensures
        valid_utf8(char_of_byte(c)),
{
    let b = char_of_byte(c);
    if c < 0x80 {
        lemma_ascii_valid(b);
    } else {
        let x = (0xc0 + c / 64) as u8;
        let y = (0x80 + c % 64) as u8;
        assert(0xc2 <= x <= 0xc3 && 0x80 <= y <= 0xbf);
        assert(((x & 0x1f) as u32) << 6 | ((y & 0x3f) as u32) == c as u32) by (bit_vector)
            requires
                c >= 0x80,
                x == (0xc0 + c / 64) as u8,
                y == (0x80 + c % 64) as u8,
        ;
        assert(b[0] == x && b[1] == y);
        assert(pop_first_scalar(b) =~= Seq::<u8>::empty());
        reveal_with_fuel(valid_utf8, 2);
    }
}

proof fn lemma_join_valid(parts: Seq<Seq<u8>>, sep: Seq<u8>)
    requires
        valid_utf8(sep),
        forall|i: int| 0 <= i < parts.len() ==> valid_utf8(#[trigger] parts[i]),
    ensures
        valid_utf8(join(parts, sep)),
    decreases parts.len(),
{
    if parts.len() == 0 {
        assert(valid_utf8(Seq::<u8>::empty()));
    } else if parts.len() > 1 {
        lemma_join_valid(parts.drop_last(), sep);
        valid_utf8_concat(join(parts.drop_last(), sep), sep);
        valid_utf8_concat(join(parts.drop_last(), sep) + sep, parts.last());
    }
}

proof fn lemma_str_valid(s: &str)
    ensures
        valid_utf8(s.spec_bytes()),
{
    encode_utf8_valid_utf8(s@);
}

proof fn lemma_expected_message_valid(expected: Seq<Seq<u8>>, found: Seq<u8>, pos: int)
    requires
        valid_utf8(join(expected, "', '".spec_bytes())),
        valid_utf8(found),
    ensures
        valid_utf8(expected_message(expected, found, pos)),
{
    lemma_str_valid("expected '");
    lemma_str_valid("' not '");
    lemma_str_valid("' at position ");
    lemma_decimal_ascii(pos as nat);
    let a = "expected '".spec_bytes();
    let b = join(expected, "', '".spec_bytes());
    let c = "' not '".spec_bytes();
    let d = "' at position ".spec_bytes();
    let n = decimal(pos as nat);
    valid_utf8_concat(a, b);
    valid_utf8_concat(a + b, c);
    valid_utf8_concat(a + b + c, found);
    valid_utf8_concat(a + b + c + found, d);
    valid_utf8_concat(a + b + c + found + d, n);
}

/// Messages are valid UTF-8 where the expected bytes of `InvalidChar` are
/// ASCII and the texts of `InvalidString` are valid UTF-8.
proof fn lemma_message_valid(e: ErrorView)
    requires
        e matches ErrorView::InvalidChar(cs, _) ==> cs.len() >= 1 && forall|i: int|
            1 <= i < cs.len() ==> #[trigger] cs[i] < 0x80,
        e matches ErrorView::InvalidString(ss, _) ==> ss.len() >= 1 && forall|i: int|
            0 <= i < ss.len() ==> valid_utf8(#[trigger] ss[i]),
    ensures
        valid_utf8(message_bytes(e)),
{
    lemma_str_valid("unexpected end of stream");
    lemma_str_valid("unexpected data at position ");
    lemma_str_valid("invalid value");
    lemma_str_valid("invalid ident");
    lemma_str_valid("invalid number at position ");
    lemma_str_valid("expected '");
    lemma_str_valid("', '");
    lemma_str_valid("' not '");
    lemma_str_valid("' at position ");
    match e {
        ErrorView::UnexpectedData(p) => {
            lemma_decimal_ascii(p as nat);
            valid_utf8_concat("unexpected data at position ".spec_bytes(), decimal(p as nat));
        },
        ErrorView::InvalidNumber(p) => {
            lemma_decimal_ascii(p as nat);
            valid_utf8_concat("invalid number at position ".spec_bytes(), decimal(p as nat));
        },
        ErrorView::InvalidChar(cs, p) => {
            let parts = cs.subrange(1, cs.len() as int).map_values(|c: u8| seq![c]);
            assert forall|i: int| 0 <= i < parts.len() implies valid_utf8(#[trigger] parts[i]) by {
                assert(cs[i + 1] < 0x80);
                lemma_ascii_valid(parts[i]);
            }
            lemma_join_valid(parts, "', '".spec_bytes());
            lemma_char_of_byte_valid(cs[0]);
            lemma_decimal_ascii(p as nat);
            lemma_expected_message_valid(parts, char_of_byte(cs[0]), p);
        },
        ErrorView::InvalidString(ss, p) => {
            let parts = ss.subrange(1, ss.len() as int);
            assert forall|i: int| 0 <= i < parts.len() implies valid_utf8(#[trigger] parts[i]) by {
                assert(parts[i] == ss[i + 1]);
            }
            lemma_join_valid(parts, "', '".spec_bytes());
            lemma_decimal_ascii(p as nat);
            lemma_expected_message_valid(parts, ss[0], p);
        },
        _ => {},
    }
}

/// `String::from_utf8`: the text whose UTF-8 encoding is `v`, if `v` is valid UTF-8.
#[verifier::external_body]
fn string_from_utf8(v: Vec<u8>) -> (r: Option<String>)
    ensures
        r is Some <==> valid_utf8(v@),
        r matches Some(s) ==> encode_utf8(s@) == v@,
{
    String::from_utf8(v).ok()
}

fn push_bytes(v: &mut Vec<u8>, b: &[u8])
    ensures
        final(v)@ == old(v)@ + b@,
{
    let mut i: usize = 0;
    while i < b.len()
        invariant
            i <= b@.len(),
            v@ == old(v)@ + b@.take(i as int),
        decreases b.len() - i,
    {
        v.push(b[i]);
        i = i + 1;
        assert(b@.take(i as int) =~= b@.take(i - 1) + seq![b@[i - 1]]);
    }
    assert(b@.take(b@.len() as int) =~= b@);
}

fn push_str(v: &mut Vec<u8>, s: &str)
    ensures
        final(v)@ == old(v)@ + s.spec_bytes(),
{
    push_bytes(v, s.as_bytes());
}

fn push_decimal(v: &mut Vec<u8>, n: usize)
    ensures
        final(v)@ == old(v)@ + decimal(n as nat),
    decreases n,
{
    if n >= 10 {
        push_decimal(v, n / 10);
    }
    v.push(0x30 + (n % 10) as u8);
    proof {
        if n < 10 {
            assert(decimal(n as nat) == seq![(0x30 + n) as u8]);
        }
    }
    assert(final(v)@ =~= old(v)@ + decimal(n as nat)) by {
        if n >= 10 {
            assert(old(v)@ + decimal(n as nat) =~= old(v)@ + decimal((n / 10) as nat) + seq![(0x30 + n % 10) as u8]);
        }
    }
}

impl Error {
    /// The error's message, as its `Display` would write it.
    pub fn message(&self) -> (r: String)
        requires
            self matches Error::InvalidChar(cs, _) ==> cs@.len() >= 1 && forall|i: int|
                1 <= i < cs@.len() ==> #[trigger] cs@[i] < 0x80,
            self matches Error::InvalidString(ss, _) ==> ss@.len() >= 1,
        ensures
            encode_utf8(r@) == message_bytes(self@),
    {
        let mut v: Vec<u8> = Vec::new();
        match self {
            Error::UnexpectedEndOfStream => {
                push_str(&mut v, "unexpected end of stream");
            },
            Error::UnexpectedData(p) => {
                push_str(&mut v, "unexpected data at position ");
                push_decimal(&mut v, *p);
            },
            Error::InvalidValue => {
                push_str(&mut v, "invalid value");
            },
            Error::InvalidIdent => {
                push_str(&mut v, "invalid ident");
            },
            Error::InvalidChar(cs, p) => {
                push_str(&mut v, "expected '");
                let ghost start = v@;
                let mut i: usize = 1;
                while i < cs.len()
                    invariant
                        1 <= i <= cs@.len(),
                        v@ == start + join(
                            cs@.subrange(1, i as int).map_values(|c: u8| seq![c]),
                            "', '".spec_bytes(),
                        ),
                    decreases cs.len() - i,
                {
                    let ghost before = v@;
                    if i > 1 {
                        push_str(&mut v, "', '");
                    }
                    v.push(cs[i]);
                    proof {
                        let parts = cs@.subrange(1, i + 1).map_values(|c: u8| seq![c]);
                        assert(parts.drop_last() =~= cs@.subrange(1, i as int).map_values(|c: u8| seq![c]));
                        if i == 1 {
                            assert(parts.len() == 1);
                            assert(v@ =~= start + parts[0]);
                        } else {
                            assert(v@ =~= start + join(parts.drop_last(), "', '".spec_bytes()) + "', '".spec_bytes() + parts.last());
                        }
                    }
                    i = i + 1;
                }
                push_str(&mut v, "' not '");
                let c = cs[0];
                if c < 0x80 {
                    v.push(c);
                } else {
                    v.push(0xc0 + c / 64);
                    v.push(0x80 + c % 64);
                }
                push_str(&mut v, "' at position ");
                push_decimal(&mut v, *p);
            },
            Error::InvalidString(ss, p) => {
                push_str(&mut v, "expected '");
                let ghost start = v@;
                let ghost parts_all = ss@.map_values(|s: String| encode_utf8(s@));
                let mut i: usize = 1;
                while i < ss.len()
                    invariant
                        1 <= i <= ss@.len(),
                        parts_all == ss@.map_values(|s: String| encode_utf8(s@)),
                        v@ == start + join(parts_all.subrange(1, i as int), "', '".spec_bytes()),
                    decreases ss.len() - i,
                {
                    if i > 1 {
                        push_str(&mut v, "', '");
                    }
                    push_str(&mut v, ss[i].as_str());
                    proof {
                        let parts = parts_all.subrange(1, i + 1);
                        assert(parts.drop_last() =~= parts_all.subrange(1, i as int));
                        assert(parts.last() == encode_utf8(ss@[i as int]@));
                        if i == 1 {
                            assert(v@ =~= start + parts[0]);
                        } else {
                            assert(v@ =~= start + join(parts.drop_last(), "', '".spec_bytes()) + "', '".spec_bytes() + parts.last());
                        }
                    }
                    i = i + 1;
                }
                push_str(&mut v, "' not '");
                push_str(&mut v, ss[0].as_str());
                push_str(&mut v, "' at position ");
                push_decimal(&mut v, *p);
            },
            Error::InvalidNumber(p) => {
                push_str(&mut v, "invalid number at position ");
                push_decimal(&mut v, *p);
            },
        }
        assert(v@ == message_bytes(self@));
        proof {
            if let Error::InvalidString(ss, _) = self {
                let parts = ss@.map_values(|s: String| encode_utf8(s@));
                assert forall|i: int| 0 <= i < parts.len() implies valid_utf8(#[trigger] parts[i]) by {
                    encode_utf8_valid_utf8(ss@[i]@);
                }
            }
            lemma_message_valid(self@);
        }
        match string_from_utf8(v) {
            Some(s) => s,
            None => String::new(),
        }
    }
}

} // verus!
