//! Byte-level facts about UTF-8 text and Unicode white space.

use vstd::prelude::*;
use vstd::utf8::*;
use vstd::string::StringSliceAdditionalSpecFns;

verus! {

broadcast use vstd::utf8::group_utf8_lib;

/// In valid UTF-8, an index that is the end of the text or holds a byte
/// that is not a continuation byte is a character boundary.
pub proof fn lemma_boundary_at_start_byte(b: Seq<u8>, i: int)
    requires
        valid_utf8(b),
        0 <= i <= b.len(),
        i == b.len() || !is_continuation_byte(b[i]),
    ensures
        is_char_boundary(b, i),
{
    if i == b.len() {
        is_char_boundary_start_end_of_seq(b);
    } else {
        is_char_boundary_iff_not_is_continuation_byte(b, i);
    }
}


/// A character of width `k` that starts at a boundary ends at a boundary.
pub proof fn lemma_boundary_step(b: Seq<u8>, i: int, k: int)
    requires
        valid_utf8(b),
        is_char_boundary(b, i),
        0 <= i,
        i + k <= b.len(),
        (k == 1 && is_leading_byte_width_1(b[i])) || (k == 2 && is_leading_byte_width_2(b[i]))
            || (k == 3 && is_leading_byte_width_3(b[i])),
    ensures
        is_char_boundary(b, i + k),
    decreases b.len(),
{
    reveal_with_fuel(is_char_boundary, 2);
    if i == 0 {
        assert(pop_first_scalar(b).len() == b.len() - k);
    } else {
        let l = length_of_first_scalar(b);
        let rest = pop_first_scalar(b);
        assert(rest[i - l] == b[i]);
        lemma_boundary_step(rest, i - l, k);
    }
}

/// An ASCII text literal, with the bytes that it is known to hold.
pub(crate) fn ascii_literal(t: &'static str, Ghost(bytes): Ghost<Seq<u8>>) -> (r: &'static str)
    requires
        vstd::string::is_ascii(t),
        bytes =~= Seq::new(t@.len(), |i: int| t@[i] as u8),
    ensures
        r == t,
        r.spec_bytes() == bytes,
{
    proof {
        vstd::string::is_ascii_spec_bytes(t);
    }
    t
}

/// Whether two byte strings are equal.
pub fn bytes_eq(a: &[u8], b: &[u8]) -> (r: bool)
    ensures
        r == (a@ == b@),
{
    if a.len() != b.len() {
        return false;
    }
    let mut i: usize = 0;
    while i < a.len()
        invariant
            a@.len() == b@.len(),
            i <= a@.len(),
            forall|j: int| 0 <= j < i ==> a@[j] == b@[j],
        decreases a.len() - i,
    {
        if a[i] != b[i] {
            return false;
        }
        i = i + 1;
    }
    assert(a@ =~= b@);
    true
}

/// Whether `a` and `b` hold the same text.
pub fn str_eq(a: &str, b: &str) -> (r: bool)
    ensures
        r == (a.spec_bytes() == b.spec_bytes()),
{
    bytes_eq(a.as_bytes(), b.as_bytes())
}

/// A slice of `s` between two character boundaries, given by byte offsets.
pub fn substr<'a>(s: &'a str, start: usize, end: usize) -> (r: &'a str)
    requires
        start <= end <= s.spec_bytes().len(),
        is_char_boundary(s.spec_bytes(), start as int),
        is_char_boundary(s.spec_bytes(), end as int),
    ensures
        r.spec_bytes() == s.spec_bytes().subrange(start as int, end as int),
{
    let ghost b = s.spec_bytes();
    proof {
        encode_utf8_valid_utf8(s@);
        valid_utf8_split(b, start as int);
        let tail = b.subrange(start as int, b.len() as int);
        if end < b.len() {
            is_char_boundary_iff_not_is_continuation_byte(b, end as int);
            assert(tail[end - start] == b[end as int]);
            is_char_boundary_iff_not_is_continuation_byte(tail, end - start);
        } else {
            is_char_boundary_start_end_of_seq(tail);
        }
    }
    let (_, tail) = s.split_at(start);
    let (mid, _) = tail.split_at(end - start);
    mid
}


/// At index `i > 0` after an ASCII byte of valid UTF-8 stands a boundary.
pub proof fn lemma_boundary_after_ascii(b: Seq<u8>, i: int)
    requires
        valid_utf8(b),
        0 < i <= b.len(),
        b[i - 1] < 0x80,
    ensures
        is_char_boundary(b, i),
{
    lemma_boundary_at_start_byte(b, i - 1);
    lemma_boundary_step(b, i - 1, 1);
}

/// An ASCII white space byte in the sense of Unicode's White_Space
/// property: tab, line feed, vertical tab, form feed, carriage return, space.
pub open spec fn is_unicode_space_byte(c: u8) -> bool {
    (0x09 <= c <= 0x0d) || c == 0x20
}

/// The three-byte UTF-8 encodings of the White_Space characters
/// U+1680, U+2000 to U+200A, U+2028, U+2029, U+202F, U+205F and U+3000.
pub open spec fn is_white_space_3(x: u8, y: u8, z: u8) -> bool {
    ||| (x == 0xe1 && y == 0x9a && z == 0x80)
    ||| (x == 0xe2 && y == 0x80 && ((0x80 <= z <= 0x8a) || z == 0xa8 || z == 0xa9 || z == 0xaf))
    ||| (x == 0xe2 && y == 0x81 && z == 0x9f)
    ||| (x == 0xe3 && y == 0x80 && z == 0x80)
}

/// The two-byte UTF-8 encodings of the White_Space characters U+0085 and U+00A0.
pub open spec fn is_white_space_2(x: u8, y: u8) -> bool {
    x == 0xc2 && (y == 0x85 || y == 0xa0)
}

/// The length in bytes of the White_Space character that `b` starts with, or 0.
pub open spec fn white_space_prefix_len(b: Seq<u8>) -> int {
    if b.len() >= 1 && is_unicode_space_byte(b[0]) {
        1
    } else if b.len() >= 2 && is_white_space_2(b[0], b[1]) {
        2
    } else if b.len() >= 3 && is_white_space_3(b[0], b[1], b[2]) {
        3
    } else {
        0
    }
}

/// The length in bytes of the White_Space character that `b` ends with, or 0.
pub open spec fn white_space_suffix_len(b: Seq<u8>) -> int {
    let n = b.len() as int;
    if n >= 1 && is_unicode_space_byte(b[n - 1]) {
        1
    } else if n >= 2 && is_white_space_2(b[n - 2], b[n - 1]) {
        2
    } else if n >= 3 && is_white_space_3(b[n - 3], b[n - 2], b[n - 1]) {
        3
    } else {
        0
    }
}

/// `b` without its leading White_Space characters.
pub open spec fn trim_start_bytes(b: Seq<u8>) -> Seq<u8>
    decreases b.len(),
{
    let k = white_space_prefix_len(b);
    if k == 0 {
        b
    } else {
        trim_start_bytes(b.subrange(k, b.len() as int))
    }
}

/// `b` without its trailing White_Space characters.
pub open spec fn trim_end_bytes(b: Seq<u8>) -> Seq<u8>
    decreases b.len(),
{
    let k = white_space_suffix_len(b);
    if k == 0 {
        b
    } else {
        trim_end_bytes(b.subrange(0, b.len() - k))
    }
}

/// `b` without its leading and trailing White_Space characters.
pub open spec fn trim_bytes(b: Seq<u8>) -> Seq<u8> {
    trim_end_bytes(trim_start_bytes(b))
}

pub proof fn lemma_trim_start_len(b: Seq<u8>)
    ensures
        trim_start_bytes(b).len() <= b.len(),
    decreases b.len(),
{
    let k = white_space_prefix_len(b);
    if k != 0 {
        lemma_trim_start_len(b.subrange(k, b.len() as int));
    }
}

pub proof fn lemma_trim_end_len(b: Seq<u8>)
    ensures
        trim_end_bytes(b).len() <= b.len(),
    decreases b.len(),
{
    let k = white_space_suffix_len(b);
    if k != 0 {
        lemma_trim_end_len(b.subrange(0, b.len() - k));
    }
}

pub proof fn lemma_trim_len(b: Seq<u8>)
    ensures
        trim_bytes(b).len() <= b.len(),
{
    lemma_trim_start_len(b);
    lemma_trim_end_len(trim_start_bytes(b));
}

/// Text made only of White_Space characters, whichever end one trims from.
pub open spec fn is_white_space_text(w: Seq<u8>) -> bool {
    trim_start_bytes(w).len() == 0 && trim_end_bytes(w).len() == 0
}

/// A byte that can begin the encoding of a White_Space character.
pub open spec fn is_white_space_lead(c: u8) -> bool {
    is_unicode_space_byte(c) || c == 0xc2 || c == 0xe1 || c == 0xe2 || c == 0xe3
}

/// Leading white space of `w`, all of it white space, is stripped from `w + x`.
pub proof fn lemma_trim_start_prefix(w: Seq<u8>, x: Seq<u8>)
    requires
        trim_start_bytes(w).len() == 0,
    ensures
        trim_start_bytes(w + x) == trim_start_bytes(x),
    decreases w.len(),
{
    if w.len() == 0 {
        assert(w + x =~= x);
    } else {
        let k = white_space_prefix_len(w);
        let wx = w + x;
        assert(k > 0);
        assert(wx[0] == w[0]);
        if k >= 2 {
            assert(wx[1] == w[1]);
        }
        if k == 3 {
            assert(wx[2] == w[2]);
        }
        assert(white_space_prefix_len(wx) == k);
        assert(wx.subrange(k, wx.len() as int) =~= w.subrange(k, w.len() as int) + x);
        lemma_trim_start_prefix(w.subrange(k, w.len() as int), x);
    }
}

/// Trailing white space `w`, all of it white space, is stripped from `y + w`.
pub proof fn lemma_trim_end_suffix(y: Seq<u8>, w: Seq<u8>)
    requires
        trim_end_bytes(w).len() == 0,
    ensures
        trim_end_bytes(y + w) == trim_end_bytes(y),
    decreases w.len(),
{
    if w.len() == 0 {
        assert(y + w =~= y);
    } else {
        let k = white_space_suffix_len(w);
        let yw = y + w;
        let n = yw.len() as int;
        let m = w.len() as int;
        assert(k > 0);
        assert(yw[n - 1] == w[m - 1]);
        if k >= 2 {
            assert(yw[n - 2] == w[m - 2]);
        }
        if k == 3 {
            assert(yw[n - 3] == w[m - 3]);
        }
        assert(white_space_suffix_len(yw) == k);
        assert(yw.subrange(0, n - k) =~= y + w.subrange(0, m - k));
        lemma_trim_end_suffix(y, w.subrange(0, m - k));
    }
}

/// Trimming the start of `t + w` keeps `w` whole when `t` is not only white
/// space and `w` is empty or starts a White_Space character.
pub proof fn lemma_trim_start_append(t: Seq<u8>, w: Seq<u8>)
    requires
        trim_start_bytes(t).len() > 0,
        w.len() > 0 ==> is_white_space_lead(w[0]),
    ensures
        trim_start_bytes(t + w) == trim_start_bytes(t) + w,
    decreases t.len(),
{
    let tw = t + w;
    let k = white_space_prefix_len(t);
    assert(t.len() > 0);
    assert(tw[0] == t[0]);
    if t.len() >= 2 {
        assert(tw[1] == t[1]);
    }
    if t.len() >= 3 {
        assert(tw[2] == t[2]);
    }
    if t.len() == 1 && w.len() > 0 {
        assert(tw[1] == w[0]);
    }
    if t.len() == 2 && w.len() > 0 {
        assert(tw[2] == w[0]);
    }
    if t.len() == 1 && w.len() > 1 {
        assert(tw[2] == w[1]);
    }
    if w.len() == 0 {
        assert(tw =~= t);
    } else if k > 0 {
        assert(white_space_prefix_len(tw) == k);
        assert(tw.subrange(k, tw.len() as int) =~= t.subrange(k, t.len() as int) + w);
        lemma_trim_start_append(t.subrange(k, t.len() as int), w);
    } else {
        assert(white_space_prefix_len(tw) == 0);
    }
}

/// Trimming ignores white space added at either end.
pub proof fn lemma_trim_padding(w1: Seq<u8>, t: Seq<u8>, w2: Seq<u8>)
    requires
        is_white_space_text(w1),
        is_white_space_text(w2),
    ensures
        trim_bytes(w1 + t + w2) == trim_bytes(t),
{
    assert(w1 + t + w2 =~= w1 + (t + w2));
    lemma_trim_start_prefix(w1, t + w2);
    if trim_start_bytes(t).len() > 0 {
        if w2.len() > 0 {
            assert(white_space_prefix_len(w2) > 0);
        }
        lemma_trim_start_append(t, w2);
        lemma_trim_end_suffix(trim_start_bytes(t), w2);
    } else {
        lemma_trim_start_prefix(t, w2);
        assert(trim_start_bytes(t) =~= Seq::<u8>::empty());
        assert(trim_end_bytes(Seq::<u8>::empty()) =~= Seq::<u8>::empty());
    }
}

/// What trimming the start leaves is empty or starts with no white space.
pub proof fn lemma_trim_start_result(b: Seq<u8>)
    ensures
        trim_start_bytes(b).len() == 0 || white_space_prefix_len(trim_start_bytes(b)) == 0,
    decreases b.len(),
{
    let k = white_space_prefix_len(b);
    if k != 0 {
        lemma_trim_start_result(b.subrange(k, b.len() as int));
    }
}

/// Trimming the end leaves a prefix.
pub proof fn lemma_trim_end_prefix(b: Seq<u8>)
    ensures
        trim_end_bytes(b).len() <= b.len(),
        trim_end_bytes(b) == b.subrange(0, trim_end_bytes(b).len() as int),
    decreases b.len(),
{
    let k = white_space_suffix_len(b);
    if k == 0 {
        assert(b.subrange(0, b.len() as int) =~= b);
    } else {
        let c = b.subrange(0, b.len() - k);
        lemma_trim_end_prefix(c);
        assert(c.subrange(0, trim_end_bytes(c).len() as int) =~= b.subrange(
            0,
            trim_end_bytes(c).len() as int,
        ));
    }
}

/// Trimming twice is trimming once.
pub proof fn lemma_trim_idempotent(t: Seq<u8>)
    ensures
        trim_bytes(trim_bytes(t)) == trim_bytes(t),
{
    let y = trim_start_bytes(t);
    let z = trim_end_bytes(y);
    lemma_trim_start_result(t);
    lemma_trim_end_prefix(y);
    lemma_trim_end_idempotent(y);
    if z.len() > 0 {
        assert(z[0] == y[0]);
        if z.len() >= 2 {
            assert(z[1] == y[1]);
        }
        if z.len() >= 3 {
            assert(z[2] == y[2]);
        }
        assert(white_space_prefix_len(z) == 0);
    }
    assert(trim_start_bytes(z) == z);
}

/// Trimming the end twice is trimming it once.
pub proof fn lemma_trim_end_idempotent(b: Seq<u8>)
    ensures
        trim_end_bytes(trim_end_bytes(b)) == trim_end_bytes(b),
    decreases b.len(),
{
    let k = white_space_suffix_len(b);
    if k != 0 {
        lemma_trim_end_idempotent(b.subrange(0, b.len() - k));
    }
}

fn white_space_prefix_len_at(b: &[u8], i: usize) -> (k: usize)
    requires
        i <= b@.len(),
    ensures
        k == white_space_prefix_len(b@.subrange(i as int, b@.len() as int)),
        k <= b@.len() - i,
{
    let n = b.len();
    let ghost t = b@.subrange(i as int, n as int);
    if i < n && ((0x09 <= b[i] && b[i] <= 0x0d) || b[i] == 0x20) {
        1
    } else if n - i >= 2 && b[i] == 0xc2 && (b[i + 1] == 0x85 || b[i + 1] == 0xa0) {
        2
    } else if n - i >= 3 && ((b[i] == 0xe1 && b[i + 1] == 0x9a && b[i + 2] == 0x80) || (b[i]
        == 0xe2 && b[i + 1] == 0x80 && ((0x80 <= b[i + 2] && b[i + 2] <= 0x8a) || b[i + 2]
        == 0xa8 || b[i + 2] == 0xa9 || b[i + 2] == 0xaf)) || (b[i] == 0xe2 && b[i + 1] == 0x81
        && b[i + 2] == 0x9f) || (b[i] == 0xe3 && b[i + 1] == 0x80 && b[i + 2] == 0x80)) {
        3
    } else {
        0
    }
}

fn white_space_suffix_len_at(b: &[u8], e: usize) -> (k: usize)
    requires
        e <= b@.len(),
    ensures
        k == white_space_suffix_len(b@.subrange(0, e as int)),
        k <= e,
{
    let ghost t = b@.subrange(0, e as int);
    if e >= 1 && ((0x09 <= b[e - 1] && b[e - 1] <= 0x0d) || b[e - 1] == 0x20) {
        1
    } else if e >= 2 && b[e - 2] == 0xc2 && (b[e - 1] == 0x85 || b[e - 1] == 0xa0) {
        2
    } else if e >= 3 && ((b[e - 3] == 0xe1 && b[e - 2] == 0x9a && b[e - 1] == 0x80) || (b[e - 3]
        == 0xe2 && b[e - 2] == 0x80 && ((0x80 <= b[e - 1] && b[e - 1] <= 0x8a) || b[e - 1]
        == 0xa8 || b[e - 1] == 0xa9 || b[e - 1] == 0xaf)) || (b[e - 3] == 0xe2 && b[e - 2]
        == 0x81 && b[e - 1] == 0x9f) || (b[e - 3] == 0xe3 && b[e - 2] == 0x80 && b[e - 1]
        == 0x80)) {
        3
    } else {
        0
    }
}

/// `s` without its leading White_Space characters (as `str::trim_start`).
pub fn trim_start_str(s: &str) -> (r: &str)
    ensures
        r.spec_bytes() == trim_start_bytes(s.spec_bytes()),
{
    let b = s.as_bytes();
    let ghost bs = s.spec_bytes();
    proof {
        encode_utf8_valid_utf8(s@);
        is_char_boundary_start_end_of_seq(bs);
        assert(bs.subrange(0, bs.len() as int) =~= bs);
    }
    let n = b.len();
    let mut i: usize = 0;
    loop
        invariant
            b@ == bs,
            n == bs.len(),
            valid_utf8(bs),
            i <= bs.len(),
            is_char_boundary(bs, i as int),
            trim_start_bytes(bs) == trim_start_bytes(bs.subrange(i as int, bs.len() as int)),
        ensures
            i <= bs.len(),
            is_char_boundary(bs, i as int),
            trim_start_bytes(bs) == bs.subrange(i as int, bs.len() as int),
        decreases bs.len() - i,
    {
        let k = white_space_prefix_len_at(b, i);
        if k == 0 {
            break;
        }
        proof {
            let t = bs.subrange(i as int, bs.len() as int);
            assert(t[0] == bs[i as int]);
            lemma_boundary_step(bs, i as int, k as int);
            assert(t.subrange(k as int, t.len() as int) =~= bs.subrange(i + k, bs.len() as int));
        }
        i = i + k;
    }
    proof {
        is_char_boundary_start_end_of_seq(bs);
    }
    substr(s, i, b.len())
}

/// `s` without its trailing White_Space characters (as `str::trim_end`).
pub fn trim_end_str(s: &str) -> (r: &str)
    ensures
        r.spec_bytes() == trim_end_bytes(s.spec_bytes()),
{
    let b = s.as_bytes();
    let ghost bs = s.spec_bytes();
    proof {
        encode_utf8_valid_utf8(s@);
        is_char_boundary_start_end_of_seq(bs);
        assert(bs.subrange(0, bs.len() as int) =~= bs);
    }
    let mut e: usize = b.len();
    loop
        invariant
            b@ == bs,
            valid_utf8(bs),
            e <= bs.len(),
            is_char_boundary(bs, e as int),
            trim_end_bytes(bs) == trim_end_bytes(bs.subrange(0, e as int)),
        ensures
            e <= bs.len(),
            is_char_boundary(bs, e as int),
            trim_end_bytes(bs) == bs.subrange(0, e as int),
        decreases e,
    {
        let k = white_space_suffix_len_at(b, e);
        if k == 0 {
            break;
        }
        proof {
            let t = bs.subrange(0, e as int);
            assert(t[t.len() - k] == bs[e - k]);
            lemma_boundary_at_start_byte(bs, e - k);
            assert(t.subrange(0, t.len() - k) =~= bs.subrange(0, e - k));
        }
        e = e - k;
    }
    proof {
        is_char_boundary_start_end_of_seq(bs);
    }
    substr(s, 0, e)
}

/// `s` without its leading and trailing White_Space characters (as `str::trim`).
pub fn trim_str(s: &str) -> (r: &str)
    ensures
        r.spec_bytes() == trim_bytes(s.spec_bytes()),
{
    trim_end_str(trim_start_str(s))
}

} // verus!
