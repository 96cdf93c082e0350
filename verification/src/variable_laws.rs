//! What `var()` functions read, and how error positions are counted.

use vstd::prelude::*;

use crate::error::ErrorView;
use crate::stream::{
    char_count, char_pos, lemma_skip_while_to, starts_with_at, url_open, ByteClass,
};
use crate::paint::{
    kw_context_fill, kw_context_stroke, kw_current_color, kw_inherit, kw_none, spec_paint, PaintView,
};
use crate::text::{
    trim_bytes, trim_end_bytes, trim_start_bytes, white_space_prefix_len, white_space_suffix_len,
};
use crate::angle::{spec_angle_parts_from_str, AnglePartsView};
use crate::variable::{
    double_dash, spec_declaration_value, spec_parse_custom_property, spec_parse_var_func,
    spec_variable_function, var_open, FallbackView, VariableFunctionView,
};

verus! {

/// A byte that may stand in a custom property name after `--`: anything but
/// ASCII white space, `,` and `)`.
pub open spec fn is_name_byte(c: u8) -> bool {
    c != 0x20 && c != 0x09 && c != 0x0a && c != 0x0c && c != 0x0d && c != 0x2c && c != 0x29
}

/// A byte of a plain declaration value: an ASCII letter or digit, `#`, `-`,
/// `.` or `%`.
pub open spec fn is_plain_value_byte(c: u8) -> bool {
    (0x30 <= c <= 0x39) || (0x41 <= c <= 0x5a) || (0x61 <= c <= 0x7a) || c == 0x23 || c == 0x2d
        || c == 0x2e || c == 0x25
}

/// `var(--` and the name's tail `r`, then what follows, read up to the name's
/// end: the name is `--` followed by `r`.
proof fn lemma_var_name(r: Seq<u8>, rest: Seq<u8>)
    requires
        r.len() > 0,
        forall|i: int| 0 <= i < r.len() ==> is_name_byte(#[trigger] r[i]),
        rest.len() > 0,
        !is_name_byte(rest[0]),
    ensures
        spec_parse_custom_property(
            seq![0x76u8, 0x61, 0x72, 0x28, 0x2d, 0x2d] + r + rest,
            4,
        ) == Ok::<(int, Seq<u8>), ErrorView>((6 + r.len() as int, seq![0x2du8, 0x2d] + r)),
{
    let b = seq![0x76u8, 0x61, 0x72, 0x28, 0x2d, 0x2d] + r + rest;
    let e = 6 + r.len() as int;
    assert(b[4] == 0x2du8);
    lemma_skip_while_to(b, 4, 4, ByteClass::Space);
    assert(b.subrange(4, 6) =~= double_dash());
    assert forall|i: int| 4 <= i < e implies ByteClass::Name.spec_matches(#[trigger] b[i]) by {
        if i >= 6 {
            assert(b[i] == r[i - 6]);
        }
    }
    assert(b[e] == rest[0]);
    lemma_skip_while_to(b, 4, e, ByteClass::Name);
    assert(b.subrange(4, e) =~= seq![0x2du8, 0x2d] + r);
}

/// `var(--name)` read as a whole: the name, no value, and the end of the text.
proof fn lemma_var_without_value(r: Seq<u8>)
    requires
        r.len() > 0,
        forall|i: int| 0 <= i < r.len() ==> is_name_byte(#[trigger] r[i]),
    ensures
        spec_parse_var_func(seq![0x76u8, 0x61, 0x72, 0x28, 0x2d, 0x2d] + r + seq![0x29u8], 0)
            == Ok::<(int, Seq<u8>, Option<Seq<u8>>), ErrorView>(
            (7 + r.len() as int, seq![0x2du8, 0x2d] + r, None),
        ),
{
    let b = seq![0x76u8, 0x61, 0x72, 0x28, 0x2d, 0x2d] + r + seq![0x29u8];
    let e = 6 + r.len() as int;
    assert(b[0] == 0x76u8);
    lemma_skip_while_to(b, 0, 0, ByteClass::Space);
    assert(b.subrange(0, 4) =~= var_open());
    assert(starts_with_at(b, 0, var_open()));
    lemma_var_name(r, seq![0x29u8]);
    assert(b[e] == 0x29u8);
    lemma_skip_while_to(b, e, e, ByteClass::Space);
}

/// `var(--name)` is the variable `--name` with no fallback, for any name tail
/// that is not empty and holds no ASCII white space, `,` or `)`.
pub proof fn law_variable_without_fallback(r: Seq<u8>)
    requires
        r.len() > 0,
        forall|i: int| 0 <= i < r.len() ==> is_name_byte(#[trigger] r[i]),
    ensures
        spec_variable_function(seq![0x76u8, 0x61, 0x72, 0x28, 0x2d, 0x2d] + r + seq![0x29u8])
            == Ok::<VariableFunctionView, ErrorView>(
            VariableFunctionView {
                variable: seq![0x2du8, 0x2d] + r,
                fallback: FallbackView::Unspecified,
            },
        ),
{
    lemma_var_without_value(r);
}

/// An angle may be a `var()` function: `var(--name)` as an angle is that
/// variable, with no fallback.
pub proof fn law_angle_variable(r: Seq<u8>)
    requires
        r.len() > 0,
        forall|i: int| 0 <= i < r.len() ==> is_name_byte(#[trigger] r[i]),
    ensures
        spec_angle_parts_from_str(seq![0x76u8, 0x61, 0x72, 0x28, 0x2d, 0x2d] + r + seq![0x29u8])
            == Ok::<AnglePartsView, ErrorView>(
            AnglePartsView::Variable(
                VariableFunctionView {
                    variable: seq![0x2du8, 0x2d] + r,
                    fallback: FallbackView::Unspecified,
                },
            ),
        ),
{
    let b = seq![0x76u8, 0x61, 0x72, 0x28, 0x2d, 0x2d] + r + seq![0x29u8];
    assert(b[0] == 0x76u8);
    lemma_skip_while_to(b, 0, 0, ByteClass::Space);
    assert(b.subrange(0, 4) =~= var_open());
    lemma_var_without_value(r);
}

/// A paint may be a `var()` function: `var(--name)` as a paint is that
/// variable, with no fallback.
pub proof fn law_paint_variable(r: Seq<u8>)
    requires
        r.len() > 0,
        forall|i: int| 0 <= i < r.len() ==> is_name_byte(#[trigger] r[i]),
    ensures
        spec_paint(seq![0x76u8, 0x61, 0x72, 0x28, 0x2d, 0x2d] + r + seq![0x29u8]) == Ok::<
            PaintView,
            ErrorView,
        >(PaintView::Variable(seq![0x2du8, 0x2d] + r, None)),
{
    reveal(crate::paint::spec_variable_paint);
    let b = seq![0x76u8, 0x61, 0x72, 0x28, 0x2d, 0x2d] + r + seq![0x29u8];
    let m = b.len() as int;
    assert(b[0] == 0x76u8);
    assert(b[m - 1] == 0x29u8);
    assert(white_space_prefix_len(b) == 0);
    assert(trim_start_bytes(b) == b);
    assert(white_space_suffix_len(b) == 0);
    assert(trim_bytes(b) == b);
    assert(b != kw_none() && b != kw_inherit() && b != kw_current_color() && b != kw_context_fill()
        && b != kw_context_stroke()) by {
        if b == kw_none() || b == kw_inherit() || b == kw_current_color() || b == kw_context_fill()
            || b == kw_context_stroke() {
            assert(b[0] != 0x76u8);
        }
    }
    assert(!starts_with_at(b, 0, url_open())) by {
        if starts_with_at(b, 0, url_open()) {
            assert(b.subrange(0, 4)[0] == b[0]);
        }
    }
    assert(b.subrange(0, 4) =~= var_open());
    lemma_var_without_value(r);
}

/// A declaration value scan passes over plain bytes.
proof fn lemma_plain_value(b: Seq<u8>, start: int, p: int, q: int)
    requires
        0 <= start <= p <= q < b.len(),
        forall|i: int| p <= i < q ==> is_plain_value_byte(#[trigger] b[i]),
        b[q] == 0x29,
    ensures
        spec_declaration_value(b, start, p, Seq::empty()) == spec_declaration_value(
            b,
            start,
            q,
            Seq::empty(),
        ),
    decreases q - p,
{
    if p < q {
        assert(is_plain_value_byte(b[p]));
        if b[p] == 0x75 {
            assert(!starts_with_at(b, p, crate::stream::url_open())) by {
                if starts_with_at(b, p, crate::stream::url_open()) {
                    let u = b.subrange(p, p + 4);
                    assert(u == crate::stream::url_open());
                    if p + 3 < q {
                        assert(is_plain_value_byte(b[p + 3]));
                        assert(u[3] == b[p + 3]);
                    } else {
                        assert(u[q - p] == b[q]);
                    }
                }
            }
        }
        lemma_plain_value(b, start, p + 1, q);
    }
}

/// `var(--name, value)`, for a name as above and a non-empty plain value
/// (ASCII letters, digits, `#`, `-`, `.`, `%`), is the variable `--name` with
/// that value as its fallback.
pub proof fn law_variable_with_fallback(r: Seq<u8>, v: Seq<u8>)
    requires
        r.len() > 0,
        forall|i: int| 0 <= i < r.len() ==> is_name_byte(#[trigger] r[i]),
        v.len() > 0,
        forall|i: int| 0 <= i < v.len() ==> is_plain_value_byte(#[trigger] v[i]),
    ensures
        spec_variable_function(
            seq![0x76u8, 0x61, 0x72, 0x28, 0x2d, 0x2d] + r + seq![0x2cu8, 0x20] + v + seq![0x29u8],
        ) == Ok::<VariableFunctionView, ErrorView>(
            VariableFunctionView {
                variable: seq![0x2du8, 0x2d] + r,
                fallback: FallbackView::Given(v),
            },
        ),
{
    let rest = seq![0x2cu8, 0x20] + v + seq![0x29u8];
    let b = seq![0x76u8, 0x61, 0x72, 0x28, 0x2d, 0x2d] + r + seq![0x2cu8, 0x20] + v + seq![0x29u8];
    assert(b =~= seq![0x76u8, 0x61, 0x72, 0x28, 0x2d, 0x2d] + r + rest);
    let e = 6 + r.len() as int;
    let vs = e + 2;
    let ve = vs + v.len() as int;
    assert(b[0] == 0x76u8);
    lemma_skip_while_to(b, 0, 0, ByteClass::Space);
    assert(b.subrange(0, 4) =~= var_open());
    assert(starts_with_at(b, 0, var_open()));
    assert(rest[0] == 0x2cu8);
    lemma_var_name(r, rest);
    assert(b[e] == 0x2cu8);
    lemma_skip_while_to(b, e, e, ByteClass::Space);
    assert(b[e + 1] == 0x20u8);
    assert(b[vs] == v[0]);
    lemma_skip_while_to(b, e + 1, vs, ByteClass::Space);
    assert forall|i: int| vs <= i < ve implies is_plain_value_byte(#[trigger] b[i]) by {
        assert(b[i] == v[i - vs]);
    }
    assert(b[ve] == 0x29u8);
    lemma_plain_value(b, vs, vs, ve);
    assert(b.subrange(vs, ve) =~= v);
    let last = v[v.len() - 1];
    assert(is_plain_value_byte(last));
    assert(trim_end_bytes(v) == v);
}

/// ASCII bytes each count as one character.
proof fn lemma_ascii_char_count(b: Seq<u8>)
    requires
        forall|i: int| 0 <= i < b.len() ==> #[trigger] b[i] < 0x80,
    ensures
        char_count(b) == b.len(),
    decreases b.len(),
{
    if b.len() > 0 {
        lemma_ascii_char_count(b.drop_last());
    }
}

/// Error positions count characters from 1: a continuation byte (`0x80` to
/// `0xBF`) adds nothing to the count, every other byte begins one character;
/// so after ASCII text of `p` bytes the position is `p + 1`.
pub proof fn law_error_position_counts_characters(b: Seq<u8>, p: int, c: u8)
    requires
        0 <= p <= b.len(),
    ensures
        char_count(b.push(c)) == char_count(b) + if 0x80 <= c <= 0xbf {
            0int
        } else {
            1int
        },
        (forall|i: int| 0 <= i < p ==> #[trigger] b[i] < 0x80) && p < usize::MAX ==> char_pos(b, p)
            == p + 1,
{
    assert(b.push(c).drop_last() =~= b);
    if forall|i: int| 0 <= i < p ==> #[trigger] b[i] < 0x80 {
        assert forall|i: int| 0 <= i < b.take(p).len() implies #[trigger] b.take(p)[i] < 0x80 by {
            assert(b.take(p)[i] == b[i]);
        }
        lemma_ascii_char_count(b.take(p));
    }
}

} // verus!
