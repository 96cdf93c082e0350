//! Properties that hold of the parsers across all inputs.

use vstd::prelude::*;

use crate::angle::{
    is_digit, is_sign, spec_angle_parts_from_str, spec_angle_unit, spec_parse_angle_parts,
    spec_parse_number_text, AnglePartsView, AngleUnit,
};
use crate::color::{
    ascii_lower, hex_value, spec_color_from_str, spec_hex_color, spec_parse_color, Color,
};
use crate::color_names::named_color;
use crate::stream::{char_count, char_pos};
use crate::error::{decimal, ErrorView};
use crate::paint::{
    kw_context_fill, kw_context_stroke, kw_current_color, kw_inherit, kw_none, spec_paint,
    spec_paint_fallback, PaintFallbackView, PaintView,
};
use crate::stream::{
    is_ascii_whitespace_byte, lemma_skip_while, lemma_skip_while_to, skip_while,
    spec_parse_func_iri, starts_with_at, url_open, ByteClass,
};
use crate::text::{
    is_white_space_text, lemma_trim_end_len, lemma_trim_idempotent, lemma_trim_padding,
    lemma_trim_start_len, trim_bytes, trim_end_bytes, trim_start_bytes, white_space_prefix_len,
    white_space_suffix_len,
};
use crate::variable::{double_dash, spec_parse_custom_property, spec_parse_var_func, var_open};

verus! {

/// White space around a paint does not change what it parses to, or the
/// error: `Paint::from_str(w1 + text + w2)` and `Paint::from_str(text)` agree
/// whenever `w1` and `w2` consist of White_Space characters.
pub proof fn law_paint_ignores_surrounding_white_space(w1: Seq<u8>, t: Seq<u8>, w2: Seq<u8>)
    requires
        is_white_space_text(w1),
        is_white_space_text(w2),
    ensures
        spec_paint(w1 + t + w2) == spec_paint(t),
{
    lemma_trim_padding(w1, t, w2);
}

/// White space around a paint fallback does not change what it parses to.
pub proof fn law_paint_fallback_ignores_surrounding_white_space(
    w1: Seq<u8>,
    t: Seq<u8>,
    w2: Seq<u8>,
)
    requires
        is_white_space_text(w1),
        is_white_space_text(w2),
    ensures
        spec_paint_fallback(w1 + t + w2) == spec_paint_fallback(t),
{
    reveal(spec_paint_fallback);
    lemma_trim_padding(w1, t, w2);
}

/// `#rgb` is the color `#rrggbb`: each short digit stands for itself twice.
pub proof fn law_short_hex_doubles_digits(r: u8, g: u8, b: u8)
    requires
        ByteClass::HexDigit.spec_matches(r),
        ByteClass::HexDigit.spec_matches(g),
        ByteClass::HexDigit.spec_matches(b),
    ensures
        spec_hex_color(seq![r, g, b]) == spec_hex_color(seq![r, r, g, g, b, b]),
{
}

/// `#rgba` is the color `#rrggbbaa`.
pub proof fn law_short_hex_alpha_doubles_digits(r: u8, g: u8, b: u8, a: u8)
    requires
        ByteClass::HexDigit.spec_matches(r),
        ByteClass::HexDigit.spec_matches(g),
        ByteClass::HexDigit.spec_matches(b),
        ByteClass::HexDigit.spec_matches(a),
    ensures
        spec_hex_color(seq![r, g, b, a]) == spec_hex_color(seq![r, r, g, g, b, b, a, a]),
{
}

/// Lowering ASCII letters keeps each of these byte classes.
proof fn lemma_lower_keeps_class(b: Seq<u8>, p: int, class: ByteClass)
    requires
        0 <= p <= b.len(),
        class == ByteClass::Space || class == ByteClass::HexDigit || class == ByteClass::Ident,
    ensures
        skip_while(ascii_lower(b), p, class) == skip_while(b, p, class),
    decreases b.len() - p,
{
    if p < b.len() {
        lemma_lower_keeps_class(b, p + 1, class);
    }
}

/// Lowering ASCII letters keeps character counts.
proof fn lemma_lower_keeps_char_count(b: Seq<u8>)
    ensures
        char_count(ascii_lower(b)) == char_count(b),
    decreases b.len(),
{
    if b.len() > 0 {
        assert(ascii_lower(b).drop_last() =~= ascii_lower(b.drop_last()));
        lemma_lower_keeps_char_count(b.drop_last());
    }
}

/// Color keywords and hexadecimal digits are read without regard to ASCII
/// case: a text and its lowercase form give the same color, or the same error.
pub proof fn law_color_ignores_ascii_case(b: Seq<u8>)
    ensures
        spec_color_from_str(ascii_lower(b)) == spec_color_from_str(b),
{
    let l = ascii_lower(b);
    lemma_lower_keeps_class(b, 0, ByteClass::Space);
    lemma_skip_while(b, 0, ByteClass::Space);
    let p1 = skip_while(b, 0, ByteClass::Space);
    if p1 < b.len() {
        if b[p1] == 0x23 {
            lemma_lower_keeps_class(b, p1 + 1, ByteClass::HexDigit);
            lemma_skip_while(b, p1 + 1, ByteClass::HexDigit);
            let e = skip_while(b, p1 + 1, ByteClass::HexDigit);
            let h = b.subrange(p1 + 1, e);
            let lh = l.subrange(p1 + 1, e);
            assert forall|i: int| 0 <= i < h.len() implies hex_value(#[trigger] lh[i]) == hex_value(
                h[i],
            ) by {
                assert(ByteClass::HexDigit.spec_matches(b[p1 + 1 + i]));
            }
            assert(spec_hex_color(lh) == spec_hex_color(h));
            assert(spec_parse_color(l, 0) == spec_parse_color(b, 0));
            if let Ok((q0, c)) = spec_parse_color(b, 0) {
                lemma_lower_keeps_class(b, q0, ByteClass::Space);
                let q = skip_while(b, q0, ByteClass::Space);
                lemma_skip_while(b, q0, ByteClass::Space);
                assert(l.take(q) =~= ascii_lower(b.take(q)));
                lemma_lower_keeps_char_count(b.take(q));
            }
        } else {
            lemma_lower_keeps_class(b, p1, ByteClass::Ident);
            lemma_skip_while(b, p1, ByteClass::Ident);
            let e = skip_while(b, p1, ByteClass::Ident);
            assert(ascii_lower(l.subrange(p1, e)) =~= ascii_lower(b.subrange(p1, e)));
            assert(spec_parse_color(l, 0) == spec_parse_color(b, 0));
            if let Ok((q0, c)) = spec_parse_color(b, 0) {
                lemma_lower_keeps_class(b, q0, ByteClass::Space);
                let q = skip_while(b, q0, ByteClass::Space);
                lemma_skip_while(b, q0, ByteClass::Space);
                assert(l.take(q) =~= ascii_lower(b.take(q)));
                lemma_lower_keeps_char_count(b.take(q));
            }
        }
    }
}

/// An angle unit must be lowercase: after a number, an uppercase letter is
/// not consumed, so the angle ends before it (and a whole-text parse fails there).
pub proof fn law_angle_unit_is_lowercase(b: Seq<u8>, p: int)
    requires
        0 <= p <= b.len(),
        spec_parse_number_text(b, p) matches Ok((q, _)) && q < b.len() && 0x41 <= b[q] <= 0x5a,
    ensures
        spec_parse_angle_parts(b, p) matches Ok((np, _)) && np == spec_parse_number_text(b, p)->Ok_0.0 && np < b.len(),
{
    let p1 = skip_while(b, p, ByteClass::Space);
    lemma_skip_while(b, p, ByteClass::Space);
    lemma_skip_while(b, p1, ByteClass::Space);
    assert(skip_while(b, p1, ByteClass::Space) == p1);
    assert(p1 < b.len());
    assert(is_sign(b[p1]) || is_digit(b[p1]) || b[p1] == 0x2e);
    if starts_with_at(b, p1, var_open()) {
        assert(b[p1] == b.subrange(p1, p1 + 4)[0]);
    }
    let q = spec_parse_number_text(b, p)->Ok_0.0;
    assert(spec_angle_unit(b, q) == (q, AngleUnit::Degrees)) by {
        if starts_with_at(b, q, crate::angle::unit_deg()) {
            assert(b[q] == b.subrange(q, q + 3)[0]);
        }
        if starts_with_at(b, q, crate::angle::unit_grad()) {
            assert(b[q] == b.subrange(q, q + 4)[0]);
        }
        if starts_with_at(b, q, crate::angle::unit_rad()) {
            assert(b[q] == b.subrange(q, q + 3)[0]);
        }
        if starts_with_at(b, q, crate::angle::unit_turn()) {
            assert(b[q] == b.subrange(q, q + 4)[0]);
        }
    }
}

/// A custom property name starts with `--`, is longer than `--` alone, and
/// holds no ASCII white space, `,` or `)`.
pub proof fn law_custom_property_shape(b: Seq<u8>, p: int)
    requires
        0 <= p <= b.len(),
    ensures
        spec_parse_custom_property(b, p) matches Ok((_, name)) ==> name.len() > 2 && name.subrange(0, 2)
            == double_dash() && forall|i: int|
            0 <= i < name.len() ==> !is_ascii_whitespace_byte(#[trigger] name[i]) && name[i]
                != 0x2c && name[i] != 0x29,
        spec_parse_custom_property(b, p) matches Ok((np, name)) ==> p <= np <= b.len() && b.subrange(
            skip_while(b, p, ByteClass::Space),
            b.len() as int,
        ) == name + b.subrange(np, b.len() as int),
{
    let p1 = skip_while(b, p, ByteClass::Space);
    lemma_skip_while(b, p, ByteClass::Space);
    if starts_with_at(b, p1, double_dash()) {
        let e = skip_while(b, p1, ByteClass::Name);
        lemma_skip_while(b, p1, ByteClass::Name);
        assert(b[p1] == b.subrange(p1, p1 + 2)[0]);
        assert(b[p1 + 1] == b.subrange(p1, p1 + 2)[1]);
        let name = b.subrange(p1, e);
        assert(e >= p1 + 2) by {
            lemma_skip_while(b, p1 + 1, ByteClass::Name);
        }
        assert(name.subrange(0, 2) =~= double_dash());
        assert forall|i: int| 0 <= i < name.len() implies !is_ascii_whitespace_byte(
            #[trigger] name[i],
        ) && name[i] != 0x2c && name[i] != 0x29 by {
            assert(name[i] == b[p1 + i]);
        }
        assert(b.subrange(p1, b.len() as int) =~= name + b.subrange(e, b.len() as int));
    }
}

/// A declaration value ends without white space: it is its own `trim_end`.
pub proof fn law_var_fallback_has_no_trailing_white_space(b: Seq<u8>, p: int)
    requires
        0 <= p <= b.len(),
    ensures
        spec_parse_var_func(b, p) matches Ok((_, _, Some(v))) ==> trim_end_bytes(v) == v,
{
    crate::variable::lemma_var_func_value_shorter(b, p);
}

/// A `var()` function is read whole: on success the stream has moved past
/// the function's closing `)`.
pub proof fn law_var_func_is_read_whole(b: Seq<u8>, p: int)
    requires
        0 <= p <= b.len(),
    ensures
        spec_parse_var_func(b, p) matches Ok((np, _, _)) ==> p < np <= b.len() && b[np - 1]
            == 0x29,
{
    crate::variable::lemma_var_func_value_shorter(b, p);
}

/// A paint parses the same from a text as from its trimmed form:
/// `Paint::from_str(text)` and `Paint::from_str(text.trim())` agree.
pub proof fn law_paint_of_trimmed_text(t: Seq<u8>)
    ensures
        spec_paint(trim_bytes(t)) == spec_paint(t),
{
    lemma_trim_idempotent(t);
}

/// After `url(#link)`, a fallback that fails to parse makes the whole paint
/// fail with the fallback's own error.
pub proof fn law_paint_func_iri_fallback_error(t: Seq<u8>)
    requires
        starts_with_at(trim_bytes(t), 0, url_open()),
        spec_parse_func_iri(trim_bytes(t), 0) matches Ok((p, _)) && skip_while(
            trim_bytes(t),
            p,
            ByteClass::Space,
        ) < trim_bytes(t).len() && spec_paint_fallback(
            trim_bytes(t).subrange(skip_while(trim_bytes(t), p, ByteClass::Space), trim_bytes(t).len() as int),
        ) is Err,
    ensures
        spec_paint(t) == Err::<PaintView, ErrorView>(
            spec_paint_fallback(
                trim_bytes(t).subrange(
                    skip_while(trim_bytes(t), spec_parse_func_iri(trim_bytes(t), 0)->Ok_0.0, ByteClass::Space),
                    trim_bytes(t).len() as int,
                ),
            )->Err_0,
        ),
{
    reveal(crate::paint::spec_func_iri_paint);
    let s = trim_bytes(t);
    assert(s[0] == s.subrange(0, 4)[0]);
    assert(s != kw_none() && s != kw_inherit() && s != kw_current_color() && s != kw_context_fill()
        && s != kw_context_stroke()) by {
        if s == kw_none() || s == kw_inherit() || s == kw_current_color() || s == kw_context_fill()
            || s == kw_context_stroke() {
            assert(s[0] != 0x75u8);
        }
    }
}

/// Parsing a whole text as angle parts is parsing the parts and then
/// requiring the end of the text; leftover text is `UnexpectedData` at its
/// character position (1 plus the characters before it).
pub proof fn law_angle_parts_from_str_composes(b: Seq<u8>)
    ensures
        spec_angle_parts_from_str(b) == match spec_parse_angle_parts(b, 0) {
            Err(e) => Err(e),
            Ok((p, a)) => if p < b.len() {
                Err(ErrorView::UnexpectedData(char_pos(b, p)))
            } else {
                Ok::<AnglePartsView, ErrorView>(a)
            },
        },
{
}

/// A trimmed, non-empty text starts and ends with no white space.
proof fn lemma_trimmed_ends(f: Seq<u8>)
    requires
        f.len() > 0,
        trim_bytes(f) == f,
    ensures
        white_space_prefix_len(f) == 0,
        white_space_suffix_len(f) == 0,
{
    lemma_trim_start_len(f);
    lemma_trim_end_len(trim_start_bytes(f));
    let k = white_space_prefix_len(f);
    if k != 0 {
        lemma_trim_start_len(f.subrange(k, f.len() as int));
    }
    assert(trim_start_bytes(f) == f);
    let m = white_space_suffix_len(f);
    if m != 0 {
        lemma_trim_end_len(f.subrange(0, f.len() - m));
    }
}

/// The bytes of `url(#link) fallback`.
pub open spec fn url_paint_text(link: Seq<u8>, fallback: Seq<u8>) -> Seq<u8> {
    url_open() + seq![0x23u8] + link + seq![0x29u8, 0x20] + fallback
}

/// `url(#link) f`, for a link without spaces or `)` and a trimmed non-empty
/// fallback `f`, parses to the link with `f`'s fallback, or fails with `f`'s
/// own error.
pub proof fn law_paint_func_iri_fallback(link: Seq<u8>, f: Seq<u8>)
    requires
        link.len() > 0,
        forall|i: int| 0 <= i < link.len() ==> #[trigger] link[i] != 0x20 && link[i] != 0x29,
        f.len() > 0,
        trim_bytes(f) == f,
    ensures
        spec_paint(url_paint_text(link, f)) == match spec_paint_fallback(f) {
            Err(e) => Err(e),
            Ok(fb) => Ok::<PaintView, ErrorView>(PaintView::FuncIRI(link, Some(fb))),
        },
{
    reveal(crate::paint::spec_func_iri_paint);
    let t = url_paint_text(link, f);
    let n = link.len() as int;
    let e = 5 + n;
    lemma_trimmed_ends(f);
    assert(t[0] == 0x75u8);
    assert(t[4] == 0x23u8);
    assert(t[e] == 0x29u8);
    assert(t[e + 1] == 0x20u8);
    assert(t.subrange(e + 2, t.len() as int) =~= f);
    assert(t[e + 2] == f[0]);
    // the text is already trimmed
    assert(white_space_prefix_len(t) == 0);
    assert(trim_start_bytes(t) == t);
    let m = t.len() as int;
    let fl = f.len() as int;
    assert(t[m - 1] == f[fl - 1]);
    if fl >= 2 {
        assert(t[m - 2] == f[fl - 2]);
    } else {
        assert(t[m - 2] == 0x20u8);
    }
    if fl >= 3 {
        assert(t[m - 3] == f[fl - 3]);
    } else if fl == 2 {
        assert(t[m - 3] == 0x20u8);
    } else {
        assert(t[m - 3] == 0x29u8);
    }
    assert(white_space_suffix_len(t) == 0);
    assert(trim_bytes(t) == t);
    // not a keyword
    assert(t != kw_none() && t != kw_inherit() && t != kw_current_color() && t != kw_context_fill()
        && t != kw_context_stroke()) by {
        if t == kw_none() || t == kw_inherit() || t == kw_current_color() || t == kw_context_fill()
            || t == kw_context_stroke() {
            assert(t[0] != 0x75u8);
        }
    }
    assert(t.subrange(0, 4) =~= url_open());
    // the steps of `url(#link)`
    lemma_skip_while_to(t, 0, 0, ByteClass::Space);
    lemma_skip_while_to(t, 4, 4, ByteClass::Space);
    assert forall|i: int| 5 <= i < e implies ByteClass::IriChar.spec_matches(#[trigger] t[i]) by {
        assert(t[i] == link[i - 5]);
    }
    lemma_skip_while_to(t, 5, e, ByteClass::IriChar);
    lemma_skip_while_to(t, e, e, ByteClass::Space);
    assert(t.subrange(5, e) =~= link);
    assert(crate::stream::spec_func_iri_steps(t, 0) == Ok::<(int, Seq<u8>), ErrorView>((e + 1, link)));
    lemma_skip_while_to(t, e + 1, e + 2, ByteClass::Space);
}

/// `url(#link)`, for any non-empty link whose bytes are neither a space nor
/// `)` (digits, letters, `-`, `_` and all other bytes included), is a paint of
/// that link without a fallback.
pub proof fn law_paint_func_iri_link(link: Seq<u8>)
    requires
        link.len() > 0,
        forall|i: int| 0 <= i < link.len() ==> #[trigger] link[i] != 0x20 && link[i] != 0x29,
    ensures
        spec_paint(seq![0x75u8, 0x72, 0x6c, 0x28, 0x23] + link + seq![0x29u8]) == Ok::<
            PaintView,
            ErrorView,
        >(PaintView::FuncIRI(link, None)),
{
    reveal(crate::paint::spec_func_iri_paint);
    let t = seq![0x75u8, 0x72, 0x6c, 0x28, 0x23] + link + seq![0x29u8];
    let n = link.len() as int;
    let e = 5 + n;
    let m = t.len() as int;
    assert(m == e + 1);
    assert(t[0] == 0x75u8);
    assert(t[4] == 0x23u8);
    assert(t[e] == 0x29u8);
    assert(t[m - 2] == link[n - 1]);
    assert(white_space_prefix_len(t) == 0);
    assert(trim_start_bytes(t) == t);
    assert(white_space_suffix_len(t) == 0);
    assert(trim_bytes(t) == t);
    assert(t != kw_none() && t != kw_inherit() && t != kw_current_color() && t != kw_context_fill()
        && t != kw_context_stroke()) by {
        if t == kw_none() || t == kw_inherit() || t == kw_current_color() || t == kw_context_fill()
            || t == kw_context_stroke() {
            assert(t[0] != 0x75u8);
        }
    }
    assert(t.subrange(0, 4) =~= url_open());
    lemma_skip_while_to(t, 0, 0, ByteClass::Space);
    lemma_skip_while_to(t, 4, 4, ByteClass::Space);
    assert forall|i: int| 5 <= i < e implies ByteClass::IriChar.spec_matches(#[trigger] t[i]) by {
        assert(t[i] == link[i - 5]);
    }
    lemma_skip_while_to(t, 5, e, ByteClass::IriChar);
    lemma_skip_while_to(t, e, e, ByteClass::Space);
    assert(t.subrange(5, e) =~= link);
    assert(crate::stream::spec_func_iri_steps(t, 0) == Ok::<(int, Seq<u8>), ErrorView>((m, link)));
    lemma_skip_while_to(t, m, m, ByteClass::Space);
}

/// A custom property name takes every byte it can: it ends at the end of the
/// text or before an ASCII white space, `,` or `)`, so digits and every other
/// byte continue it.
pub proof fn law_custom_property_name_is_maximal(b: Seq<u8>, p: int)
    requires
        0 <= p <= b.len(),
    ensures
        spec_parse_custom_property(b, p) matches Ok((np, _)) ==> np == b.len() || b[np] == 0x20
            || b[np] == 0x09 || b[np] == 0x0a || b[np] == 0x0c || b[np] == 0x0d || b[np] == 0x2c
            || b[np] == 0x29,
{
    let p1 = skip_while(b, p, ByteClass::Space);
    lemma_skip_while(b, p, ByteClass::Space);
    if starts_with_at(b, p1, double_dash()) {
        lemma_skip_while(b, p1, ByteClass::Name);
    }
}

/// An angle made of ASCII digits and a unit suffix (`deg`, `grad`, `rad`,
/// `turn` or none) is that number, at position 1, with that unit.
pub proof fn law_angle_digits_with_unit(d: Seq<u8>, u: Seq<u8>)
    requires
        d.len() > 0,
        forall|i: int| 0 <= i < d.len() ==> 0x30 <= #[trigger] d[i] <= 0x39,
        u == Seq::<u8>::empty() || u == seq![0x64u8, 0x65, 0x67] || u == seq![0x67u8, 0x72, 0x61, 0x64]
            || u == seq![0x72u8, 0x61, 0x64] || u == seq![0x74u8, 0x75, 0x72, 0x6e],
    ensures
        spec_angle_parts_from_str(d + u) == Ok::<AnglePartsView, ErrorView>(
            AnglePartsView::Discrete {
                number: d,
                position: 1,
                unit: if u == seq![0x67u8, 0x72, 0x61, 0x64] {
                    AngleUnit::Gradians
                } else if u == seq![0x72u8, 0x61, 0x64] {
                    AngleUnit::Radians
                } else if u == seq![0x74u8, 0x75, 0x72, 0x6e] {
                    AngleUnit::Turns
                } else {
                    AngleUnit::Degrees
                },
            },
        ),
{
    let b = d + u;
    let q = d.len() as int;
    assert(b[0] == d[0]);
    lemma_skip_while_to(b, 0, 0, ByteClass::Space);
    assert(!starts_with_at(b, 0, var_open())) by {
        if starts_with_at(b, 0, var_open()) {
            assert(b[0] == b.subrange(0, 4)[0]);
        }
    }
    assert forall|i: int| 0 <= i < q implies ByteClass::Digit.spec_matches(#[trigger] b[i]) by {
        assert(b[i] == d[i]);
    }
    if u.len() > 0 {
        assert(b[q] == u[0]);
    }
    lemma_skip_while_to(b, 0, q, ByteClass::Digit);
    assert(crate::angle::spec_number_end(b, 0) == Some((q, true)));
    assert(b.subrange(0, q) =~= d);
    assert(b.take(0) =~= Seq::<u8>::empty());
    assert(char_count(Seq::<u8>::empty()) == 0);
    let deg = crate::angle::unit_deg();
    let grad = crate::angle::unit_grad();
    let rad = crate::angle::unit_rad();
    let turn = crate::angle::unit_turn();
    if u.len() > 0 {
        assert(b.subrange(q, b.len() as int) =~= u);
        if u == seq![0x64u8, 0x65, 0x67] {
            assert(b.subrange(q, q + 3) =~= deg);
        } else if u == seq![0x67u8, 0x72, 0x61, 0x64] {
            assert(!starts_with_at(b, q, deg)) by {
                if starts_with_at(b, q, deg) {
                    assert(b.subrange(q, q + 3)[0] == b[q]);
                }
            }
            assert(b.subrange(q, q + 4) =~= grad);
        } else if u == seq![0x72u8, 0x61, 0x64] {
            assert(!starts_with_at(b, q, deg)) by {
                if starts_with_at(b, q, deg) {
                    assert(b.subrange(q, q + 3)[0] == b[q]);
                }
            }
            assert(!starts_with_at(b, q, grad)) by {
                if starts_with_at(b, q, grad) {
                    assert(b.subrange(q, q + 4)[0] == b[q]);
                }
            }
            assert(b.subrange(q, q + 3) =~= rad);
        } else {
            assert(!starts_with_at(b, q, deg)) by {
                if starts_with_at(b, q, deg) {
                    assert(b.subrange(q, q + 3)[0] == b[q]);
                }
            }
            assert(!starts_with_at(b, q, grad)) by {
                if starts_with_at(b, q, grad) {
                    assert(b.subrange(q, q + 4)[0] == b[q]);
                }
            }
            assert(!starts_with_at(b, q, rad)) by {
                if starts_with_at(b, q, rad) {
                    assert(b.subrange(q, q + 3)[0] == b[q]);
                }
            }
            assert(b.subrange(q, q + 4) =~= turn);
        }
    } else {
        assert(b =~= d);
    }
}

/// A paint fallback that is not empty, `none`, `currentColor` or a `var()` is
/// the color that `Color::from_str` reads from it, alpha included, or that
/// function's error.
pub proof fn law_paint_fallback_color(s: Seq<u8>)
    requires
        trim_bytes(s) == s,
        s.len() > 0,
        s != seq![0x6eu8, 0x6f, 0x6e, 0x65],
        s != seq![0x63u8, 0x75, 0x72, 0x72, 0x65, 0x6e, 0x74, 0x43, 0x6f, 0x6c, 0x6f, 0x72],
        !(s.len() >= 4 && s.subrange(0, 4) == seq![0x76u8, 0x61, 0x72, 0x28]),
    ensures
        spec_paint_fallback(s) == match spec_color_from_str(s) {
            Ok(c) => Ok::<PaintFallbackView, ErrorView>(PaintFallbackView::Color(c)),
            Err(e) => Err(e),
        },
{
    reveal(spec_paint_fallback);
    assert(kw_none() =~= seq![0x6eu8, 0x6f, 0x6e, 0x65]);
    assert(kw_current_color() =~= seq![0x63u8, 0x75, 0x72, 0x72, 0x65, 0x6e, 0x74, 0x43, 0x6f, 0x6c, 0x6f, 0x72]);
    assert(var_open() =~= seq![0x76u8, 0x61, 0x72, 0x28]);
}

/// A paint that is not a keyword, a `url()` or a `var()` is the color that
/// `Color::from_str` reads from it, alpha included; any color error is
/// reported as `InvalidValue`.
pub proof fn law_paint_color(s: Seq<u8>)
    requires
        trim_bytes(s) == s,
        s != seq![0x6eu8, 0x6f, 0x6e, 0x65],
        s != seq![0x69u8, 0x6e, 0x68, 0x65, 0x72, 0x69, 0x74],
        s != seq![0x63u8, 0x75, 0x72, 0x72, 0x65, 0x6e, 0x74, 0x43, 0x6f, 0x6c, 0x6f, 0x72],
        s != seq![0x63u8, 0x6f, 0x6e, 0x74, 0x65, 0x78, 0x74, 0x2d, 0x66, 0x69, 0x6c, 0x6c],
        s != seq![0x63u8, 0x6f, 0x6e, 0x74, 0x65, 0x78, 0x74, 0x2d, 0x73, 0x74, 0x72, 0x6f, 0x6b, 0x65],
        !(s.len() >= 4 && s.subrange(0, 4) == seq![0x75u8, 0x72, 0x6c, 0x28]),
        !(s.len() >= 4 && s.subrange(0, 4) == seq![0x76u8, 0x61, 0x72, 0x28]),
    ensures
        spec_paint(s) == match spec_color_from_str(s) {
            Ok(c) => Ok::<PaintView, ErrorView>(PaintView::Color(c)),
            Err(_) => Err(ErrorView::InvalidValue),
        },
{
    assert(kw_none() =~= seq![0x6eu8, 0x6f, 0x6e, 0x65]);
    assert(kw_inherit() =~= seq![0x69u8, 0x6e, 0x68, 0x65, 0x72, 0x69, 0x74]);
    assert(kw_current_color() =~= seq![0x63u8, 0x75, 0x72, 0x72, 0x65, 0x6e, 0x74, 0x43, 0x6f, 0x6c, 0x6f, 0x72]);
    assert(kw_context_fill() =~= seq![0x63u8, 0x6f, 0x6e, 0x74, 0x65, 0x78, 0x74, 0x2d, 0x66, 0x69, 0x6c, 0x6c]);
    assert(kw_context_stroke() =~= seq![0x63u8, 0x6f, 0x6e, 0x74, 0x65, 0x78, 0x74, 0x2d, 0x73, 0x74, 0x72, 0x6f, 0x6b, 0x65]);
    assert(url_open() =~= seq![0x75u8, 0x72, 0x6c, 0x28]);
    assert(var_open() =~= seq![0x76u8, 0x61, 0x72, 0x28]);
}

/// A hexadecimal digit: `0`-`9`, `a`-`f` or `A`-`F`.
pub open spec fn is_hex_digit_byte(c: u8) -> bool {
    (0x30 <= c <= 0x39) || (0x61 <= c <= 0x66) || (0x41 <= c <= 0x46)
}

/// What a hexadecimal digit counts: `0`-`9` count 0 to 9, `a`-`f` and `A`-`F`
/// count 10 to 15.
pub open spec fn hex_digit_count(c: u8) -> int {
    if 0x30 <= c <= 0x39 {
        c - 0x30
    } else if 0x61 <= c <= 0x66 {
        c - 0x61 + 10
    } else {
        c - 0x41 + 10
    }
}

/// `#` followed by hexadecimal digits, as a whole color text: where the digits
/// run to the end, the color is what they give.
proof fn lemma_hex_text(h: Seq<u8>)
    requires
        forall|i: int| 0 <= i < h.len() ==> is_hex_digit_byte(#[trigger] h[i]),
    ensures
        spec_color_from_str(seq![0x23u8] + h) == match spec_hex_color(h) {
            Some(c) => Ok::<Color, ErrorView>(c),
            None => Err(ErrorView::InvalidValue),
        },
{
    let b = seq![0x23u8] + h;
    let n = b.len() as int;
    assert(b[0] == 0x23u8);
    lemma_skip_while_to(b, 0, 0, ByteClass::Space);
    assert forall|i: int| 1 <= i < n implies ByteClass::HexDigit.spec_matches(#[trigger] b[i]) by {
        assert(b[i] == h[i - 1]);
    }
    lemma_skip_while_to(b, 1, n, ByteClass::HexDigit);
    lemma_skip_while_to(b, n, n, ByteClass::Space);
    assert(b.subrange(1, n) =~= h);
}

/// `#rrggbb` and `#rrggbbaa`: each pair of hexadecimal digits is one channel,
/// its first digit counting sixteen times its second; without the fourth pair
/// the color is opaque.
pub proof fn law_hex_color_digit_pairs(h: Seq<u8>)
    requires
        h.len() == 6 || h.len() == 8,
        forall|i: int| 0 <= i < h.len() ==> is_hex_digit_byte(#[trigger] h[i]),
    ensures
        spec_color_from_str(seq![0x23u8] + h) == Ok::<Color, ErrorView>(
            Color {
                red: (16 * hex_digit_count(h[0]) + hex_digit_count(h[1])) as u8,
                green: (16 * hex_digit_count(h[2]) + hex_digit_count(h[3])) as u8,
                blue: (16 * hex_digit_count(h[4]) + hex_digit_count(h[5])) as u8,
                alpha: if h.len() == 8 {
                    (16 * hex_digit_count(h[6]) + hex_digit_count(h[7])) as u8
                } else {
                    255u8
                },
            },
        ),
{
    lemma_hex_text(h);
}

/// `#rgb` and `#rgba`: each hexadecimal digit is one channel, counted
/// seventeen times (the digit written twice); without the fourth digit the
/// color is opaque.
pub proof fn law_hex_color_short_digits(h: Seq<u8>)
    requires
        h.len() == 3 || h.len() == 4,
        forall|i: int| 0 <= i < h.len() ==> is_hex_digit_byte(#[trigger] h[i]),
    ensures
        spec_color_from_str(seq![0x23u8] + h) == Ok::<Color, ErrorView>(
            Color {
                red: (17 * hex_digit_count(h[0])) as u8,
                green: (17 * hex_digit_count(h[1])) as u8,
                blue: (17 * hex_digit_count(h[2])) as u8,
                alpha: if h.len() == 4 {
                    (17 * hex_digit_count(h[3])) as u8
                } else {
                    255u8
                },
            },
        ),
{
    lemma_hex_text(h);
}

/// Any other number of hexadecimal digits after `#` is not a color.
pub proof fn law_hex_color_digit_count(h: Seq<u8>)
    requires
        h.len() != 3 && h.len() != 4 && h.len() != 6 && h.len() != 8,
        forall|i: int| 0 <= i < h.len() ==> is_hex_digit_byte(#[trigger] h[i]),
    ensures
        spec_color_from_str(seq![0x23u8] + h) == Err::<Color, ErrorView>(ErrorView::InvalidValue),
{
    lemma_hex_text(h);
}

/// A keyword made of ASCII letters and `-` is its own trimmed form.
proof fn lemma_word_is_trimmed(k: Seq<u8>)
    requires
        k.len() > 0,
        forall|i: int|
            0 <= i < k.len() ==> (0x61 <= #[trigger] k[i] <= 0x7a) || (0x41 <= k[i] <= 0x5a) || k[i]
                == 0x2d,
    ensures
        trim_bytes(k) == k,
{
    let n = k.len() as int;
    assert(k[0] == k[0]);
    assert(k[n - 1] == k[n - 1]);
    if n >= 2 {
        assert(k[n - 2] == k[n - 2]);
    }
    if n >= 3 {
        assert(k[n - 3] == k[n - 3]);
    }
    assert(white_space_prefix_len(k) == 0);
    assert(trim_start_bytes(k) == k);
    assert(white_space_suffix_len(k) == 0);
}

/// The paint keywords, spelled exactly so and with any white space around
/// them: `none`, `inherit`, `currentColor`, `context-fill`, `context-stroke`.
pub proof fn law_paint_keywords(w1: Seq<u8>, w2: Seq<u8>)
    requires
        is_white_space_text(w1),
        is_white_space_text(w2),
    ensures
        spec_paint(w1 + seq![0x6eu8, 0x6f, 0x6e, 0x65] + w2) == Ok::<PaintView, ErrorView>(
            PaintView::NoneKeyword,
        ),
        spec_paint(w1 + seq![0x69u8, 0x6e, 0x68, 0x65, 0x72, 0x69, 0x74] + w2) == Ok::<
            PaintView,
            ErrorView,
        >(PaintView::Inherit),
        spec_paint(
            w1 + seq![0x63u8, 0x75, 0x72, 0x72, 0x65, 0x6e, 0x74, 0x43, 0x6f, 0x6c, 0x6f, 0x72] + w2,
        ) == Ok::<PaintView, ErrorView>(PaintView::CurrentColor),
        spec_paint(
            w1 + seq![0x63u8, 0x6f, 0x6e, 0x74, 0x65, 0x78, 0x74, 0x2d, 0x66, 0x69, 0x6c, 0x6c] + w2,
        ) == Ok::<PaintView, ErrorView>(PaintView::ContextFill),
        spec_paint(
            w1 + seq![0x63u8, 0x6f, 0x6e, 0x74, 0x65, 0x78, 0x74, 0x2d, 0x73, 0x74, 0x72, 0x6f, 0x6b, 0x65]
                + w2,
        ) == Ok::<PaintView, ErrorView>(PaintView::ContextStroke),
{
    let k1 = seq![0x6eu8, 0x6f, 0x6e, 0x65];
    let k2 = seq![0x69u8, 0x6e, 0x68, 0x65, 0x72, 0x69, 0x74];
    let k3 = seq![0x63u8, 0x75, 0x72, 0x72, 0x65, 0x6e, 0x74, 0x43, 0x6f, 0x6c, 0x6f, 0x72];
    let k4 = seq![0x63u8, 0x6f, 0x6e, 0x74, 0x65, 0x78, 0x74, 0x2d, 0x66, 0x69, 0x6c, 0x6c];
    let k5 = seq![0x63u8, 0x6f, 0x6e, 0x74, 0x65, 0x78, 0x74, 0x2d, 0x73, 0x74, 0x72, 0x6f, 0x6b, 0x65];
    lemma_trim_padding(w1, k1, w2);
    lemma_trim_padding(w1, k2, w2);
    lemma_trim_padding(w1, k3, w2);
    lemma_trim_padding(w1, k4, w2);
    lemma_trim_padding(w1, k5, w2);
    lemma_word_is_trimmed(k1);
    lemma_word_is_trimmed(k2);
    lemma_word_is_trimmed(k3);
    lemma_word_is_trimmed(k4);
    lemma_word_is_trimmed(k5);
    assert(k1 == kw_none());
    assert(k2 != kw_none());
    assert(k3 != kw_none() && k3 != kw_inherit());
    assert(k4 != kw_none() && k4 != kw_inherit() && k4 != kw_current_color());
    assert(k5 != kw_none() && k5 != kw_inherit() && k5 != kw_current_color() && k5
        != kw_context_fill());
}

/// The paint fallback keywords, spelled exactly so and with any white space
/// around them: `none` and `currentColor`; white space alone is the empty
/// fallback.
pub proof fn law_paint_fallback_keywords(w1: Seq<u8>, w2: Seq<u8>)
    requires
        is_white_space_text(w1),
        is_white_space_text(w2),
    ensures
        spec_paint_fallback(w1 + w2) == Ok::<PaintFallbackView, ErrorView>(PaintFallbackView::Empty),
        spec_paint_fallback(w1 + seq![0x6eu8, 0x6f, 0x6e, 0x65] + w2) == Ok::<
            PaintFallbackView,
            ErrorView,
        >(PaintFallbackView::NoneKeyword),
        spec_paint_fallback(
            w1 + seq![0x63u8, 0x75, 0x72, 0x72, 0x65, 0x6e, 0x74, 0x43, 0x6f, 0x6c, 0x6f, 0x72] + w2,
        ) == Ok::<PaintFallbackView, ErrorView>(PaintFallbackView::CurrentColor),
{
    reveal(spec_paint_fallback);
    let k1 = seq![0x6eu8, 0x6f, 0x6e, 0x65];
    let k3 = seq![0x63u8, 0x75, 0x72, 0x72, 0x65, 0x6e, 0x74, 0x43, 0x6f, 0x6c, 0x6f, 0x72];
    let e = Seq::<u8>::empty();
    lemma_trim_padding(w1, e, w2);
    assert(w1 + e + w2 =~= w1 + w2);
    lemma_trim_padding(w1, k1, w2);
    lemma_trim_padding(w1, k3, w2);
    lemma_word_is_trimmed(k1);
    lemma_word_is_trimmed(k3);
    assert(trim_start_bytes(e) == e);
    assert(k1 == kw_none());
    assert(k3 != kw_none());
}

/// ASCII digits only.
pub open spec fn all_digits(d: Seq<u8>) -> bool {
    forall|i: int| 0 <= i < d.len() ==> 0x30 <= #[trigger] d[i] <= 0x39
}

/// Empty, or one `+` or `-`.
pub open spec fn optional_sign(s: Seq<u8>) -> bool {
    s.len() == 0 || s == seq![0x2bu8] || s == seq![0x2du8]
}

/// The end of a number laid out in `b` as: sign `[0, i0)`, integer digits
/// `[i0, i1)`, point `[i1, pe)`, fraction digits `[pe, i2)`, exponent mark
/// `[i2, me)`, exponent sign `[me, se)`, exponent digits `[se, e)`.
proof fn lemma_number_end_at(
    b: Seq<u8>,
    i0: int,
    i1: int,
    pe: int,
    i2: int,
    me: int,
    se: int,
    e: int,
)
    requires
        0 <= i0 <= 1,
        i0 <= i1 <= pe <= i2 <= me <= se <= e <= b.len(),
        i0 == 1 ==> is_sign(b[0]),
        forall|k: int| i0 <= k < i1 ==> 0x30 <= #[trigger] b[k] <= 0x39,
        pe <= i1 + 1,
        pe == i1 + 1 ==> b[i1] == 0x2e,
        forall|k: int| pe <= k < i2 ==> 0x30 <= #[trigger] b[k] <= 0x39,
        pe == i1 ==> i2 == pe,
        i1 > i0 || i2 > pe,
        me <= i2 + 1,
        me == i2 + 1 ==> b[i2] == 0x65 || b[i2] == 0x45,
        se <= me + 1,
        se == me + 1 ==> is_sign(b[me]),
        forall|k: int| se <= k < e ==> 0x30 <= #[trigger] b[k] <= 0x39,
        me == i2 ==> se == me && e == se,
        me > i2 ==> e > se,
        e < b.len() ==> !(0x30 <= b[e] <= 0x39) && b[e] != 0x2e && b[e] != 0x65 && b[e] != 0x45,
    ensures
        crate::angle::spec_number_end(b, 0) == Some((e, true)),
{
    if i0 == 0 {
        if i1 > i0 {
            assert(0x30 <= b[i0] <= 0x39);
        } else {
            assert(b[i1] == 0x2e);
        }
        assert(!is_sign(b[0]));
    }
    if i1 < b.len() {
        if pe == i1 && me == i2 && i2 < b.len() {
            assert(i1 == e);
        }
    }
    lemma_skip_while_to(b, i0, i1, ByteClass::Digit);
    if pe > i1 {
        lemma_skip_while_to(b, pe, i2, ByteClass::Digit);
    } else if i1 < b.len() {
        assert(b[i1] != 0x2e);
    }
    if me > i2 {
        if se > me {
            lemma_skip_while_to(b, se, e, ByteClass::Digit);
        } else {
            assert(0x30 <= b[se] <= 0x39);
            lemma_skip_while_to(b, me, e, ByteClass::Digit);
        }
    }
}

/// A number text `n` that starts the text and runs to where the number ends
/// is what is read there.
proof fn lemma_number_text_at_start(n: Seq<u8>, t: Seq<u8>)
    requires
        0 < n.len(),
        !ByteClass::Space.spec_matches(n[0]),
        crate::angle::spec_number_end(n + t, 0) == Some((n.len() as int, true)),
    ensures
        spec_parse_number_text(n + t, 0) == Ok::<(int, Seq<u8>), ErrorView>((n.len() as int, n)),
{
    let b = n + t;
    assert(b[0] == n[0]);
    assert(b.subrange(0, n.len() as int) =~= n);
    lemma_skip_while_to(b, 0, 0, ByteClass::Space);
}

/// A number is read as an optional sign, integer digits, an optional `.` with
/// fraction digits (at least one digit in all), and an optional exponent: `e`
/// or `E`, an optional sign and at least one digit. The number ends where these
/// end, before any text `t` that cannot continue it.
pub proof fn law_number_text(
    sign: Seq<u8>,
    int_digits: Seq<u8>,
    point: Seq<u8>,
    frac_digits: Seq<u8>,
    mark: Seq<u8>,
    exp_sign: Seq<u8>,
    exp_digits: Seq<u8>,
    t: Seq<u8>,
)
    requires
        optional_sign(sign),
        all_digits(int_digits),
        point.len() == 0 || point == seq![0x2eu8],
        all_digits(frac_digits),
        point.len() == 0 ==> frac_digits.len() == 0,
        int_digits.len() + frac_digits.len() > 0,
        mark.len() == 0 || mark == seq![0x65u8] || mark == seq![0x45u8],
        optional_sign(exp_sign),
        all_digits(exp_digits),
        mark.len() == 0 ==> exp_sign.len() == 0 && exp_digits.len() == 0,
        mark.len() > 0 ==> exp_digits.len() > 0,
        t.len() > 0 ==> !(0x30 <= t[0] <= 0x39) && t[0] != 0x2e && t[0] != 0x65 && t[0] != 0x45,
    ensures
        spec_parse_number_text(
            sign + int_digits + point + frac_digits + mark + exp_sign + exp_digits + t,
            0,
        ) == Ok::<(int, Seq<u8>), ErrorView>(
            (
                (sign + int_digits + point + frac_digits + mark + exp_sign + exp_digits).len() as int,
                sign + int_digits + point + frac_digits + mark + exp_sign + exp_digits,
            ),
        ),
{
    let p1 = sign;
    let p2 = p1 + int_digits;
    let p3 = p2 + point;
    let p4 = p3 + frac_digits;
    let p5 = p4 + mark;
    let p6 = p5 + exp_sign;
    let n = p6 + exp_digits;
    let b = n + t;
    let i0 = p1.len() as int;
    let i1 = p2.len() as int;
    let pe = p3.len() as int;
    let i2 = p4.len() as int;
    let me = p5.len() as int;
    let se = p6.len() as int;
    let e = n.len() as int;
    assert(i0 <= 1 && pe <= i1 + 1 && me <= i2 + 1 && se <= me + 1);
    assert(b[0] == n[0]);
    assert(i0 == 1 ==> is_sign(b[0])) by {
        if i0 == 1 {
            assert(b[0] == sign[0]);
        }
    }
    assert(forall|k: int| i0 <= k < i1 ==> 0x30 <= #[trigger] b[k] <= 0x39) by {
        assert forall|k: int| i0 <= k < i1 implies 0x30 <= #[trigger] b[k] <= 0x39 by {
            assert(b[k] == n[k] && n[k] == p6[k] && p6[k] == p5[k] && p5[k] == p4[k] && p4[k] == p3[k]
                && p3[k] == p2[k] && p2[k] == int_digits[k - i0]);
        }
    }
    assert(forall|k: int| pe <= k < i2 ==> 0x30 <= #[trigger] b[k] <= 0x39) by {
        assert forall|k: int| pe <= k < i2 implies 0x30 <= #[trigger] b[k] <= 0x39 by {
            assert(b[k] == n[k] && n[k] == p6[k] && p6[k] == p5[k] && p5[k] == p4[k] && p4[k]
                == frac_digits[k - pe]);
        }
    }
    assert(forall|k: int| se <= k < e ==> 0x30 <= #[trigger] b[k] <= 0x39) by {
        assert forall|k: int| se <= k < e implies 0x30 <= #[trigger] b[k] <= 0x39 by {
            assert(b[k] == n[k] && n[k] == exp_digits[k - se]);
        }
    }
    assert(pe == i1 + 1 ==> b[i1] == 0x2e) by {
        if pe == i1 + 1 {
            assert(b[i1] == n[i1] && n[i1] == p6[i1] && p6[i1] == p5[i1] && p5[i1] == p4[i1] && p4[i1]
                == p3[i1] && p3[i1] == point[0]);
        }
    }
    assert(me == i2 + 1 ==> b[i2] == 0x65 || b[i2] == 0x45) by {
        if me == i2 + 1 {
            assert(b[i2] == n[i2] && n[i2] == p6[i2] && p6[i2] == p5[i2] && p5[i2] == mark[0]);
        }
    }
    assert(se == me + 1 ==> is_sign(b[me])) by {
        if se == me + 1 {
            assert(b[me] == n[me] && n[me] == p6[me] && p6[me] == exp_sign[0]);
        }
    }
    assert(e < b.len() ==> !(0x30 <= b[e] <= 0x39) && b[e] != 0x2e && b[e] != 0x65 && b[e] != 0x45) by {
        if e < b.len() {
            assert(b[e] == t[0]);
        }
    }
    lemma_number_end_at(b, i0, i1, pe, i2, me, se, e);
    assert(!ByteClass::Space.spec_matches(n[0])) by {
        if i0 == 1 {
            assert(b[0] == 0x2b || b[0] == 0x2d);
        } else if i1 > i0 {
            assert(0x30 <= b[i0] <= 0x39);
        } else {
            assert(b[i1] == 0x2e);
        }
    }
    lemma_number_text_at_start(n, t);
}

/// Space, tab, line feed or carriage return only.
pub open spec fn is_space_run(w: Seq<u8>) -> bool {
    forall|i: int|
        0 <= i < w.len() ==> #[trigger] w[i] == 0x20 || w[i] == 0x09 || w[i] == 0x0a || w[i] == 0x0d
}

/// Skipping a class in `w1 + x + w2` from inside `x`: where it stops inside
/// `x` it stops at the same place; where it reaches the end of `x` it goes on
/// through `w2` when all of `w2` is of the class, and stops at `w2` otherwise.
proof fn lemma_skip_in_middle(w1: Seq<u8>, x: Seq<u8>, w2: Seq<u8>, p: int, class: ByteClass)
    requires
        0 <= p <= x.len(),
    ensures
        ({
            let b = w1 + x + w2;
            let k = w1.len() as int;
            let s = skip_while(x, p, class);
            &&& s < x.len() ==> skip_while(b, k + p, class) == k + s
            &&& s == x.len() && (forall|i: int| 0 <= i < w2.len() ==> class.spec_matches(#[trigger] w2[i]))
                ==> skip_while(b, k + p, class) == b.len()
            &&& s == x.len() && (w2.len() == 0 || !class.spec_matches(w2[0])) ==> skip_while(
                b,
                k + p,
                class,
            ) == k + x.len()
        }),
{
    let b = w1 + x + w2;
    let k = w1.len() as int;
    lemma_skip_while(x, p, class);
    let s = skip_while(x, p, class);
    assert forall|i: int| k + p <= i < k + s implies class.spec_matches(#[trigger] b[i]) by {
        assert(b[i] == x[i - k]);
    }
    if s < x.len() {
        assert(b[k + s] == x[s]);
        lemma_skip_while_to(b, k + p, k + s, class);
    } else {
        if forall|i: int| 0 <= i < w2.len() ==> class.spec_matches(#[trigger] w2[i]) {
            assert forall|i: int| k + p <= i < b.len() implies class.spec_matches(#[trigger] b[i]) by {
                if i < k + s {
                    assert(b[i] == x[i - k]);
                } else {
                    assert(b[i] == w2[i - k - s]);
                }
            }
            lemma_skip_while_to(b, k + p, b.len() as int, class);
        }
        if w2.len() == 0 || !class.spec_matches(w2[0]) {
            if w2.len() > 0 {
                assert(b[k + s] == w2[0]);
            }
            lemma_skip_while_to(b, k + p, k + s, class);
        }
    }
}

/// Spaces, tabs, line feeds and carriage returns around a color are skipped:
/// a text that is a color is the same color with such spaces before and after it.
pub proof fn law_color_surrounding_spaces(w1: Seq<u8>, x: Seq<u8>, w2: Seq<u8>)
    requires
        is_space_run(w1),
        is_space_run(w2),
        spec_color_from_str(x) is Ok,
    ensures
        spec_color_from_str(w1 + x + w2) == spec_color_from_str(x),
{
    let b = w1 + x + w2;
    let k = w1.len() as int;
    assert forall|i: int| 0 <= i < w2.len() implies ByteClass::Space.spec_matches(#[trigger] w2[i]) by {
        assert(w2[i] == 0x20 || w2[i] == 0x09 || w2[i] == 0x0a || w2[i] == 0x0d);
    }
    lemma_skip_while(x, 0, ByteClass::Space);
    let p1 = skip_while(x, 0, ByteClass::Space);
    assert(p1 < x.len());
    // the spaces of `w1` and of `x` are skipped together
    lemma_skip_in_middle(w1, x, w2, 0, ByteClass::Space);
    assert forall|i: int| 0 <= i < k implies ByteClass::Space.spec_matches(#[trigger] b[i]) by {
        assert(b[i] == w1[i]);
        assert(w1[i] == 0x20 || w1[i] == 0x09 || w1[i] == 0x0a || w1[i] == 0x0d);
    }
    lemma_skip_while(b, 0, ByteClass::Space);
    lemma_skip_while(b, k, ByteClass::Space);
    assert(skip_while(b, 0, ByteClass::Space) == k + p1) by {
        assert forall|i: int| 0 <= i < k + p1 implies ByteClass::Space.spec_matches(#[trigger] b[i]) by {
            if i >= k {
                assert(b[i] == x[i - k]);
            }
        }
        assert(b[k + p1] == x[p1]);
        lemma_skip_while_to(b, 0, k + p1, ByteClass::Space);
    }
    assert(b[k + p1] == x[p1]);
    let (e, c) = spec_parse_color(x, 0)->Ok_0;
    if x[p1] == 0x23 {
        lemma_skip_while(x, p1 + 1, ByteClass::HexDigit);
        lemma_skip_in_middle(w1, x, w2, p1 + 1, ByteClass::HexDigit);
        if w2.len() > 0 {
            assert(!ByteClass::HexDigit.spec_matches(w2[0]));
        }
        assert(b.subrange(k + p1 + 1, k + e) =~= x.subrange(p1 + 1, e));
    } else {
        lemma_skip_while(x, p1, ByteClass::Ident);
        lemma_skip_in_middle(w1, x, w2, p1, ByteClass::Ident);
        if w2.len() > 0 {
            assert(!ByteClass::Ident.spec_matches(w2[0]));
        }
        assert(b.subrange(k + p1, k + e) =~= x.subrange(p1, e));
    }
    assert(spec_parse_color(b, 0) == Ok::<(int, Color), ErrorView>((k + e, c)));
    lemma_skip_while(x, e, ByteClass::Space);
    lemma_skip_in_middle(w1, x, w2, e, ByteClass::Space);
}

/// An ASCII letter or digit, `-` or `_`.
pub open spec fn is_word_byte(c: u8) -> bool {
    (0x30 <= c <= 0x39) || (0x41 <= c <= 0x5a) || (0x61 <= c <= 0x7a) || c == 0x2d || c == 0x5f
}

/// A color name is read as a whole word of ASCII letters, digits, `-` and
/// `_`: the word, without regard to case, is a color keyword or the color
/// is invalid; the color ends where the word ends.
pub proof fn law_color_name_is_whole_word(n: Seq<u8>, t: Seq<u8>)
    requires
        n.len() > 0,
        forall|i: int| 0 <= i < n.len() ==> is_word_byte(#[trigger] n[i]),
        t.len() > 0 ==> !is_word_byte(t[0]),
    ensures
        spec_parse_color(n + t, 0) == match named_color(ascii_lower(n)) {
            Some(c) => Ok::<(int, Color), ErrorView>((n.len() as int, c)),
            None => Err(ErrorView::InvalidValue),
        },
{
    let b = n + t;
    let e = n.len() as int;
    assert(b[0] == n[0]);
    lemma_skip_while_to(b, 0, 0, ByteClass::Space);
    assert forall|i: int| 0 <= i < e implies ByteClass::Ident.spec_matches(#[trigger] b[i]) by {
        assert(b[i] == n[i]);
    }
    if t.len() > 0 {
        assert(b[e] == t[0]);
    }
    lemma_skip_while_to(b, 0, e, ByteClass::Ident);
    assert(b.subrange(0, e) =~= n);
}

/// The number that decimal digits `s` spell, read from the left.
pub open spec fn digits_value(s: Seq<u8>) -> int
    decreases s.len(),
{
    if s.len() == 0 {
        0
    } else {
        digits_value(s.drop_last()) * 10 + (s.last() - 0x30)
    }
}

/// Positions in error messages are written in decimal: ASCII digits, with no
/// leading zero, that read back as the number.
pub proof fn law_decimal_position(n: nat)
    ensures
        decimal(n).len() > 0,
        forall|i: int| 0 <= i < decimal(n).len() ==> 0x30 <= #[trigger] decimal(n)[i] <= 0x39,
        n > 0 ==> decimal(n)[0] != 0x30,
        digits_value(decimal(n)) == n,
    decreases n,
{
    let s = decimal(n);
    if n < 10 {
        assert(s.last() == (0x30 + n) as u8);
        assert(((0x30 + n) as u8) as int == 0x30 + n);
        assert(s.drop_last() =~= Seq::<u8>::empty());
        assert(digits_value(Seq::<u8>::empty()) == 0);
    } else {
        law_decimal_position(n / 10);
        let h = decimal(n / 10);
        let d = n % 10;
        assert(d < 10);
        assert(s == h + seq![(0x30 + d) as u8]);
        assert(s.drop_last() =~= h);
        assert(s.last() == (0x30 + d) as u8);
        assert(((0x30 + d) as u8) as int == 0x30 + d);
        assert forall|i: int| 0 <= i < s.len() implies 0x30 <= #[trigger] s[i] <= 0x39 by {
            if i < h.len() {
                assert(s[i] == h[i]);
            }
        }
        assert(s[0] == h[0]);
        assert(n == (n / 10) * 10 + d);
    }
}

} // verus!
