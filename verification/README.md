# SVG value parsers, verified

Parsers for a few SVG and CSS value types, written in Verus: `<paint>`
(with its fallback), `<color>` (hexadecimal notations and color keywords),
`var()` substitution functions and `<angle>`.

Each parser's contract states, over the UTF-8 bytes of its input, exactly
which value it returns or which error it reports, and where the stream stands
afterwards. `src/laws.rs` holds properties proved across all inputs, such as
that white space around a paint does not change its result.

Layout:

- `src/text.rs`: UTF-8 boundaries, Unicode white space, trimming.
- `src/stream.rs`: the byte cursor and its primitives.
- `src/variable.rs`: `var()` functions and custom property names.
- `src/color.rs`, `src/color_names.rs`: colors.
- `src/paint.rs`: paints and paint fallbacks.
- `src/angle.rs`: angles, up to the text of their number.
- `src/error.rs`: errors and their messages.
- `app/`: what computes in floating point (the `f64` of an angle and its
  conversion to degrees) and `Display` for errors.
