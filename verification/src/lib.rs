//! Parsers for a few SVG and CSS value types: `<paint>`, `<color>`,
//! `<angle>` and `var()` substitution functions.
//!
//! Texts are read as UTF-8 bytes; every parser states, over those bytes,
//! exactly what it returns or which error it reports.

use vstd::prelude::*;

pub mod angle;
pub mod color;
pub mod color_keyword_laws;
pub mod color_names;
pub mod error;
pub mod font;
pub mod laws;
pub mod paint;
pub mod stream;
pub mod text;
pub mod variable;
pub mod variable_laws;

pub use angle::{AngleParts, AngleUnit};
pub use color::Color;
pub use error::Error;
pub use font::FontFamily;
pub use paint::{Paint, PaintFallback};
pub use stream::Stream;
pub use variable::{VariableFallback, VariableFunction};

verus! {

} // verus!
