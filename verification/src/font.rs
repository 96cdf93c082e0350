//! Font families.

use vstd::prelude::*;

verus! {

/// A font family: a generic family or a named one.
pub enum FontFamily {
    Serif,
    SansSerif,
    Cursive,
    Fantasy,
    Monospace,
    Named(String),
}

} // verus!
