//! Font weights and their native `cairo_font_weight_t` codes.

use vstd::prelude::*;

verus! {

/// A font weight, as the host runtime names it.
#[derive(Clone, Copy, Debug, PartialEq, Eq, Structural)]
pub enum FontWeight {
    Normal,
    Bold,
}

/// The native `cairo_font_weight_t` code of a font weight.
pub open spec fn font_weight_code(v: FontWeight) -> int {
    match v {
        FontWeight::Normal => 0,
        FontWeight::Bold => 1,
    }
}

/// Whether a native code denotes a font weight.
pub open spec fn is_font_weight_code(c: int) -> bool {
    0 <= c <= 1
}

/// The font weight a native code denotes; a code no variant carries falls
/// back to `Normal`.
pub open spec fn font_weight_from_code(c: int) -> FontWeight {
    if c == 1 {
        FontWeight::Bold
    } else {
        FontWeight::Normal
    }
}

impl FontWeight {
    /// The native `cairo_font_weight_t` code of this font weight.
    pub fn to_native(self) -> (r: i32)
        ensures
            r == font_weight_code(self),
    {
        match self {
            FontWeight::Normal => 0,
            FontWeight::Bold => 1,
        }
    }

    /// The font weight a native `cairo_font_weight_t` code denotes; an unknown
    /// code falls back to `Normal`.
    pub fn from_native(code: i32) -> (r: Self)
        ensures
            r == font_weight_from_code(code as int),
            is_font_weight_code(code as int) ==> font_weight_code(r) == code as int,
    {
        match code {
            1 => FontWeight::Bold,
            _ => FontWeight::Normal,
        }
    }
}

/// A font weight sent to the native side and read back is the same value.
pub proof fn lemma_font_weight_round_trip(v: FontWeight)
    ensures
        font_weight_from_code(font_weight_code(v)) == v,
{
}

} // verus!
