//! Font slants and their native `cairo_font_slant_t` codes.

use vstd::prelude::*;

verus! {

/// A font slant, as the host runtime names it.
#[derive(Clone, Copy, Debug, PartialEq, Eq, Structural)]
pub enum FontSlant {
    Normal,
    Italic,
    Oblique,
}

/// The native `cairo_font_slant_t` code of a font slant.
pub open spec fn font_slant_code(v: FontSlant) -> int {
    match v {
        FontSlant::Normal => 0,
        FontSlant::Italic => 1,
        FontSlant::Oblique => 2,
    }
}

/// Whether a native code denotes a font slant.
pub open spec fn is_font_slant_code(c: int) -> bool {
    0 <= c <= 2
}

/// The font slant a native code denotes; a code no variant carries falls
/// back to `Normal`.
pub open spec fn font_slant_from_code(c: int) -> FontSlant {
    if c == 1 {
        FontSlant::Italic
    } else if c == 2 {
        FontSlant::Oblique
    } else {
        FontSlant::Normal
    }
}

impl FontSlant {
    /// The native `cairo_font_slant_t` code of this font slant.
    pub fn to_native(self) -> (r: i32)
        ensures
            r == font_slant_code(self),
    {
        match self {
            FontSlant::Normal => 0,
            FontSlant::Italic => 1,
            FontSlant::Oblique => 2,
        }
    }

    /// The font slant a native `cairo_font_slant_t` code denotes; an unknown
    /// code falls back to `Normal`.
    pub fn from_native(code: i32) -> (r: Self)
        ensures
            r == font_slant_from_code(code as int),
            is_font_slant_code(code as int) ==> font_slant_code(r) == code as int,
    {
        match code {
            1 => FontSlant::Italic,
            2 => FontSlant::Oblique,
            _ => FontSlant::Normal,
        }
    }
}

/// A font slant sent to the native side and read back is the same value.
pub proof fn lemma_font_slant_round_trip(v: FontSlant)
    ensures
        font_slant_from_code(font_slant_code(v)) == v,
{
}

} // verus!
