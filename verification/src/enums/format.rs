//! Pixel formats and their native `cairo_format_t` codes.

use vstd::prelude::*;

verus! {

/// A pixel format of an image surface, as the host runtime names it.
#[derive(Clone, Copy, Debug, PartialEq, Eq, Structural)]
pub enum Format {
    Invalid,
    Argb32,
    Rgb24,
    A8,
    A1,
    Rgb16_565,
    Rgb30,
}

/// The native `cairo_format_t` code of a pixel format.
pub open spec fn format_code(v: Format) -> int {
    match v {
        Format::Invalid => -1,
        Format::Argb32 => 0,
        Format::Rgb24 => 1,
        Format::A8 => 2,
        Format::A1 => 3,
        Format::Rgb16_565 => 4,
        Format::Rgb30 => 5,
    }
}

/// Whether a native code denotes a pixel format.
pub open spec fn is_format_code(c: int) -> bool {
    -1 <= c <= 5
}

/// The pixel format a native code denotes; a code no variant carries falls
/// back to `Invalid`.
pub open spec fn format_from_code(c: int) -> Format {
    if c == 0 {
        Format::Argb32
    } else if c == 1 {
        Format::Rgb24
    } else if c == 2 {
        Format::A8
    } else if c == 3 {
        Format::A1
    } else if c == 4 {
        Format::Rgb16_565
    } else if c == 5 {
        Format::Rgb30
    } else {
        Format::Invalid
    }
}

impl Format {
    /// The native `cairo_format_t` code of this pixel format.
    pub fn to_native(self) -> (r: i32)
        ensures
            r == format_code(self),
    {
        match self {
            Format::Invalid => -1,
            Format::Argb32 => 0,
            Format::Rgb24 => 1,
            Format::A8 => 2,
            Format::A1 => 3,
            Format::Rgb16_565 => 4,
            Format::Rgb30 => 5,
        }
    }

    /// The pixel format a native `cairo_format_t` code denotes; an unknown
    /// code falls back to `Invalid`.
    pub fn from_native(code: i32) -> (r: Self)
        ensures
            r == format_from_code(code as int),
            is_format_code(code as int) ==> format_code(r) == code as int,
    {
        match code {
            0 => Format::Argb32,
            1 => Format::Rgb24,
            2 => Format::A8,
            3 => Format::A1,
            4 => Format::Rgb16_565,
            5 => Format::Rgb30,
            _ => Format::Invalid,
        }
    }
}

/// A pixel format sent to the native side and read back is the same value.
pub proof fn lemma_format_round_trip(v: Format)
    ensures
        format_from_code(format_code(v)) == v,
{
}

} // verus!
