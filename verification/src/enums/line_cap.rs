//! Line cap styles and their native `cairo_line_cap_t` codes.

use vstd::prelude::*;

verus! {

/// A line cap style, as the host runtime names it.
#[derive(Clone, Copy, Debug, PartialEq, Eq, Structural)]
pub enum LineCap {
    Butt,
    Round,
    Square,
}

/// The native `cairo_line_cap_t` code of a line cap style.
pub open spec fn line_cap_code(v: LineCap) -> int {
    match v {
        LineCap::Butt => 0,
        LineCap::Round => 1,
        LineCap::Square => 2,
    }
}

/// Whether a native code denotes a line cap style.
pub open spec fn is_line_cap_code(c: int) -> bool {
    0 <= c <= 2
}

/// The line cap style a native code denotes; a code no variant carries falls
/// back to `Butt`.
pub open spec fn line_cap_from_code(c: int) -> LineCap {
    if c == 1 {
        LineCap::Round
    } else if c == 2 {
        LineCap::Square
    } else {
        LineCap::Butt
    }
}

impl LineCap {
    /// The native `cairo_line_cap_t` code of this line cap style.
    pub fn to_native(self) -> (r: i32)
        ensures
            r == line_cap_code(self),
    {
        match self {
            LineCap::Butt => 0,
            LineCap::Round => 1,
            LineCap::Square => 2,
        }
    }

    /// The line cap style a native `cairo_line_cap_t` code denotes; an unknown
    /// code falls back to `Butt`.
    pub fn from_native(code: i32) -> (r: Self)
        ensures
            r == line_cap_from_code(code as int),
            is_line_cap_code(code as int) ==> line_cap_code(r) == code as int,
    {
        match code {
            1 => LineCap::Round,
            2 => LineCap::Square,
            _ => LineCap::Butt,
        }
    }
}

/// A line cap style sent to the native side and read back is the same value.
pub proof fn lemma_line_cap_round_trip(v: LineCap)
    ensures
        line_cap_from_code(line_cap_code(v)) == v,
{
}

} // verus!
