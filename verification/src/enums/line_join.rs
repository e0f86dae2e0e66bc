//! Line join styles and their native `cairo_line_join_t` codes.

use vstd::prelude::*;

verus! {

/// A line join style, as the host runtime names it.
#[derive(Clone, Copy, Debug, PartialEq, Eq, Structural)]
pub enum LineJoin {
    Miter,
    Round,
    Bevel,
}

/// The native `cairo_line_join_t` code of a line join style.
pub open spec fn line_join_code(v: LineJoin) -> int {
    match v {
        LineJoin::Miter => 0,
        LineJoin::Round => 1,
        LineJoin::Bevel => 2,
    }
}

/// Whether a native code denotes a line join style.
pub open spec fn is_line_join_code(c: int) -> bool {
    0 <= c <= 2
}

/// The line join style a native code denotes; a code no variant carries falls
/// back to `Miter`.
pub open spec fn line_join_from_code(c: int) -> LineJoin {
    if c == 1 {
        LineJoin::Round
    } else if c == 2 {
        LineJoin::Bevel
    } else {
        LineJoin::Miter
    }
}

impl LineJoin {
    /// The native `cairo_line_join_t` code of this line join style.
    pub fn to_native(self) -> (r: i32)
        ensures
            r == line_join_code(self),
    {
        match self {
            LineJoin::Miter => 0,
            LineJoin::Round => 1,
            LineJoin::Bevel => 2,
        }
    }

    /// The line join style a native `cairo_line_join_t` code denotes; an unknown
    /// code falls back to `Miter`.
    pub fn from_native(code: i32) -> (r: Self)
        ensures
            r == line_join_from_code(code as int),
            is_line_join_code(code as int) ==> line_join_code(r) == code as int,
    {
        match code {
            1 => LineJoin::Round,
            2 => LineJoin::Bevel,
            _ => LineJoin::Miter,
        }
    }
}

/// A line join style sent to the native side and read back is the same value.
pub proof fn lemma_line_join_round_trip(v: LineJoin)
    ensures
        line_join_from_code(line_join_code(v)) == v,
{
}

} // verus!
