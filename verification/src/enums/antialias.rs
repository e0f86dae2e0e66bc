//! Antialiasing modes and their native `cairo_antialias_t` codes.

use vstd::prelude::*;

verus! {

/// An antialiasing mode, as the host runtime names it.
#[derive(Clone, Copy, Debug, PartialEq, Eq, Structural)]
pub enum Antialias {
    Default,
    Disabled,
    Gray,
    Subpixel,
    Fast,
    Good,
    Best,
}

/// The native `cairo_antialias_t` code of a mode.
pub open spec fn antialias_code(a: Antialias) -> int {
    match a {
        Antialias::Default => 0,
        Antialias::Disabled => 1,
        Antialias::Gray => 2,
        Antialias::Subpixel => 3,
        Antialias::Fast => 4,
        Antialias::Good => 5,
        Antialias::Best => 6,
    }
}

/// Whether a native code denotes an antialiasing mode.
pub open spec fn is_antialias_code(c: int) -> bool {
    0 <= c <= 6
}

/// The mode a native code denotes; a code no mode carries falls back to
/// `Default`.
pub open spec fn antialias_from_code(c: int) -> Antialias {
    if c == 1 {
        Antialias::Disabled
    } else if c == 2 {
        Antialias::Gray
    } else if c == 3 {
        Antialias::Subpixel
    } else if c == 4 {
        Antialias::Fast
    } else if c == 5 {
        Antialias::Good
    } else if c == 6 {
        Antialias::Best
    } else {
        Antialias::Default
    }
}

impl Antialias {
    /// The native `cairo_antialias_t` code of this mode.
    pub fn to_native(self) -> (r: i32)
        ensures
            r == antialias_code(self),
    {
        match self {
            Antialias::Default => 0,
            Antialias::Disabled => 1,
            Antialias::Gray => 2,
            Antialias::Subpixel => 3,
            Antialias::Fast => 4,
            Antialias::Good => 5,
            Antialias::Best => 6,
        }
    }

    /// The mode a native `cairo_antialias_t` code denotes; an unknown code
    /// falls back to `Default`.
    pub fn from_native(code: i32) -> (r: Self)
        ensures
            r == antialias_from_code(code as int),
            is_antialias_code(code as int) ==> antialias_code(r) == code as int,
    {
        match code {
            1 => Antialias::Disabled,
            2 => Antialias::Gray,
            3 => Antialias::Subpixel,
            4 => Antialias::Fast,
            5 => Antialias::Good,
            6 => Antialias::Best,
            _ => Antialias::Default,
        }
    }
}

/// A mode sent to the native side and read back is the same mode.
pub proof fn lemma_antialias_round_trip(a: Antialias)
    ensures
        antialias_from_code(antialias_code(a)) == a,
{
}

} // verus!
