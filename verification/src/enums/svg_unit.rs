//! SVG length units and their native `cairo_svg_unit_t` codes.

use vstd::prelude::*;

verus! {

/// A length unit of an SVG surface, as the host runtime names it.
#[derive(Clone, Copy, Debug, PartialEq, Eq, Structural)]
pub enum SvgUnit {
    User,
    Em,
    Ex,
    Px,
    In,
    Cm,
    Mm,
    Pt,
    Pc,
    Percent,
}

/// The native `cairo_svg_unit_t` code of an SVG length unit.
pub open spec fn svg_unit_code(v: SvgUnit) -> int {
    match v {
        SvgUnit::User => 0,
        SvgUnit::Em => 1,
        SvgUnit::Ex => 2,
        SvgUnit::Px => 3,
        SvgUnit::In => 4,
        SvgUnit::Cm => 5,
        SvgUnit::Mm => 6,
        SvgUnit::Pt => 7,
        SvgUnit::Pc => 8,
        SvgUnit::Percent => 9,
    }
}

/// Whether a native code denotes an SVG length unit.
pub open spec fn is_svg_unit_code(c: int) -> bool {
    0 <= c <= 9
}

/// The SVG length unit a native code denotes; a code no variant carries falls
/// back to `User`.
pub open spec fn svg_unit_from_code(c: int) -> SvgUnit {
    if c == 1 {
        SvgUnit::Em
    } else if c == 2 {
        SvgUnit::Ex
    } else if c == 3 {
        SvgUnit::Px
    } else if c == 4 {
        SvgUnit::In
    } else if c == 5 {
        SvgUnit::Cm
    } else if c == 6 {
        SvgUnit::Mm
    } else if c == 7 {
        SvgUnit::Pt
    } else if c == 8 {
        SvgUnit::Pc
    } else if c == 9 {
        SvgUnit::Percent
    } else {
        SvgUnit::User
    }
}

impl SvgUnit {
    /// The native `cairo_svg_unit_t` code of this SVG length unit.
    pub fn to_native(self) -> (r: i32)
        ensures
            r == svg_unit_code(self),
    {
        match self {
            SvgUnit::User => 0,
            SvgUnit::Em => 1,
            SvgUnit::Ex => 2,
            SvgUnit::Px => 3,
            SvgUnit::In => 4,
            SvgUnit::Cm => 5,
            SvgUnit::Mm => 6,
            SvgUnit::Pt => 7,
            SvgUnit::Pc => 8,
            SvgUnit::Percent => 9,
        }
    }

    /// The SVG length unit a native `cairo_svg_unit_t` code denotes; an unknown
    /// code falls back to `User`.
    pub fn from_native(code: i32) -> (r: Self)
        ensures
            r == svg_unit_from_code(code as int),
            is_svg_unit_code(code as int) ==> svg_unit_code(r) == code as int,
    {
        match code {
            1 => SvgUnit::Em,
            2 => SvgUnit::Ex,
            3 => SvgUnit::Px,
            4 => SvgUnit::In,
            5 => SvgUnit::Cm,
            6 => SvgUnit::Mm,
            7 => SvgUnit::Pt,
            8 => SvgUnit::Pc,
            9 => SvgUnit::Percent,
            _ => SvgUnit::User,
        }
    }
}

/// An SVG length unit sent to the native side and read back is the same value.
pub proof fn lemma_svg_unit_round_trip(v: SvgUnit)
    ensures
        svg_unit_from_code(svg_unit_code(v)) == v,
{
}

} // verus!
