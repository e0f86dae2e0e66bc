//! Compositing operators and their native `cairo_operator_t` codes.

use vstd::prelude::*;

verus! {

/// A compositing operator, as the host runtime names it.
#[derive(Clone, Copy, Debug, PartialEq, Eq, Structural)]
pub enum Operator {
    Clear,
    Source,
    Over,
    In,
    Out,
    Atop,
    Dest,
    DestOver,
    DestIn,
    DestOut,
    DestAtop,
    Xor,
    Add,
    Saturate,
    Multiply,
    Screen,
    Overlay,
    Darken,
    Lighten,
    ColorDodge,
    ColorBurn,
    HardLight,
    SoftLight,
    Difference,
    Exclusion,
    HslHue,
    HslSaturation,
    HslColor,
    HslLuminosity,
}

/// The native `cairo_operator_t` code of a compositing operator.
pub open spec fn operator_code(v: Operator) -> int {
    match v {
        Operator::Clear => 0,
        Operator::Source => 1,
        Operator::Over => 2,
        Operator::In => 3,
        Operator::Out => 4,
        Operator::Atop => 5,
        Operator::Dest => 6,
        Operator::DestOver => 7,
        Operator::DestIn => 8,
        Operator::DestOut => 9,
        Operator::DestAtop => 10,
        Operator::Xor => 11,
        Operator::Add => 12,
        Operator::Saturate => 13,
        Operator::Multiply => 14,
        Operator::Screen => 15,
        Operator::Overlay => 16,
        Operator::Darken => 17,
        Operator::Lighten => 18,
        Operator::ColorDodge => 19,
        Operator::ColorBurn => 20,
        Operator::HardLight => 21,
        Operator::SoftLight => 22,
        Operator::Difference => 23,
        Operator::Exclusion => 24,
        Operator::HslHue => 25,
        Operator::HslSaturation => 26,
        Operator::HslColor => 27,
        Operator::HslLuminosity => 28,
    }
}

/// Whether a native code denotes a compositing operator.
pub open spec fn is_operator_code(c: int) -> bool {
    0 <= c <= 28
}

/// The compositing operator a native code denotes; a code no variant carries falls
/// back to `Over`.
pub open spec fn operator_from_code(c: int) -> Operator {
    if c == 0 {
        Operator::Clear
    } else if c == 1 {
        Operator::Source
    } else if c == 3 {
        Operator::In
    } else if c == 4 {
        Operator::Out
    } else if c == 5 {
        Operator::Atop
    } else if c == 6 {
        Operator::Dest
    } else if c == 7 {
        Operator::DestOver
    } else if c == 8 {
        Operator::DestIn
    } else if c == 9 {
        Operator::DestOut
    } else if c == 10 {
        Operator::DestAtop
    } else if c == 11 {
        Operator::Xor
    } else if c == 12 {
        Operator::Add
    } else if c == 13 {
        Operator::Saturate
    } else if c == 14 {
        Operator::Multiply
    } else if c == 15 {
        Operator::Screen
    } else if c == 16 {
        Operator::Overlay
    } else if c == 17 {
        Operator::Darken
    } else if c == 18 {
        Operator::Lighten
    } else if c == 19 {
        Operator::ColorDodge
    } else if c == 20 {
        Operator::ColorBurn
    } else if c == 21 {
        Operator::HardLight
    } else if c == 22 {
        Operator::SoftLight
    } else if c == 23 {
        Operator::Difference
    } else if c == 24 {
        Operator::Exclusion
    } else if c == 25 {
        Operator::HslHue
    } else if c == 26 {
        Operator::HslSaturation
    } else if c == 27 {
        Operator::HslColor
    } else if c == 28 {
        Operator::HslLuminosity
    } else {
        Operator::Over
    }
}

impl Operator {
    /// The native `cairo_operator_t` code of this compositing operator.
    pub fn to_native(self) -> (r: i32)
        ensures
            r == operator_code(self),
    {
        match self {
            Operator::Clear => 0,
            Operator::Source => 1,
            Operator::Over => 2,
            Operator::In => 3,
            Operator::Out => 4,
            Operator::Atop => 5,
            Operator::Dest => 6,
            Operator::DestOver => 7,
            Operator::DestIn => 8,
            Operator::DestOut => 9,
            Operator::DestAtop => 10,
            Operator::Xor => 11,
            Operator::Add => 12,
            Operator::Saturate => 13,
            Operator::Multiply => 14,
            Operator::Screen => 15,
            Operator::Overlay => 16,
            Operator::Darken => 17,
            Operator::Lighten => 18,
            Operator::ColorDodge => 19,
            Operator::ColorBurn => 20,
            Operator::HardLight => 21,
            Operator::SoftLight => 22,
            Operator::Difference => 23,
            Operator::Exclusion => 24,
            Operator::HslHue => 25,
            Operator::HslSaturation => 26,
            Operator::HslColor => 27,
            Operator::HslLuminosity => 28,
        }
    }

    /// The compositing operator a native `cairo_operator_t` code denotes; an unknown
    /// code falls back to `Over`.
    pub fn from_native(code: i32) -> (r: Self)
        ensures
            r == operator_from_code(code as int),
            is_operator_code(code as int) ==> operator_code(r) == code as int,
    {
        match code {
            0 => Operator::Clear,
            1 => Operator::Source,
            3 => Operator::In,
            4 => Operator::Out,
            5 => Operator::Atop,
            6 => Operator::Dest,
            7 => Operator::DestOver,
            8 => Operator::DestIn,
            9 => Operator::DestOut,
            10 => Operator::DestAtop,
            11 => Operator::Xor,
            12 => Operator::Add,
            13 => Operator::Saturate,
            14 => Operator::Multiply,
            15 => Operator::Screen,
            16 => Operator::Overlay,
            17 => Operator::Darken,
            18 => Operator::Lighten,
            19 => Operator::ColorDodge,
            20 => Operator::ColorBurn,
            21 => Operator::HardLight,
            22 => Operator::SoftLight,
            23 => Operator::Difference,
            24 => Operator::Exclusion,
            25 => Operator::HslHue,
            26 => Operator::HslSaturation,
            27 => Operator::HslColor,
            28 => Operator::HslLuminosity,
            _ => Operator::Over,
        }
    }
}

/// A compositing operator sent to the native side and read back is the same value.
pub proof fn lemma_operator_round_trip(v: Operator)
    ensures
        operator_from_code(operator_code(v)) == v,
{
}

} // verus!
