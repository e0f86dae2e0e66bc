//! Fill rules and their native `cairo_fill_rule_t` codes.

use vstd::prelude::*;

verus! {

/// A fill rule, as the host runtime names it.
#[derive(Clone, Copy, Debug, PartialEq, Eq, Structural)]
pub enum FillRule {
    Winding,
    EvenOdd,
}

/// The native `cairo_fill_rule_t` code of a fill rule.
pub open spec fn fill_rule_code(v: FillRule) -> int {
    match v {
        FillRule::Winding => 0,
        FillRule::EvenOdd => 1,
    }
}

/// Whether a native code denotes a fill rule.
pub open spec fn is_fill_rule_code(c: int) -> bool {
    0 <= c <= 1
}

/// The fill rule a native code denotes; a code no variant carries falls
/// back to `Winding`.
pub open spec fn fill_rule_from_code(c: int) -> FillRule {
    if c == 1 {
        FillRule::EvenOdd
    } else {
        FillRule::Winding
    }
}

impl FillRule {
    /// The native `cairo_fill_rule_t` code of this fill rule.
    pub fn to_native(self) -> (r: i32)
        ensures
            r == fill_rule_code(self),
    {
        match self {
            FillRule::Winding => 0,
            FillRule::EvenOdd => 1,
        }
    }

    /// The fill rule a native `cairo_fill_rule_t` code denotes; an unknown
    /// code falls back to `Winding`.
    pub fn from_native(code: i32) -> (r: Self)
        ensures
            r == fill_rule_from_code(code as int),
            is_fill_rule_code(code as int) ==> fill_rule_code(r) == code as int,
    {
        match code {
            1 => FillRule::EvenOdd,
            _ => FillRule::Winding,
        }
    }
}

/// A fill rule sent to the native side and read back is the same value.
pub proof fn lemma_fill_rule_round_trip(v: FillRule)
    ensures
        fill_rule_from_code(fill_rule_code(v)) == v,
{
}

} // verus!
