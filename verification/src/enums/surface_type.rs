//! Surface kinds and their native `cairo_surface_type_t` codes.
//!
//! The native library knows many more surface kinds than the binding
//! creates; only the four the binding can construct are named, and any other
//! kind reported by the native side falls back to `Image`.

use vstd::prelude::*;

verus! {

/// The kind of a surface, as the host runtime names it.
#[derive(Clone, Copy, Debug, PartialEq, Eq, Structural)]
pub enum SurfaceType {
    Image,
    Pdf,
    Ps,
    Svg,
}

/// Whether a native `cairo_surface_type_t` code is a kind the binding names.
pub open spec fn is_surface_type_code(c: int) -> bool {
    c == 0 || c == 1 || c == 2 || c == 10
}

/// The surface kind a native code denotes; a kind the binding does not name
/// falls back to `Image`.
pub open spec fn surface_type_from_code(c: int) -> SurfaceType {
    if c == 1 {
        SurfaceType::Pdf
    } else if c == 2 {
        SurfaceType::Ps
    } else if c == 10 {
        SurfaceType::Svg
    } else {
        SurfaceType::Image
    }
}

impl SurfaceType {
    /// The surface kind a native `cairo_surface_type_t` code denotes; a kind
    /// the binding does not name falls back to `Image`.
    pub fn from_native(code: i32) -> (r: Self)
        ensures
            r == surface_type_from_code(code as int),
    {
        match code {
            1 => SurfaceType::Pdf,
            2 => SurfaceType::Ps,
            10 => SurfaceType::Svg,
            _ => SurfaceType::Image,
        }
    }
}

/// Distinct named codes denote distinct surface kinds.
pub proof fn lemma_surface_type_injective(c1: int, c2: int)
    requires
        is_surface_type_code(c1),
        is_surface_type_code(c2),
        c1 != c2,
    ensures
        surface_type_from_code(c1) != surface_type_from_code(c2),
{
}

} // verus!
