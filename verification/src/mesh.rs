//! Validation of mesh-patch corner indices.
//!
//! The host runtime addresses the corner of a mesh patch by a small integer.
//! The native side (`cairo_mesh_corner_t`) has exactly four corners, so the
//! binding checks the index before any native call and reports
//! `Error::InvalidIndex` for anything past the last corner.

use vstd::prelude::*;
use crate::enums::error::Error;

verus! {

/// A corner of a mesh patch, as the native `cairo_mesh_corner_t` names it.
#[derive(Clone, Copy, Debug, PartialEq, Eq, Structural)]
pub enum MeshCorner {
    Corner0,
    Corner1,
    Corner2,
    Corner3,
}

/// The native `cairo_mesh_corner_t` code of a corner.
pub open spec fn mesh_corner_code(c: MeshCorner) -> int {
    match c {
        MeshCorner::Corner0 => 0,
        MeshCorner::Corner1 => 1,
        MeshCorner::Corner2 => 2,
        MeshCorner::Corner3 => 3,
    }
}

impl MeshCorner {
    /// The native `cairo_mesh_corner_t` code of this corner.
    pub fn to_native(self) -> (r: u32)
        ensures
            r == mesh_corner_code(self),
    {
        match self {
            MeshCorner::Corner0 => 0,
            MeshCorner::Corner1 => 1,
            MeshCorner::Corner2 => 2,
            MeshCorner::Corner3 => 3,
        }
    }
}

/// The corner a host-side index addresses: the index is accepted exactly
/// when it names one of the four corners, and anything larger is rejected as
/// `InvalidIndex`.
pub fn mesh_corner(index: u8) -> (r: Result<MeshCorner, Error>)
    ensures
        index <= 3 ==> (r matches Ok(c) && mesh_corner_code(c) == index),
        index > 3 ==> r == Err::<MeshCorner, Error>(Error::InvalidIndex),
{
    match index {
        0 => Ok(MeshCorner::Corner0),
        1 => Ok(MeshCorner::Corner1),
        2 => Ok(MeshCorner::Corner2),
        3 => Ok(MeshCorner::Corner3),
        _ => Err(Error::InvalidIndex),
    }
}

/// Distinct corners carry distinct native codes, and every code names a
/// corner an index can address.
pub proof fn lemma_mesh_corner_code_injective(c1: MeshCorner, c2: MeshCorner)
    requires
        c1 != c2,
    ensures
        mesh_corner_code(c1) != mesh_corner_code(c2),
        0 <= mesh_corner_code(c1) <= 3,
{
}

} // verus!
