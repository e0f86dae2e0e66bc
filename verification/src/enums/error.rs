//! The host-visible error enumeration, mapped from native `cairo_status_t`
//! codes.
//!
//! The native library reports every failure as a status code. Of those, the
//! binding names the ones its own calls can produce; every other failing
//! status collapses onto the catch-all `Error` variant.

use vstd::prelude::*;

verus! {

/// An error as the host runtime sees it.
#[derive(Clone, Copy, Debug, PartialEq, Eq, Structural)]
pub enum Error {
    ClipNotRepresentable,
    InvalidIndex,
    InvalidMatrix,
    InvalidMeshConstruction,
    InvalidSize,
    SurfaceFinished,
    SurfaceTypeMismatch,
    WriteError,
    Error,
}

/// Whether a native `cairo_status_t` code is one the binding names.
pub open spec fn is_mapped_error_status(c: int) -> bool {
    ||| c == 5
    ||| c == 11
    ||| c == 12
    ||| c == 13
    ||| c == 21
    ||| c == 22
    ||| c == 32
    ||| c == 36
}

/// The error a native `cairo_status_t` code maps to; a status the binding
/// does not name maps to the catch-all `Error`.
pub open spec fn error_from_status(c: int) -> Error {
    if c == 5 {
        Error::InvalidMatrix
    } else if c == 11 {
        Error::WriteError
    } else if c == 12 {
        Error::SurfaceFinished
    } else if c == 13 {
        Error::SurfaceTypeMismatch
    } else if c == 21 {
        Error::InvalidIndex
    } else if c == 22 {
        Error::ClipNotRepresentable
    } else if c == 32 {
        Error::InvalidSize
    } else if c == 36 {
        Error::InvalidMeshConstruction
    } else {
        Error::Error
    }
}

impl Error {
    /// The error a native `cairo_status_t` code maps to; a status the
    /// binding does not name maps to the catch-all `Error`.
    pub fn from_native(status: i32) -> (r: Self)
        ensures
            r == error_from_status(status as int),
            is_mapped_error_status(status as int) ==> r != Error::Error,
    {
        match status {
            5 => Error::InvalidMatrix,
            11 => Error::WriteError,
            12 => Error::SurfaceFinished,
            13 => Error::SurfaceTypeMismatch,
            21 => Error::InvalidIndex,
            22 => Error::ClipNotRepresentable,
            32 => Error::InvalidSize,
            36 => Error::InvalidMeshConstruction,
            _ => Error::Error,
        }
    }
}

/// Distinct named statuses map to distinct errors: the mapping loses nothing
/// on the statuses the binding names.
pub proof fn lemma_error_status_injective(c1: int, c2: int)
    requires
        is_mapped_error_status(c1),
        is_mapped_error_status(c2),
        c1 != c2,
    ensures
        error_from_status(c1) != error_from_status(c2),
{
}

} // verus!
