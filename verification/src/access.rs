//! The access guard behind the open handler.
//!
//! Open is the only place access intent is inspected: the adapter is
//! read-only, so a strictly read-only intent on an existing regular file is
//! the one accepted combination.  Success has no side effect — no handle is
//! retained; each later read reopens the file on its own.

use vstd::prelude::*;
use crate::attrs::{HostProbe, NodeKind};
use crate::errors::FsError;

verus! {

/// The bits of the open flags that carry the access intent.
pub const ACCESS_MODE_MASK: u32 = 3;

/// The access-intent value meaning strictly read-only.
pub const ACCESS_READ_ONLY: u32 = 0;

/// Whether open flags ask for strictly read-only access.
pub open spec fn is_read_only(flags: u32) -> bool {
    flags & ACCESS_MODE_MASK == ACCESS_READ_ONLY
}

/// What the open handler decides for each probe outcome and access intent:
/// a directory is refused with `IsADirectory`, anything that is not an
/// existing regular file with `NotFound`, a non-read-only intent with
/// `AccessDenied`; otherwise open succeeds and returns zero.
pub open spec fn spec_open(probe: HostProbe, flags: u32) -> Result<i32, FsError> {
    match probe {
        HostProbe::Meta(m) => match m.kind {
            NodeKind::Directory => Err(FsError::IsADirectory),
            NodeKind::Regular => if is_read_only(flags) {
                Ok(0)
            } else {
                Err(FsError::AccessDenied)
            },
            NodeKind::Other => Err(FsError::NotFound),
        },
        HostProbe::Absent => Err(FsError::NotFound),
        HostProbe::Failure => Err(FsError::NotFound),
    }
}

/// The access guard: decides an open request from the metadata probe and the
/// caller's access flags.  Succeeds exactly on a read-only intent aimed at an
/// existing regular file.
pub fn do_open(probe: &HostProbe, flags: u32) -> (r: Result<i32, FsError>)
    ensures
        r == spec_open(*probe, flags),
        r is Ok <==> (*probe matches HostProbe::Meta(m) && m.kind == NodeKind::Regular
            && is_read_only(flags)),
{
    match probe {
        HostProbe::Meta(m) => match m.kind {
            NodeKind::Directory => Err(FsError::IsADirectory),
            NodeKind::Regular => {
                if flags & ACCESS_MODE_MASK == ACCESS_READ_ONLY {
                    Ok(0)
                } else {
                    Err(FsError::AccessDenied)
                }
            },
            NodeKind::Other => Err(FsError::NotFound),
        },
        HostProbe::Absent => Err(FsError::NotFound),
        HostProbe::Failure => Err(FsError::NotFound),
    }
}

} // verus!
