//! Host metadata model and the attribute translator.
//!
//! A handler never touches the host filesystem itself: the unverified shell
//! performs one metadata query per request and hands the outcome over as a
//! [`HostProbe`] of plain values.  The translator below turns that outcome
//! into the attribute record reported upward, or into the canonical failure.

use vstd::prelude::*;
use crate::errors::FsError;

verus! {

/// What kind of node the host says a path names.
#[derive(Clone, Copy, Debug, PartialEq, Eq, Structural)]
pub enum NodeKind {
    /// An existing directory.
    Directory,
    /// An existing regular file.
    Regular,
    /// Something that exists but is neither (a special file).
    Other,
}

/// Host metadata for an existing node, as plain values.
#[derive(Clone, Copy, Debug, PartialEq, Eq, Structural)]
pub struct HostMeta {
    /// The node's kind.
    pub kind: NodeKind,
    /// The host's permission and type bits.
    pub mode: u32,
    /// The host's hard-link count.
    pub nlink: u64,
    /// The node's byte length; meaningful for regular files.
    pub size: u64,
}

/// The outcome of the single host metadata query made for a request.
#[derive(Clone, Copy, Debug, PartialEq, Eq, Structural)]
pub enum HostProbe {
    /// The node exists and its metadata was fetched.
    Meta(HostMeta),
    /// No node exists at the resolved path.
    Absent,
    /// The host reported an I/O failure while fetching metadata.
    Failure,
}

/// The attributes a successful lookup reports to the dispatch layer.
///
/// `size` is meaningful only when `kind` is [`NodeKind::Regular`]; a
/// directory is reported with size zero, matching the zero-initialised
/// attribute buffer the dispatch layer supplies.
#[derive(Clone, Copy, Debug, PartialEq, Eq, Structural)]
pub struct AttrRecord {
    /// The reported node kind.
    pub kind: NodeKind,
    /// The host's permission and type bits, passed through.
    pub mode: u32,
    /// The host's hard-link count, passed through.
    pub nlink: u64,
    /// The byte length for regular files, zero otherwise.
    pub size: u64,
}

/// What attribute lookup reports for each probe outcome: directories and
/// regular files pass their metadata through (only regular files report a
/// size), anything else is `NotFound`, and a host failure during the
/// metadata fetch is `RemoteIo`.
pub open spec fn spec_getattr(probe: HostProbe) -> Result<AttrRecord, FsError> {
    match probe {
        HostProbe::Meta(m) => match m.kind {
            NodeKind::Directory => Ok(
                AttrRecord { kind: NodeKind::Directory, mode: m.mode, nlink: m.nlink, size: 0 },
            ),
            NodeKind::Regular => Ok(
                AttrRecord { kind: NodeKind::Regular, mode: m.mode, nlink: m.nlink, size: m.size },
            ),
            NodeKind::Other => Err(FsError::NotFound),
        },
        HostProbe::Absent => Err(FsError::NotFound),
        HostProbe::Failure => Err(FsError::RemoteIo),
    }
}

/// The attribute translator: host metadata in, reported attributes out.
pub fn do_getattr(probe: &HostProbe) -> (r: Result<AttrRecord, FsError>)
    ensures
        r == spec_getattr(*probe),
{
    match probe {
        HostProbe::Meta(m) => match m.kind {
            NodeKind::Directory => Ok(
                AttrRecord { kind: NodeKind::Directory, mode: m.mode, nlink: m.nlink, size: 0 },
            ),
            NodeKind::Regular => Ok(
                AttrRecord { kind: NodeKind::Regular, mode: m.mode, nlink: m.nlink, size: m.size },
            ),
            NodeKind::Other => Err(FsError::NotFound),
        },
        HostProbe::Absent => Err(FsError::NotFound),
        HostProbe::Failure => Err(FsError::RemoteIo),
    }
}

} // verus!
