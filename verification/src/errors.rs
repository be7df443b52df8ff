//! The closed error vocabulary of the handler layer.
//!
//! Every failure inside a handler is classified as one of these kinds at the
//! failure site and surfaced exactly once, as the handler's return value.
//! The dispatch layer expects a fixed POSIX-style numeric code, negated.

use vstd::prelude::*;

verus! {

/// A canonical failure kind.
///
/// - `InvalidRequest`: malformed request path, negative read offset, or a
///   missing directory sink.
/// - `NotFound`: the path resolves to neither an existing regular file nor a
///   directory.
/// - `AccessDenied`: an open attempt with any intent other than read-only.
/// - `IsADirectory`: open or read aimed at a directory.
/// - `RemoteIo`: an underlying host I/O failure (metadata lookup, directory
///   listing, open, seek, or read).
/// - `IoFailure`: failure constructing an outgoing entry string (an embedded
///   NUL terminator).
#[derive(Clone, Copy, Debug, PartialEq, Eq, Structural)]
pub enum FsError {
    InvalidRequest,
    NotFound,
    AccessDenied,
    IsADirectory,
    RemoteIo,
    IoFailure,
}

/// The fixed POSIX-style code of each failure kind.
pub open spec fn spec_errno(e: FsError) -> int {
    match e {
        FsError::InvalidRequest => 22,
        FsError::NotFound => 2,
        FsError::AccessDenied => 13,
        FsError::IsADirectory => 21,
        FsError::RemoteIo => 121,
        FsError::IoFailure => 5,
    }
}

impl FsError {
    /// The positive POSIX-style code of this failure kind.
    pub fn errno(&self) -> (code: i32)
        ensures
            code == spec_errno(*self),
    {
        match self {
            FsError::InvalidRequest => 22,
            FsError::NotFound => 2,
            FsError::AccessDenied => 13,
            FsError::IsADirectory => 21,
            FsError::RemoteIo => 121,
            FsError::IoFailure => 5,
        }
    }

    /// The value a failing handler hands back to the dispatch layer: the
    /// negated POSIX-style code.
    pub fn return_code(&self) -> (code: i32)
        ensures
            code == -spec_errno(*self),
            code < 0,
    {
        match self {
            FsError::InvalidRequest => -22,
            FsError::NotFound => -2,
            FsError::AccessDenied => -13,
            FsError::IsADirectory => -21,
            FsError::RemoteIo => -121,
            FsError::IoFailure => -5,
        }
    }
}

} // verus!
