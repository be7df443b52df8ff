//! The bounded reader behind the read handler.
//!
//! The unverified shell opens the host file and hands its bytes over; the
//! verified core applies the directory/existence checks, rejects negative
//! offsets, and copies the requested window.  Reading at or past end-of-file
//! yields zero bytes; a window is clipped at end-of-file, so the returned
//! count is `min(len, size - offset)`.

use vstd::prelude::*;
use crate::attrs::{HostProbe, NodeKind};
use crate::errors::FsError;

verus! {

/// The window of `content` that a read of `len` bytes at `offset` returns:
/// the bytes from `offset` up to `offset + len`, both clipped at end-of-file.
pub open spec fn read_window(content: Seq<u8>, offset: int, len: int) -> Seq<u8>
    recommends
        offset >= 0,
        len >= 0,
{
    let size = content.len() as int;
    let start = if offset <= size { offset } else { size };
    let end = if offset + len <= size { offset + len } else { size };
    content.subrange(start, end)
}

/// The error a read request fails with, when it fails: a directory is
/// refused with `IsADirectory`, anything that is not an existing regular
/// file with `NotFound`, and a negative offset with `InvalidRequest`, in
/// that order.
pub open spec fn spec_read_error(probe: HostProbe, offset: int) -> FsError {
    match probe {
        HostProbe::Meta(m) => match m.kind {
            NodeKind::Directory => FsError::IsADirectory,
            NodeKind::Regular => FsError::InvalidRequest,
            NodeKind::Other => FsError::NotFound,
        },
        HostProbe::Absent => FsError::NotFound,
        HostProbe::Failure => FsError::NotFound,
    }
}

/// Whether a read request is accepted: the probe shows an existing regular
/// file and the offset is not negative.
pub open spec fn read_accepted(probe: HostProbe, offset: int) -> bool {
    &&& probe matches HostProbe::Meta(m) && m.kind == NodeKind::Regular
    &&& offset >= 0
}

/// The bounded reader: decides a read request from the metadata probe, the
/// file's bytes, the destination length and the signed offset, and returns
/// the copied window.  An offset at or past end-of-file yields an empty
/// result; otherwise exactly `min(len, content.len() - offset)` bytes come
/// back, byte-for-byte equal to the file's content at that range.
pub fn do_read(probe: &HostProbe, content: &Vec<u8>, len: usize, offset: i64) -> (r: Result<
    Vec<u8>,
    FsError,
>)
    ensures
        r is Ok <==> read_accepted(*probe, offset as int),
        r matches Ok(bytes) ==> bytes@ == read_window(content@, offset as int, len as int),
        r matches Err(e) ==> e == spec_read_error(*probe, offset as int),
{
    match probe {
        HostProbe::Meta(m) => match m.kind {
            NodeKind::Directory => Err(FsError::IsADirectory),
            NodeKind::Regular => {
                if offset < 0 {
                    return Err(FsError::InvalidRequest);
                }
                let size = content.len();
                if offset as u64 >= size as u64 {
                    let out: Vec<u8> = Vec::new();
                    assert(out@ =~= read_window(content@, offset as int, len as int));
                    return Ok(out);
                }
                let start: usize = offset as usize;
                let remaining = size - start;
                let count = if len < remaining {
                    len
                } else {
                    remaining
                };
                let mut out: Vec<u8> = Vec::new();
                let mut i: usize = 0;
                while i < count
                    invariant
                        content@.len() <= usize::MAX,
                        start + count <= content@.len(),
                        i <= count,
                        out@ == content@.subrange(start as int, start + i),
                    decreases count - i,
                {
                    out.push(content[start + i]);
                    assert(out@ =~= content@.subrange(start as int, start + i + 1));
                    i = i + 1;
                }
                assert(out@ =~= read_window(content@, offset as int, len as int));
                Ok(out)
            },
            NodeKind::Other => Err(FsError::NotFound),
        },
        HostProbe::Absent => Err(FsError::NotFound),
        HostProbe::Failure => Err(FsError::NotFound),
    }
}

} // verus!
