//! The directory enumerator behind the readdir handler.
//!
//! The unverified shell lists the host directory and streams the finished
//! names to the dispatch layer's sink callback, one call per entry, always
//! with a null attribute hint and a zero offset hint; enumeration is not
//! resumable, so every invocation re-materializes the whole listing.  The
//! verified core gates the request, appends the synthetic `.` and `..`
//! entries, and refuses a name that could not be handed out as a
//! NUL-terminated string.

use vstd::prelude::*;
use vstd::string::*;
use crate::attrs::{HostProbe, NodeKind};
use crate::errors::FsError;

verus! {

/// Gates a readdir request: the resolved path must denote a directory and a
/// sink callback must have been supplied; anything else is refused with
/// `InvalidRequest`.
pub fn readdir_gate(probe: &HostProbe, sink_present: bool) -> (r: Result<(), FsError>)
    ensures
        r is Ok <==> (*probe matches HostProbe::Meta(m) && m.kind == NodeKind::Directory
            && sink_present),
        r matches Err(e) ==> e == FsError::InvalidRequest,
{
    let is_dir = match probe {
        HostProbe::Meta(m) => matches!(m.kind, NodeKind::Directory),
        HostProbe::Absent => false,
        HostProbe::Failure => false,
    };
    if !is_dir {
        return Err(FsError::InvalidRequest);
    }
    if !sink_present {
        return Err(FsError::InvalidRequest);
    }
    Ok(())
}

/// Builds the reported listing from the host directory's entry names: the
/// host entries in order, then the synthetic `..` and `.`.
pub fn build_listing(entries: Vec<String>) -> (r: Vec<String>)
    ensures
        r.deep_view() == entries.deep_view().push(".."@).push("."@),
{
    let ghost host = entries.deep_view();
    let mut out = entries;
    out.push(String::from_str(".."));
    out.push(String::from_str("."));
    proof {
        assert(out.deep_view() =~= host.push(".."@).push("."@));
    }
    out
}

/// Checks that an entry name can be handed to the sink as a NUL-terminated
/// string: a name with an embedded NUL is refused with `IoFailure`.
pub fn entry_output_check(name: &str) -> (r: Result<(), FsError>)
    ensures
        r is Ok <==> !name@.contains('\0'),
        r matches Err(e) ==> e == FsError::IoFailure,
{
    let len = name.unicode_len();
    let mut i: usize = 0;
    while i < len
        invariant
            len == name@.len(),
            i <= len,
            forall|j: int| 0 <= j < i ==> name@[j] != '\0',
        decreases len - i,
    {
        if name.get_char(i) == '\0' {
            assert(name@.contains('\0'));
            return Err(FsError::IoFailure);
        }
        i = i + 1;
    }
    assert(!name@.contains('\0'));
    Ok(())
}

} // verus!
