//! The laws of the handler layer, stated once and proved for all inputs.

use vstd::prelude::*;
use vstd::seq_lib::lemma_seq_contains_after_push;
use crate::access::{is_read_only, spec_open};
use crate::attrs::{spec_getattr, AttrRecord, HostMeta, HostProbe, NodeKind};
use crate::errors::FsError;
use crate::mount::{
    canonical_stack, join_segments, lemma_canonical_identity, lemma_canonical_segments_plain,
    lemma_join_extends_root, lemma_join_split_roundtrip, lemma_split_segments_no_slash,
    spec_resolve_checked, split_on_slash, valid_request,
};
use crate::reader::{read_accepted, read_window, spec_read_error};

verus! {

/// Attribute lookup on an existing regular file reports kind regular and a
/// size equal to the host file's byte length.
pub proof fn lemma_getattr_regular_size(m: HostMeta)
    requires
        m.kind == NodeKind::Regular,
    ensures
        spec_getattr(HostProbe::Meta(m)) matches Ok(a) && a.kind == NodeKind::Regular && a.size
            == m.size,
{
}

/// The reported listing's name set is the host directory's entry set unioned
/// with `.` and `..`, each name exactly once, provided the host entries were
/// distinct and held no dot entries.
pub proof fn lemma_listing_names(host: Seq<Seq<char>>)
    requires
        host.no_duplicates(),
        !host.contains("."@),
        !host.contains(".."@),
    ensures
        forall|name: Seq<char>|
            #[trigger] host.push(".."@).push("."@).contains(name) <==> (host.contains(name)
                || name == "."@ || name == ".."@),
        host.push(".."@).push("."@).no_duplicates(),
{
    broadcast use lemma_seq_contains_after_push;

    reveal_strlit(".");
    reveal_strlit("..");
    assert("."@.len() == 1);
    assert(".."@.len() == 2);
    let out = host.push(".."@).push("."@);
    let n = host.len() as int;
    assert forall|i: int, j: int|
        0 <= i < out.len() && 0 <= j < out.len() && i != j implies out[i] != out[j] by {
        if i < n && j < n {
            assert(out[i] == host[i] && out[j] == host[j]);
        } else if i < n {
            assert(host.contains(host[i]));
        } else if j < n {
            assert(host.contains(host[j]));
        }
    }
}

/// A path that resolves to neither an existing regular file nor a directory
/// fails both attribute lookup and open with `NotFound`.
pub proof fn lemma_missing_not_found(probe: HostProbe, flags: u32)
    requires
        probe matches HostProbe::Meta(m) ==> m.kind == NodeKind::Other,
        !(probe matches HostProbe::Failure),
    ensures
        spec_getattr(probe) == Err::<AttrRecord, FsError>(FsError::NotFound),
        spec_open(probe, flags) == Err::<i32, FsError>(FsError::NotFound),
{
}

/// Open succeeds, returning zero, exactly when the access intent is strictly
/// read-only and the target is an existing regular file; a regular file with
/// any other intent is refused with `AccessDenied`, and a directory with
/// `IsADirectory`.
pub proof fn lemma_open_gate(probe: HostProbe, flags: u32)
    ensures
        spec_open(probe, flags) == Ok::<i32, FsError>(0) <==> (probe matches HostProbe::Meta(m)
            && m.kind == NodeKind::Regular && is_read_only(flags)),
        (probe matches HostProbe::Meta(m) && m.kind == NodeKind::Regular && !is_read_only(flags))
            ==> spec_open(probe, flags) == Err::<i32, FsError>(FsError::AccessDenied),
        (probe matches HostProbe::Meta(m) && m.kind == NodeKind::Directory) ==> spec_open(
            probe,
            flags,
        ) == Err::<i32, FsError>(FsError::IsADirectory),
{
}

/// Containment: a path accepted by the checked resolver stays within the
/// source root.  The root is a prefix of the resolved path, and everything
/// after it is a chain of plain names — each canonical segment is non-empty,
/// is neither `.` nor `..`, and holds no separator — so the resolved path
/// cannot climb out of the root.
pub proof fn lemma_resolved_path_stays_within_root(root: Seq<char>, request: Seq<char>)
    ensures
        spec_resolve_checked(root, request) matches Ok(p) ==> p.len() >= root.len()
            && p.subrange(0, root.len() as int) == root,
        canonical_stack(split_on_slash(request.skip(1))) matches Some(c) ==> (
        spec_resolve_checked(root, request) matches Ok(p) ==> p == join_segments(root, c))
            && forall|i: int|
            0 <= i < c.len() ==> (#[trigger] c[i]).len() > 0 && c[i] != seq!['.'] && c[i]
                != seq!['.', '.'] && !c[i].contains('/'),
{
    lemma_split_segments_no_slash(request.skip(1));
    lemma_canonical_segments_plain(split_on_slash(request.skip(1)));
    if let Some(c) = canonical_stack(split_on_slash(request.skip(1))) {
        lemma_join_extends_root(root, c);
    }
}

/// On a request of plain names — no empty, `.` or `..` segment — the checked
/// resolver agrees with the purely syntactic join: it returns exactly the
/// root followed by the request.
pub proof fn lemma_checked_resolution_matches_syntactic_join(root: Seq<char>, request: Seq<char>)
    requires
        valid_request(request),
        forall|i: int|
            0 <= i < split_on_slash(request.skip(1)).len() ==> (#[trigger] split_on_slash(
                request.skip(1),
            )[i]).len() > 0 && split_on_slash(request.skip(1))[i] != seq!['.'] && split_on_slash(
                request.skip(1),
            )[i] != seq!['.', '.'],
    ensures
        spec_resolve_checked(root, request) == Ok::<Seq<char>, FsError>(root + request),
{
    lemma_canonical_identity(split_on_slash(request.skip(1)));
    lemma_join_split_roundtrip(root, request.skip(1));
    assert(root + seq!['/'] + request.skip(1) =~= root + request);
}

/// The bounded read window: an offset inside the file yields exactly
/// `min(len, size - offset)` bytes, byte-for-byte equal to the file's
/// content at that range; an offset at or past end-of-file yields zero
/// bytes; and a negative offset on an existing regular file is refused with
/// `InvalidRequest`.
pub proof fn lemma_read_window(content: Seq<u8>, offset: int, len: int, m: HostMeta)
    requires
        len >= 0,
        m.kind == NodeKind::Regular,
    ensures
        0 <= offset < content.len() ==> read_window(content, offset, len) == content.subrange(
            offset,
            offset + (if len <= content.len() - offset {
                len
            } else {
                content.len() - offset
            }),
        ),
        0 <= offset < content.len() ==> read_window(content, offset, len).len() == (
        if len <= content.len() - offset {
            len
        } else {
            content.len() - offset
        }),
        offset >= content.len() ==> read_window(content, offset, len).len() == 0,
        offset < 0 ==> !read_accepted(HostProbe::Meta(m), offset) && spec_read_error(
            HostProbe::Meta(m),
            offset,
        ) == FsError::InvalidRequest,
{
}

} // verus!
