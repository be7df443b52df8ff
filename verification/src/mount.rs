//! The mount context and the path resolvers.
//!
//! A mount binds one source root for the life of the process; the context is
//! built once at startup and handed immutably to every handler invocation.
//! Two resolvers turn a slash-rooted request path into a path under the
//! source root.  The plain one is a purely syntactic join: the request's
//! leading slash acts as the separator, so the resolved path is the root
//! followed by the request, with no canonicalization.  The checked one
//! splits the request into segments, canonicalizes `.` and `..`, and refuses
//! a request that would climb out of the root; handlers resolve through it
//! before any host filesystem call, so a resolved path never escapes the
//! source root (see the containment law in `laws`).  Neither resolver
//! follows symlinks.

use vstd::prelude::*;
use vstd::string::*;
use crate::errors::FsError;

verus! {

/// Whether a request path is well formed: non-empty and slash-rooted.
pub open spec fn valid_request(request: Seq<char>) -> bool {
    request.len() > 0 && request[0] == '/'
}

/// The segments of a path, split on `/`.  Splitting the empty sequence gives
/// one empty segment, and every separator opens a new segment, so empty
/// segments record doubled or trailing slashes.
pub open spec fn split_on_slash(s: Seq<char>) -> Seq<Seq<char>>
    decreases s.len(),
{
    if s.len() == 0 {
        seq![Seq::<char>::empty()]
    } else if s.last() == '/' {
        split_on_slash(s.drop_last()).push(Seq::<char>::empty())
    } else {
        let parts = split_on_slash(s.drop_last());
        parts.update(parts.len() - 1, parts.last().push(s.last()))
    }
}

/// Canonicalizes path segments left to right: an empty or `.` segment is
/// dropped, a `..` segment removes the segment before it, and a `..` with
/// nothing left to remove means the path climbs out of the root — there is
/// no canonical form, so the result is `None`.
pub open spec fn canonical_stack(segs: Seq<Seq<char>>) -> Option<Seq<Seq<char>>>
    decreases segs.len(),
{
    if segs.len() == 0 {
        Some(Seq::<Seq<char>>::empty())
    } else {
        match canonical_stack(segs.drop_last()) {
            None => None,
            Some(stack) => {
                let seg = segs.last();
                if seg.len() == 0 || seg == seq!['.'] {
                    Some(stack)
                } else if seg == seq!['.', '.'] {
                    if stack.len() == 0 {
                        None
                    } else {
                        Some(stack.drop_last())
                    }
                } else {
                    Some(stack.push(seg))
                }
            },
        }
    }
}

/// Once canonicalization has failed on a prefix, no continuation recovers:
/// the whole path has no canonical form either.
pub proof fn lemma_canonical_none_persists(segs: Seq<Seq<char>>, i: int)
    requires
        0 <= i <= segs.len(),
        canonical_stack(segs.take(i)) is None,
    ensures
        canonical_stack(segs) is None,
    decreases segs.len() - i,
{
    if i < segs.len() {
        assert(segs.take(i + 1).drop_last() =~= segs.take(i));
        lemma_canonical_none_persists(segs, i + 1);
    } else {
        assert(segs.take(i) =~= segs);
    }
}

/// Splits a slash-rooted request path into the segments after its leading
/// slash.
pub fn split_request(request: &str) -> (segs: Vec<String>)
    requires
        valid_request(request@),
    ensures
        segs.deep_view() == split_on_slash(request@.skip(1)),
{
    let ghost s = request@.skip(1);
    let len = request.unicode_len();
    let mut out: Vec<String> = Vec::new();
    let mut start: usize = 1;
    let mut i: usize = 1;
    proof {
        assert(s.take(0) =~= Seq::<char>::empty());
        assert(out.deep_view().push(request@.subrange(1, 1)) =~~= split_on_slash(s.take(0)));
    }
    while i < len
        invariant
            1 <= start <= i <= len,
            len == request@.len(),
            s == request@.skip(1),
            out.deep_view().push(request@.subrange(start as int, i as int)) == split_on_slash(
                s.take(i - 1),
            ),
        decreases len - i,
    {
        let ghost partial = request@.subrange(start as int, i as int);
        let ghost parts = split_on_slash(s.take(i - 1));
        proof {
            assert(s.take(i as int).drop_last() =~= s.take(i - 1));
            assert(s.take(i as int).last() == request@[i as int]);
        }
        if request.get_char(i) == '/' {
            let seg = request.substring_char(start, i);
            out.push(seg.to_owned());
            start = i + 1;
            proof {
                assert(out.deep_view() =~~= parts);
                assert(out.deep_view().push(request@.subrange(start as int, i + 1))
                    =~~= split_on_slash(s.take(i as int)));
            }
        } else {
            proof {
                assert(request@.subrange(start as int, i + 1) =~= partial.push(
                    request@[i as int],
                ));
                assert(out.deep_view().push(request@.subrange(start as int, i + 1))
                    =~~= parts.update(parts.len() - 1, parts.last().push(request@[i as int])));
            }
        }
        i = i + 1;
    }
    let seg = request.substring_char(start, len);
    out.push(seg.to_owned());
    proof {
        assert(s.take(len - 1) =~= s);
        assert(out.deep_view() =~~= split_on_slash(s));
    }
    out
}

/// Canonicalizes a path's segments.  Fails with `InvalidRequest` exactly
/// when the path climbs out of the root: a `..` segment with no real segment
/// before it.
pub fn canonical_segments(segs: &Vec<String>) -> (r: Result<Vec<String>, FsError>)
    ensures
        r is Ok <==> canonical_stack(segs.deep_view()) is Some,
        r matches Ok(c) ==> Some(c.deep_view()) == canonical_stack(segs.deep_view()),
        r matches Err(e) ==> e == FsError::InvalidRequest,
{
    let ghost all = segs.deep_view();
    let mut stack: Vec<String> = Vec::new();
    let mut i: usize = 0;
    while i < segs.len()
        invariant
            i <= segs.len(),
            all == segs.deep_view(),
            all.len() == segs.len(),
            Some(stack.deep_view()) == canonical_stack(all.take(i as int)),
        decreases segs.len() - i,
    {
        let seg = &segs[i];
        let ghost prev = stack.deep_view();
        let len = seg.unicode_len();
        proof {
            assert(all.take(i + 1).drop_last() =~= all.take(i as int));
            assert(all.take(i + 1).last() == seg@);
        }
        if len == 0 {
            // an empty segment (doubled or trailing slash) is dropped
        } else if len == 1 && seg.get_char(0) == '.' {
            proof {
                assert(seg@ =~= seq!['.']);
            }
        } else if len == 2 && seg.get_char(0) == '.' && seg.get_char(1) == '.' {
            proof {
                assert(seg@ =~= seq!['.', '.']);
            }
            if stack.len() == 0 {
                proof {
                    lemma_canonical_none_persists(all, i + 1);
                }
                return Err(FsError::InvalidRequest);
            }
            stack.pop();
            proof {
                assert(stack.deep_view() =~= prev.drop_last());
            }
        } else {
            proof {
                assert(seg@.len() == len);
                assert(seg@ != seq!['.'] && seg@ != seq!['.', '.']) by {
                    if len == 1 {
                        assert(seg@[0] != '.');
                    }
                    if len == 2 {
                        assert(seg@[0] != '.' || seg@[1] != '.');
                    }
                }
            }
            stack.push(seg.clone());
            proof {
                assert(stack.deep_view() =~= prev.push(seg@));
            }
        }
        i = i + 1;
    }
    proof {
        assert(all.take(i as int) =~= all);
    }
    Ok(stack)
}

/// A segment produced by splitting never holds a separator.
pub proof fn lemma_split_segments_no_slash(s: Seq<char>)
    ensures
        split_on_slash(s).len() >= 1,
        forall|i: int|
            0 <= i < split_on_slash(s).len() ==> !(#[trigger] split_on_slash(s)[i]).contains('/'),
    decreases s.len(),
{
    broadcast use vstd::seq_lib::lemma_seq_contains_after_push;

    if s.len() == 0 {
        assert(!Seq::<char>::empty().contains('/'));
    } else {
        lemma_split_segments_no_slash(s.drop_last());
        let prev = split_on_slash(s.drop_last());
        let out = split_on_slash(s);
        if s.last() == '/' {
            assert forall|i: int| 0 <= i < out.len() implies !(#[trigger] out[i]).contains(
                '/',
            ) by {
                if i < prev.len() {
                    assert(out[i] == prev[i]);
                } else {
                    assert(out[i] =~= Seq::<char>::empty());
                }
            }
        } else {
            assert forall|i: int| 0 <= i < out.len() implies !(#[trigger] out[i]).contains(
                '/',
            ) by {
                if i < prev.len() - 1 {
                    assert(out[i] == prev[i]);
                } else {
                    assert(prev.last() == prev[prev.len() - 1]);
                    assert(!prev.last().contains('/'));
                    assert(out[i] == prev.last().push(s.last()));
                }
            }
        }
    }
}

/// Canonical segments are plain names: non-empty, not `.`, not `..`, and —
/// when no input segment holds a separator — free of separators too.
pub proof fn lemma_canonical_segments_plain(segs: Seq<Seq<char>>)
    requires
        forall|i: int| 0 <= i < segs.len() ==> !(#[trigger] segs[i]).contains('/'),
    ensures
        canonical_stack(segs) matches Some(c) ==> forall|i: int|
            0 <= i < c.len() ==> (#[trigger] c[i]).len() > 0 && c[i] != seq!['.'] && c[i]
                != seq!['.', '.'] && !c[i].contains('/'),
    decreases segs.len(),
{
    if segs.len() > 0 {
        assert(forall|i: int|
            0 <= i < segs.drop_last().len() ==> !(#[trigger] segs.drop_last()[i]).contains('/'));
        lemma_canonical_segments_plain(segs.drop_last());
        assert(segs[segs.len() - 1] == segs.last());
    }
}

/// A root path extended by segments, one slash before each.
pub open spec fn join_segments(root: Seq<char>, segs: Seq<Seq<char>>) -> Seq<char>
    decreases segs.len(),
{
    if segs.len() == 0 {
        root
    } else {
        join_segments(root, segs.drop_last()) + seq!['/'] + segs.last()
    }
}

/// Joins canonical segments onto the source root, a slash before each.
pub fn join_under_root(root: &String, segs: &Vec<String>) -> (joined: String)
    ensures
        joined@ == join_segments(root@, segs.deep_view()),
{
    let ghost all = segs.deep_view();
    let mut joined = root.clone();
    let mut i: usize = 0;
    proof {
        assert(all.take(0) =~~= Seq::<Seq<char>>::empty());
    }
    while i < segs.len()
        invariant
            i <= segs.len(),
            all == segs.deep_view(),
            all.len() == segs.len(),
            joined@ == join_segments(root@, all.take(i as int)),
        decreases segs.len() - i,
    {
        joined.append("/");
        joined.append(segs[i].as_str());
        proof {
            reveal_strlit("/");
            assert("/"@ =~= seq!['/']);
            assert(all.take(i + 1).drop_last() =~~= all.take(i as int));
            assert(all.take(i + 1).last() == all[i as int]);
        }
        i = i + 1;
    }
    proof {
        assert(all.take(i as int) =~~= all);
    }
    joined
}

/// Joining segments onto a root only ever extends it: the root stays a
/// prefix of the joined path.
pub proof fn lemma_join_extends_root(root: Seq<char>, segs: Seq<Seq<char>>)
    ensures
        join_segments(root, segs).len() >= root.len(),
        join_segments(root, segs).subrange(0, root.len() as int) == root,
    decreases segs.len(),
{
    if segs.len() > 0 {
        lemma_join_extends_root(root, segs.drop_last());
        assert(join_segments(root, segs).subrange(0, root.len() as int) =~= join_segments(
            root,
            segs.drop_last(),
        ).subrange(0, root.len() as int));
    } else {
        assert(join_segments(root, segs).subrange(0, root.len() as int) =~= root);
    }
}

/// Canonicalization leaves a path of plain names alone: with no empty, `.`
/// or `..` segment there is nothing to drop or resolve.
pub proof fn lemma_canonical_identity(segs: Seq<Seq<char>>)
    requires
        forall|i: int|
            0 <= i < segs.len() ==> (#[trigger] segs[i]).len() > 0 && segs[i] != seq!['.']
                && segs[i] != seq!['.', '.'],
    ensures
        canonical_stack(segs) == Some(segs),
    decreases segs.len(),
{
    if segs.len() > 0 {
        assert(forall|i: int|
            0 <= i < segs.drop_last().len() ==> #[trigger] segs.drop_last()[i] == segs[i]);
        lemma_canonical_identity(segs.drop_last());
        assert(segs[segs.len() - 1] == segs.last());
        assert(segs.drop_last().push(segs.last()) =~~= segs);
    }
}

/// Joining a path's own segments back onto a root restores the path, behind
/// the root and one separator: splitting loses nothing.
pub proof fn lemma_join_split_roundtrip(root: Seq<char>, s: Seq<char>)
    ensures
        join_segments(root, split_on_slash(s)) == root + seq!['/'] + s,
    decreases s.len(),
{
    if s.len() == 0 {
        let parts = split_on_slash(s);
        assert(parts.drop_last() =~~= Seq::<Seq<char>>::empty());
        assert(join_segments(root, parts.drop_last()) == root);
        assert(parts.last() =~= Seq::<char>::empty());
        assert(join_segments(root, parts) =~= root + seq!['/'] + s);
    } else {
        lemma_join_split_roundtrip(root, s.drop_last());
        let parts = split_on_slash(s.drop_last());
        if s.last() == '/' {
            assert(split_on_slash(s).drop_last() =~~= parts);
            assert(split_on_slash(s).last() =~= Seq::<char>::empty());
            assert(join_segments(root, split_on_slash(s)) == join_segments(root, parts)
                + seq!['/'] + Seq::<char>::empty());
            assert((root + seq!['/'] + s.drop_last()) + seq!['/'] + Seq::<char>::empty() =~= root
                + seq!['/'] + s);
        } else {
            let out = parts.update(parts.len() - 1, parts.last().push(s.last()));
            assert(out.drop_last() =~~= parts.drop_last());
            assert(out.last() == parts.last().push(s.last()));
            assert(join_segments(root, parts) == join_segments(root, parts.drop_last())
                + seq!['/'] + parts.last());
            assert(join_segments(root, out) == join_segments(root, parts.drop_last()) + seq!['/']
                + parts.last().push(s.last()));
            assert(join_segments(root, out) =~= (root + seq!['/'] + s.drop_last()).push(
                s.last(),
            ));
            assert((root + seq!['/'] + s.drop_last()).push(s.last()) =~= root + seq!['/'] + s);
        }
    }
}

/// What resolving a request with canonicalization yields: the request must
/// be slash-rooted and its segments must have a canonical form (no climbing
/// out of the root); the resolved path is the root extended by the canonical
/// segments.
pub open spec fn spec_resolve_checked(root: Seq<char>, request: Seq<char>) -> Result<
    Seq<char>,
    FsError,
> {
    if !valid_request(request) {
        Err(FsError::InvalidRequest)
    } else {
        match canonical_stack(split_on_slash(request.skip(1))) {
            None => Err(FsError::InvalidRequest),
            Some(stack) => Ok(join_segments(root, stack)),
        }
    }
}

/// The process-lifetime binding of the source root. Immutable once built.
pub struct MountContext {
    /// The source root path, without a trailing slash.
    pub root: String,
}

impl MountContext {
    /// Binds a source root.
    pub fn new(root: String) -> (ctx: MountContext)
        ensures
            ctx.root@ == root@,
    {
        MountContext { root }
    }

    /// The path resolver: checks that the request is slash-rooted and joins
    /// it onto the source root.  A request that is empty or not slash-rooted
    /// is refused with `InvalidRequest`.
    pub fn resolve(&self, request: &str) -> (r: Result<String, FsError>)
        ensures
            r is Ok <==> valid_request(request@),
            r matches Ok(resolved) ==> resolved@ == self.root@ + request@,
            r matches Err(e) ==> e == FsError::InvalidRequest,
    {
        if request.unicode_len() == 0 {
            return Err(FsError::InvalidRequest);
        }
        if request.get_char(0) != '/' {
            return Err(FsError::InvalidRequest);
        }
        let mut resolved = self.root.clone();
        resolved.append(request);
        Ok(resolved)
    }

    /// The checked path resolver: splits the request into segments,
    /// canonicalizes `.` and `..`, refuses a request that would climb out of
    /// the source root, and joins the canonical segments onto the root.
    pub fn resolve_checked(&self, request: &str) -> (r: Result<String, FsError>)
        ensures
            r is Ok <==> spec_resolve_checked(self.root@, request@) is Ok,
            r matches Ok(resolved) ==> Ok::<Seq<char>, FsError>(resolved@)
                == spec_resolve_checked(self.root@, request@),
            r matches Err(e) ==> e == FsError::InvalidRequest,
    {
        if request.unicode_len() == 0 {
            return Err(FsError::InvalidRequest);
        }
        if request.get_char(0) != '/' {
            return Err(FsError::InvalidRequest);
        }
        let segs = split_request(request);
        let stack = match canonical_segments(&segs) {
            Ok(stack) => stack,
            Err(e) => return Err(e),
        };
        Ok(join_under_root(&self.root, &stack))
    }
}

} // verus!
