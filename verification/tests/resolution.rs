use fusionfs::errors::FsError;
use fusionfs::mount::{canonical_segments, join_under_root, split_request, MountContext};

fn segs(parts: &[&str]) -> Vec<String> {
    parts.iter().map(|s| s.to_string()).collect()
}

#[test]
fn split_breaks_on_every_slash() {
    assert_eq!(split_request("/a/b"), segs(&["a", "b"]));
    assert_eq!(split_request("/a.txt"), segs(&["a.txt"]));
    assert_eq!(split_request("/"), segs(&[""]));
    assert_eq!(split_request("/a//b/"), segs(&["a", "", "b", ""]));
}

#[test]
fn canonical_drops_empty_and_dot_segments() {
    assert_eq!(canonical_segments(&segs(&["a", "", ".", "b"])), Ok(segs(&["a", "b"])));
    assert_eq!(canonical_segments(&segs(&[""])), Ok(segs(&[])));
}

#[test]
fn canonical_resolves_parent_segments() {
    assert_eq!(canonical_segments(&segs(&["a", "..", "b"])), Ok(segs(&["b"])));
    assert_eq!(canonical_segments(&segs(&["a", "b", "..", ".."])), Ok(segs(&[])));
}

#[test]
fn canonical_refuses_climbing_out_of_the_root() {
    assert_eq!(canonical_segments(&segs(&[".."])), Err(FsError::InvalidRequest));
    assert_eq!(canonical_segments(&segs(&["a", "..", ".."])), Err(FsError::InvalidRequest));
}

#[test]
fn dot_prefixed_names_are_kept() {
    assert_eq!(canonical_segments(&segs(&[".hidden", "..."])), Ok(segs(&[".hidden", "..."])));
}

#[test]
fn join_puts_a_slash_before_each_segment() {
    assert_eq!(join_under_root(&String::from("/srcroot"), &segs(&["a", "b"])), "/srcroot/a/b");
    assert_eq!(join_under_root(&String::from("/srcroot"), &segs(&[])), "/srcroot");
}

#[test]
fn checked_resolution_stays_within_the_root() {
    let ctx = MountContext::new(String::from("/srcroot"));
    assert_eq!(ctx.resolve_checked("/hello.txt"), Ok(String::from("/srcroot/hello.txt")));
    assert_eq!(ctx.resolve_checked("/a/../b"), Ok(String::from("/srcroot/b")));
    assert_eq!(ctx.resolve_checked("/a/./b//c/"), Ok(String::from("/srcroot/a/b/c")));
    assert_eq!(ctx.resolve_checked("/"), Ok(String::from("/srcroot")));
    assert_eq!(ctx.resolve_checked("/.."), Err(FsError::InvalidRequest));
    assert_eq!(ctx.resolve_checked("/a/../../etc/passwd"), Err(FsError::InvalidRequest));
    assert_eq!(ctx.resolve_checked(""), Err(FsError::InvalidRequest));
    assert_eq!(ctx.resolve_checked("relative"), Err(FsError::InvalidRequest));
}
