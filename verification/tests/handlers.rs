use fusionfs::access::do_open;
use fusionfs::attrs::{do_getattr, HostMeta, HostProbe, NodeKind};
use fusionfs::errors::FsError;
use fusionfs::listing::{build_listing, entry_output_check, readdir_gate};
use fusionfs::mount::MountContext;
use fusionfs::reader::do_read;

fn regular(size: u64) -> HostProbe {
    HostProbe::Meta(HostMeta { kind: NodeKind::Regular, mode: 0o100644, nlink: 1, size })
}

fn directory() -> HostProbe {
    HostProbe::Meta(HostMeta { kind: NodeKind::Directory, mode: 0o040755, nlink: 2, size: 0 })
}

#[test]
fn errno_codes_are_fixed() {
    assert_eq!(FsError::InvalidRequest.errno(), 22);
    assert_eq!(FsError::NotFound.errno(), 2);
    assert_eq!(FsError::AccessDenied.errno(), 13);
    assert_eq!(FsError::IsADirectory.errno(), 21);
    assert_eq!(FsError::RemoteIo.errno(), 121);
    assert_eq!(FsError::IoFailure.errno(), 5);
}

#[test]
fn return_codes_are_negated() {
    assert_eq!(FsError::InvalidRequest.return_code(), -22);
    assert_eq!(FsError::NotFound.return_code(), -2);
    assert_eq!(FsError::AccessDenied.return_code(), -13);
    assert_eq!(FsError::IsADirectory.return_code(), -21);
    assert_eq!(FsError::RemoteIo.return_code(), -121);
    assert_eq!(FsError::IoFailure.return_code(), -5);
}

#[test]
fn resolve_joins_onto_root() {
    let ctx = MountContext::new(String::from("/srcroot"));
    assert_eq!(ctx.resolve("/hello.txt"), Ok(String::from("/srcroot/hello.txt")));
    assert_eq!(ctx.resolve("/"), Ok(String::from("/srcroot/")));
    assert_eq!(ctx.resolve("/a/b"), Ok(String::from("/srcroot/a/b")));
}

#[test]
fn resolve_rejects_malformed_paths() {
    let ctx = MountContext::new(String::from("/srcroot"));
    assert_eq!(ctx.resolve(""), Err(FsError::InvalidRequest));
    assert_eq!(ctx.resolve("relative/path"), Err(FsError::InvalidRequest));
    assert_eq!(ctx.resolve("hello.txt"), Err(FsError::InvalidRequest));
}

#[test]
fn getattr_reports_regular_file_size() {
    let r = do_getattr(&regular(3)).unwrap();
    assert_eq!(r.kind, NodeKind::Regular);
    assert_eq!(r.size, 3);
    assert_eq!(r.mode, 0o100644);
    assert_eq!(r.nlink, 1);
}

#[test]
fn getattr_reports_directory() {
    let r = do_getattr(&directory()).unwrap();
    assert_eq!(r.kind, NodeKind::Directory);
    assert_eq!(r.size, 0);
    assert_eq!(r.mode, 0o040755);
    assert_eq!(r.nlink, 2);
}

#[test]
fn getattr_missing_is_not_found() {
    assert_eq!(do_getattr(&HostProbe::Absent), Err(FsError::NotFound));
    let special = HostProbe::Meta(HostMeta { kind: NodeKind::Other, mode: 0, nlink: 1, size: 0 });
    assert_eq!(do_getattr(&special), Err(FsError::NotFound));
}

#[test]
fn getattr_host_failure_is_remote_io() {
    assert_eq!(do_getattr(&HostProbe::Failure), Err(FsError::RemoteIo));
}

#[test]
fn open_read_only_succeeds() {
    assert_eq!(do_open(&regular(10), 0), Ok(0));
}

#[test]
fn open_write_intents_are_denied() {
    assert_eq!(do_open(&regular(10), 1), Err(FsError::AccessDenied));
    assert_eq!(do_open(&regular(10), 2), Err(FsError::AccessDenied));
    // append intent carries a write access mode in its low bits
    assert_eq!(do_open(&regular(10), 0o2001), Err(FsError::AccessDenied));
}

#[test]
fn open_directory_is_refused() {
    assert_eq!(do_open(&directory(), 0), Err(FsError::IsADirectory));
}

#[test]
fn open_missing_is_not_found() {
    assert_eq!(do_open(&HostProbe::Absent, 0), Err(FsError::NotFound));
    assert_eq!(do_open(&HostProbe::Failure, 0), Err(FsError::NotFound));
}

#[test]
fn readdir_gate_accepts_directory_with_sink() {
    assert_eq!(readdir_gate(&directory(), true), Ok(()));
}

#[test]
fn readdir_gate_rejects_non_directory_and_missing_sink() {
    assert_eq!(readdir_gate(&regular(1), true), Err(FsError::InvalidRequest));
    assert_eq!(readdir_gate(&HostProbe::Absent, true), Err(FsError::InvalidRequest));
    assert_eq!(readdir_gate(&directory(), false), Err(FsError::InvalidRequest));
}

#[test]
fn listing_appends_dot_entries_exactly_once() {
    let host = vec![String::from("a.txt"), String::from("sub")];
    let out = build_listing(host);
    assert_eq!(out.len(), 4);
    for name in ["a.txt", "sub", ".", ".."] {
        assert_eq!(out.iter().filter(|e| e.as_str() == name).count(), 1);
    }
}

#[test]
fn listing_of_empty_directory_is_only_dots() {
    let out = build_listing(Vec::new());
    assert_eq!(out, vec![String::from(".."), String::from(".")]);
}

#[test]
fn entry_names_with_embedded_nul_fail() {
    assert_eq!(entry_output_check("a\0b"), Err(FsError::IoFailure));
    assert_eq!(entry_output_check("plain"), Ok(()));
    assert_eq!(entry_output_check(""), Ok(()));
}

#[test]
fn read_clips_at_end_of_file() {
    let content = b"abcdef".to_vec();
    assert_eq!(do_read(&regular(6), &content, 2, 1), Ok(b"bc".to_vec()));
    assert_eq!(do_read(&regular(6), &content, 100, 4), Ok(b"ef".to_vec()));
    assert_eq!(do_read(&regular(6), &content, 100, 6), Ok(Vec::new()));
    assert_eq!(do_read(&regular(6), &content, 100, 60), Ok(Vec::new()));
}

#[test]
fn read_rejects_negative_offset() {
    let content = b"abc".to_vec();
    assert_eq!(do_read(&regular(3), &content, 1, -1), Err(FsError::InvalidRequest));
}

#[test]
fn read_of_directory_or_missing_fails() {
    let content = Vec::new();
    assert_eq!(do_read(&directory(), &content, 1, 0), Err(FsError::IsADirectory));
    assert_eq!(do_read(&HostProbe::Absent, &content, 1, 0), Err(FsError::NotFound));
    assert_eq!(do_read(&HostProbe::Failure, &content, 1, 0), Err(FsError::NotFound));
}
