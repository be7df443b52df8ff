//! End-to-end scenarios over the handler core, with the host filesystem
//! outcomes written down as the plain values the shell would hand over.

use fusionfs::access::do_open;
use fusionfs::attrs::{do_getattr, HostMeta, HostProbe, NodeKind};
use fusionfs::errors::FsError;
use fusionfs::listing::build_listing;
use fusionfs::mount::MountContext;
use fusionfs::reader::do_read;

#[test]
fn source_with_one_file_and_one_subdirectory() {
    // Source directory: file `a.txt` holding "xyz" (3 bytes), empty `sub/`.
    let ctx = MountContext::new(String::from("/srcroot"));
    let a_txt = HostProbe::Meta(HostMeta {
        kind: NodeKind::Regular,
        mode: 0o100644,
        nlink: 1,
        size: 3,
    });
    let sub = HostProbe::Meta(HostMeta {
        kind: NodeKind::Directory,
        mode: 0o040755,
        nlink: 2,
        size: 0,
    });
    let a_txt_bytes = b"xyz".to_vec();

    // Enumerating "/" yields {".", "..", "a.txt", "sub"}.
    assert_eq!(ctx.resolve("/"), Ok(String::from("/srcroot/")));
    let mut names = build_listing(vec![String::from("a.txt"), String::from("sub")]);
    names.sort();
    assert_eq!(
        names,
        vec![String::from("."), String::from(".."), String::from("a.txt"), String::from("sub")]
    );

    // Attribute lookup on "/a.txt" reports regular, size 3; "/sub" a directory.
    assert_eq!(ctx.resolve("/a.txt"), Ok(String::from("/srcroot/a.txt")));
    let attr = do_getattr(&a_txt).unwrap();
    assert_eq!(attr.kind, NodeKind::Regular);
    assert_eq!(attr.size, 3);
    let attr = do_getattr(&sub).unwrap();
    assert_eq!(attr.kind, NodeKind::Directory);

    // read("/a.txt", 10, 0) returns "xyz"; read("/a.txt", 10, 5) returns 0 bytes.
    assert_eq!(do_read(&a_txt, &a_txt_bytes, 10, 0), Ok(b"xyz".to_vec()));
    assert_eq!(do_read(&a_txt, &a_txt_bytes, 10, 5), Ok(Vec::new()));

    // Opening "/a.txt" with write intent fails with AccessDenied.
    assert_eq!(do_open(&a_txt, 1), Err(FsError::AccessDenied));
}

#[test]
fn five_byte_file_reads_back_exactly() {
    // File `hello.txt` holding "asdf\n"; read("/hello.txt", 5, 0) returns
    // exactly the five bytes 0x61 0x73 0x64 0x66 0x0a.
    let ctx = MountContext::new(String::from("/srcroot"));
    assert_eq!(ctx.resolve("/hello.txt"), Ok(String::from("/srcroot/hello.txt")));
    let hello = HostProbe::Meta(HostMeta {
        kind: NodeKind::Regular,
        mode: 0o100644,
        nlink: 1,
        size: 5,
    });
    let content = b"asdf\n".to_vec();
    let got = do_read(&hello, &content, 5, 0).unwrap();
    assert_eq!(got, vec![0x61u8, 0x73, 0x64, 0x66, 0x0a]);
}
