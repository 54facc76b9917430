use typed_fuse::conv::{RawStat, Ttl};
use typed_fuse::ffi::{
    apply_open, conn_apply, conn_read, fi_fh, fi_fh_opt, fi_flags, EntryReply, FileInfo,
    RawConnInfo, RawDirentBuf,
};
use typed_fuse::{
    ConnInfo, ConnectionCapability, Errno, FileKind, NodeAttr, NodeId, OpenHints, Opened,
    XattrReply,
};

#[test]
fn optional_file_info_distinguishes_null_from_handle_zero() {
    assert_eq!(fi_fh_opt(None), None);
    let fi = FileInfo {
        fh: 0,
        ..Default::default()
    };
    assert_eq!(fi_fh_opt(Some(&fi)), Some(0));
}

#[test]
fn absent_file_info_reads_as_zero() {
    assert_eq!(fi_fh(None), 0);
    assert_eq!(fi_flags(None), 0);
    let fi = FileInfo {
        fh: 9,
        flags: 2,
        ..Default::default()
    };
    assert_eq!(fi_fh(Some(&fi)), 9);
    assert_eq!(fi_flags(Some(&fi)), 2);
}

#[test]
fn parallel_direct_writes_requires_direct_io() {
    let mut fi = FileInfo::default();
    apply_open(
        Some(&mut fi),
        7,
        OpenHints {
            parallel_direct_writes: true,
            ..Default::default()
        },
    );
    assert_eq!(fi.parallel_direct_writes, false);
    apply_open(
        Some(&mut fi),
        8,
        OpenHints {
            direct_io: true,
            parallel_direct_writes: true,
            ..Default::default()
        },
    );
    assert_eq!(fi.fh, 8);
    assert_eq!(fi.parallel_direct_writes, true);
}

#[test]
fn open_hints_are_written_into_the_record() {
    let mut fi = FileInfo {
        flags: 5,
        ..Default::default()
    };
    let opened = Opened::new(())
        .keep_cache(true)
        .nonseekable(true)
        .cache_readdir(true)
        .direct_io(true)
        .parallel_direct_writes(true);
    apply_open(Some(&mut fi), 1, opened.hints);
    assert_eq!(
        fi,
        FileInfo {
            fh: 1,
            flags: 5,
            direct_io: true,
            keep_cache: true,
            nonseekable: true,
            cache_readdir: true,
            parallel_direct_writes: true,
        }
    );
    apply_open(None, 2, OpenHints::default());
    apply_open(Some(&mut fi), 3, OpenHints::default());
    assert_eq!(fi, FileInfo { fh: 3, flags: 5, ..Default::default() });
}

#[test]
fn capability_update_preserves_unrelated_want_bits() {
    let mut raw = RawConnInfo {
        capable: (1 << 0) | (1 << 18) | (1 << 10),
        want: (1 << 0) | (1 << 10),
        ..Default::default()
    };
    let mut info = conn_read(&raw);
    assert!(info.set_enabled(ConnectionCapability::ParallelDirectoryOperations, true));
    assert!(info.set_enabled(ConnectionCapability::AsyncRead, false));
    conn_apply(&mut raw, &info);
    assert_eq!(raw.want & (1 << 10), 1 << 10);
    assert_eq!(raw.want & (1 << 18), 1 << 18);
    assert_eq!(raw.want & 1, 0);
}

#[test]
fn unsupported_capability_is_refused() {
    let mut info = ConnInfo::from_raw(7, 31, 4096, 8192, 1, 0);
    assert!(info.capable(ConnectionCapability::AsyncRead));
    assert!(!info.capable(ConnectionCapability::AsyncDirectIo));
    assert!(!info.set_enabled(ConnectionCapability::AsyncDirectIo, true));
    assert_eq!(info.want_bits(), 0);
    assert!(info.set_enabled(ConnectionCapability::AsyncDirectIo, false));
    assert!(info.set_enabled(ConnectionCapability::AsyncRead, true));
    assert!(info.enabled(ConnectionCapability::AsyncRead));
    assert_eq!(info.want_bits(), 1);
    assert_eq!((info.proto_major, info.proto_minor), (7, 31));
}

#[test]
fn tuned_connection_is_written_back() {
    let mut raw = RawConnInfo {
        proto_major: 7,
        max_write: 100,
        max_readahead: 200,
        ..Default::default()
    };
    let mut info = conn_read(&raw);
    info.max_write = 5;
    info.proto_major = 1;
    conn_apply(&mut raw, &info);
    assert_eq!((raw.proto_major, raw.max_write, raw.max_readahead), (7, 5, 200));
}

#[test]
fn listing_buffer_takes_whole_entries_only() {
    let mut buf = RawDirentBuf::new(10);
    assert!(buf.add(b"a", b"123456"));
    assert!(!buf.add(b"b", b"12345"));
    assert_eq!(buf.as_slice(), b"123456");
    assert!(buf.add(b"with\0nul", b"123456789"));
    assert_eq!(buf.as_slice(), b"123456");
    assert!(buf.add(b"c", b"7890"));
    assert_eq!(buf.as_slice(), b"1234567890");
    assert!(!buf.add(b"d", b"1"));
    // A name with a NUL is skipped by a buffer for entries with attributes as well.
    let mut plus = RawDirentBuf::new_plus(10, Ttl::new(1, 0));
    assert!(plus.add(b"with\0nul", b"1"));
    assert!(plus.as_slice().is_empty());
}

#[test]
fn listing_entries_carry_inode_and_type() {
    let buf = RawDirentBuf::new(100);
    let (name, st) = buf
        .plain_entry(b"dir", NodeId::root(), FileKind::Directory)
        .unwrap();
    assert_eq!(name, b"dir\0".to_vec());
    assert_eq!(
        st,
        RawStat {
            st_ino: 1,
            st_mode: libc::S_IFDIR,
            ..Default::default()
        }
    );
    assert!(buf.plain_entry(b"a\0b", NodeId::root(), FileKind::Directory).is_none());
}

#[test]
fn plus_listing_entries_carry_attributes_and_ttl() {
    let mut buf = RawDirentBuf::new_plus(4, Ttl::new(1, 0));
    let reply = EntryReply {
        ino: 12,
        generation: 3,
        attr: NodeAttr { size: 5, ..Default::default() },
    };
    let (name, param) = buf.plus_entry(b"f", &reply).unwrap();
    assert_eq!(name, b"f\0".to_vec());
    assert_eq!((param.ino, param.generation), (12, 3));
    assert_eq!((param.attr.st_ino, param.attr.st_size), (12, 5));
    assert_eq!(param.entry_timeout, Ttl::new(1, 0));
    assert!(buf.plus_entry(b"\0", &reply).is_none());
    assert!(buf.add_plus(b"f", b"1234"));
    assert!(!buf.add_plus(b"g", b"5"));
    assert_eq!(buf.as_slice(), b"1234");
}

#[test]
fn xattr_size_protocol() {
    assert_eq!(XattrReply::sized(b"abc".to_vec(), 0), Ok(XattrReply::Size(3)));
    assert_eq!(XattrReply::sized(b"abc".to_vec(), 2), Err(Errno::erange()));
    assert_eq!(
        XattrReply::sized(b"abc".to_vec(), 3),
        Ok(XattrReply::Data(b"abc".to_vec()))
    );
    assert_eq!(XattrReply::from(b"x".to_vec()), XattrReply::Data(b"x".to_vec()));
}
