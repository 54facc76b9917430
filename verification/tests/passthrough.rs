use std::time::{SystemTime, UNIX_EPOCH};

use typed_fuse::conv::{RawStatvfs, RawTime};
use typed_fuse::passthrough::{
    access_check, c_name, c_path, chown_id, count_reply, file_attr_from_metadata,
    file_type_from_metadata, is_apple_xattr, needs_chown, node_call, ownership_reply, split_names,
    statfs_reply, status_reply, synthetic_file_attr, to_timespec, utimens_permission_check,
    utimens_permission_check_at, xattr_buffer, xattr_names, xattr_value, FileType, Metadata,
    NodeCall,
};
use typed_fuse::time::{fits_metadata_time, system_time_from_secs};
use typed_fuse::{Caller, Errno, FileKind, Timestamp};

fn timestamp(t: SystemTime) -> Timestamp {
    let d = t.duration_since(UNIX_EPOCH).unwrap();
    Timestamp::after_epoch(d.as_secs(), d.subsec_nanos())
}

fn metadata() -> Metadata {
    Metadata {
        file_type: FileType::default(),
        mode: 0o100755,
        nlink: 1,
        uid: 10,
        gid: 20,
        rdev: 0,
        blksize: 4096,
        blocks: 8,
        atime: 1,
        atime_nsec: 2,
        mtime: -1,
        mtime_nsec: 500_000_000,
        ctime: 0,
        ctime_nsec: 0,
        created: None,
    }
}

#[test]
fn system_time_preserves_fractional_pre_epoch_timestamp() {
    let timestamp = system_time_from_secs(-1, 500_000_000);

    assert!(timestamp.is_before_epoch());
    assert_eq!(timestamp.distance_from_epoch(), (0, 500_000_000));
}

#[test]
fn system_time_converts_whole_second_pre_epoch_timestamp() {
    let timestamp = system_time_from_secs(-1, 0);

    assert!(timestamp.is_before_epoch());
    assert_eq!(timestamp.distance_from_epoch(), (1, 0));
}

#[test]
fn system_time_after_the_epoch() {
    assert_eq!(system_time_from_secs(3, 4), Timestamp::after_epoch(3, 4));
    assert_eq!(system_time_from_secs(0, 0), Timestamp::epoch());
}

#[test]
fn utimens_allows_owner_and_root() {
    let t = Timestamp::epoch();
    let owner = Caller {
        uid: 1000,
        ..Default::default()
    };
    // Owner may set explicit times.
    assert!(utimens_permission_check(&owner, 1000, 1000, 0o644, Some(t), Some(t)).is_ok());
    let root = Caller::default();
    assert!(utimens_permission_check(&root, 1000, 1000, 0o644, Some(t), Some(t)).is_ok());
}

#[test]
fn utimens_rejects_explicit_time_from_non_owner() {
    let t = Timestamp::epoch();
    let other = Caller {
        uid: 2000,
        gid: 2000,
        ..Default::default()
    };
    assert_eq!(
        utimens_permission_check(&other, 1000, 1000, 0o666, Some(t), Some(t)),
        Err(Errno::eperm())
    );
}

#[test]
fn utimens_allows_now_from_writer() {
    let now = timestamp(SystemTime::now());
    let other = Caller {
        uid: 2000,
        gid: 2000,
        ..Default::default()
    };
    // World-writable file: setting times to "now" is allowed.
    assert!(utimens_permission_check(&other, 1000, 1000, 0o666, Some(now), Some(now)).is_ok());
    // Not writable: rejected with EACCES.
    assert_eq!(
        utimens_permission_check(&other, 1000, 1000, 0o444, Some(now), Some(now)),
        Err(Errno::eacces())
    );
    // Leaving both untouched is always fine.
    assert!(utimens_permission_check(&other, 1000, 1000, 0o444, None, None).is_ok());
}

#[test]
fn utimens_window_is_ten_milliseconds_either_way() {
    let other = Caller {
        uid: 2000,
        gid: 2000,
        ..Default::default()
    };
    let now = Timestamp::after_epoch(100, 0);
    let check = |at: Timestamp| {
        utimens_permission_check_at(&other, 1000, 1000, 0o002, Some(at), None, now)
    };
    assert_eq!(check(Timestamp::after_epoch(99, 990_000_001)), Ok(()));
    assert_eq!(check(Timestamp::after_epoch(99, 990_000_000)), Err(Errno::eperm()));
    assert_eq!(check(Timestamp::after_epoch(100, 9_999_999)), Ok(()));
    assert_eq!(check(Timestamp::after_epoch(100, 10_000_000)), Err(Errno::eperm()));
}

#[test]
fn utimens_counts_the_group_bit_for_the_group_only() {
    let now = Timestamp::after_epoch(100, 0);
    let member = Caller {
        uid: 2000,
        gid: 1000,
        ..Default::default()
    };
    let stranger = Caller {
        uid: 2000,
        gid: 2000,
        ..Default::default()
    };
    let check = |caller: &Caller| {
        utimens_permission_check_at(caller, 1000, 1000, 0o620, Some(now), Some(now), now)
    };
    assert_eq!(check(&member), Ok(()));
    assert_eq!(check(&stranger), Err(Errno::eacces()));
}

#[test]
fn synthetic_attr_counts_blocks() {
    let attr = synthetic_file_attr(1, Timestamp::epoch(), 0o644, 0, 0);
    assert_eq!(attr.kind, FileKind::RegularFile);
    assert_eq!(attr.blocks, 1);
    assert_eq!(attr.perm, 0o644);
}

#[test]
fn synthetic_attr_rounds_blocks_up() {
    let blocks = |size| synthetic_file_attr(size, Timestamp::epoch(), 0, 0, 0).blocks;
    assert_eq!(blocks(0), 0);
    assert_eq!(blocks(512), 1);
    assert_eq!(blocks(513), 2);
    assert_eq!(blocks(u64::MAX), 1 << 55);
    let attr = synthetic_file_attr(0, Timestamp::after_epoch(5, 6), 0o600, 7, 8);
    assert_eq!((attr.nlink, attr.blksize), (1, 4096));
    assert_eq!((attr.uid, attr.gid), (7, 8));
    assert_eq!(attr.crtime, Timestamp::after_epoch(5, 6));
}

#[test]
fn access_check_root_always_allowed() {
    let root = Caller::default();
    assert!(access_check(&root, 1000, 1000, 0o000, libc::R_OK as u32).is_ok());
}

#[test]
fn access_check_f_ok_only_checks_existence() {
    let other = Caller {
        uid: 2000,
        gid: 2000,
        ..Default::default()
    };
    assert!(access_check(&other, 1000, 1000, 0o000, 0).is_ok());
}

#[test]
fn access_check_selects_owner_group_other_triplet() {
    let owner = Caller {
        uid: 1000,
        gid: 1000,
        ..Default::default()
    };
    let group = Caller {
        uid: 3000,
        gid: 2000,
        ..Default::default()
    };
    let other = Caller {
        uid: 4000,
        gid: 4000,
        ..Default::default()
    };
    let mode = 0o640; // owner rw, group r, other none
    assert!(access_check(&owner, 1000, 2000, mode, libc::W_OK as u32).is_ok());
    assert!(access_check(&group, 1000, 2000, mode, libc::R_OK as u32).is_ok());
    assert_eq!(
        access_check(&group, 1000, 2000, mode, libc::W_OK as u32),
        Err(Errno::eacces())
    );
    assert_eq!(
        access_check(&other, 1000, 2000, mode, libc::R_OK as u32),
        Err(Errno::eacces())
    );
}

#[test]
fn access_to_several_things_is_access_to_each() {
    let other = Caller {
        uid: 4000,
        gid: 4000,
        ..Default::default()
    };
    assert!(access_check(&other, 1, 1, 0o005, 5).is_ok());
    assert!(access_check(&other, 1, 1, 0o005, 4).is_ok());
    assert!(access_check(&other, 1, 1, 0o005, 1).is_ok());
    assert_eq!(access_check(&other, 1, 1, 0o005, 6), Err(Errno::eacces()));
}

#[test]
fn metadata_becomes_attributes() {
    let attr = file_attr_from_metadata(&metadata(), 77);
    assert_eq!((attr.size, attr.blocks, attr.blksize), (77, 8, 4096));
    assert_eq!(attr.perm, 0o755);
    assert_eq!(attr.kind, FileKind::RegularFile);
    assert_eq!(attr.atime, Timestamp::after_epoch(1, 2));
    assert_eq!(attr.mtime, Timestamp::before_epoch(0, 500_000_000));
    assert_eq!(attr.crtime, Timestamp::epoch());
    let dated = Metadata {
        created: Some(Timestamp::after_epoch(9, 9)),
        ..metadata()
    };
    assert_eq!(file_attr_from_metadata(&dated, 0).crtime, Timestamp::after_epoch(9, 9));
}

#[test]
fn metadata_times_out_of_range_are_told() {
    assert!(metadata().has_times_in_range());
    let late = Metadata {
        ctime: i64::MAX,
        ctime_nsec: 1_000_000_000,
        ..metadata()
    };
    assert!(!late.has_times_in_range());
    assert!(fits_metadata_time(i64::MAX, 999_999_999));
    assert!(fits_metadata_time(0, 2_500_000_000));
    assert_eq!(
        system_time_from_secs(0, 2_500_000_000),
        Timestamp::after_epoch(2, 500_000_000)
    );
    assert!(fits_metadata_time(-1, 1_000_000_000));
    assert!(!fits_metadata_time(-1, 1_000_000_001));
}

#[test]
fn metadata_types_become_kinds() {
    let kind = |file_type| file_type_from_metadata(&Metadata { file_type, ..metadata() });
    let none = FileType::default();
    assert_eq!(kind(none), FileKind::RegularFile);
    assert_eq!(kind(FileType { is_dir: true, ..none }), FileKind::Directory);
    assert_eq!(kind(FileType { is_symlink: true, ..none }), FileKind::Symlink);
    assert_eq!(kind(FileType { is_block_device: true, ..none }), FileKind::BlockDevice);
    assert_eq!(kind(FileType { is_char_device: true, ..none }), FileKind::CharDevice);
    assert_eq!(kind(FileType { is_fifo: true, ..none }), FileKind::NamedPipe);
    assert_eq!(kind(FileType { is_socket: true, ..none }), FileKind::Socket);
}

#[test]
fn statvfs_results_become_statistics() {
    let raw = RawStatvfs {
        f_bsize: 4096,
        f_frsize: 512,
        f_blocks: 1000,
        f_bfree: 500,
        f_bavail: 400,
        f_files: 100,
        f_ffree: 50,
        f_namemax: 255,
        ..Default::default()
    };
    let stat = statfs_reply(0, Errno::eio(), &raw).unwrap();
    assert_eq!((stat.bsize, stat.frsize, stat.namelen), (4096, 512, 255));
    assert_eq!((stat.blocks, stat.bfree, stat.bavail), (1000, 500, 400));
    assert_eq!(statfs_reply(-1, Errno::enoent(), &raw), Err(Errno::enoent()));
    assert_eq!(typed_fuse::conv::statfs_to_raw(&stat), raw);
}

#[test]
fn call_results_become_replies() {
    assert_eq!(status_reply(0, Errno::eio()), Ok(()));
    assert_eq!(status_reply(-1, Errno::erofs()), Err(Errno::erofs()));
    assert_eq!(count_reply(12, Errno::eio()), Ok(12));
    assert_eq!(count_reply(0, Errno::eio()), Ok(0));
    assert_eq!(count_reply(-1, Errno::enodata()), Err(Errno::enodata()));
}

#[test]
fn xattr_values_are_probed_read_and_cut() {
    let buffer = xattr_buffer(Ok(4)).unwrap();
    assert_eq!(buffer, vec![0u8; 4]);
    assert_eq!(xattr_buffer(Err(Errno::enodata())), Err(Errno::enodata()));
    assert_eq!(xattr_value(b"abcd".to_vec(), Ok(2)), Ok(b"ab".to_vec()));
    assert_eq!(xattr_value(b"abcd".to_vec(), Ok(9)), Ok(b"abcd".to_vec()));
    assert_eq!(xattr_value(buffer, Err(Errno::erange())), Err(Errno::erange()));
}

#[test]
fn xattr_names_are_split_at_nul() {
    let names = split_names(b"user.a\0user.bc\0");
    assert_eq!(names, vec![b"user.a".to_vec(), b"user.bc".to_vec()]);
    assert_eq!(split_names(b""), Vec::<Vec<u8>>::new());
    assert_eq!(split_names(b"\0\0x\0\0y"), vec![b"x".to_vec(), b"y".to_vec()]);
    assert_eq!(
        xattr_names(b"one\0two\0".to_vec(), Ok(4)),
        Ok(vec![b"one".to_vec()])
    );
    assert_eq!(xattr_names(Vec::new(), Err(Errno::eperm())), Err(Errno::eperm()));
}

#[test]
fn c_strings_end_in_nul_and_hold_no_other() {
    assert_eq!(c_path(b"/a/b"), Ok(b"/a/b\0".to_vec()));
    assert_eq!(c_name(b""), Ok(b"\0".to_vec()));
    assert_eq!(c_path(b"/a\0b"), Err(Errno::einval()));
    assert_eq!(c_name(b"\0"), Err(Errno::einval()));
}

#[test]
fn apple_xattrs_are_recognized_by_prefix() {
    assert!(is_apple_xattr("com.apple.quarantine"));
    assert!(is_apple_xattr("com.apple."));
    assert!(!is_apple_xattr("com.apple"));
    assert!(!is_apple_xattr("com.äpple.x"));
    assert!(!is_apple_xattr("user.com.apple.x"));
}

#[test]
fn new_files_are_given_to_the_caller_if_need_be() {
    let caller = Caller {
        uid: 5,
        gid: 6,
        ..Default::default()
    };
    assert!(!needs_chown(&caller, 5, 6));
    assert!(needs_chown(&caller, 5, 7));
    assert!(needs_chown(&caller, 4, 6));
    assert_eq!(ownership_reply(0, Errno::eio()), Ok(()));
    assert_eq!(ownership_reply(-1, Errno::eperm()), Ok(()));
    assert_eq!(ownership_reply(-1, Errno::erofs()), Err(Errno::erofs()));
    assert_eq!(chown_id(None), u32::MAX);
    assert_eq!(chown_id(Some(3)), 3);
}

#[test]
fn timespecs_omit_untouched_times() {
    assert_eq!(
        to_timespec(None),
        RawTime { tv_sec: 0, tv_nsec: libc::UTIME_OMIT }
    );
    assert_eq!(
        to_timespec(Some(Timestamp::after_epoch(7, 8))),
        RawTime { tv_sec: 7, tv_nsec: 8 }
    );
    assert_eq!(
        to_timespec(Some(Timestamp::before_epoch(7, 8))),
        RawTime { tv_sec: 0, tv_nsec: 0 }
    );
}

#[test]
fn special_nodes_are_dispatched_on_their_type() {
    assert_eq!(node_call(libc::S_IFIFO | 0o644), Ok(NodeCall::Fifo));
    assert_eq!(node_call(libc::S_IFCHR), Ok(NodeCall::Special));
    assert_eq!(node_call(libc::S_IFBLK), Ok(NodeCall::Special));
    assert_eq!(node_call(libc::S_IFSOCK | 0o777), Ok(NodeCall::Special));
    assert_eq!(node_call(libc::S_IFREG), Err(Errno::einval()));
    assert_eq!(node_call(libc::S_IFDIR), Err(Errno::einval()));
    assert_eq!(node_call(0o644), Err(Errno::einval()));
}
