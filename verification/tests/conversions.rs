use std::time::{Duration, SystemTime, UNIX_EPOCH};

use typed_fuse::conv::{
    attr_to_stat, entry_to_entry_param, kind_to_mode_bits, mode_bits_to_kind, negative_entry_param,
    setattr_from_raw, statfs_to_raw, RawStat, RawTime, Ttl, FUSE_SET_ATTR_ATIME,
    FUSE_SET_ATTR_ATIME_NOW, FUSE_SET_ATTR_CTIME, FUSE_SET_ATTR_GID, FUSE_SET_ATTR_MODE,
    FUSE_SET_ATTR_MTIME, FUSE_SET_ATTR_MTIME_NOW, FUSE_SET_ATTR_SIZE, FUSE_SET_ATTR_UID,
};
use typed_fuse::time::{secs_nsecs_to_system_time, system_time_to_secs_nsecs};
use typed_fuse::{FileKind, NodeAttr, SetAttr, StatFs, TimeOrNow, Timestamp};

fn timestamp(t: SystemTime) -> Timestamp {
    match t.duration_since(UNIX_EPOCH) {
        Ok(d) => Timestamp::after_epoch(d.as_secs(), d.subsec_nanos()),
        Err(e) => Timestamp::before_epoch(e.duration().as_secs(), e.duration().subsec_nanos()),
    }
}

fn seconds(ttl: Ttl) -> f64 {
    Duration::new(ttl.secs, ttl.nanos).as_secs_f64()
}

#[test]
fn kind_mode_round_trip() {
    for kind in [
        FileKind::RegularFile,
        FileKind::Directory,
        FileKind::Symlink,
        FileKind::CharDevice,
        FileKind::BlockDevice,
        FileKind::NamedPipe,
        FileKind::Socket,
    ] {
        let bits = kind_to_mode_bits(kind);
        assert_eq!(mode_bits_to_kind(bits), Some(kind));
        assert_eq!(mode_bits_to_kind(bits | 0o644), Some(kind));
    }
}

#[test]
fn mode_bits_to_kind_unknown() {
    assert_eq!(mode_bits_to_kind(0), None);
}

#[test]
fn kinds_have_the_bits_that_libc_declares() {
    assert_eq!(kind_to_mode_bits(FileKind::RegularFile), libc::S_IFREG);
    assert_eq!(kind_to_mode_bits(FileKind::Directory), libc::S_IFDIR);
    assert_eq!(kind_to_mode_bits(FileKind::Symlink), libc::S_IFLNK);
    assert_eq!(kind_to_mode_bits(FileKind::CharDevice), libc::S_IFCHR);
    assert_eq!(kind_to_mode_bits(FileKind::BlockDevice), libc::S_IFBLK);
    assert_eq!(kind_to_mode_bits(FileKind::NamedPipe), libc::S_IFIFO);
    assert_eq!(kind_to_mode_bits(FileKind::Socket), libc::S_IFSOCK);
}

#[test]
fn attr_to_stat_basic_fields() {
    let attr = NodeAttr {
        size: 1234,
        kind: FileKind::RegularFile,
        perm: 0o644,
        nlink: 3,
        ..Default::default()
    };
    let st = attr_to_stat(42, &attr);
    assert_eq!(st.st_ino as u64, 42);
    assert_eq!(st.st_size as u64, 1234);
    assert_eq!(st.st_nlink as u64, 3);
    assert_eq!(
        mode_bits_to_kind(st.st_mode as u32),
        Some(FileKind::RegularFile)
    );
    assert_eq!((st.st_mode as u32) & 0o777, 0o644);
}

#[test]
fn attr_to_stat_carries_every_field() {
    let attr = NodeAttr {
        size: u64::MAX,
        blocks: 9,
        atime: timestamp(UNIX_EPOCH + Duration::new(10, 1)),
        mtime: timestamp(UNIX_EPOCH - Duration::new(10, 1)),
        ctime: timestamp(UNIX_EPOCH),
        crtime: timestamp(UNIX_EPOCH),
        kind: FileKind::BlockDevice,
        perm: 0o17777,
        nlink: 2,
        uid: 5,
        gid: 6,
        rdev: 7,
        blksize: 8,
        flags: 99,
    };
    let st = attr_to_stat(3, &attr);
    assert_eq!(st.st_mode, libc::S_IFBLK | 0o7777);
    assert_eq!((st.st_uid, st.st_gid, st.st_rdev), (5, 6, 7));
    assert_eq!((st.st_size, st.st_blocks, st.st_blksize), (-1, 9, 8));
    assert_eq!(st.st_atim, RawTime { tv_sec: 10, tv_nsec: 1 });
    assert_eq!(st.st_mtim, RawTime { tv_sec: -11, tv_nsec: 999_999_999 });
    assert_eq!(st.st_ctim, RawTime { tv_sec: 0, tv_nsec: 0 });
}

#[test]
fn secs_nsecs_round_trip_pre_and_post_epoch() {
    for t in [
        UNIX_EPOCH,
        UNIX_EPOCH + Duration::new(100, 250),
        UNIX_EPOCH - Duration::new(1, 0),
        UNIX_EPOCH - Duration::new(1, 500_000_000),
        UNIX_EPOCH - Duration::new(100, 999_999_999),
    ] {
        let t = timestamp(t);
        let (secs, nsecs) = system_time_to_secs_nsecs(t);
        let back = secs_nsecs_to_system_time(secs, nsecs);
        assert_eq!(back, t, "round trip failed for {:?}", t);
    }
}

#[test]
fn secs_nsecs_round_trip_at_the_ends_of_the_range() {
    let first = Timestamp::before_epoch(i64::MAX as u64 + 1, 0);
    assert_eq!(system_time_to_secs_nsecs(first), (i64::MIN, 0));
    assert_eq!(secs_nsecs_to_system_time(i64::MIN, 0), first);
    let last = Timestamp::after_epoch(i64::MAX as u64, 999_999_999);
    assert_eq!(system_time_to_secs_nsecs(last), (i64::MAX, 999_999_999));
    assert_eq!(secs_nsecs_to_system_time(i64::MAX, 999_999_999), last);
}

#[test]
fn distances_out_of_range_give_the_first_or_the_last_time() {
    assert_eq!(Timestamp::at_distance(false, 2, 5).as_nanos(), 2_000_000_005);
    assert_eq!(Timestamp::at_distance(true, 2, 5).as_nanos(), -2_000_000_005);
    assert_eq!(Timestamp::at_distance(true, 0, 0), Timestamp::epoch());
    assert_eq!(
        Timestamp::at_distance(false, u64::MAX, 0),
        Timestamp::after_epoch(i64::MAX as u64, 999_999_999)
    );
    let first = Timestamp::before_epoch(i64::MAX as u64 + 1, 0);
    assert_eq!(Timestamp::at_distance(true, i64::MAX as u64 + 1, 1), first);
    assert_eq!(Timestamp::at_distance(true, u64::MAX, 0), first);
}

#[test]
fn secs_nsecs_splits_round_down() {
    let t = Timestamp::before_epoch(1, 500_000_000);
    assert_eq!(system_time_to_secs_nsecs(t), (-2, 500_000_000));
    assert_eq!(t.as_nanos(), -1_500_000_000);
    assert_eq!(
        secs_nsecs_to_system_time(1, 2_500_000_000),
        Timestamp::after_epoch(3, 500_000_000)
    );
}

#[test]
fn entry_to_entry_param_timeouts() {
    let attr = NodeAttr::default();
    let ttl = Duration::from_millis(1500);
    let param = entry_to_entry_param(7, 1, &attr, Ttl::new(ttl.as_secs(), ttl.subsec_nanos()));
    assert_eq!(param.ino, 7);
    assert_eq!(param.generation, 1);
    assert!((seconds(param.attr_timeout) - 1.5).abs() < 1e-9);
    assert!((seconds(param.entry_timeout) - 1.5).abs() < 1e-9);
}

#[test]
fn negative_entry_has_no_node_and_no_attributes() {
    let param = negative_entry_param(Ttl::new(2, 5));
    assert_eq!((param.ino, param.generation), (0, 0));
    assert_eq!(param.attr, RawStat::default());
    assert_eq!(param.attr_timeout, Ttl::new(0, 0));
    assert_eq!(param.entry_timeout, Ttl::new(2, 5));
}

#[test]
fn set_attr_from_raw_decodes_bitmask() {
    let st = RawStat {
        st_mode: 0o644,
        st_size: 4096,
        st_mtim: RawTime {
            tv_sec: 12345,
            tv_nsec: 6789,
        },
        ..Default::default()
    };

    let to_set = (FUSE_SET_ATTR_MODE
        | FUSE_SET_ATTR_SIZE
        | FUSE_SET_ATTR_ATIME_NOW
        | FUSE_SET_ATTR_MTIME) as i32;

    let attrs = setattr_from_raw(Some(&st), to_set);
    assert_eq!(attrs.mode, Some(0o644));
    assert_eq!(attrs.size, Some(4096));
    assert_eq!(attrs.atime, Some(TimeOrNow::Now));
    assert_eq!(
        attrs.mtime,
        Some(TimeOrNow::SpecificTime(secs_nsecs_to_system_time(
            12345, 6789
        )))
    );
    assert_eq!(attrs.uid, None);
    assert_eq!(attrs.gid, None);
    assert_eq!(attrs.ctime, None);
}

#[test]
fn set_attr_without_a_record_requests_nothing() {
    let attrs = setattr_from_raw(None, -1);
    assert_eq!(format!("{:?}", attrs), format!("{:?}", SetAttr::default()));
}

#[test]
fn set_attr_prefers_now_and_takes_every_field() {
    let st = RawStat {
        st_uid: 1,
        st_gid: 2,
        st_size: -1,
        st_atim: RawTime { tv_sec: 4, tv_nsec: 5 },
        st_ctim: RawTime { tv_sec: -6, tv_nsec: 7 },
        ..Default::default()
    };
    let flags = FUSE_SET_ATTR_UID
        | FUSE_SET_ATTR_GID
        | FUSE_SET_ATTR_SIZE
        | FUSE_SET_ATTR_ATIME
        | FUSE_SET_ATTR_MTIME
        | FUSE_SET_ATTR_MTIME_NOW
        | FUSE_SET_ATTR_CTIME;
    let attrs = setattr_from_raw(Some(&st), flags as i32);
    assert_eq!((attrs.uid, attrs.gid), (Some(1), Some(2)));
    assert_eq!(attrs.size, Some(u64::MAX));
    assert_eq!(attrs.mode, None);
    assert_eq!(
        attrs.atime,
        Some(TimeOrNow::SpecificTime(Timestamp::after_epoch(4, 5)))
    );
    assert_eq!(attrs.mtime, Some(TimeOrNow::Now));
    assert_eq!(attrs.ctime, Some(Timestamp::before_epoch(5, 999_999_993)));
    assert_eq!(attrs.crtime, None);
    assert_eq!(attrs.flags, None);
}

#[test]
fn statfs_conversion_spot_check() {
    let sfs = StatFs {
        blocks: 1000,
        bfree: 500,
        bavail: 400,
        files: 100,
        ffree: 50,
        bsize: 4096,
        namelen: 255,
        frsize: 4096,
    };
    let raw = statfs_to_raw(&sfs);
    assert_eq!(raw.f_blocks, 1000);
    assert_eq!(raw.f_bfree, 500);
    assert_eq!(raw.f_bavail, 400);
    assert_eq!(raw.f_files, 100);
    assert_eq!(raw.f_ffree, 50);
    assert_eq!(raw.f_bsize, 4096);
    assert_eq!(raw.f_frsize, 4096);
    assert_eq!(raw.f_namemax, 255);
    assert_eq!(raw.f_flag, 0);
}

#[test]
fn defaults_are_empty_and_at_the_epoch() {
    let attr = NodeAttr::default();
    assert_eq!(attr.kind, FileKind::RegularFile);
    assert_eq!(attr.mtime, Timestamp::epoch());
    assert_eq!((attr.size, attr.nlink, attr.perm), (0, 0, 0));
    let stat = StatFs::minimal();
    assert_eq!((stat.bsize, stat.namelen, stat.blocks), (512, 255, 0));
}
