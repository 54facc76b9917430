use typed_fuse::conv::{
    mode_bits_to_kind, RawTime, Ttl, FUSE_SET_ATTR_ATIME_NOW, FUSE_SET_ATTR_CTIME,
    FUSE_SET_ATTR_MODE, FUSE_SET_ATTR_MTIME, FUSE_SET_ATTR_SIZE,
};
use typed_fuse::darwin::{
    attr_to_darwin_stat, enoattr, entry_to_darwin_entry_param, negative_darwin_entry_param,
    setattr_from_darwin, statfs_to_darwin, DarwinRequestFlags, DarwinStat,
};
use typed_fuse::time::secs_nsecs_to_system_time;
use typed_fuse::{FileKind, NodeAttr, StatFs, TimeOrNow, Timestamp};

const NUMBERS: DarwinRequestFlags = DarwinRequestFlags {
    btime: 1 << 20,
    flags: 1 << 31,
};

#[test]
fn darwin_setattr_decodes_bitmask() {
    let st = DarwinStat {
        st_mode: 0o644,
        st_size: 4096,
        st_mtimespec: RawTime {
            tv_sec: 12345,
            tv_nsec: 6789,
        },
        ..Default::default()
    };
    let to_set = (FUSE_SET_ATTR_MODE
        | FUSE_SET_ATTR_SIZE
        | FUSE_SET_ATTR_ATIME_NOW
        | FUSE_SET_ATTR_MTIME) as i32;
    let attrs = setattr_from_darwin(Some(&st), to_set, NUMBERS);
    assert_eq!(attrs.mode, Some(0o644));
    assert_eq!(attrs.size, Some(4096));
    assert_eq!(attrs.atime, Some(TimeOrNow::Now));
    assert_eq!(
        attrs.mtime,
        Some(TimeOrNow::SpecificTime(secs_nsecs_to_system_time(
            12345, 6789
        )))
    );
    assert_eq!(attrs.uid, None);
    assert_eq!(attrs.gid, None);
    assert_eq!(attrs.ctime, None);
    assert_eq!(attrs.crtime, None);
    assert_eq!(attrs.flags, None);
}

#[test]
fn darwin_setattr_decodes_creation_time_and_flags() {
    let st = DarwinStat {
        st_ctimespec: RawTime {
            tv_sec: -1,
            tv_nsec: 5,
        },
        st_birthtimespec: RawTime {
            tv_sec: 7,
            tv_nsec: 8,
        },
        st_flags: 0x20,
        ..Default::default()
    };
    let to_set = (FUSE_SET_ATTR_CTIME | NUMBERS.btime | NUMBERS.flags) as i32;
    let attrs = setattr_from_darwin(Some(&st), to_set, NUMBERS);
    assert_eq!(attrs.ctime, Some(Timestamp::before_epoch(0, 999_999_995)));
    assert_eq!(attrs.crtime, Some(Timestamp::after_epoch(7, 8)));
    assert_eq!(attrs.flags, Some(0x20));
    assert_eq!(attrs.mode, None);
    let nothing = setattr_from_darwin(None, to_set, NUMBERS);
    assert_eq!((nothing.ctime, nothing.crtime, nothing.flags), (None, None, None));
}

#[test]
fn darwin_stat_holds_creation_time_and_flags() {
    let attr = NodeAttr {
        kind: FileKind::Socket,
        perm: 0o4755,
        size: 9,
        nlink: 0x1_0002,
        rdev: u32::MAX,
        blksize: 512,
        crtime: Timestamp::before_epoch(1, 500_000_000),
        flags: 3,
        ..Default::default()
    };
    let st = attr_to_darwin_stat(11, &attr);
    assert_eq!((st.st_ino, st.st_size, st.st_flags), (11, 9, 3));
    assert_eq!((st.st_nlink, st.st_rdev, st.st_blksize), (2, -1, 512));
    assert_eq!(st.st_mode, 0o144755);
    assert_eq!(mode_bits_to_kind(st.st_mode as u32), Some(FileKind::Socket));
    assert_eq!(
        st.st_birthtimespec,
        RawTime {
            tv_sec: -2,
            tv_nsec: 500_000_000
        }
    );
    assert_eq!(st.st_atimespec, RawTime::default());

    let param = entry_to_darwin_entry_param(11, 4, &attr, Ttl::new(1, 500_000_000));
    assert_eq!((param.ino, param.generation), (11, 4));
    assert_eq!(param.attr, st);
    assert_eq!(param.attr_timeout, Ttl::new(1, 500_000_000));
    assert_eq!(param.entry_timeout, Ttl::new(1, 500_000_000));

    let negative = negative_darwin_entry_param(Ttl::new(2, 0));
    assert_eq!((negative.ino, negative.generation), (0, 0));
    assert_eq!(negative.attr, DarwinStat::default());
    assert_eq!(negative.attr_timeout, Ttl::new(0, 0));
    assert_eq!(negative.entry_timeout, Ttl::new(2, 0));
}

#[test]
fn darwin_statfs_conversion_spot_check() {
    let sfs = StatFs {
        blocks: 1000,
        bfree: 500,
        bavail: 400,
        files: 100,
        ffree: 50,
        bsize: 4096,
        namelen: 255,
        frsize: 8192,
    };
    let raw = statfs_to_darwin(&sfs);
    assert_eq!(raw.f_blocks, 1000);
    assert_eq!(raw.f_bfree, 500);
    assert_eq!(raw.f_bavail, 400);
    assert_eq!(raw.f_files, 100);
    assert_eq!(raw.f_ffree, 50);
    assert_eq!(raw.f_bsize, 4096);
    assert_eq!(raw.f_iosize, 8192);
}

#[test]
fn darwin_error_for_missing_attributes() {
    assert_eq!(enoattr().raw(), 93);
}
