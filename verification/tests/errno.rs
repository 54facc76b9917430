use typed_fuse::Errno;

#[test]
fn errno_from_io_error() {
    let io_err = std::io::Error::from_raw_os_error(libc::ENOENT);
    let errno: Errno = io_err.into();
    assert_eq!(errno, Errno::enoent());

    let other_err = std::io::Error::other("boom");
    let errno: Errno = other_err.into();
    assert_eq!(errno, Errno::eio());
}

#[test]
fn errno_raw_and_from_raw() {
    let e = Errno::from_raw(5);
    assert_eq!(e.raw(), 5);
    assert_eq!(Errno::from(5), e);
}

#[test]
fn errno_from_os_error_number_falls_back_to_eio() {
    assert_eq!(Errno::from_os_error_number(Some(13)), Errno::eacces());
    assert_eq!(Errno::from_os_error_number(None).raw(), libc::EIO);
}

#[test]
fn errno_constants_match_libc() {
    assert_eq!(Errno::eperm().raw(), libc::EPERM);
    assert_eq!(Errno::enoent().raw(), libc::ENOENT);
    assert_eq!(Errno::eio().raw(), libc::EIO);
    assert_eq!(Errno::enxio().raw(), libc::ENXIO);
    assert_eq!(Errno::ebadf().raw(), libc::EBADF);
    assert_eq!(Errno::eacces().raw(), libc::EACCES);
    assert_eq!(Errno::eexist().raw(), libc::EEXIST);
    assert_eq!(Errno::enotdir().raw(), libc::ENOTDIR);
    assert_eq!(Errno::eisdir().raw(), libc::EISDIR);
    assert_eq!(Errno::einval().raw(), libc::EINVAL);
    assert_eq!(Errno::enospc().raw(), libc::ENOSPC);
    assert_eq!(Errno::erofs().raw(), libc::EROFS);
    assert_eq!(Errno::erange().raw(), libc::ERANGE);
    assert_eq!(Errno::enametoolong().raw(), libc::ENAMETOOLONG);
    assert_eq!(Errno::enosys().raw(), libc::ENOSYS);
    assert_eq!(Errno::enotempty().raw(), libc::ENOTEMPTY);
    assert_eq!(Errno::enodata().raw(), libc::ENODATA);
    assert_eq!(Errno::enoattr().raw(), libc::ENODATA);
    assert_eq!(Errno::eoverflow().raw(), libc::EOVERFLOW);
    assert_eq!(Errno::eilseq().raw(), libc::EILSEQ);
    assert_eq!(Errno::eopnotsupp().raw(), libc::EOPNOTSUPP);
}

#[test]
fn errno_message_is_decimal() {
    assert_eq!(Errno::from_raw(2).message(), "errno 2");
    assert_eq!(Errno::from_raw(0).message(), "errno 0");
    assert_eq!(Errno::from_raw(-95).message(), "errno -95");
    assert_eq!(Errno::from_raw(1_234_567_890).message(), "errno 1234567890");
    assert_eq!(Errno::from_raw(i32::MIN).message(), format!("errno {}", i32::MIN));
}
