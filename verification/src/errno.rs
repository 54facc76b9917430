//! POSIX error numbers returned by fallible filesystem operations.

use vstd::prelude::*;

use crate::text::append_decimal;

verus! {

/// Operation not permitted.
pub const EPERM: i32 = 1;

/// No such file or directory.
pub const ENOENT: i32 = 2;

/// Input/output error.
pub const EIO: i32 = 5;

/// No such device or address.
pub const ENXIO: i32 = 6;

/// Bad file descriptor.
pub const EBADF: i32 = 9;

/// Permission denied.
pub const EACCES: i32 = 13;

/// File exists.
pub const EEXIST: i32 = 17;

/// Not a directory.
pub const ENOTDIR: i32 = 20;

/// Is a directory.
pub const EISDIR: i32 = 21;

/// Invalid argument.
pub const EINVAL: i32 = 22;

/// No space left on device.
pub const ENOSPC: i32 = 28;

/// Read-only file system.
pub const EROFS: i32 = 30;

/// Result out of range.
pub const ERANGE: i32 = 34;

/// File name too long.
pub const ENAMETOOLONG: i32 = 36;

/// Function not implemented.
pub const ENOSYS: i32 = 38;

/// Directory not empty.
pub const ENOTEMPTY: i32 = 39;

/// No data available; also the code of a missing extended attribute.
pub const ENODATA: i32 = 61;

/// Value too large for its field.
pub const EOVERFLOW: i32 = 75;

/// Illegal byte sequence.
pub const EILSEQ: i32 = 84;

/// Operation not supported.
pub const EOPNOTSUPP: i32 = 95;

/// The error numbers of the `libc` crate, in the order of the constants above:
/// `libc::EPERM`, `libc::ENOENT` and so on. The contract claims the values that
/// the crate declares for Linux on x86-64.
#[verifier::external_body]
fn libc_error_numbers() -> (codes: [i32; 20])
    ensures
        codes@ == seq![
            EPERM, ENOENT, EIO, ENXIO, EBADF, EACCES, EEXIST, ENOTDIR, EISDIR, EINVAL,
            ENOSPC, EROFS, ERANGE, ENAMETOOLONG, ENOSYS, ENOTEMPTY, ENODATA, EOVERFLOW,
            EILSEQ, EOPNOTSUPP,
        ],
{
    [
        libc::EPERM, libc::ENOENT, libc::EIO, libc::ENXIO, libc::EBADF, libc::EACCES,
        libc::EEXIST, libc::ENOTDIR, libc::EISDIR, libc::EINVAL, libc::ENOSPC, libc::EROFS,
        libc::ERANGE, libc::ENAMETOOLONG, libc::ENOSYS, libc::ENOTEMPTY, libc::ENODATA,
        libc::EOVERFLOW, libc::EILSEQ, libc::EOPNOTSUPP,
    ]
}

/// A POSIX error number.
#[derive(Clone, Copy, PartialEq, Eq, Structural, Debug)]
pub struct Errno(pub i32);

impl Errno {
    /// Wraps a raw `errno` value.
    pub fn from_raw(errno: i32) -> (e: Errno)
        ensures
            e == Errno(errno),
    {
        Errno(errno)
    }

    /// Returns the raw `errno` value.
    pub fn raw(self) -> (code: i32)
        ensures
            code == self.0,
    {
        self.0
    }

    /// The error number in words: "errno" and the number in decimal.
    pub fn message(self) -> (text: String)
        ensures
            text@ == "errno "@ + crate::text::decimal(self.0 as int),
    {
        let mut text: String = "errno ".to_string();
        append_decimal(&mut text, self.0);
        text
    }

    pub fn eperm() -> (e: Errno)
        ensures
            e == Errno(EPERM),
    {
        Errno(libc_error_numbers()[0])
    }

    pub fn enoent() -> (e: Errno)
        ensures
            e == Errno(ENOENT),
    {
        Errno(libc_error_numbers()[1])
    }

    pub fn eio() -> (e: Errno)
        ensures
            e == Errno(EIO),
    {
        Errno(libc_error_numbers()[2])
    }

    pub fn enxio() -> (e: Errno)
        ensures
            e == Errno(ENXIO),
    {
        Errno(libc_error_numbers()[3])
    }

    pub fn ebadf() -> (e: Errno)
        ensures
            e == Errno(EBADF),
    {
        Errno(libc_error_numbers()[4])
    }

    pub fn eacces() -> (e: Errno)
        ensures
            e == Errno(EACCES),
    {
        Errno(libc_error_numbers()[5])
    }

    pub fn eexist() -> (e: Errno)
        ensures
            e == Errno(EEXIST),
    {
        Errno(libc_error_numbers()[6])
    }

    pub fn enotdir() -> (e: Errno)
        ensures
            e == Errno(ENOTDIR),
    {
        Errno(libc_error_numbers()[7])
    }

    pub fn eisdir() -> (e: Errno)
        ensures
            e == Errno(EISDIR),
    {
        Errno(libc_error_numbers()[8])
    }

    pub fn einval() -> (e: Errno)
        ensures
            e == Errno(EINVAL),
    {
        Errno(libc_error_numbers()[9])
    }

    pub fn enospc() -> (e: Errno)
        ensures
            e == Errno(ENOSPC),
    {
        Errno(libc_error_numbers()[10])
    }

    pub fn erofs() -> (e: Errno)
        ensures
            e == Errno(EROFS),
    {
        Errno(libc_error_numbers()[11])
    }

    pub fn erange() -> (e: Errno)
        ensures
            e == Errno(ERANGE),
    {
        Errno(libc_error_numbers()[12])
    }

    pub fn enametoolong() -> (e: Errno)
        ensures
            e == Errno(ENAMETOOLONG),
    {
        Errno(libc_error_numbers()[13])
    }

    pub fn enosys() -> (e: Errno)
        ensures
            e == Errno(ENOSYS),
    {
        Errno(libc_error_numbers()[14])
    }

    pub fn enotempty() -> (e: Errno)
        ensures
            e == Errno(ENOTEMPTY),
    {
        Errno(libc_error_numbers()[15])
    }

    /// "No data available", used for missing extended attributes.
    pub fn enodata() -> (e: Errno)
        ensures
            e == Errno(ENODATA),
    {
        Errno(libc_error_numbers()[16])
    }

    /// The error used for missing extended attributes: `ENODATA` on Linux.
    pub fn enoattr() -> (e: Errno)
        ensures
            e == Errno(ENODATA),
    {
        Errno(libc_error_numbers()[16])
    }

    pub fn eoverflow() -> (e: Errno)
        ensures
            e == Errno(EOVERFLOW),
    {
        Errno(libc_error_numbers()[17])
    }

    pub fn eilseq() -> (e: Errno)
        ensures
            e == Errno(EILSEQ),
    {
        Errno(libc_error_numbers()[18])
    }

    pub fn eopnotsupp() -> (e: Errno)
        ensures
            e == Errno(EOPNOTSUPP),
    {
        Errno(libc_error_numbers()[19])
    }
}

/// An I/O error of the standard library; opaque here.
#[verifier::external_type_specification]
#[verifier::external_body]
pub struct ExIoError(std::io::Error);

/// The operating-system error number that an I/O error carries, if any.
pub uninterp spec fn os_error_number(error: std::io::Error) -> Option<i32>;

/// `std::io::Error::raw_os_error`: the error number that the error was made with,
/// or `None` where it was not made from one. Which number that is stays a name.
pub assume_specification[ std::io::Error::raw_os_error ](error: &std::io::Error) -> (code: Option<
    i32,
>)
    ensures
        code == os_error_number(*error),
;

impl Errno {
    /// The error number for what an I/O error reported: its operating-system error
    /// number, or `EIO` where it has none.
    pub fn from_os_error_number(number: Option<i32>) -> (e: Errno)
        ensures
            e == (match number {
                Some(code) => Errno(code),
                None => Errno(EIO),
            }),
    {
        match number {
            Some(code) => Errno(code),
            None => Errno::eio(),
        }
    }
}

impl From<i32> for Errno {
    fn from(value: i32) -> (e: Errno) {
        Errno(value)
    }
}

impl vstd::std_specs::convert::FromSpecImpl<i32> for Errno {
    open spec fn obeys_from_spec() -> bool {
        true
    }

    open spec fn from_spec(value: i32) -> Errno {
        Errno(value)
    }
}

impl From<std::io::Error> for Errno {
    fn from(error: std::io::Error) -> (e: Errno) {
        Errno::from_os_error_number(error.raw_os_error())
    }
}

impl vstd::std_specs::convert::FromSpecImpl<std::io::Error> for Errno {
    open spec fn obeys_from_spec() -> bool {
        true
    }

    open spec fn from_spec(error: std::io::Error) -> Errno {
        match os_error_number(error) {
            Some(code) => Errno(code),
            None => Errno(EIO),
        }
    }
}

} // verus!
