//! Error translation for the native boundary.
//!
//! Every fallible native entry point reports a signed 32-bit status: a
//! negative value is a failure encoded with the negated-errno convention
//! (or one of the framework's own tag codes, such as the end-of-file tag),
//! and a non-negative value means success. Translation is total: every
//! negative status maps to a structured error that keeps the raw code, and
//! a classification sorts the codes the boundary cares about into named
//! kinds, with an unknown bucket for the rest.

use vstd::prelude::*;

verus! {

/// The native framework's end-of-file status tag: the negation of the
/// four bytes `E`, `O`, `F`, `space` packed little-endian into 32 bits.
pub const NATIVE_EOF: i32 = -541478725;

/// Classification of a boundary-layer error.
#[derive(Clone, Copy, PartialEq, Eq, Structural, Debug)]
pub enum ErrorKind {
    /// The native end-of-file tag.
    EndOfFile,
    /// Negated `ENOENT`: the target does not exist.
    NotFound,
    /// Negated `EACCES`: access to the target was denied.
    PermissionDenied,
    /// Negated `EAGAIN`: the operation would block; retry later.
    TryAgain,
    /// Negated `ENOMEM`: a native allocation failed.
    OutOfMemory,
    /// Negated `EINVAL`: an argument was rejected by the native call.
    InvalidArgument,
    /// A path could not be represented as a NUL-terminated byte string.
    Encoding,
    /// Any other native status code.
    Unknown,
}

/// A structured error produced by the boundary layer.
#[derive(Clone, Copy, PartialEq, Eq, Structural, Debug)]
pub enum Error {
    /// A negative status returned by a native entry point; the raw code is
    /// kept so no native status is ever swallowed.
    Native(i32),
    /// A supplied path could not be represented as a NUL-terminated byte
    /// string (it held an interior NUL or invalid encoding).
    Encoding,
}

/// The classification of a native status code.
pub open spec fn status_kind(code: i32) -> ErrorKind {
    if code == NATIVE_EOF {
        ErrorKind::EndOfFile
    } else if code == -2 {
        ErrorKind::NotFound
    } else if code == -13 {
        ErrorKind::PermissionDenied
    } else if code == -11 {
        ErrorKind::TryAgain
    } else if code == -12 {
        ErrorKind::OutOfMemory
    } else if code == -22 {
        ErrorKind::InvalidArgument
    } else {
        ErrorKind::Unknown
    }
}

/// The classification of an error value.
pub open spec fn error_kind(e: Error) -> ErrorKind {
    match e {
        Error::Native(code) => status_kind(code),
        Error::Encoding => ErrorKind::Encoding,
    }
}

/// Relies on libc::ENOENT: the "no such file or directory" errno, 2 on Linux.
#[verifier::external_body]
fn errno_not_found() -> (r: i32)
    ensures
        r == 2,
{
    libc::ENOENT
}

/// Relies on libc::EACCES: the "permission denied" errno, 13 on Linux.
#[verifier::external_body]
fn errno_permission_denied() -> (r: i32)
    ensures
        r == 13,
{
    libc::EACCES
}

/// Relies on libc::EAGAIN: the "try again" errno, 11 on Linux.
#[verifier::external_body]
fn errno_try_again() -> (r: i32)
    ensures
        r == 11,
{
    libc::EAGAIN
}

/// Relies on libc::ENOMEM: the "out of memory" errno, 12 on Linux.
#[verifier::external_body]
fn errno_out_of_memory() -> (r: i32)
    ensures
        r == 12,
{
    libc::ENOMEM
}

/// Relies on libc::EINVAL: the "invalid argument" errno, 22 on Linux.
#[verifier::external_body]
fn errno_invalid_argument() -> (r: i32)
    ensures
        r == 22,
{
    libc::EINVAL
}

impl Error {
    /// Translate a native status code into a structured error. Total: every
    /// code maps to an error that keeps the code; callers treat non-negative
    /// statuses as success and only hand negative ones here.
    pub fn from_status(code: i32) -> (e: Error)
        ensures
            e == Error::Native(code),
    {
        Error::Native(code)
    }

    /// Classify this error. The native codes recognized by name follow the
    /// negated-errno convention; every other native code lands in the
    /// unknown bucket.
    pub fn kind(&self) -> (k: ErrorKind)
        ensures
            k == error_kind(*self),
    {
        match *self {
            Error::Encoding => ErrorKind::Encoding,
            Error::Native(code) => {
                if code == NATIVE_EOF {
                    ErrorKind::EndOfFile
                } else if code == -errno_not_found() {
                    ErrorKind::NotFound
                } else if code == -errno_permission_denied() {
                    ErrorKind::PermissionDenied
                } else if code == -errno_try_again() {
                    ErrorKind::TryAgain
                } else if code == -errno_out_of_memory() {
                    ErrorKind::OutOfMemory
                } else if code == -errno_invalid_argument() {
                    ErrorKind::InvalidArgument
                } else {
                    ErrorKind::Unknown
                }
            },
        }
    }

    /// The raw native status code, if this error came from a native call.
    pub fn status(&self) -> (r: Option<i32>)
        ensures
            r == (match *self {
                Error::Native(code) => Some(code),
                Error::Encoding => None::<i32>,
            }),
    {
        match *self {
            Error::Native(code) => Some(code),
            Error::Encoding => None,
        }
    }
}

} // verus!
