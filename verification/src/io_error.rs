//! Errors of file operations, and which of them end the process.

use vstd::prelude::*;

verus! {

/// The kinds of error that the cache tells apart.
#[derive(Clone, Copy, Debug, PartialEq, Eq, Structural)]
pub enum ErrorKind {
    /// The file is not there.
    NotFound,
    /// The call was interrupted and can be made again.
    Interrupted,
    /// An argument was out of range.
    InvalidInput,
    /// The file ended before the buffer was full.
    UnexpectedEof,
    /// A write wrote nothing.
    WriteZero,
    /// Anything else.
    Other,
}

/// An error of a file operation.
#[derive(Clone, Copy, Debug, PartialEq, Eq, Structural)]
pub enum Error {
    /// A seek to before the first byte.
    NegativeOffset,
    /// A seek to beyond the largest offset.
    OffsetOverflow,
    /// A read that had to fill its buffer met the end of the file.
    UnexpectedEof,
    /// A write that had to write its whole buffer wrote nothing.
    WriteZero,
    /// An error that the operating system reported, with its kind and, where
    /// it has one, its error number.
    Os { kind: ErrorKind, code: Option<i32> },
}

/// The error conditions of the operating system that the cache knows by
/// name.
#[derive(Clone, Copy, Debug, PartialEq, Eq, Structural)]
pub enum Errno {
    /// Input/output error of the device.
    Eio,
    /// The file system is mounted read-only.
    Erofs,
    /// Permission denied.
    Eacces,
    /// No space left on the device.
    Enospc,
    /// Interrupted system call.
    Eintr,
    /// Invalid argument.
    Einval,
    /// Any other condition.
    Other,
}

/// What to do with the outcome of a file operation.
#[derive(Debug)]
pub enum Verdict<T> {
    /// Go on with this value.
    Proceed(T),
    /// Report this error and end the process.
    Abort(Error),
}

/// The condition that `nix::errno::from_i32` finds for an error number.
pub uninterp spec fn errno_of(code: i32) -> Errno;

/// The condition that an error number stands for.
///
/// Calls `nix::errno::from_i32` and names the variant that came back.
/// Nothing is claimed of which number gives which condition.
#[verifier::external_body]
fn errno_from_i32(code: i32) -> (errno: Errno)
    ensures
        errno == errno_of(code),
{
    match nix::errno::from_i32(code) {
        nix::errno::Errno::EIO => Errno::Eio,
        nix::errno::Errno::EROFS => Errno::Erofs,
        nix::errno::Errno::EACCES => Errno::Eacces,
        nix::errno::Errno::ENOSPC => Errno::Enospc,
        nix::errno::Errno::EINTR => Errno::Eintr,
        nix::errno::Errno::EINVAL => Errno::Einval,
        _ => Errno::Other,
    }
}

/// The error number of an invalid argument.
///
/// The number is `nix::errno::Errno::EINVAL`, which `nix::errno::from_i32`
/// maps back to that variant.
#[verifier::external_body]
fn einval() -> (code: i32)
    ensures
        errno_of(code) == Errno::Einval,
{
    nix::errno::Errno::EINVAL as i32
}

impl Errno {
    /// The conditions after which the storage cannot be trusted any more:
    /// a failing device, a file system turned read-only, a lost permission.
    pub open spec fn is_fatal_spec(self) -> bool {
        self is Eio || self is Erofs || self is Eacces
    }

    /// Whether the condition must end the process.
    #[verifier::when_used_as_spec(is_fatal_spec)]
    pub fn is_fatal(self) -> (fatal: bool)
        ensures
            fatal == self.is_fatal_spec(),
    {
        match self {
            Errno::Eio | Errno::Erofs | Errno::Eacces => true,
            _ => false,
        }
    }
}

impl ErrorKind {
    /// Whether two kinds are the same.
    pub fn is(self, other: ErrorKind) -> (same: bool)
        ensures
            same == (self == other),
    {
        self == other
    }
}

impl Error {
    /// The kind of the error.
    pub open spec fn kind_spec(self) -> ErrorKind {
        match self {
            Error::NegativeOffset => ErrorKind::InvalidInput,
            Error::OffsetOverflow => ErrorKind::InvalidInput,
            Error::UnexpectedEof => ErrorKind::UnexpectedEof,
            Error::WriteZero => ErrorKind::WriteZero,
            Error::Os { kind, .. } => kind,
        }
    }

    /// The error number, if the operating system gave one.
    pub open spec fn raw_os_error_spec(self) -> Option<i32> {
        match self {
            Error::Os { code, .. } => code,
            _ => None,
        }
    }

    /// An error of the operating system carries a number that stands for a
    /// condition which must end the process.
    pub open spec fn is_fatal(self) -> bool {
        self.raw_os_error_spec() matches Some(code) && errno_of(code).is_fatal()
    }

    /// The kind of the error.
    #[verifier::when_used_as_spec(kind_spec)]
    pub fn kind(self) -> (kind: ErrorKind)
        ensures
            kind == self.kind_spec(),
    {
        match self {
            Error::NegativeOffset => ErrorKind::InvalidInput,
            Error::OffsetOverflow => ErrorKind::InvalidInput,
            Error::UnexpectedEof => ErrorKind::UnexpectedEof,
            Error::WriteZero => ErrorKind::WriteZero,
            Error::Os { kind, .. } => kind,
        }
    }

    /// The error number, if the operating system gave one.
    #[verifier::when_used_as_spec(raw_os_error_spec)]
    pub fn raw_os_error(self) -> (code: Option<i32>)
        ensures
            code == self.raw_os_error_spec(),
    {
        match self {
            Error::Os { code, .. } => code,
            _ => None,
        }
    }

    /// The error of an invalid argument, as the operating system reports it.
    pub fn invalid_argument() -> (error: Error)
        ensures
            error.kind() == ErrorKind::InvalidInput,
            error.raw_os_error() matches Some(code) && errno_of(code) == Errno::Einval,
            !error.is_fatal(),
    {
        Error::Os { kind: ErrorKind::InvalidInput, code: Some(einval()) }
    }
}

/// Whether an error must end the process: it must if it carries the error
/// number of a failing device, of a read-only file system or of a denied
/// permission, and only then.
pub fn is_fatal_io_error(e: &Error) -> (fatal: bool)
    ensures
        fatal == e.is_fatal(),
{
    match e.raw_os_error() {
        Some(code) => errno_from_i32(code).is_fatal(),
        None => false,
    }
}

/// The rule for writes: a fatal error ends the process, any other outcome
/// goes back to the caller as it is.
pub fn maybe_fatal_err<T>(result: Result<T, Error>) -> (verdict: Verdict<Result<T, Error>>)
    ensures
        verdict == match result {
            Err(e) if e.is_fatal() => Verdict::Abort(e),
            _ => Verdict::Proceed(result),
        },
{
    match result {
        Err(e) => {
            if is_fatal_io_error(&e) {
                Verdict::Abort(e)
            } else {
                Verdict::Proceed(Err(e))
            }
        },
        Ok(v) => Verdict::Proceed(Ok(v)),
    }
}

/// The rule for reads that must succeed: every error ends the process.
pub fn fatal_err<T>(result: Result<T, Error>) -> (verdict: Verdict<T>)
    ensures
        verdict == match result {
            Ok(v) => Verdict::Proceed(v),
            Err(e) => Verdict::Abort(e),
        },
{
    match result {
        Ok(v) => Verdict::Proceed(v),
        Err(e) => Verdict::Abort(e),
    }
}

} // verus!
