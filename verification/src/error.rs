//! What can go wrong with a port.
use vstd::prelude::*;

verus! {

pub const ENOENT: i32 = 2;

pub const ENXIO: i32 = 6;

pub const EACCES: i32 = 13;

pub const EBUSY: i32 = 16;

pub const ENODEV: i32 = 19;

pub const ENOTDIR: i32 = 20;

pub const EISDIR: i32 = 21;

pub const EINVAL: i32 = 22;

pub const ENAMETOOLONG: i32 = 36;

pub const ELOOP: i32 = 40;

/// Kinds of errors.
#[derive(Clone, Copy, Debug, PartialEq, Eq, Structural)]
pub enum ErrorKind {
    /// The device could not be opened. It may be in use already.
    NoDevice,
    /// An argument was not valid: a path that names no device, or a baud rate that does not exist.
    InvalidInput,
    /// The cause is not known.
    Unknown,
    /// Any other error while a device is opened, initialized or used.
    Io,
}

/// An error of a port operation, by its cause.
#[derive(Clone, Copy, Debug, PartialEq, Eq, Structural)]
pub enum Error {
    /// The operating system reported this error number.
    Os(i32),
    /// An input or output error that came without an error number.
    Io,
    /// The device did not take over the attributes that were written to it.
    NotApplied,
}

/// The error numbers that say that there is no usable device behind a path.
pub open spec fn means_no_device(errno: i32) -> bool {
    ||| errno == ENOENT
    ||| errno == ENXIO
    ||| errno == EACCES
    ||| errno == EBUSY
    ||| errno == ENODEV
    ||| errno == ENOTDIR
    ||| errno == EISDIR
    ||| errno == ELOOP
}

/// The error numbers that say that an argument was refused.
pub open spec fn means_invalid_input(errno: i32) -> bool {
    ||| errno == EINVAL
    ||| errno == ENAMETOOLONG
}

/// The error that stands for a failed call which left `errno`, if it left a number at all.
pub open spec fn error_of(errno: Option<i32>) -> Error {
    match errno {
        Some(number) => Error::Os(number),
        None => Error::Io,
    }
}

/// The kind of an error: what is neither a missing device nor an invalid argument is an error of
/// input or output.
pub open spec fn kind_of(error: Error) -> ErrorKind {
    match error {
        Error::Os(errno) => if means_no_device(errno) {
            ErrorKind::NoDevice
        } else if means_invalid_input(errno) {
            ErrorKind::InvalidInput
        } else {
            ErrorKind::Io
        },
        Error::Io | Error::NotApplied => ErrorKind::Io,
    }
}

impl Error {
    /// The kind of the error.
    pub fn kind(&self) -> (kind: ErrorKind)
        ensures
            kind == kind_of(*self),
    {
        match *self {
            Error::Os(ENOENT) | Error::Os(ENXIO) | Error::Os(EACCES) | Error::Os(EBUSY)
            | Error::Os(ENODEV) | Error::Os(ENOTDIR) | Error::Os(EISDIR) | Error::Os(
                ELOOP,
            ) => ErrorKind::NoDevice,
            Error::Os(EINVAL) | Error::Os(ENAMETOOLONG) => ErrorKind::InvalidInput,
            Error::Os(_) | Error::Io | Error::NotApplied => ErrorKind::Io,
        }
    }

    /// The text of the error, where the library has one. The text of an error number is the
    /// operating system's.
    pub fn description(&self) -> (text: Option<&'static str>)
        ensures
            text is Some <==> *self == Error::NotApplied,
            text matches Some(t) ==> t@ == "Settings did not apply correctly"@,
    {
        match *self {
            Error::NotApplied => Some("Settings did not apply correctly"),
            _ => None,
        }
    }

    /// The error for an error number of the operating system.
    pub fn from_raw_os_error(errno: i32) -> (error: Error)
        ensures
            error == Error::Os(errno),
    {
        Error::Os(errno)
    }

    /// The error for a failed input or output call, by the error number that it left.
    pub fn from_io_error(errno: Option<i32>) -> (error: Error)
        ensures
            error == error_of(errno),
    {
        match errno {
            Some(number) => Error::from_raw_os_error(number),
            None => Error::Io,
        }
    }
}

/// A failed call is the error with the number that it left, and an input or output error where it
/// left none.
pub proof fn law_errors_keep_their_number(errno: i32)
    ensures
        error_of(Some(errno)) == Error::Os(errno),
        error_of(None) == Error::Io,
{
}

/// The device is missing or in use for eight error numbers, the argument invalid for two, and every
/// other error is one of input or output. None is of unknown cause.
pub proof fn law_kinds_of_errors(error: Error)
    ensures
        kind_of(error) == ErrorKind::NoDevice <==> (error matches Error::Os(errno) && (errno
            == ENOENT || errno == ENXIO || errno == EACCES || errno == EBUSY || errno == ENODEV
            || errno == ENOTDIR || errno == EISDIR || errno == ELOOP)),
        kind_of(error) == ErrorKind::InvalidInput <==> error == Error::Os(EINVAL) || error
            == Error::Os(ENAMETOOLONG),
        kind_of(error) != ErrorKind::Unknown,
{
}

} // verus!
