use vstd::prelude::*;
use crate::error::Error;

verus! {

/// Native code of an interrupted system call.
pub const EINTR: i32 = 4;

/// Native code of a request that found no memory left.
pub const ENOMEM: i32 = 12;

/// Native code of a buffer that lies outside the caller's address space.
pub const EFAULT: i32 = 14;

/// The code that `Error::IoFailed` carries where the platform gave none.
pub const NO_CODE: i32 = 0;

/// How the serial layer says that opening or configuring a device failed.
#[derive(Debug, Clone, Copy, PartialEq, Eq, Structural)]
pub enum PortFault {
    /// The device is not available: it is absent, or someone else holds it.
    NoDevice,
    /// A parameter was not acceptable.
    InvalidInput,
    /// Anything else.
    Io,
}

/// How the serial layer says that a transfer failed.
#[derive(Debug, Clone, Copy, PartialEq, Eq, Structural)]
pub enum IoFault {
    /// The operating system failed the call with this code.
    Os(i32),
    /// Nothing could be moved before the waiting time ran out.
    TimedOut,
    /// The wait was interrupted.
    Interrupted,
    /// A failure that came without a code.
    Other,
}

/// The parity modes of a terminal device.
#[derive(Debug, Clone, Copy, PartialEq, Eq, Structural)]
pub enum TtyParity {
    Off,
    Odd,
    Even,
}

/// The stop bit counts of a terminal device.
#[derive(Debug, Clone, Copy, PartialEq, Eq, Structural)]
pub enum TtyStopBits {
    One,
    Two,
}

impl PortFault {
    /// The error that `open` reports for a device that could not be opened.
    /// `exists` says whether the name that was asked for is there at all.
    /// The serial layer has one kind for every reason for which a device is
    /// not available, so a name that is there but does not open as a
    /// device counts as held by someone else.
    pub fn at_open(self, exists: bool) -> (e: Error)
        ensures
            e is NotFound <==> self is NoDevice && !exists,
            e is AlreadyInUse <==> self is NoDevice && exists,
            e is OpenFailed <==> !(self is NoDevice),
    {
        match self {
            PortFault::NoDevice => if exists {
                Error::AlreadyInUse
            } else {
                Error::NotFound
            },
            _ => Error::OpenFailed,
        }
    }
}

impl IoFault {
    /// The error kind of a failed transfer.
    pub open spec fn kind(self) -> Error {
        match self {
            IoFault::Os(code) => if code == EFAULT {
                Error::InvalidBuffer
            } else if code == ENOMEM {
                Error::ResourceExhausted
            } else if code == EINTR {
                Error::Interrupted
            } else {
                Error::IoFailed(code)
            },
            IoFault::Interrupted => Error::Interrupted,
            IoFault::TimedOut => Error::IoFailed(NO_CODE),
            IoFault::Other => Error::IoFailed(NO_CODE),
        }
    }

    /// Folds a failed transfer into the portable error kinds. The native
    /// code is kept where it names none of them.
    pub fn error(self) -> (e: Error)
        ensures
            e == self.kind(),
            e.is_io_error(),
            e is InvalidBuffer <==> self == IoFault::Os(EFAULT),
            e is ResourceExhausted <==> self == IoFault::Os(ENOMEM),
            e is Interrupted <==> self == IoFault::Os(EINTR) || self is Interrupted,
            e matches Error::IoFailed(code) ==> self == IoFault::Os(code) || code == NO_CODE,
    {
        match self {
            IoFault::Os(code) => {
                if code == EFAULT {
                    Error::InvalidBuffer
                } else if code == ENOMEM {
                    Error::ResourceExhausted
                } else if code == EINTR {
                    Error::Interrupted
                } else {
                    Error::IoFailed(code)
                }
            },
            IoFault::Interrupted => Error::Interrupted,
            IoFault::TimedOut => Error::IoFailed(NO_CODE),
            IoFault::Other => Error::IoFailed(NO_CODE),
        }
    }
}

/// What a read or a write hands to its caller, given what the serial layer
/// said: the count as it is, zero where the waiting time ran out before
/// anything moved, and otherwise the error kind of the failure.
pub open spec fn transfer_result(outcome: Result<usize, IoFault>) -> Result<usize, Error> {
    match outcome {
        Ok(n) => Ok(n),
        Err(IoFault::TimedOut) => Ok(0usize),
        Err(fault) => Err(fault.kind()),
    }
}

/// Computes `transfer_result`.
pub fn transfer(outcome: Result<usize, IoFault>) -> (res: Result<usize, Error>)
    ensures
        res == transfer_result(outcome),
        res matches Err(e) ==> e.is_io_error(),
{
    match outcome {
        Ok(n) => Ok(n),
        Err(IoFault::TimedOut) => Ok(0),
        Err(fault) => Err(fault.error()),
    }
}

/// A setting as the device reported it, or `UnexpectedValue` where the
/// device is in a state that has no name here.
pub fn reported<T>(reading: Option<T>) -> (res: Result<T, Error>)
    ensures
        reading matches Some(v) ==> res == Ok::<T, Error>(v),
        reading is None ==> res == Err::<T, Error>(Error::UnexpectedValue),
{
    match reading {
        Some(v) => Ok(v),
        None => Err(Error::UnexpectedValue),
    }
}

} // verus!
