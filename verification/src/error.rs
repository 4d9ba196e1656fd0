use vstd::prelude::*;

verus! {

/// Why an operation on a serial connection failed.
///
/// Every failure of the operating system is folded into one of these kinds;
/// only `IoFailed` keeps the native code, for diagnostics.
#[derive(Debug, Clone, Copy, PartialEq, Eq, Structural)]
pub enum Error {
    /// The named device does not exist.
    NotFound,
    /// The device exists but is held by another owner.
    AlreadyInUse,
    /// The device could not be opened for any other reason.
    OpenFailed,
    /// Reading or writing the line configuration failed.
    ConfigurationFailed,
    /// The requested setting has no native representation on this platform.
    Unsupported,
    /// The platform reported a setting outside the values this library knows.
    UnexpectedValue,
    /// The operating system rejected the buffer handed to it.
    InvalidBuffer,
    /// Too many requests are in flight.
    ResourceExhausted,
    /// The operation was cancelled before it finished.
    Interrupted,
    /// Any other failure while reading or writing, with its native code.
    IoFailed(i32),
}

impl Error {
    /// True of the kinds that `open` may report.
    pub open spec fn is_open_error(self) -> bool {
        self is NotFound || self is AlreadyInUse || self is OpenFailed
            || self is ConfigurationFailed
    }

    /// True of the kinds that changing one line setting may report.
    pub open spec fn is_configure_error(self) -> bool {
        self is ConfigurationFailed || self is Unsupported
    }

    /// True of the kinds that querying one line setting may report.
    pub open spec fn is_query_error(self) -> bool {
        self is ConfigurationFailed || self is UnexpectedValue
    }

    /// True of the kinds that a read, a write or a flush may report.
    pub open spec fn is_io_error(self) -> bool {
        self is InvalidBuffer || self is ResourceExhausted || self is Interrupted
            || self is IoFailed
    }
}

} // verus!
