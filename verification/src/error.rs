//! What can go wrong between the host and the reader.

use vstd::prelude::*;

verus! {

/// Why the USB transport refused or gave up an operation.
#[derive(Clone, Copy, Debug, PartialEq, Eq, Structural)]
pub enum TransportError {
    /// Input or output error.
    Io,
    /// Invalid parameter.
    InvalidParam,
    /// Access denied.
    Access,
    /// No such device; it may have been disconnected.
    NoDevice,
    /// Entity not found.
    NotFound,
    /// Resource busy.
    Busy,
    /// The operation timed out.
    Timeout,
    /// Overflow.
    Overflow,
    /// Pipe error.
    Pipe,
    /// A system call was interrupted.
    Interrupted,
    /// Insufficient memory.
    NoMem,
    /// The platform does not support the operation.
    NotSupported,
    /// The device returned a malformed descriptor.
    BadDescriptor,
    /// Any other failure.
    Other,
}

/// The direction of a bulk transfer, seen from the host.
#[derive(Clone, Copy, Debug, PartialEq, Eq, Structural)]
pub enum Direction {
    /// Host to reader.
    Out,
    /// Reader to host.
    In,
}

/// Why an operation on the reader failed. Every failure is reported as a
/// value; none is retried by the session itself.
#[derive(Clone, Copy, Debug, PartialEq, Eq, Structural)]
pub enum ReaderError {
    /// No attached device has the reader's vendor and product identifiers.
    DeviceNotFound,
    /// The reader is attached but could not be opened.
    HandleOpenFailed(TransportError),
    /// A bulk transfer failed or timed out.
    TransferFailed { direction: Direction, cause: TransportError },
    /// The endpoint took a number of bytes other than the length of the
    /// command frame.
    ShortWrite { expected: usize, sent: usize },
    /// The session was closed; it performs no further transfer.
    SessionClosed,
    /// The session was asked for a command, or told of an outcome, while it
    /// was waiting for something else.
    OutOfTurn,
}

} // verus!
