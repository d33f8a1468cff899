use vstd::prelude::*;

verus! {

/// Failure of a driver operation.
#[derive(Clone, Copy, Debug, PartialEq, Eq, Structural)]
pub enum Error {
    /// The serial link could not be opened.
    Connection,
    /// The identification reply was neither of the two known firmware replies.
    Handshake,
    /// Contended: an operation of the same kind is in flight. No command went to the device.
    Busy,
    /// A status reply did not match any expected pattern.
    Protocol,
    /// An extreme travel limit was reached while looking for the home flag.
    Limit,
    /// The transport failed.
    Io,
    /// A move was asked of a driver that has not been homed.
    NotHomed,
    /// A step count of the move would not fit in an `i64`.
    OutOfRange,
}

} // verus!
