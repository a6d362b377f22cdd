//! Error taxonomy of the driver core.
//!
//! Transport failures are reported by the surrounding I/O layer through
//! `Can`; everything else is produced by the verified logic itself.

use vstd::prelude::*;

verus! {

/// A malformed or unexpected frame. Decoding never guesses a shape:
/// an unrecognized command discriminator is an error for that single
/// frame, and a response whose actuator identifier does not match the
/// session it was handed to is rejected without touching the session.
#[derive(Clone, Debug, PartialEq, Eq)]
pub enum ProtocolError {
    /// The 5-bit command discriminator of the frame is not one of the
    /// known response kinds.
    UnknownMux(u8),
    /// The response carries another actuator's identifier.
    CanIdMismatch { expected: u8, received: u8 },
}

/// Every failure the driver core can report.
#[derive(Clone, Debug, PartialEq, Eq)]
pub enum RobstrideError {
    /// An I/O failure on the CAN interface, described by the transport
    /// layer that observed it.
    Can(String),
    /// A malformed or unexpected frame (see [`ProtocolError`]).
    Protocol(ProtocolError),
    /// An operation referenced a CAN identifier with no registered
    /// session. No I/O is attempted in this case.
    ActuatorNotFound(u8),
    /// A parameter operation was attempted before the actuator's MCU
    /// unique identifier was obtained. No I/O is attempted in this case.
    MissingIdentity(u8),
    /// The deadline elapsed while awaiting a response.
    Timeout,
}

} // verus!
