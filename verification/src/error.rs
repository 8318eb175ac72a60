//! The error taxonomy. Every failure carries enough state for the caller to
//! retry or abort without re-acquiring hardware resources: either the raw
//! diagnostic bytes, or the untouched device or resources themselves.

use vstd::prelude::*;

use crate::codec::NoOkResponse;
use crate::modes::BaudRate;
use crate::modes::SubMode;

verus! {

/// Why a single AT command exchange failed.
#[derive(Debug)]
pub enum ATCommandError<E> {
    /// The transport failed; its error is passed on verbatim and the attempt
    /// is over.
    DeviceError(E),
    /// The transport reported nothing to read after the settle delay. The
    /// caller may retry the identical command.
    NoResponse,
    /// A response arrived but lacked the `OK` marker; the raw bytes are
    /// attached.
    NoOk(NoOkResponse),
    /// The requested change would pair a sub-mode with a baud rate the
    /// capability table refuses; nothing was sent to the module.
    IncompatiblePairing(SubMode, BaudRate),
}

/// A failed consuming operation. The device (or builder) that attempted it
/// is handed back unchanged inside the error, so a fresh attempt can be
/// composed without re-acquiring hardware handles.
pub struct HC12ProgrammingError<E, LastState> {
    /// What went wrong.
    pub error: E,
    /// The value that experienced the error, untouched.
    pub last: LastState,
}

/// A failed build. The transport and the programming resources are handed
/// back to the caller inside the error.
pub struct HC12Error<E, U, P> {
    /// What went wrong.
    pub error: E,
    /// The transport, returned to the caller.
    pub uart: U,
    /// The programming resources, returned to the caller.
    pub pin: P,
}

/// Why a device could not be built.
#[derive(Debug)]
pub enum BuildError<E> {
    /// The chosen sub-mode and baud rate are not a legal pair.
    IncompatiblePairing(SubMode, BaudRate),
    /// The control line could not be driven.
    PinError(E),
}

} // verus!
