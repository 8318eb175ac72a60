//! The collaborator interfaces the driver consumes, and the bundle of
//! programming resources built from them.
//!
//! The byte-stream transport, the control line and the delay source are
//! supplied by the caller; the driver only ever talks to them through these
//! traits. Their methods promise nothing about the hardware's behaviour, so
//! every contract in this crate states what holds of the device state
//! whatever the collaborators did.

use vstd::prelude::*;

verus! {

/// How long the module needs to settle after a control-line transition or an
/// AT command before the wire can be trusted, in milliseconds.
pub const SETTLE_DELAY_MS: u32 = 100;

/// A byte-stream transport: bounded read, full write, and a read-readiness
/// poll, each reporting the transport's own error type.
pub trait Transport {
    type Error;

    /// Write the whole run of bytes; a short write is reported as an error.
    fn write_all(&mut self, data: &Vec<u8>) -> Result<(), Self::Error>;

    /// Push any buffered output out to the wire.
    fn flush(&mut self) -> Result<(), Self::Error>;

    /// Whether at least one byte is ready to be read without blocking.
    fn read_ready(&mut self) -> Result<bool, Self::Error>;

    /// Read whatever is available, up to `max` bytes, in one attempt.
    fn read_chunk(&mut self, max: usize) -> Result<Vec<u8>, Self::Error>;
}

/// The digital output line that selects the regime: driven low the module
/// listens for AT commands, driven high it passes data through.
pub trait ControlPin {
    type Error;

    fn set_low(&mut self) -> Result<(), Self::Error>;

    fn set_high(&mut self) -> Result<(), Self::Error>;
}

/// A blocking, millisecond-granularity wait, assumed infallible.
pub trait DelaySource {
    fn delay_ms(&mut self, ms: u32);
}

/// What a device must own to cross regimes and run AT commands: something
/// that can drive the control line and something that can wait out the
/// settle delays.
pub trait ValidProgrammingResources {
    type Error;

    /// Drive the control line low and wait the settle delay, entering the
    /// configuration regime.
    fn pull_at(&mut self) -> Result<(), Self::Error>;

    /// Drive the control line high and wait the settle delay, entering the
    /// transparent regime.
    fn pull_transparent(&mut self) -> Result<(), Self::Error>;

    /// Wait out the settle delay the module needs after each AT command.
    fn wait_for_response(&mut self);
}

/// The control line and delay source paired together. Optional: a device
/// built without them can pass data through but never be reprogrammed.
pub struct HC12ProgrammingResources<P, D> {
    mode_pin: P,
    delay: D,
}

impl<P, D> HC12ProgrammingResources<P, D> {
    /// Bundle a control line and a delay source.
    pub fn new(mode_pin: P, delay: D) -> (r: Self) {
        HC12ProgrammingResources { mode_pin, delay }
    }

    /// Release the underlying resources.
    pub fn release(self) -> (P, D) {
        (self.mode_pin, self.delay)
    }
}

impl<P: ControlPin, D: DelaySource> ValidProgrammingResources for HC12ProgrammingResources<
    P,
    D,
> {
    type Error = P::Error;

    fn pull_at(&mut self) -> Result<(), P::Error> {
        self.mode_pin.set_low()?;
        self.wait_for_response();
        Ok(())
    }

    fn pull_transparent(&mut self) -> Result<(), P::Error> {
        self.mode_pin.set_high()?;
        self.wait_for_response();
        Ok(())
    }

    fn wait_for_response(&mut self) {
        self.delay.delay_ms(SETTLE_DELAY_MS);
    }
}

/// The marker carried by a device built without programming resources: the
/// configuration operations are structurally unavailable on it.
pub struct NonConfigurable;

/// The marker left in a device whose transport has been taken out, so the
/// caller can reconfigure the host side of the wire and hand it back.
pub struct StolenUart;

} // verus!
