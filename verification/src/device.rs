//! The device handle, its builder, and the transition controller: one owned
//! value per live device, consumed and re-produced by every regime or
//! setting change, with a ghost view that the contracts speak of.

use vstd::prelude::*;

use crate::codec::ATCommandString;
use crate::codec::buffer_capacity;
use crate::codec::classify_response;
use crate::codec::contains_ok;
use crate::codec::encode_baud_rate;
use crate::codec::encode_channel;
use crate::codec::encode_power;
use crate::codec::encode_sub_mode;
use crate::codec::frame_command;
use crate::configuration::Channel;
use crate::configuration::HC12Configuration;
use crate::configuration::Power;
use crate::configuration::power_level;
use crate::error::ATCommandError;
use crate::error::BuildError;
use crate::error::HC12Error;
use crate::error::HC12ProgrammingError;
use crate::modes::BaudRate;
use crate::modes::Regime;
use crate::modes::SubMode;
use crate::modes::sub_mode_supports;
use crate::resources::HC12ProgrammingResources;
use crate::resources::NonConfigurable;
use crate::resources::StolenUart;
use crate::resources::Transport;
use crate::resources::ValidProgrammingResources;

verus! {

/// The logical state of a device: its regime and the four programmed
/// settings it remembers across regime crossings.
pub ghost struct DeviceView {
    pub regime: Regime,
    pub sub_mode: SubMode,
    pub baud_rate: BaudRate,
    pub channel: int,
    pub power: int,
}

impl DeviceView {
    /// A device state is well formed when its remembered sub-mode and baud
    /// rate are a legal pair. This holds in both regimes, so leaving the
    /// configuration regime can never produce an illegal pairing.
    pub open spec fn wf(self) -> bool {
        sub_mode_supports(self.sub_mode, self.baud_rate)
    }
}

/// Entering the configuration regime changes the regime tag and nothing
/// else: the transparent-regime settings are carried along untouched.
pub open spec fn spec_enter_configuration(v: DeviceView) -> DeviceView {
    DeviceView { regime: Regime::Configuration, ..v }
}

/// Leaving the configuration regime restores the remembered settings: only
/// the regime tag changes.
pub open spec fn spec_leave_configuration(v: DeviceView) -> DeviceView {
    DeviceView { regime: Regime::Transparent, ..v }
}

/// A successful channel command updates the remembered channel alone.
pub open spec fn spec_set_channel(v: DeviceView, channel: int) -> DeviceView {
    DeviceView { channel, ..v }
}

/// A successful power command updates the remembered power level alone.
pub open spec fn spec_set_power(v: DeviceView, power: int) -> DeviceView {
    DeviceView { power, ..v }
}

/// A successful baud-rate command updates the remembered rate alone; the
/// physical link speed of the transparent regime really changed, so the
/// rate restored on leaving changes with it.
pub open spec fn spec_set_baud_rate(v: DeviceView, baud_rate: BaudRate) -> DeviceView {
    DeviceView { baud_rate, ..v }
}

/// A successful sub-mode command updates the remembered sub-mode alone.
pub open spec fn spec_set_sub_mode(v: DeviceView, sub_mode: SubMode) -> DeviceView {
    DeviceView { sub_mode, ..v }
}

/// Crossing into the configuration regime and back restores exactly the
/// sub-mode, baud rate, channel and power that were active before, when no
/// setting command succeeded in between.
pub proof fn lemma_transition_restores_settings(v: DeviceView)
    ensures
        spec_leave_configuration(spec_enter_configuration(v)).sub_mode == v.sub_mode,
        spec_leave_configuration(spec_enter_configuration(v)).baud_rate == v.baud_rate,
        spec_leave_configuration(spec_enter_configuration(v)).channel == v.channel,
        spec_leave_configuration(spec_enter_configuration(v)).power == v.power,
        v.regime == Regime::Transparent ==> spec_leave_configuration(
            spec_enter_configuration(v),
        ) == v,
{
}

/// When a baud-rate or sub-mode command succeeds while in the configuration
/// regime, leaving restores the new pair, not the one carried in.
pub proof fn lemma_transition_restores_new_pair(v: DeviceView, m: SubMode, b: BaudRate)
    ensures
        spec_leave_configuration(
            spec_set_baud_rate(spec_enter_configuration(v), b),
        ).baud_rate == b,
        spec_leave_configuration(
            spec_set_baud_rate(spec_enter_configuration(v), b),
        ).sub_mode == v.sub_mode,
        spec_leave_configuration(spec_set_sub_mode(spec_enter_configuration(v), m)).sub_mode
            == m,
        spec_leave_configuration(
            spec_set_sub_mode(spec_enter_configuration(v), m),
        ).baud_rate == v.baud_rate,
{
}

/// The HC-12 device handle. It exclusively owns its transport and its
/// programming resources for its whole lifetime; every operation that
/// changes the regime, the sub-mode or the baud rate consumes it and
/// produces a fresh handle, so at most one live handle ever claims the same
/// transport.
pub struct HC12<U, R> {
    uart: U,
    programming: R,
    regime: Regime,
    sub_mode: SubMode,
    baud_rate: BaudRate,
    configuration: HC12Configuration,
}

impl<U, R> View for HC12<U, R> {
    type V = DeviceView;

    closed spec fn view(&self) -> DeviceView {
        DeviceView {
            regime: self.regime,
            sub_mode: self.sub_mode,
            baud_rate: self.baud_rate,
            channel: self.configuration.channel@,
            power: power_level(self.configuration.power),
        }
    }
}

impl<U, R> HC12<U, R> {
    /// Start assembling a device from raw resources.
    pub fn builder() -> (r: HC12Builder<(), NonConfigurable>)
        ensures
            r@ == BuilderView::initial(),
    {
        HC12Builder::empty()
    }

    /// The regime the device is currently in.
    pub fn regime(&self) -> (r: Regime)
        ensures
            r == self@.regime,
    {
        self.regime
    }

    /// The sub-mode the transparent regime runs (or will resume) in.
    pub fn mode(&self) -> (r: SubMode)
        ensures
            r == self@.sub_mode,
    {
        self.sub_mode
    }

    /// The baud rate the transparent regime runs (or will resume) at.
    pub fn speed(&self) -> (r: BaudRate)
        ensures
            r == self@.baud_rate,
    {
        self.baud_rate
    }

    /// The programmed channel.
    pub fn channel(&self) -> (r: Channel)
        ensures
            r@ == self@.channel,
    {
        self.configuration.channel
    }

    /// The programmed power level.
    pub fn power(&self) -> (r: Power)
        ensures
            power_level(r) == self@.power,
    {
        self.configuration.power
    }

    /// The programmed channel and power.
    pub fn configuration(&self) -> (r: HC12Configuration)
        ensures
            r.channel@ == self@.channel,
            power_level(r.power) == self@.power,
    {
        self.configuration
    }

    /// Decompose the device, returning the transport and the programming
    /// resources to the caller. The handle is gone afterwards.
    pub fn into_inner(self) -> (r: (U, R)) {
        (self.uart, self.programming)
    }

    /// Take the transport out of the device, leaving a marker in its place,
    /// so the host side of the wire can be reconfigured after a baud-rate
    /// change. The device keeps its regime and settings.
    pub fn steal_uart(self) -> (r: (HC12<StolenUart, R>, U))
        ensures
            r.0@ == self@,
    {
        let HC12 { uart, programming, regime, sub_mode, baud_rate, configuration } = self;
        (
            HC12 {
                uart: StolenUart,
                programming,
                regime,
                sub_mode,
                baud_rate,
                configuration,
            },
            uart,
        )
    }
}

impl<R> HC12<StolenUart, R> {
    /// Hand a (possibly reconfigured) transport back to a device whose
    /// transport was taken out. The regime and settings are unchanged.
    pub fn return_uart<U>(self, uart: U) -> (r: HC12<U, R>)
        ensures
            r@ == self@,
    {
        let HC12 { uart: _, programming, regime, sub_mode, baud_rate, configuration } = self;
        HC12 { uart, programming, regime, sub_mode, baud_rate, configuration }
    }
}

/// What the builder has accumulated so far, besides the raw resources.
pub ghost struct BuilderView {
    pub sub_mode: SubMode,
    pub baud_rate: BaudRate,
    pub channel: int,
    pub power: int,
}

impl BuilderView {
    /// A fresh builder asks for the module's factory state: full-speed
    /// sub-mode at 9600 bps, channel 1, full power.
    pub open spec fn initial() -> BuilderView {
        BuilderView {
            sub_mode: SubMode::Fu3,
            baud_rate: BaudRate::B9600,
            channel: 1,
            power: 8,
        }
    }
}

/// Accumulates the transport, the programming resources and the desired
/// settings, then builds a device in one of the two regimes. Every build
/// path validates the sub-mode/baud-rate pair against the capability table
/// before a device value comes to exist.
pub struct HC12Builder<U, R> {
    uart: U,
    programming: R,
    sub_mode: SubMode,
    baud_rate: BaudRate,
    configuration: HC12Configuration,
}

impl<U, R> View for HC12Builder<U, R> {
    type V = BuilderView;

    closed spec fn view(&self) -> BuilderView {
        BuilderView {
            sub_mode: self.sub_mode,
            baud_rate: self.baud_rate,
            channel: self.configuration.channel@,
            power: power_level(self.configuration.power),
        }
    }
}

impl HC12Builder<(), NonConfigurable> {
    /// An empty builder: no transport, no programming resources, factory
    /// settings.
    pub fn empty() -> (r: Self)
        ensures
            r@ == BuilderView::initial(),
    {
        HC12Builder {
            uart: (),
            programming: NonConfigurable,
            sub_mode: SubMode::Fu3,
            baud_rate: BaudRate::B9600,
            configuration: HC12Configuration::default(),
        }
    }

    /// An empty builder, under the name construction sites expect.
    pub fn new() -> (r: Self)
        ensures
            r@ == BuilderView::initial(),
    {
        HC12Builder::empty()
    }
}

impl<U, R> HC12Builder<U, R> {
    /// Add the serial transport and the baud rate its side of the wire is
    /// (or will be) configured for.
    pub fn uart<U2: Transport>(self, uart: U2, baud_rate: BaudRate) -> (r: HC12Builder<
        U2,
        R,
    >)
        ensures
            r@ == (BuilderView { baud_rate, ..self@ }),
    {
        let HC12Builder { uart: _, programming, sub_mode, configuration, .. } = self;
        HC12Builder { uart, programming, sub_mode, baud_rate, configuration }
    }

    /// Add the control line and delay source that programming needs.
    pub fn programming_resources<P, D>(self, pin: P, delay: D) -> (r: HC12Builder<
        U,
        HC12ProgrammingResources<P, D>,
    >)
        ensures
            r@ == self@,
    {
        let HC12Builder { uart, programming: _, sub_mode, baud_rate, configuration } = self;
        HC12Builder {
            uart,
            programming: HC12ProgrammingResources::new(pin, delay),
            sub_mode,
            baud_rate,
            configuration,
        }
    }

    /// Choose the channel the device should be programmed to.
    pub fn channel(self, channel: Channel) -> (r: Self)
        ensures
            r@ == (BuilderView { channel: channel@, ..self@ }),
    {
        let mut s = self;
        s.configuration = HC12Configuration::new(channel, s.configuration.power);
        s
    }

    /// Choose the power level the device should be programmed to.
    pub fn power(self, power: Power) -> (r: Self)
        ensures
            r@ == (BuilderView { power: power_level(power), ..self@ }),
    {
        let mut s = self;
        s.configuration = HC12Configuration::new(s.configuration.channel, power);
        s
    }

    /// Choose the sub-mode. The pair it makes with the chosen baud rate is
    /// validated when a device is built.
    pub fn mode(self, sub_mode: SubMode) -> (r: Self)
        ensures
            r@ == (BuilderView { sub_mode, ..self@ }),
    {
        let mut s = self;
        s.sub_mode = sub_mode;
        s
    }

    /// Choose the baud rate. The pair it makes with the chosen sub-mode is
    /// validated when a device is built.
    pub fn speed(self, baud_rate: BaudRate) -> (r: Self)
        ensures
            r@ == (BuilderView { baud_rate, ..self@ }),
    {
        let mut s = self;
        s.baud_rate = baud_rate;
        s
    }

    /// Return the raw resources.
    pub fn into_inner(self) -> (r: (U, R)) {
        (self.uart, self.programming)
    }

    /// An alias of `into_inner`.
    pub fn to_inner(self) -> (r: (U, R)) {
        self.into_inner()
    }
}

impl<U: Transport, R> HC12Builder<U, R> {
    /// Build a transparent-regime device in the full-speed sub-mode, which
    /// every baud rate is legal for; this needs no control line and cannot
    /// fail. The caller vouches that the module itself is in this state.
    pub fn fu3(self, configuration: HC12Configuration) -> (r: HC12<U, R>)
        ensures
            r@.regime == Regime::Transparent,
            r@.sub_mode == SubMode::Fu3,
            r@.baud_rate == self@.baud_rate,
            r@.channel == configuration.channel@,
            r@.power == power_level(configuration.power),
            r@.wf(),
    {
        let HC12Builder { uart, programming, baud_rate, .. } = self;
        HC12 {
            uart,
            programming,
            regime: Regime::Transparent,
            sub_mode: SubMode::Fu3,
            baud_rate,
            configuration,
        }
    }
}

impl<U: Transport, R: ValidProgrammingResources> HC12Builder<U, R> {
    /// Build a configuration-regime device: validate the remembered
    /// sub-mode/baud-rate pair, pull the control line low and wait the
    /// settle delay. On failure the transport and the resources come back
    /// inside the error.
    pub fn at(self, configuration: HC12Configuration) -> (r: Result<
        HC12<U, R>,
        HC12Error<BuildError<R::Error>, U, R>,
    >)
        ensures
            r matches Ok(d) ==> {
                &&& d@.regime == Regime::Configuration
                &&& d@.sub_mode == self@.sub_mode
                &&& d@.baud_rate == self@.baud_rate
                &&& d@.channel == configuration.channel@
                &&& d@.power == power_level(configuration.power)
                &&& d@.wf()
            },
            !sub_mode_supports(self@.sub_mode, self@.baud_rate) ==> (r matches Err(e)
                && e.error == BuildError::<R::Error>::IncompatiblePairing(
                self@.sub_mode,
                self@.baud_rate,
            )),
            r matches Err(e) ==> (sub_mode_supports(self@.sub_mode, self@.baud_rate)
                ==> e.error is PinError),
    {
        let HC12Builder { uart, mut programming, sub_mode, baud_rate, .. } = self;
        if !sub_mode.supports(baud_rate) {
            return Err(
                HC12Error {
                    error: BuildError::IncompatiblePairing(sub_mode, baud_rate),
                    uart,
                    pin: programming,
                },
            );
        }
        match programming.pull_at() {
            Ok(()) => Ok(
                HC12 {
                    uart,
                    programming,
                    regime: Regime::Configuration,
                    sub_mode,
                    baud_rate,
                    configuration,
                },
            ),
            Err(e) => Err(HC12Error { error: BuildError::PinError(e), uart, pin: programming }),
        }
    }

    /// Build a transparent-regime device, driving the control line high
    /// first: validate the pair, release the line, wait the settle delay.
    pub fn attempt_build(self, configuration: HC12Configuration) -> (r: Result<
        HC12<U, R>,
        HC12Error<BuildError<R::Error>, U, R>,
    >)
        ensures
            r matches Ok(d) ==> {
                &&& d@.regime == Regime::Transparent
                &&& d@.sub_mode == self@.sub_mode
                &&& d@.baud_rate == self@.baud_rate
                &&& d@.channel == configuration.channel@
                &&& d@.power == power_level(configuration.power)
                &&& d@.wf()
            },
            !sub_mode_supports(self@.sub_mode, self@.baud_rate) ==> (r matches Err(e)
                && e.error == BuildError::<R::Error>::IncompatiblePairing(
                self@.sub_mode,
                self@.baud_rate,
            )),
            r matches Err(e) ==> (sub_mode_supports(self@.sub_mode, self@.baud_rate)
                ==> e.error is PinError),
    {
        let HC12Builder { uart, mut programming, sub_mode, baud_rate, .. } = self;
        if !sub_mode.supports(baud_rate) {
            return Err(
                HC12Error {
                    error: BuildError::IncompatiblePairing(sub_mode, baud_rate),
                    uart,
                    pin: programming,
                },
            );
        }
        match programming.pull_transparent() {
            Ok(()) => Ok(
                HC12 {
                    uart,
                    programming,
                    regime: Regime::Transparent,
                    sub_mode,
                    baud_rate,
                    configuration,
                },
            ),
            Err(e) => Err(HC12Error { error: BuildError::PinError(e), uart, pin: programming }),
        }
    }
}

/// Between two legal sub-mode/baud-rate pairs there is always an order of
/// the two commands whose intermediate state is legal too: when the new rate
/// is illegal for the old sub-mode, the old rate is legal for the new
/// sub-mode.
pub proof fn lemma_safe_transition_order(m0: SubMode, b0: BaudRate, m: SubMode, b: BaudRate)
    requires
        sub_mode_supports(m0, b0),
        sub_mode_supports(m, b),
        !sub_mode_supports(m0, b),
    ensures
        sub_mode_supports(m, b0),
{
}

impl<U: Transport, R> HC12<U, R> {
    /// Pass a byte run through to the radio while in the transparent regime.
    pub fn write(&mut self, data: &Vec<u8>) -> (r: Result<(), U::Error>)
        requires
            old(self)@.regime is Transparent,
        ensures
            final(self)@ == old(self)@,
    {
        self.uart.write_all(data)
    }

    /// Push buffered output out to the wire.
    pub fn flush(&mut self) -> (r: Result<(), U::Error>)
        requires
            old(self)@.regime is Transparent,
        ensures
            final(self)@ == old(self)@,
    {
        self.uart.flush()
    }

    /// Whether passed-through data is waiting to be read.
    pub fn read_ready(&mut self) -> (r: Result<bool, U::Error>)
        requires
            old(self)@.regime is Transparent,
        ensures
            final(self)@ == old(self)@,
    {
        self.uart.read_ready()
    }

    /// Read up to `max` passed-through bytes in one attempt.
    pub fn read(&mut self, max: usize) -> (r: Result<Vec<u8>, U::Error>)
        requires
            old(self)@.regime is Transparent,
        ensures
            final(self)@ == old(self)@,
    {
        self.uart.read_chunk(max)
    }
}

impl<U: Transport, R: ValidProgrammingResources> HC12<U, R> {
    /// Drain and discard whatever is buffered on the transport, so stale
    /// bytes from an earlier exchange are never mistaken for this command's
    /// response. The drain is bounded: the protocol never spins without
    /// limit.
    fn clear_buffer(&mut self) -> (r: Result<(), ATCommandError<U::Error>>)
        ensures
            final(self)@ == old(self)@,
            r matches Err(e) ==> e is DeviceError,
    {
        let mut attempts: usize = 0;
        while attempts < 16
            invariant
                self@ == old(self)@,
            decreases 16 - attempts,
        {
            match self.uart.read_ready() {
                Ok(true) => {
                    match self.uart.read_chunk(16) {
                        Ok(_) => {},
                        Err(e) => {
                            return Err(ATCommandError::DeviceError(e));
                        },
                    }
                },
                Ok(false) => {
                    return Ok(());
                },
                Err(e) => {
                    return Err(ATCommandError::DeviceError(e));
                },
            }
            attempts = attempts + 1;
        }
        Ok(())
    }

    /// Write one framed command to the transport in full; a short write or
    /// transport error ends the attempt.
    fn send_at_string(&mut self, command: &ATCommandString) -> (r: Result<
        (),
        ATCommandError<U::Error>,
    >)
        ensures
            final(self)@ == old(self)@,
            r matches Err(e) ==> e is DeviceError,
    {
        match self.uart.write_all(command.as_bytes()) {
            Ok(()) => {},
            Err(e) => {
                return Err(ATCommandError::DeviceError(e));
            },
        }
        match self.uart.flush() {
            Ok(()) => Ok(()),
            Err(e) => Err(ATCommandError::DeviceError(e)),
        }
    }

    /// Poll read-readiness once. Nothing ready is the distinct NoResponse
    /// outcome, and no read is attempted; otherwise read once, up to the
    /// 16-byte buffer bound.
    fn read_response(&mut self) -> (r: Result<ATCommandString, ATCommandError<U::Error>>)
        ensures
            final(self)@ == old(self)@,
            r matches Err(e) ==> e is DeviceError || e is NoResponse,
    {
        match self.uart.read_ready() {
            Err(e) => Err(ATCommandError::DeviceError(e)),
            Ok(false) => Err(ATCommandError::NoResponse),
            Ok(true) => match self.uart.read_chunk(16) {
                Err(e) => Err(ATCommandError::DeviceError(e)),
                Ok(bytes) => Ok(ATCommandString::capped(bytes)),
            },
        }
    }

    /// Wait out the settle delay the module needs to process a command,
    /// read the response once, and classify it.
    fn check_response(&mut self) -> (r: Result<ATCommandString, ATCommandError<U::Error>>)
        ensures
            final(self)@ == old(self)@,
            r matches Ok(s) ==> contains_ok(s@),
            r matches Err(e) ==> !(e is IncompatiblePairing),
            r matches Err(e) ==> !(e is NoOk) || (e matches ATCommandError::NoOk(n)
                && !contains_ok(n.response@)),
    {
        self.programming.wait_for_response();
        let buf = match self.read_response() {
            Ok(b) => b,
            Err(e) => {
                return Err(e);
            },
        };
        match classify_response(buf) {
            Ok(s) => Ok(s),
            Err(e) => Err(ATCommandError::NoOk(e)),
        }
    }

    /// One full command exchange: drain the buffer, send the framed
    /// command, wait the settle delay, read once, check for the marker.
    fn send_sequence(&mut self, command: &ATCommandString) -> (r: Result<
        (),
        ATCommandError<U::Error>,
    >)
        requires
            command@.len() <= buffer_capacity() - 2,
        ensures
            final(self)@ == old(self)@,
            r matches Err(e) ==> !(e is IncompatiblePairing),
    {
        let framed_command = frame_command(command);
        match self.clear_buffer() {
            Ok(()) => {},
            Err(e) => {
                return Err(e);
            },
        }
        match self.send_at_string(&framed_command) {
            Ok(()) => {},
            Err(e) => {
                return Err(e);
            },
        }
        match self.check_response() {
            Ok(_) => Ok(()),
            Err(e) => Err(e),
        }
    }

    /// Program a new power level. On success the remembered configuration
    /// is updated; on failure the device is unchanged and the caller may
    /// retry with the same handle.
    pub fn set_power(&mut self, power: Power) -> (r: Result<(), ATCommandError<U::Error>>)
        requires
            old(self)@.regime is Configuration,
        ensures
            r is Ok ==> final(self)@ == spec_set_power(old(self)@, power_level(power)),
            r is Err ==> final(self)@ == old(self)@,
            r matches Err(e) ==> !(e is IncompatiblePairing),
    {
        let command = encode_power(power);
        match self.send_sequence(&command) {
            Ok(()) => {
                self.configuration = HC12Configuration::new(self.configuration.channel, power);
                Ok(())
            },
            Err(e) => Err(e),
        }
    }

    /// Program a new channel. On success the remembered configuration is
    /// updated; on failure the device is unchanged.
    pub fn set_channel(&mut self, channel: Channel) -> (r: Result<
        (),
        ATCommandError<U::Error>,
    >)
        requires
            old(self)@.regime is Configuration,
        ensures
            r is Ok ==> final(self)@ == spec_set_channel(old(self)@, channel@),
            r is Err ==> final(self)@ == old(self)@,
            r matches Err(e) ==> !(e is IncompatiblePairing),
    {
        let command = encode_channel(channel);
        match self.send_sequence(&command) {
            Ok(()) => {
                self.configuration = HC12Configuration::new(channel, self.configuration.power);
                Ok(())
            },
            Err(e) => Err(e),
        }
    }

    /// Program a whole channel-and-power configuration, power first. When
    /// the channel command fails after the power command succeeded, the
    /// remembered state reflects exactly what the module acknowledged.
    pub fn set_configuration(&mut self, configuration: HC12Configuration) -> (r: Result<
        (),
        ATCommandError<U::Error>,
    >)
        requires
            old(self)@.regime is Configuration,
        ensures
            r is Ok ==> final(self)@ == spec_set_channel(
                spec_set_power(old(self)@, power_level(configuration.power)),
                configuration.channel@,
            ),
            r is Err ==> final(self)@ == old(self)@ || final(self)@ == spec_set_power(
                old(self)@,
                power_level(configuration.power),
            ),
            r matches Err(e) ==> !(e is IncompatiblePairing),
    {
        match self.set_power(configuration.power) {
            Ok(()) => {},
            Err(e) => {
                return Err(e);
            },
        }
        self.set_channel(configuration.channel)
    }

    /// Program a new baud rate. The pair it makes with the remembered
    /// sub-mode is validated before anything is sent: an illegal pairing is
    /// refused outright, with the device handed back untouched. A baud
    /// change is destructive: on success the remembered rate changes, so
    /// leaving the configuration regime will resume at the new rate, and
    /// the host side of the wire must be reconfigured to match.
    pub fn set_baudrate(self, baud_rate: BaudRate) -> (r: Result<
        HC12<U, R>,
        HC12ProgrammingError<ATCommandError<U::Error>, HC12<U, R>>,
    >)
        requires
            self@.regime is Configuration,
        ensures
            r matches Ok(d) ==> d@ == spec_set_baud_rate(self@, baud_rate)
                && sub_mode_supports(self@.sub_mode, baud_rate),
            r matches Err(e) ==> e.last@ == self@,
            !sub_mode_supports(self@.sub_mode, baud_rate) ==> (r matches Err(e)
                && e.error == ATCommandError::<U::Error>::IncompatiblePairing(
                self@.sub_mode,
                baud_rate,
            )),
            r matches Err(e) ==> (sub_mode_supports(self@.sub_mode, baud_rate)
                ==> !(e.error is IncompatiblePairing)),
    {
        let mut this = self;
        if !this.sub_mode.supports(baud_rate) {
            let sub_mode = this.sub_mode;
            return Err(
                HC12ProgrammingError {
                    error: ATCommandError::IncompatiblePairing(sub_mode, baud_rate),
                    last: this,
                },
            );
        }
        let command = encode_baud_rate(baud_rate);
        match this.send_sequence(&command) {
            Ok(()) => {
                this.baud_rate = baud_rate;
                Ok(this)
            },
            Err(e) => Err(HC12ProgrammingError { error: e, last: this }),
        }
    }

    /// Program a new sub-mode. The pair it makes with the remembered baud
    /// rate is validated before anything is sent; on success the remembered
    /// sub-mode changes, so leaving the configuration regime will resume in
    /// the new sub-mode.
    pub fn set_mode(self, sub_mode: SubMode) -> (r: Result<
        HC12<U, R>,
        HC12ProgrammingError<ATCommandError<U::Error>, HC12<U, R>>,
    >)
        requires
            self@.regime is Configuration,
        ensures
            r matches Ok(d) ==> d@ == spec_set_sub_mode(self@, sub_mode)
                && sub_mode_supports(sub_mode, self@.baud_rate),
            r matches Err(e) ==> e.last@ == self@,
            !sub_mode_supports(sub_mode, self@.baud_rate) ==> (r matches Err(e)
                && e.error == ATCommandError::<U::Error>::IncompatiblePairing(
                sub_mode,
                self@.baud_rate,
            )),
            r matches Err(e) ==> (sub_mode_supports(sub_mode, self@.baud_rate)
                ==> !(e.error is IncompatiblePairing)),
    {
        let mut this = self;
        if !sub_mode.supports(this.baud_rate) {
            let baud_rate = this.baud_rate;
            return Err(
                HC12ProgrammingError {
                    error: ATCommandError::IncompatiblePairing(sub_mode, baud_rate),
                    last: this,
                },
            );
        }
        let command = encode_sub_mode(sub_mode);
        match this.send_sequence(&command) {
            Ok(()) => {
                this.sub_mode = sub_mode;
                Ok(this)
            },
            Err(e) => Err(HC12ProgrammingError { error: e, last: this }),
        }
    }

    /// Program sub-mode, baud rate, power and channel in one pass, choosing
    /// an order of the sub-mode and baud-rate commands whose intermediate
    /// state is a legal pair too. Power and channel are taken from the
    /// remembered configuration.
    pub fn program(self, sub_mode: SubMode, baud_rate: BaudRate) -> (r: Result<
        HC12<U, R>,
        HC12ProgrammingError<ATCommandError<U::Error>, HC12<U, R>>,
    >)
        requires
            self@.regime is Configuration,
            self@.wf(),
        ensures
            r matches Ok(d) ==> d@ == spec_set_sub_mode(
                spec_set_baud_rate(self@, baud_rate),
                sub_mode,
            ) && d@.wf(),
            !sub_mode_supports(sub_mode, baud_rate) ==> (r matches Err(e)
                && e.error == ATCommandError::<U::Error>::IncompatiblePairing(
                sub_mode,
                baud_rate,
            ) && e.last@ == self@),
            r matches Err(e) ==> {
                &&& e.last@.wf()
                &&& e.last@.regime == self@.regime
                &&& e.last@.channel == self@.channel
                &&& e.last@.power == self@.power
                &&& (e.last@.sub_mode == self@.sub_mode || e.last@.sub_mode == sub_mode)
                &&& (e.last@.baud_rate == self@.baud_rate || e.last@.baud_rate == baud_rate)
            },
    {
        let mut this = self;
        if !sub_mode.supports(baud_rate) {
            return Err(
                HC12ProgrammingError {
                    error: ATCommandError::IncompatiblePairing(sub_mode, baud_rate),
                    last: this,
                },
            );
        }
        if this.sub_mode.supports(baud_rate) {
            let command = encode_baud_rate(baud_rate);
            match this.send_sequence(&command) {
                Ok(()) => {
                    this.baud_rate = baud_rate;
                },
                Err(e) => {
                    return Err(HC12ProgrammingError { error: e, last: this });
                },
            }
            let command = encode_sub_mode(sub_mode);
            match this.send_sequence(&command) {
                Ok(()) => {
                    this.sub_mode = sub_mode;
                },
                Err(e) => {
                    return Err(HC12ProgrammingError { error: e, last: this });
                },
            }
        } else {
            proof {
                lemma_safe_transition_order(this.sub_mode, this.baud_rate, sub_mode, baud_rate);
            }
            let command = encode_sub_mode(sub_mode);
            match this.send_sequence(&command) {
                Ok(()) => {
                    this.sub_mode = sub_mode;
                },
                Err(e) => {
                    return Err(HC12ProgrammingError { error: e, last: this });
                },
            }
            let command = encode_baud_rate(baud_rate);
            match this.send_sequence(&command) {
                Ok(()) => {
                    this.baud_rate = baud_rate;
                },
                Err(e) => {
                    return Err(HC12ProgrammingError { error: e, last: this });
                },
            }
        }
        let power = this.configuration.power;
        match this.set_power(power) {
            Ok(()) => {},
            Err(e) => {
                return Err(HC12ProgrammingError { error: e, last: this });
            },
        }
        let channel = this.configuration.channel;
        match this.set_channel(channel) {
            Ok(()) => {},
            Err(e) => {
                return Err(HC12ProgrammingError { error: e, last: this });
            },
        }
        Ok(this)
    }

    /// Cross from the transparent regime into the configuration regime:
    /// drive the control line low and wait the settle delay. On failure the
    /// device comes back untouched inside the error.
    pub fn into_at_mode(self) -> (r: Result<
        HC12<U, R>,
        HC12ProgrammingError<R::Error, HC12<U, R>>,
    >)
        requires
            self@.regime is Transparent,
            self@.wf(),
        ensures
            r matches Ok(d) ==> d@ == spec_enter_configuration(self@) && d@.wf(),
            r matches Err(e) ==> e.last@ == self@,
    {
        let mut this = self;
        match this.programming.pull_at() {
            Ok(()) => {
                this.regime = Regime::Configuration;
                Ok(this)
            },
            Err(e) => Err(HC12ProgrammingError { error: e, last: this }),
        }
    }

    /// Cross from the configuration regime back into the transparent
    /// regime: release the control line and wait the settle delay. The
    /// remembered sub-mode/baud-rate pair is restored exactly, and it is a
    /// legal pair, because well-formedness holds in both regimes.
    pub fn into_transparent(self) -> (r: Result<
        HC12<U, R>,
        HC12ProgrammingError<R::Error, HC12<U, R>>,
    >)
        requires
            self@.regime is Configuration,
            self@.wf(),
        ensures
            r matches Ok(d) ==> d@ == spec_leave_configuration(self@) && d@.wf(),
            r matches Err(e) ==> e.last@ == self@,
    {
        let mut this = self;
        match this.programming.pull_transparent() {
            Ok(()) => {
                this.regime = Regime::Transparent;
                Ok(this)
            },
            Err(e) => Err(HC12ProgrammingError { error: e, last: this }),
        }
    }
}

} // verus!
