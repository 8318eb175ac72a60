//! Plain value types carried by the configuration commands: the radio
//! channel, the transmit power level, and the pair of them that the device
//! remembers as its programmed configuration.

use vstd::prelude::*;

verus! {

/// An invalid channel number was used; the rejected value is kept for
/// diagnostics.
#[derive(Clone, Copy, Debug, PartialEq, Eq, Structural)]
pub struct InvalidChannelSetting(pub u8);

/// A radio channel. Channels 1 through 127 are valid.
#[derive(Clone, Copy, Debug, PartialEq, Eq, Structural)]
pub struct Channel {
    channel: u8,
}

impl View for Channel {
    type V = int;

    closed spec fn view(&self) -> int {
        self.channel as int
    }
}

impl Channel {
    /// Every live channel value holds a number within 1..=127.
    #[verifier::type_invariant]
    pub closed spec fn inv(&self) -> bool {
        1 <= self.channel <= 127
    }

    /// Try to create a channel from a raw number; anything outside 1..=127 is
    /// rejected at construction and never reaches the wire.
    pub fn new(channel: u8) -> (r: Result<Self, InvalidChannelSetting>)
        ensures
            r is Ok <==> 1 <= channel <= 127,
            r matches Ok(c) ==> c@ == channel as int,
            r matches Err(e) ==> e == InvalidChannelSetting(channel),
    {
        if 1 <= channel && channel <= 127 {
            Ok(Channel { channel })
        } else {
            Err(InvalidChannelSetting(channel))
        }
    }

    /// The raw channel number, always within 1..=127.
    pub fn value(&self) -> (r: u8)
        ensures
            r as int == self@,
            1 <= r <= 127,
    {
        proof {
            use_type_invariant(self);
        }
        self.channel
    }
}

impl Default for Channel {
    /// The factory default channel is 1.
    fn default() -> (r: Self)
        ensures
            r@ == 1,
    {
        Channel { channel: 1 }
    }
}

/// An invalid power level was used; the rejected value is kept for
/// diagnostics.
#[derive(Clone, Copy, Debug, PartialEq, Eq, Structural)]
pub struct InvalidPowerSetting(pub u8);

/// A transmit power level. The module offers eight levels; each maps to a
/// published output power in dBm by a fixed table.
#[derive(Clone, Copy, Debug, PartialEq, Eq, Structural)]
pub enum Power {
    P1,
    P2,
    P3,
    P4,
    P5,
    P6,
    P7,
    P8,
}

/// The wire digit of a power level: 1 through 8.
pub open spec fn power_level(p: Power) -> int {
    match p {
        Power::P1 => 1,
        Power::P2 => 2,
        Power::P3 => 3,
        Power::P4 => 4,
        Power::P5 => 5,
        Power::P6 => 6,
        Power::P7 => 7,
        Power::P8 => 8,
    }
}

/// The published output power of each level, in dBm. This is a fixed lookup
/// table from the module's data sheet, not a formula.
pub open spec fn power_dbm(p: Power) -> int {
    match p {
        Power::P1 => -1,
        Power::P2 => 2,
        Power::P3 => 5,
        Power::P4 => 8,
        Power::P5 => 11,
        Power::P6 => 14,
        Power::P7 => 17,
        Power::P8 => 20,
    }
}

impl Power {
    /// Try to create a power level from a raw number; anything outside 1..=8
    /// is rejected at construction and never reaches the wire.
    pub fn new(level: u8) -> (r: Result<Self, InvalidPowerSetting>)
        ensures
            r is Ok <==> 1 <= level <= 8,
            r matches Ok(p) ==> power_level(p) == level as int,
            r matches Err(e) ==> e == InvalidPowerSetting(level),
    {
        match level {
            1 => Ok(Power::P1),
            2 => Ok(Power::P2),
            3 => Ok(Power::P3),
            4 => Ok(Power::P4),
            5 => Ok(Power::P5),
            6 => Ok(Power::P6),
            7 => Ok(Power::P7),
            8 => Ok(Power::P8),
            _ => Err(InvalidPowerSetting(level)),
        }
    }

    /// The wire digit of this power level.
    pub fn value(&self) -> (r: u8)
        ensures
            r as int == power_level(*self),
    {
        match self {
            Power::P1 => 1,
            Power::P2 => 2,
            Power::P3 => 3,
            Power::P4 => 4,
            Power::P5 => 5,
            Power::P6 => 6,
            Power::P7 => 7,
            Power::P8 => 8,
        }
    }

    /// The published output power of this level in dBm, looked up from the
    /// fixed table.
    #[allow(non_snake_case)]
    pub fn dBm(&self) -> (r: i8)
        ensures
            r as int == power_dbm(*self),
    {
        match self {
            Power::P1 => -1,
            Power::P2 => 2,
            Power::P3 => 5,
            Power::P4 => 8,
            Power::P5 => 11,
            Power::P6 => 14,
            Power::P7 => 17,
            Power::P8 => 20,
        }
    }
}

impl Default for Power {
    /// The factory default power level is the maximum, level 8.
    fn default() -> (r: Self)
        ensures
            r == Power::P8,
    {
        Power::P8
    }
}

/// The programmed channel and power of the device. These settings are kept
/// alongside the sub-mode and baud rate; a device carries them across regime
/// transitions.
#[derive(Clone, Copy, Debug, PartialEq, Eq, Structural)]
pub struct HC12Configuration {
    pub channel: Channel,
    pub power: Power,
}

impl HC12Configuration {
    pub fn new(channel: Channel, power: Power) -> (r: Self)
        ensures
            r.channel == channel,
            r.power == power,
    {
        HC12Configuration { channel, power }
    }
}

impl Default for HC12Configuration {
    /// Factory settings: channel 1 at full power.
    fn default() -> (r: Self)
        ensures
            r.channel@ == 1,
            r.power == Power::P8,
    {
        HC12Configuration { channel: Channel::default(), power: Power::default() }
    }
}

} // verus!
