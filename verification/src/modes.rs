//! The capability model: the closed set of baud rates, the closed set of
//! transparent-regime sub-modes, and the table saying which sub-mode works at
//! which baud rate. Illegal pairs are rejected at every construction and
//! transition boundary, so no device value ever carries one.

use vstd::prelude::*;

verus! {

/// A baud rate from the module's fixed closed set.
#[derive(Clone, Copy, Debug, PartialEq, Eq, Structural)]
pub enum BaudRate {
    B1200,
    B2400,
    B4800,
    B9600,
    B19200,
    B38400,
    B57600,
    B115200,
}

/// A transparent-regime sub-mode: full speed, two power-saving variants, or
/// long range.
#[derive(Clone, Copy, Debug, PartialEq, Eq, Structural)]
pub enum SubMode {
    /// Moderate power saving.
    Fu1,
    /// Extreme power saving.
    Fu2,
    /// Standard full-speed operation.
    Fu3,
    /// Maximum range.
    Fu4,
}

/// The two top-level regimes of the device. In the configuration regime the
/// control line is held low, the wire always runs at 9600 bps and AT commands
/// are accepted; in the transparent regime data passes through at the
/// programmed sub-mode and baud rate.
#[derive(Clone, Copy, Debug, PartialEq, Eq, Structural)]
pub enum Regime {
    Transparent,
    Configuration,
}

/// The bits-per-second value of each baud rate.
pub open spec fn baud_bps(b: BaudRate) -> int {
    match b {
        BaudRate::B1200 => 1200,
        BaudRate::B2400 => 2400,
        BaudRate::B4800 => 4800,
        BaudRate::B9600 => 9600,
        BaudRate::B19200 => 19200,
        BaudRate::B38400 => 38400,
        BaudRate::B57600 => 57600,
        BaudRate::B115200 => 115200,
    }
}

/// The capability table. Full-speed operation accepts every rate, the two
/// power-saving sub-modes accept exactly the three lowest rates, and the
/// long-range sub-mode accepts exactly the lowest rate.
pub open spec fn sub_mode_supports(m: SubMode, b: BaudRate) -> bool {
    match m {
        SubMode::Fu1 => b == BaudRate::B1200 || b == BaudRate::B2400 || b == BaudRate::B4800,
        SubMode::Fu2 => b == BaudRate::B1200 || b == BaudRate::B2400 || b == BaudRate::B4800,
        SubMode::Fu3 => true,
        SubMode::Fu4 => b == BaudRate::B1200,
    }
}

impl BaudRate {
    /// The rate in bits per second.
    pub fn bps(&self) -> (r: u32)
        ensures
            r as int == baud_bps(*self),
    {
        match self {
            BaudRate::B1200 => 1200,
            BaudRate::B2400 => 2400,
            BaudRate::B4800 => 4800,
            BaudRate::B9600 => 9600,
            BaudRate::B19200 => 19200,
            BaudRate::B38400 => 38400,
            BaudRate::B57600 => 57600,
            BaudRate::B115200 => 115200,
        }
    }
}

impl SubMode {
    /// Look a candidate pairing up in the capability table.
    pub fn supports(&self, baud: BaudRate) -> (r: bool)
        ensures
            r == sub_mode_supports(*self, baud),
    {
        match self {
            SubMode::Fu1 => matches!(
                baud,
                BaudRate::B1200 | BaudRate::B2400 | BaudRate::B4800
            ),
            SubMode::Fu2 => matches!(
                baud,
                BaudRate::B1200 | BaudRate::B2400 | BaudRate::B4800
            ),
            SubMode::Fu3 => true,
            SubMode::Fu4 => matches!(baud, BaudRate::B1200),
        }
    }
}

/// The sets of baud rates the sub-modes accept are exactly their documented
/// subsets: the full-speed sub-mode every rate, the two power-saving
/// sub-modes the rates up to 4800 bps, and the long-range sub-mode only the
/// lowest rate.
pub proof fn lemma_capability_table()
    ensures
        forall|b: BaudRate| sub_mode_supports(SubMode::Fu3, b),
        forall|b: BaudRate|
            sub_mode_supports(SubMode::Fu1, b) <==> baud_bps(b) <= 4800,
        forall|b: BaudRate|
            sub_mode_supports(SubMode::Fu2, b) <==> baud_bps(b) <= 4800,
        forall|b: BaudRate| sub_mode_supports(SubMode::Fu4, b) <==> b == BaudRate::B1200,
{
    assert forall|b: BaudRate| sub_mode_supports(SubMode::Fu3, b) by {
        lemma_supports_case(SubMode::Fu3, b);
    }
    assert forall|b: BaudRate|
        sub_mode_supports(SubMode::Fu1, b) <==> baud_bps(b) <= 4800 by {
        lemma_supports_case(SubMode::Fu1, b);
    }
    assert forall|b: BaudRate|
        sub_mode_supports(SubMode::Fu2, b) <==> baud_bps(b) <= 4800 by {
        lemma_supports_case(SubMode::Fu2, b);
    }
    assert forall|b: BaudRate|
        sub_mode_supports(SubMode::Fu4, b) <==> b == BaudRate::B1200 by {
        lemma_supports_case(SubMode::Fu4, b);
    }
}

proof fn lemma_supports_case(m: SubMode, b: BaudRate)
    ensures
        sub_mode_supports(m, b) <==> match m {
            SubMode::Fu1 => baud_bps(b) <= 4800,
            SubMode::Fu2 => baud_bps(b) <= 4800,
            SubMode::Fu3 => true,
            SubMode::Fu4 => b == BaudRate::B1200,
        },
{
    match b {
        BaudRate::B1200 => {},
        BaudRate::B2400 => {},
        BaudRate::B4800 => {},
        BaudRate::B9600 => {},
        BaudRate::B19200 => {},
        BaudRate::B38400 => {},
        BaudRate::B57600 => {},
        BaudRate::B115200 => {},
    }
}

} // verus!
