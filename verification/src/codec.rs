//! The command codec: renders a requested setting into its fixed-format
//! ASCII command, frames it for the wire, and classifies a raw response
//! buffer as success or failure.
//!
//! A response counts as success exactly when it contains the ASCII marker
//! `OK`, case-sensitively; reads of the response are gated on the transport
//! reporting itself ready (see the session module). Both choices are
//! deliberate and uniform across the crate.

use vstd::prelude::*;

use crate::configuration::Channel;
use crate::configuration::Power;
use crate::configuration::power_level;
use crate::modes::BaudRate;
use crate::modes::SubMode;

verus! {

/// The number of bytes a command or response buffer can hold. The longest
/// legal request is 12 bytes with its terminator; 16 leaves headroom.
pub open spec fn buffer_capacity() -> int {
    16
}

pub const ASCII_A: u8 = 65;

pub const ASCII_B: u8 = 66;

pub const ASCII_C: u8 = 67;

pub const ASCII_F: u8 = 70;

pub const ASCII_K: u8 = 75;

pub const ASCII_O: u8 = 79;

pub const ASCII_P: u8 = 80;

pub const ASCII_T: u8 = 84;

pub const ASCII_U: u8 = 85;

pub const ASCII_PLUS: u8 = 43;

pub const ASCII_CR: u8 = 13;

pub const ASCII_LF: u8 = 10;

/// A bounded ASCII buffer, used both for outgoing commands and for captured
/// responses. It never holds more than 16 bytes.
#[derive(Debug)]
pub struct ATCommandString {
    bytes: Vec<u8>,
}

impl View for ATCommandString {
    type V = Seq<u8>;

    closed spec fn view(&self) -> Seq<u8> {
        self.bytes@
    }
}

impl ATCommandString {
    /// Every live buffer stays within the 16-byte bound.
    #[verifier::type_invariant]
    pub closed spec fn inv(&self) -> bool {
        self.bytes@.len() <= buffer_capacity()
    }

    /// An empty buffer.
    pub fn new() -> (r: Self)
        ensures
            r@ == Seq::<u8>::empty(),
    {
        ATCommandString { bytes: Vec::new() }
    }

    /// Wrap a byte run that is known to fit the buffer.
    pub fn from_bytes(bytes: Vec<u8>) -> (r: Self)
        requires
            bytes@.len() <= buffer_capacity(),
        ensures
            r@ == bytes@,
    {
        ATCommandString { bytes }
    }

    /// Wrap a byte run of any length, keeping only its first 16 bytes: the
    /// bound is enforced, never assumed.
    pub fn capped(bytes: Vec<u8>) -> (r: Self)
        ensures
            bytes@.len() <= buffer_capacity() ==> r@ == bytes@,
            bytes@.len() > buffer_capacity() ==> r@ == bytes@.subrange(
                0,
                buffer_capacity(),
            ),
            r@.len() <= buffer_capacity(),
    {
        if bytes.len() <= 16 {
            proof {
                assert(bytes@.subrange(0, bytes@.len() as int) =~= bytes@);
            }
            ATCommandString { bytes }
        } else {
            let mut kept: Vec<u8> = Vec::new();
            let mut i: usize = 0;
            while i < 16
                invariant
                    i <= 16,
                    bytes@.len() > buffer_capacity(),
                    kept@ == bytes@.subrange(0, i as int),
                decreases 16 - i,
            {
                kept.push(bytes[i]);
                i = i + 1;
                proof {
                    assert(kept@ =~= bytes@.subrange(0, i as int));
                }
            }
            ATCommandString { bytes: kept }
        }
    }

    /// How many bytes the buffer holds.
    pub fn len(&self) -> (r: usize)
        ensures
            r == self@.len(),
            r <= buffer_capacity(),
    {
        proof {
            use_type_invariant(self);
        }
        self.bytes.len()
    }

    /// The held bytes.
    pub fn as_bytes(&self) -> (r: &Vec<u8>)
        ensures
            r@ == self@,
    {
        &self.bytes
    }
}

/// The ASCII digit for a value between 0 and 9.
pub open spec fn ascii_digit(d: int) -> u8 {
    (48 + d) as u8
}

/// The command body requesting a channel change: `AT+C` followed by exactly
/// three decimal digits, zero-padded.
pub open spec fn channel_command(ch: int) -> Seq<u8> {
    seq![
        ASCII_A,
        ASCII_T,
        ASCII_PLUS,
        ASCII_C,
        ascii_digit(ch / 100),
        ascii_digit((ch / 10) % 10),
        ascii_digit(ch % 10),
    ]
}

/// The numeric value read back from a three-byte run of ASCII digits, as a
/// receiver of the channel command would decode it.
pub open spec fn parse_digits3(s: Seq<u8>) -> int
    recommends
        s.len() == 3,
{
    (s[0] as int - 48) * 100 + (s[1] as int - 48) * 10 + (s[2] as int - 48)
}

/// For every channel number 1 through 127, rendering the channel command and
/// decoding its three-digit field recovers the number exactly.
pub proof fn lemma_channel_roundtrip(ch: int)
    requires
        1 <= ch <= 127,
    ensures
        parse_digits3(channel_command(ch).subrange(4, 7)) == ch,
{
    let s = channel_command(ch).subrange(4, 7);
    assert(s[0] == ascii_digit(ch / 100));
    assert(s[1] == ascii_digit((ch / 10) % 10));
    assert(s[2] == ascii_digit(ch % 10));
    vstd::arithmetic::div_mod::lemma_fundamental_div_mod(ch, 10);
    vstd::arithmetic::div_mod::lemma_mod_division_less_than_divisor(ch, 10);
    vstd::arithmetic::div_mod::lemma_fundamental_div_mod(ch / 10, 10);
    vstd::arithmetic::div_mod::lemma_mod_division_less_than_divisor(ch / 10, 10);
    vstd::arithmetic::div_mod::lemma_div_denominator(ch, 10, 10);
    vstd::arithmetic::div_mod::lemma_fundamental_div_mod(ch, 100);
    vstd::arithmetic::div_mod::lemma_mod_division_less_than_divisor(ch, 100);
}

/// The command body requesting a power change: `AT+P` followed by the single
/// digit of the level.
pub open spec fn power_command(p: Power) -> Seq<u8> {
    seq![ASCII_A, ASCII_T, ASCII_PLUS, ASCII_P, ascii_digit(power_level(p))]
}

/// The wire digit of a sub-mode: 1 through 4.
pub open spec fn sub_mode_digit(m: SubMode) -> int {
    match m {
        SubMode::Fu1 => 1,
        SubMode::Fu2 => 2,
        SubMode::Fu3 => 3,
        SubMode::Fu4 => 4,
    }
}

/// The command body requesting a sub-mode change: the fixed three-character
/// code `FU1` through `FU4` after the `AT+` prefix.
pub open spec fn sub_mode_command(m: SubMode) -> Seq<u8> {
    seq![ASCII_A, ASCII_T, ASCII_PLUS, ASCII_F, ASCII_U, ascii_digit(sub_mode_digit(m))]
}

/// The decimal digits of a baud rate's bits-per-second value.
pub open spec fn baud_digits(b: BaudRate) -> Seq<u8> {
    match b {
        BaudRate::B1200 => seq![ascii_digit(1), ascii_digit(2), ascii_digit(0), ascii_digit(0)],
        BaudRate::B2400 => seq![ascii_digit(2), ascii_digit(4), ascii_digit(0), ascii_digit(0)],
        BaudRate::B4800 => seq![ascii_digit(4), ascii_digit(8), ascii_digit(0), ascii_digit(0)],
        BaudRate::B9600 => seq![ascii_digit(9), ascii_digit(6), ascii_digit(0), ascii_digit(0)],
        BaudRate::B19200 => seq![ascii_digit(1), ascii_digit(9), ascii_digit(2), ascii_digit(0), ascii_digit(0)],
        BaudRate::B38400 => seq![ascii_digit(3), ascii_digit(8), ascii_digit(4), ascii_digit(0), ascii_digit(0)],
        BaudRate::B57600 => seq![ascii_digit(5), ascii_digit(7), ascii_digit(6), ascii_digit(0), ascii_digit(0)],
        BaudRate::B115200 => seq![ascii_digit(1), ascii_digit(1), ascii_digit(5), ascii_digit(2), ascii_digit(0), ascii_digit(0)],
    }
}

/// The command body requesting a baud-rate change: `AT+B` followed by the
/// decimal bits-per-second value.
pub open spec fn baud_command(b: BaudRate) -> Seq<u8> {
    seq![ASCII_A, ASCII_T, ASCII_PLUS, ASCII_B] + baud_digits(b)
}

/// Render the channel-change command body, for example `AT+C005` for
/// channel 5.
pub fn encode_channel(channel: Channel) -> (r: ATCommandString)
    ensures
        r@ == channel_command(channel@),
{
    let v = channel.value();
    let mut bytes: Vec<u8> = Vec::new();
    bytes.push(ASCII_A);
    bytes.push(ASCII_T);
    bytes.push(ASCII_PLUS);
    bytes.push(ASCII_C);
    bytes.push(48 + v / 100);
    bytes.push(48 + (v / 10) % 10);
    bytes.push(48 + v % 10);
    proof {
        assert(bytes@ =~= channel_command(channel@));
    }
    ATCommandString::from_bytes(bytes)
}

/// Render the power-change command body, for example `AT+P3` for level 3.
pub fn encode_power(power: Power) -> (r: ATCommandString)
    ensures
        r@ == power_command(power),
{
    let v = power.value();
    proof {
        assert(power_level(power) <= 8) by {
            match power {
                Power::P1 => {},
                Power::P2 => {},
                Power::P3 => {},
                Power::P4 => {},
                Power::P5 => {},
                Power::P6 => {},
                Power::P7 => {},
                Power::P8 => {},
            }
        }
    }
    let mut bytes: Vec<u8> = Vec::new();
    bytes.push(ASCII_A);
    bytes.push(ASCII_T);
    bytes.push(ASCII_PLUS);
    bytes.push(ASCII_P);
    bytes.push(48 + v);
    proof {
        assert(bytes@ =~= power_command(power));
    }
    ATCommandString::from_bytes(bytes)
}

/// Render the sub-mode-change command body, for example `AT+FU3`.
pub fn encode_sub_mode(sub_mode: SubMode) -> (r: ATCommandString)
    ensures
        r@ == sub_mode_command(sub_mode),
{
    let digit: u8 = match sub_mode {
        SubMode::Fu1 => 1,
        SubMode::Fu2 => 2,
        SubMode::Fu3 => 3,
        SubMode::Fu4 => 4,
    };
    let mut bytes: Vec<u8> = Vec::new();
    bytes.push(ASCII_A);
    bytes.push(ASCII_T);
    bytes.push(ASCII_PLUS);
    bytes.push(ASCII_F);
    bytes.push(ASCII_U);
    bytes.push(48 + digit);
    proof {
        assert(bytes@ =~= sub_mode_command(sub_mode));
    }
    ATCommandString::from_bytes(bytes)
}

/// Render the baud-rate-change command body, for example `AT+B9600`.
pub fn encode_baud_rate(baud: BaudRate) -> (r: ATCommandString)
    ensures
        r@ == baud_command(baud),
{
    let mut bytes: Vec<u8> = Vec::new();
    bytes.push(ASCII_A);
    bytes.push(ASCII_T);
    bytes.push(ASCII_PLUS);
    bytes.push(ASCII_B);
    match baud {
        BaudRate::B1200 => {
            bytes.push(49);
            bytes.push(50);
            bytes.push(48);
            bytes.push(48);
        },
        BaudRate::B2400 => {
            bytes.push(50);
            bytes.push(52);
            bytes.push(48);
            bytes.push(48);
        },
        BaudRate::B4800 => {
            bytes.push(52);
            bytes.push(56);
            bytes.push(48);
            bytes.push(48);
        },
        BaudRate::B9600 => {
            bytes.push(57);
            bytes.push(54);
            bytes.push(48);
            bytes.push(48);
        },
        BaudRate::B19200 => {
            bytes.push(49);
            bytes.push(57);
            bytes.push(50);
            bytes.push(48);
            bytes.push(48);
        },
        BaudRate::B38400 => {
            bytes.push(51);
            bytes.push(56);
            bytes.push(52);
            bytes.push(48);
            bytes.push(48);
        },
        BaudRate::B57600 => {
            bytes.push(53);
            bytes.push(55);
            bytes.push(54);
            bytes.push(48);
            bytes.push(48);
        },
        BaudRate::B115200 => {
            bytes.push(49);
            bytes.push(49);
            bytes.push(53);
            bytes.push(50);
            bytes.push(48);
            bytes.push(48);
        },
    }
    proof {
        assert(bytes@ =~= baud_command(baud));
    }
    ATCommandString::from_bytes(bytes)
}

/// The framed wire form of a command body: the body followed by the
/// carriage-return, line-feed terminator.
pub open spec fn framed(body: Seq<u8>) -> Seq<u8> {
    body + seq![ASCII_CR, ASCII_LF]
}

/// Append the wire terminator to a command body. Every command body this
/// crate renders is at most 10 bytes, so the framed form stays within the
/// 16-byte bound.
pub fn frame_command(command: &ATCommandString) -> (r: ATCommandString)
    requires
        command@.len() <= buffer_capacity() - 2,
    ensures
        r@ == framed(command@),
        r@.len() <= buffer_capacity(),
{
    let bytes = command.as_bytes();
    let mut out: Vec<u8> = Vec::new();
    let mut i: usize = 0;
    while i < bytes.len()
        invariant
            i <= bytes.len(),
            bytes@ == command@,
            out@ == command@.subrange(0, i as int),
        decreases bytes@.len() - i,
    {
        out.push(bytes[i]);
        i = i + 1;
        proof {
            assert(out@ =~= command@.subrange(0, i as int));
        }
    }
    proof {
        assert(out@ =~= command@);
    }
    out.push(ASCII_CR);
    out.push(ASCII_LF);
    proof {
        assert(out@ =~= framed(command@));
    }
    ATCommandString::from_bytes(out)
}

/// Whether a byte run contains the ASCII marker `OK` anywhere in it.
pub open spec fn contains_ok(s: Seq<u8>) -> bool {
    exists|i: int|
        0 <= i && i + 2 <= s.len() && #[trigger] s[i] == ASCII_O && s[i + 1] == ASCII_K
}

/// A response arrived but lacked the `OK` marker; the raw bytes are kept so
/// the caller can inspect what the module actually said.
#[derive(Debug)]
pub struct NoOkResponse {
    /// The captured response bytes.
    pub response: ATCommandString,
}

/// Classify a captured response: success exactly when the bytes contain the
/// ASCII marker `OK` anywhere in the received run; anything else is failure
/// with the original bytes attached.
pub fn classify_response(response: ATCommandString) -> (r: Result<
    ATCommandString,
    NoOkResponse,
>)
    ensures
        r is Ok <==> contains_ok(response@),
        r matches Ok(s) ==> s@ == response@,
        r matches Err(e) ==> e.response@ == response@,
{
    proof {
        use_type_invariant(&response);
    }
    let bytes = response.as_bytes();
    let n = bytes.len();
    let mut found = false;
    let mut i: usize = 0;
    while i + 2 <= n && !found
        invariant
            n == response@.len(),
            n <= buffer_capacity(),
            bytes@ == response@,
            i + 2 <= n + 2,
            found ==> contains_ok(response@),
            !found ==> forall|j: int|
                0 <= j < i ==> !(#[trigger] response@[j] == ASCII_O && response@[j + 1]
                    == ASCII_K),
        decreases n - i + (if found { 0int } else { 1int }),
    {
        if bytes[i] == ASCII_O && bytes[i + 1] == ASCII_K {
            found = true;
        } else {
            i = i + 1;
        }
    }
    if found {
        Ok(response)
    } else {
        proof {
            assert forall|k: int|
                0 <= k && k + 2 <= response@.len() implies !(#[trigger] response@[k] == ASCII_O
                && response@[k + 1] == ASCII_K) by {
                assert(k < i);
            }
        }
        Err(NoOkResponse { response })
    }
}

} // verus!
