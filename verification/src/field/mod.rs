//! Radiotap field definitions and parsers.
//!
//! Every field type says in `decodes` what a byte string means, and its `from_bytes` is proved
//! to compute just that. Data rates are whole numbers in units of 100 kbit/s.

pub mod ext;
pub mod header;
pub mod mcs;
pub mod rate;
pub mod vht;

pub use crate::field::header::{Header, VendorNamespace};
pub use crate::field::mcs::Mcs;
pub use crate::field::vht::Vht;

use crate::bits::{flag_is_set, flag_set, high_nibble, low_bits};
use crate::bits::{le_u16, le_u32, le_u64, twos_complement};
use crate::bits::{read_i8, read_u16, read_u32, read_u64, read_u8};
use crate::error::ErrorKind;
use crate::field::ext::{ChannelFlags, SamplingPosition, TimeUnit, XChannelFlags};
use vstd::prelude::*;
use vstd::slice::*;

verus! {

broadcast use group_slice_axioms;

/// A field that can be parsed from its bytes.
pub trait Field: Sized {
    /// What a byte string decodes to: the field that it holds, or the reason why it holds none.
    spec fn decodes(input: Seq<u8>) -> Result<Self, ErrorKind>;

    /// Parses the field from the front of `input`.
    fn from_bytes(input: &[u8]) -> (r: Result<Self, ErrorKind>)
        ensures
            r == Self::decodes(input@),
    ;
}

/// What the bytes of a field decode to for a caller that only asks whether they are valid:
/// every reason for a failure is reported as an invalid format.
pub open spec fn decodes_or_invalid<T: Field>(input: Seq<u8>) -> Result<T, ErrorKind> {
    match T::decodes(input) {
        Ok(field) => Ok(field),
        Err(_) => Err(ErrorKind::InvalidFormat),
    }
}

/// Parses any `Field`, and reports whatever makes that fail as `ErrorKind::InvalidFormat`.
pub fn from_bytes<T>(input: &[u8]) -> (r: Result<T, ErrorKind>) where T: Field
    ensures
        r == decodes_or_invalid::<T>(input@),
{
    match T::from_bytes(input) {
        Ok(field) => Ok(field),
        Err(_) => Err(ErrorKind::InvalidFormat),
    }
}

/// Parses any `Field` into `Some`, and reports whatever makes that fail as
/// `ErrorKind::InvalidFormat`.
pub fn from_bytes_some<T>(input: &[u8]) -> (r: Result<Option<T>, ErrorKind>) where T: Field
    ensures
        r == match decodes_or_invalid::<T>(input@) {
            Ok(field) => Ok::<Option<T>, ErrorKind>(Some(field)),
            Err(e) => Err(e),
        },
{
    match T::from_bytes(input) {
        Ok(field) => Ok(Some(field)),
        Err(_) => Err(ErrorKind::InvalidFormat),
    }
}

/// `Some(value)` if `known` holds, else `None`.
pub open spec fn given<T>(known: bool, value: T) -> Option<T> {
    if known {
        Some(value)
    } else {
        None
    }
}

/// Value in microseconds of the MAC's 64-bit 802.11 Time Synchronization Function timer when
/// the first bit of the MPDU arrived at the MAC. For received frames only.
#[derive(Clone, Copy, Debug, PartialEq, Eq, Structural)]
pub struct Tsft {
    pub value: u64,
}

impl Field for Tsft {
    /// The value is eight bytes, least significant first.
    open spec fn decodes(input: Seq<u8>) -> Result<Self, ErrorKind> {
        if input.len() < 8 {
            Err(ErrorKind::InvalidFormat)
        } else {
            Ok(Tsft { value: le_u64(input, 0) })
        }
    }

    fn from_bytes(input: &[u8]) -> (r: Result<Self, ErrorKind>) {
        if input.len() < 8 {
            return Err(ErrorKind::InvalidFormat);
        }
        let value = read_u64(input, 0);
        Ok(Tsft { value })
    }
}

/// Attributes of transmitted and received frames.
#[derive(Clone, Copy, Debug, PartialEq, Eq, Structural)]
pub struct Flags {
    /// The frame was sent/received during CFP.
    pub cfp: bool,
    /// The frame was sent/received with short preamble.
    pub preamble: bool,
    /// The frame was sent/received with WEP encryption.
    pub wep: bool,
    /// The frame was sent/received with fragmentation.
    pub fragmentation: bool,
    /// The frame includes FCS.
    pub fcs: bool,
    /// The frame has padding between 802.11 header and payload (to 32-bit boundary).
    pub data_pad: bool,
    /// The frame failed FCS check.
    pub bad_fcs: bool,
    /// The frame used short guard interval (HT).
    pub sgi: bool,
}

impl Field for Flags {
    /// The field is one byte, and each of its bits is one flag, from `cfp` in bit 0 up to `sgi`
    /// in bit 7.
    open spec fn decodes(input: Seq<u8>) -> Result<Self, ErrorKind> {
        if input.len() < 1 {
            Err(ErrorKind::InvalidFormat)
        } else {
            let flags = input[0] as u32;
            Ok(
                Flags {
                    cfp: flag_is_set(flags, 0x01),
                    preamble: flag_is_set(flags, 0x02),
                    wep: flag_is_set(flags, 0x04),
                    fragmentation: flag_is_set(flags, 0x08),
                    fcs: flag_is_set(flags, 0x10),
                    data_pad: flag_is_set(flags, 0x20),
                    bad_fcs: flag_is_set(flags, 0x40),
                    sgi: flag_is_set(flags, 0x80),
                },
            )
        }
    }

    fn from_bytes(input: &[u8]) -> (r: Result<Self, ErrorKind>) {
        if input.len() < 1 {
            return Err(ErrorKind::InvalidFormat);
        }
        let flags: u32 = read_u8(input, 0) as u32;
        Ok(
            Flags {
                cfp: flag_set(flags, 0x01),
                preamble: flag_set(flags, 0x02),
                wep: flag_set(flags, 0x04),
                fragmentation: flag_set(flags, 0x08),
                fcs: flag_set(flags, 0x10),
                data_pad: flag_set(flags, 0x20),
                bad_fcs: flag_set(flags, 0x40),
                sgi: flag_set(flags, 0x80),
            },
        )
    }
}

/// The legacy data rate. Usually only one of the `Rate`, `Mcs` and `Vht` fields is present.
#[derive(Clone, Copy, Debug, PartialEq, Eq, Structural)]
pub struct Rate {
    /// The rate in units of 100 kbit/s, so that 20 stands for 2.0 Mbit/s.
    pub value: i16,
}

impl Field for Rate {
    /// The field is one byte in two's complement that counts half megabits per second, which
    /// are five units of 100 kbit/s each.
    open spec fn decodes(input: Seq<u8>) -> Result<Self, ErrorKind> {
        if input.len() < 1 {
            Err(ErrorKind::InvalidFormat)
        } else {
            Ok(Rate { value: (5 * twos_complement(input[0])) as i16 })
        }
    }

    fn from_bytes(input: &[u8]) -> (r: Result<Self, ErrorKind>) {
        if input.len() < 1 {
            return Err(ErrorKind::InvalidFormat);
        }
        let halves: i16 = read_i8(input, 0) as i16;
        Ok(Rate { value: 5 * halves })
    }
}

/// The transmitted or received frequency in MHz, including flags describing the channel.
#[derive(Clone, Copy, Debug, PartialEq, Eq, Structural)]
pub struct Channel {
    /// The frequency in MHz.
    pub freq: u16,
    /// The channel flags.
    pub flags: ChannelFlags,
}

impl Field for Channel {
    /// The field is the frequency and then the flag word, two bytes each, least significant
    /// first.
    open spec fn decodes(input: Seq<u8>) -> Result<Self, ErrorKind> {
        if input.len() < 4 {
            Err(ErrorKind::InvalidFormat)
        } else {
            Ok(
                Channel {
                    freq: le_u16(input, 0),
                    flags: ChannelFlags::of_bits(le_u16(input, 2) as u32),
                },
            )
        }
    }

    fn from_bytes(input: &[u8]) -> (r: Result<Self, ErrorKind>) {
        if input.len() < 4 {
            return Err(ErrorKind::InvalidFormat);
        }
        let freq = read_u16(input, 0);
        let flags = ChannelFlags::from_bits(read_u16(input, 2));
        Ok(Channel { freq, flags })
    }
}

/// The hop set and pattern for frequency-hopping radios.
#[derive(Clone, Copy, Debug, PartialEq, Eq, Structural)]
pub struct Fhss {
    pub hopset: u8,
    pub pattern: u8,
}

impl Field for Fhss {
    /// The field is the hop set and then the pattern, one byte each.
    open spec fn decodes(input: Seq<u8>) -> Result<Self, ErrorKind> {
        if input.len() < 2 {
            Err(ErrorKind::InvalidFormat)
        } else {
            Ok(Fhss { hopset: input[0], pattern: input[1] })
        }
    }

    fn from_bytes(input: &[u8]) -> (r: Result<Self, ErrorKind>) {
        if input.len() < 2 {
            return Err(ErrorKind::InvalidFormat);
        }
        let hopset = read_u8(input, 0);
        let pattern = read_u8(input, 1);
        Ok(Fhss { hopset, pattern })
    }
}

/// RF signal power at the antenna in dBm. Indicates the RF signal power at the antenna, in
/// decibels difference from 1mW.
#[derive(Clone, Copy, Debug, PartialEq, Eq, Structural)]
pub struct AntennaSignal {
    pub value: i8,
}

impl Field for AntennaSignal {
    /// The value is one byte in two's complement.
    open spec fn decodes(input: Seq<u8>) -> Result<Self, ErrorKind> {
        if input.len() < 1 {
            Err(ErrorKind::InvalidFormat)
        } else {
            Ok(AntennaSignal { value: twos_complement(input[0]) })
        }
    }

    fn from_bytes(input: &[u8]) -> (r: Result<Self, ErrorKind>) {
        if input.len() < 1 {
            return Err(ErrorKind::InvalidFormat);
        }
        let value = read_i8(input, 0);
        Ok(AntennaSignal { value })
    }
}

/// RF signal power at the antenna in dB. Indicates the RF signal power at the antenna, in
/// decibels difference from an arbitrary, fixed reference.
#[derive(Clone, Copy, Debug, PartialEq, Eq, Structural)]
pub struct AntennaSignalDb {
    pub value: u8,
}

impl Field for AntennaSignalDb {
    /// The value is one byte.
    open spec fn decodes(input: Seq<u8>) -> Result<Self, ErrorKind> {
        if input.len() < 1 {
            Err(ErrorKind::InvalidFormat)
        } else {
            Ok(AntennaSignalDb { value: input[0] })
        }
    }

    fn from_bytes(input: &[u8]) -> (r: Result<Self, ErrorKind>) {
        if input.len() < 1 {
            return Err(ErrorKind::InvalidFormat);
        }
        let value = read_u8(input, 0);
        Ok(AntennaSignalDb { value })
    }
}

/// RF noise power at the antenna in dBm. Indicates the RF signal noise at the antenna, in
/// decibels difference from 1mW.
#[derive(Clone, Copy, Debug, PartialEq, Eq, Structural)]
pub struct AntennaNoise {
    pub value: i8,
}

impl Field for AntennaNoise {
    /// The value is one byte in two's complement.
    open spec fn decodes(input: Seq<u8>) -> Result<Self, ErrorKind> {
        if input.len() < 1 {
            Err(ErrorKind::InvalidFormat)
        } else {
            Ok(AntennaNoise { value: twos_complement(input[0]) })
        }
    }

    fn from_bytes(input: &[u8]) -> (r: Result<Self, ErrorKind>) {
        if input.len() < 1 {
            return Err(ErrorKind::InvalidFormat);
        }
        let value = read_i8(input, 0);
        Ok(AntennaNoise { value })
    }
}

/// RF noise power at the antenna in dB. Indicates the RF signal noise at the antenna, in
/// decibels difference from an arbitrary, fixed reference.
#[derive(Clone, Copy, Debug, PartialEq, Eq, Structural)]
pub struct AntennaNoiseDb {
    pub value: u8,
}

impl Field for AntennaNoiseDb {
    /// The value is one byte.
    open spec fn decodes(input: Seq<u8>) -> Result<Self, ErrorKind> {
        if input.len() < 1 {
            Err(ErrorKind::InvalidFormat)
        } else {
            Ok(AntennaNoiseDb { value: input[0] })
        }
    }

    fn from_bytes(input: &[u8]) -> (r: Result<Self, ErrorKind>) {
        if input.len() < 1 {
            return Err(ErrorKind::InvalidFormat);
        }
        let value = read_u8(input, 0);
        Ok(AntennaNoiseDb { value })
    }
}

/// Quality of Barker code lock, unitless. Monotonically nondecreasing with "better" lock
/// strength. Called "Signal Quality" in datasheets.
#[derive(Clone, Copy, Debug, PartialEq, Eq, Structural)]
pub struct LockQuality {
    pub value: u16,
}

impl Field for LockQuality {
    /// The value is two bytes, least significant first.
    open spec fn decodes(input: Seq<u8>) -> Result<Self, ErrorKind> {
        if input.len() < 2 {
            Err(ErrorKind::InvalidFormat)
        } else {
            Ok(LockQuality { value: le_u16(input, 0) })
        }
    }

    fn from_bytes(input: &[u8]) -> (r: Result<Self, ErrorKind>) {
        if input.len() < 2 {
            return Err(ErrorKind::InvalidFormat);
        }
        let value = read_u16(input, 0);
        Ok(LockQuality { value })
    }
}

/// Transmit power expressed as unitless distance from max power. 0 is max power.
/// Monotonically nondecreasing with lower power levels.
#[derive(Clone, Copy, Debug, PartialEq, Eq, Structural)]
pub struct TxAttenuation {
    pub value: u16,
}

impl Field for TxAttenuation {
    /// The value is two bytes, least significant first.
    open spec fn decodes(input: Seq<u8>) -> Result<Self, ErrorKind> {
        if input.len() < 2 {
            Err(ErrorKind::InvalidFormat)
        } else {
            Ok(TxAttenuation { value: le_u16(input, 0) })
        }
    }

    fn from_bytes(input: &[u8]) -> (r: Result<Self, ErrorKind>) {
        if input.len() < 2 {
            return Err(ErrorKind::InvalidFormat);
        }
        let value = read_u16(input, 0);
        Ok(TxAttenuation { value })
    }
}

/// Transmit power in dB. 0 is max power. Monotonically nondecreasing with lower power
/// levels.
#[derive(Clone, Copy, Debug, PartialEq, Eq, Structural)]
pub struct TxAttenuationDb {
    pub value: u16,
}

impl Field for TxAttenuationDb {
    /// The value is two bytes, least significant first.
    open spec fn decodes(input: Seq<u8>) -> Result<Self, ErrorKind> {
        if input.len() < 2 {
            Err(ErrorKind::InvalidFormat)
        } else {
            Ok(TxAttenuationDb { value: le_u16(input, 0) })
        }
    }

    fn from_bytes(input: &[u8]) -> (r: Result<Self, ErrorKind>) {
        if input.len() < 2 {
            return Err(ErrorKind::InvalidFormat);
        }
        let value = read_u16(input, 0);
        Ok(TxAttenuationDb { value })
    }
}

/// Transmit power in dBm. This is the absolute power level measured at the antenna port.
#[derive(Clone, Copy, Debug, PartialEq, Eq, Structural)]
pub struct TxPower {
    pub value: i8,
}

impl Field for TxPower {
    /// The value is one byte in two's complement.
    open spec fn decodes(input: Seq<u8>) -> Result<Self, ErrorKind> {
        if input.len() < 1 {
            Err(ErrorKind::InvalidFormat)
        } else {
            Ok(TxPower { value: twos_complement(input[0]) })
        }
    }

    fn from_bytes(input: &[u8]) -> (r: Result<Self, ErrorKind>) {
        if input.len() < 1 {
            return Err(ErrorKind::InvalidFormat);
        }
        let value = read_i8(input, 0);
        Ok(TxPower { value })
    }
}

/// Indication of the transmit/receive antenna for this frame. The first antenna is antenna 0.
#[derive(Clone, Copy, Debug, PartialEq, Eq, Structural)]
pub struct Antenna {
    pub value: u8,
}

impl Field for Antenna {
    /// The value is one byte.
    open spec fn decodes(input: Seq<u8>) -> Result<Self, ErrorKind> {
        if input.len() < 1 {
            Err(ErrorKind::InvalidFormat)
        } else {
            Ok(Antenna { value: input[0] })
        }
    }

    fn from_bytes(input: &[u8]) -> (r: Result<Self, ErrorKind>) {
        if input.len() < 1 {
            return Err(ErrorKind::InvalidFormat);
        }
        let value = read_u8(input, 0);
        Ok(Antenna { value })
    }
}

/// Attributes of received frames.
#[derive(Clone, Copy, Debug, PartialEq, Eq, Structural)]
pub struct RxFlags {
    /// The PLCP CRC check failed.
    pub bad_plcp: bool,
}

impl Field for RxFlags {
    /// The field is a flag word of two bytes, least significant first, of which bit 1 is the one
    /// flag.
    open spec fn decodes(input: Seq<u8>) -> Result<Self, ErrorKind> {
        if input.len() < 2 {
            Err(ErrorKind::InvalidFormat)
        } else {
            Ok(RxFlags { bad_plcp: flag_is_set(le_u16(input, 0) as u32, 0x0002) })
        }
    }

    fn from_bytes(input: &[u8]) -> (r: Result<Self, ErrorKind>) {
        if input.len() < 2 {
            return Err(ErrorKind::InvalidFormat);
        }
        let flags: u32 = read_u16(input, 0) as u32;
        Ok(RxFlags { bad_plcp: flag_set(flags, 0x0002) })
    }
}

/// Attributes of transmitted frames.
#[derive(Clone, Copy, Debug, PartialEq, Eq, Structural)]
pub struct TxFlags {
    /// Transmission failed due to excessive retries.
    pub fail: bool,
    /// Transmission used CTS-to-self protection.
    pub cts: bool,
    /// Transmission used RTS/CTS handshake.
    pub rts: bool,
    /// Transmission shall not expect an ACK frame and not retry when no ACK is received.
    pub no_ack: bool,
    /// Transmission includes a pre-configured sequence number that should not be changed by the
    /// driver's TX handlers.
    pub no_seq: bool,
}

impl Field for TxFlags {
    /// The field is a flag word of two bytes, least significant first; its flags are the bits 0
    /// to 4.
    open spec fn decodes(input: Seq<u8>) -> Result<Self, ErrorKind> {
        if input.len() < 2 {
            Err(ErrorKind::InvalidFormat)
        } else {
            let flags = le_u16(input, 0) as u32;
            Ok(
                TxFlags {
                    fail: flag_is_set(flags, 0x0001),
                    cts: flag_is_set(flags, 0x0002),
                    rts: flag_is_set(flags, 0x0004),
                    no_ack: flag_is_set(flags, 0x0008),
                    no_seq: flag_is_set(flags, 0x0010),
                },
            )
        }
    }

    fn from_bytes(input: &[u8]) -> (r: Result<Self, ErrorKind>) {
        if input.len() < 2 {
            return Err(ErrorKind::InvalidFormat);
        }
        let flags: u32 = read_u16(input, 0) as u32;
        Ok(
            TxFlags {
                fail: flag_set(flags, 0x0001),
                cts: flag_set(flags, 0x0002),
                rts: flag_set(flags, 0x0004),
                no_ack: flag_set(flags, 0x0008),
                no_seq: flag_set(flags, 0x0010),
            },
        )
    }
}

/// Number of RTS retries a transmitted frame used.
#[derive(Clone, Copy, Debug, PartialEq, Eq, Structural)]
pub struct RtsRetries {
    pub value: u8,
}

impl Field for RtsRetries {
    /// The value is one byte.
    open spec fn decodes(input: Seq<u8>) -> Result<Self, ErrorKind> {
        if input.len() < 1 {
            Err(ErrorKind::InvalidFormat)
        } else {
            Ok(RtsRetries { value: input[0] })
        }
    }

    fn from_bytes(input: &[u8]) -> (r: Result<Self, ErrorKind>) {
        if input.len() < 1 {
            return Err(ErrorKind::InvalidFormat);
        }
        let value = read_u8(input, 0);
        Ok(RtsRetries { value })
    }
}

/// Number of data retries a transmitted frame used.
#[derive(Clone, Copy, Debug, PartialEq, Eq, Structural)]
pub struct DataRetries {
    pub value: u8,
}

impl Field for DataRetries {
    /// The value is one byte.
    open spec fn decodes(input: Seq<u8>) -> Result<Self, ErrorKind> {
        if input.len() < 1 {
            Err(ErrorKind::InvalidFormat)
        } else {
            Ok(DataRetries { value: input[0] })
        }
    }

    fn from_bytes(input: &[u8]) -> (r: Result<Self, ErrorKind>) {
        if input.len() < 1 {
            return Err(ErrorKind::InvalidFormat);
        }
        let value = read_u8(input, 0);
        Ok(DataRetries { value })
    }
}

/// Extended channel information.
#[derive(Clone, Copy, Debug, PartialEq, Eq, Structural)]
pub struct XChannel {
    /// The channel flags.
    pub flags: XChannelFlags,
    /// The frequency in MHz.
    pub freq: u16,
    /// The channel number.
    pub channel: u8,
    /// The max power.
    pub max_power: u8,
}

impl Field for XChannel {
    /// The field is the flag word in four bytes, the frequency in two, both least significant
    /// byte first, then the channel number and the maximum power in a byte each.
    open spec fn decodes(input: Seq<u8>) -> Result<Self, ErrorKind> {
        if input.len() < 8 {
            Err(ErrorKind::InvalidFormat)
        } else {
            Ok(
                XChannel {
                    flags: XChannelFlags::of_bits(le_u32(input, 0)),
                    freq: le_u16(input, 4),
                    channel: input[6],
                    max_power: input[7],
                },
            )
        }
    }

    fn from_bytes(input: &[u8]) -> (r: Result<Self, ErrorKind>) {
        if input.len() < 8 {
            return Err(ErrorKind::InvalidFormat);
        }
        let flags = XChannelFlags::from_bits(read_u32(input, 0));
        let freq = read_u16(input, 4);
        let channel = read_u8(input, 6);
        let max_power = read_u8(input, 7);
        Ok(XChannel { flags, freq, channel, max_power })
    }
}

/// The presence of this field indicates that the frame was received as part of an a-MPDU.
#[derive(Clone, Copy, Debug, PartialEq, Eq)]
pub struct AmpduStatus {
    /// The A-MPDU reference number.
    pub reference: u32,
    /// Whether this is a 0-length subframe.
    pub zero_length: Option<bool>,
    /// Whether this is the last subframe of this A-MPDU.
    pub last: Option<bool>,
    /// The A-MPDU subframe delimiter CRC.
    pub delimiter_crc: Option<u8>,
}

impl Field for AmpduStatus {
    /// The field is eight bytes: the reference number in four and the flag word in two, both
    /// least significant byte first, the delimiter CRC, and a reserved byte.
    ///
    /// Bit 0 of the flags says that bit 1 is known, which tells a subframe of length zero, and
    /// bit 2 says that bit 3 is known, which tells the last subframe. The delimiter CRC is
    /// present if bit 5 marks it as known and bit 4 reports no error in it.
    open spec fn decodes(input: Seq<u8>) -> Result<Self, ErrorKind> {
        if input.len() < 8 {
            Err(ErrorKind::InvalidFormat)
        } else {
            let flags = le_u16(input, 4) as u32;
            Ok(
                AmpduStatus {
                    reference: le_u32(input, 0),
                    zero_length: given(flag_is_set(flags, 0x0001), flag_is_set(flags, 0x0002)),
                    last: given(flag_is_set(flags, 0x0004), flag_is_set(flags, 0x0008)),
                    delimiter_crc: given(
                        !flag_is_set(flags, 0x0010) && flag_is_set(flags, 0x0020),
                        input[6],
                    ),
                },
            )
        }
    }

    fn from_bytes(input: &[u8]) -> (r: Result<Self, ErrorKind>) {
        if input.len() < 8 {
            return Err(ErrorKind::InvalidFormat);
        }
        let reference = read_u32(input, 0);
        let flags: u32 = read_u16(input, 4) as u32;
        let delim_crc = read_u8(input, 6);

        let zero_length = if flag_set(flags, 0x0001) {
            Some(flag_set(flags, 0x0002))
        } else {
            None
        };
        let last = if flag_set(flags, 0x0004) {
            Some(flag_set(flags, 0x0008))
        } else {
            None
        };
        let delimiter_crc = if !flag_set(flags, 0x0010) && flag_set(flags, 0x0020) {
            Some(delim_crc)
        } else {
            None
        };
        Ok(AmpduStatus { reference, zero_length, last, delimiter_crc })
    }
}

/// The time the frame was transmitted or received.
#[derive(Clone, Copy, Debug, PartialEq, Eq)]
pub struct Timestamp {
    /// The actual timestamp.
    pub timestamp: u64,
    /// The unit of the timestamp value.
    pub unit: TimeUnit,
    /// The sampling position of the timestamp.
    pub position: SamplingPosition,
    /// The accuracy of the timestamp.
    pub accuracy: Option<u16>,
}

impl Field for Timestamp {
    /// The field is twelve bytes: the timestamp in eight and the accuracy in two, both least
    /// significant byte first, a byte whose low four bits are the code of the unit and whose
    /// high four bits are the code of the sampling position, and the flags.
    ///
    /// A code that stands for no unit or for no position makes the field invalid. The accuracy
    /// is present if bit 1 of the flags is set.
    open spec fn decodes(input: Seq<u8>) -> Result<Self, ErrorKind> {
        if input.len() < 12 {
            Err(ErrorKind::InvalidFormat)
        } else {
            match (TimeUnit::of_code(input[10] % 16), SamplingPosition::of_code(input[10] / 16)) {
                (Some(unit), Some(position)) => Ok(
                    Timestamp {
                        timestamp: le_u64(input, 0),
                        unit,
                        position,
                        accuracy: given(flag_is_set(input[11] as u32, 0x02), le_u16(input, 8)),
                    },
                ),
                _ => Err(ErrorKind::InvalidFormat),
            }
        }
    }

    fn from_bytes(input: &[u8]) -> (r: Result<Self, ErrorKind>) {
        if input.len() < 12 {
            return Err(ErrorKind::InvalidFormat);
        }
        let timestamp = read_u64(input, 0);
        let accuracy = read_u16(input, 8);
        let unit_position = read_u8(input, 10);
        let unit = TimeUnit::new(low_bits(unit_position, 4))?;
        let position = SamplingPosition::from(high_nibble(unit_position))?;
        let flags: u32 = read_u8(input, 11) as u32;

        let accuracy = if flag_set(flags, 0x02) {
            Some(accuracy)
        } else {
            None
        };
        Ok(Timestamp { timestamp, unit, position, accuracy })
    }
}

} // verus!
