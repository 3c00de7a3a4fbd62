//! The value types that the composite fields are made of.

pub use crate::field::rate::{ht_rate, vht_rate};

use crate::bits::{flag_is_set, flag_set};
use crate::error::ErrorKind;
use vstd::prelude::*;

verus! {

/// The guard interval between two OFDM symbols.
#[derive(Clone, Copy, Debug, PartialEq, Eq, Structural)]
pub enum GuardInterval {
    /// 800 ns.
    Long,
    /// 400 ns.
    Short,
}

/// The forward error correction in use.
#[derive(Clone, Copy, Debug, PartialEq, Eq, Structural)]
pub enum Fec {
    /// Binary convolutional coding.
    Bcc,
    /// Low-density parity-check coding.
    Ldpc,
}

/// The format of an HT frame.
#[derive(Clone, Copy, Debug, PartialEq, Eq, Structural)]
pub enum HtFormat {
    /// Mixed format, with a legacy preamble.
    Mixed,
    /// Greenfield format.
    Greenfield,
}

/// The unit in which a timestamp counts.
#[derive(Clone, Copy, Debug, PartialEq, Eq, Structural)]
pub enum TimeUnit {
    Milliseconds,
    Microseconds,
    Nanoseconds,
}

impl TimeUnit {
    /// The unit that a unit code of the timestamp field stands for, if it stands for one.
    pub open spec fn of_code(code: u8) -> Option<TimeUnit> {
        if code == 0 {
            Some(TimeUnit::Milliseconds)
        } else if code == 1 {
            Some(TimeUnit::Microseconds)
        } else if code == 2 {
            Some(TimeUnit::Nanoseconds)
        } else {
            None
        }
    }

    /// Decodes a unit code. The codes from three on are reserved and rejected.
    pub fn new(value: u8) -> (r: Result<TimeUnit, ErrorKind>)
        ensures
            r == match Self::of_code(value) {
                Some(unit) => Ok::<TimeUnit, ErrorKind>(unit),
                None => Err(ErrorKind::InvalidFormat),
            },
    {
        match value {
            0 => Ok(TimeUnit::Milliseconds),
            1 => Ok(TimeUnit::Microseconds),
            2 => Ok(TimeUnit::Nanoseconds),
            _ => Err(ErrorKind::InvalidFormat),
        }
    }
}

/// The point of the frame at which its timestamp was taken.
#[derive(Clone, Copy, Debug, PartialEq, Eq, Structural)]
pub enum SamplingPosition {
    /// The first bit of the MPDU.
    StartMpdu,
    /// The start of the PLCP signal.
    StartPlcp,
    /// The end of the PPDU.
    EndPpdu,
    /// The end of the MPDU.
    EndMpdu,
    /// Not known, or defined by the vendor.
    Unknown,
}

impl SamplingPosition {
    /// The position that a position code of the timestamp field stands for, if it stands for
    /// one.
    pub open spec fn of_code(code: u8) -> Option<SamplingPosition> {
        if code == 0 {
            Some(SamplingPosition::StartMpdu)
        } else if code == 1 {
            Some(SamplingPosition::StartPlcp)
        } else if code == 2 {
            Some(SamplingPosition::EndPpdu)
        } else if code == 3 {
            Some(SamplingPosition::EndMpdu)
        } else if code == 15 {
            Some(SamplingPosition::Unknown)
        } else {
            None
        }
    }

    /// Decodes a position code. The codes 4 to 14 are reserved and rejected, as is anything
    /// that does not fit in four bits.
    pub fn from(value: u8) -> (r: Result<SamplingPosition, ErrorKind>)
        ensures
            r == match Self::of_code(value) {
                Some(position) => Ok::<SamplingPosition, ErrorKind>(position),
                None => Err(ErrorKind::InvalidFormat),
            },
    {
        match value {
            0 => Ok(SamplingPosition::StartMpdu),
            1 => Ok(SamplingPosition::StartPlcp),
            2 => Ok(SamplingPosition::EndPpdu),
            3 => Ok(SamplingPosition::EndMpdu),
            15 => Ok(SamplingPosition::Unknown),
            _ => Err(ErrorKind::InvalidFormat),
        }
    }
}

/// The flags that describe a channel.
#[derive(Clone, Copy, Debug, PartialEq, Eq, Structural)]
pub struct ChannelFlags {
    /// Turbo channel.
    pub turbo: bool,
    /// Complementary code keying channel.
    pub cck: bool,
    /// Orthogonal frequency-division multiplexing channel.
    pub ofdm: bool,
    /// 2 GHz spectrum channel.
    pub ghz2: bool,
    /// 5 GHz spectrum channel.
    pub ghz5: bool,
    /// Only passive scan allowed.
    pub passive: bool,
    /// Dynamic CCK-OFDM channel.
    pub dynamic: bool,
    /// Gaussian frequency-shift keying channel.
    pub gfsk: bool,
}

impl ChannelFlags {
    /// The flags that a flag word holds.
    pub open spec fn of_bits(bits: u32) -> ChannelFlags {
        ChannelFlags {
            turbo: flag_is_set(bits, 0x0010),
            cck: flag_is_set(bits, 0x0020),
            ofdm: flag_is_set(bits, 0x0040),
            ghz2: flag_is_set(bits, 0x0080),
            ghz5: flag_is_set(bits, 0x0100),
            passive: flag_is_set(bits, 0x0200),
            dynamic: flag_is_set(bits, 0x0400),
            gfsk: flag_is_set(bits, 0x0800),
        }
    }

    /// Takes the flags out of the 16-bit flag word of the channel field.
    pub fn from_bits(bits: u16) -> (flags: ChannelFlags)
        ensures
            flags == Self::of_bits(bits as u32),
    {
        let bits: u32 = bits as u32;
        ChannelFlags {
            turbo: flag_set(bits, 0x0010),
            cck: flag_set(bits, 0x0020),
            ofdm: flag_set(bits, 0x0040),
            ghz2: flag_set(bits, 0x0080),
            ghz5: flag_set(bits, 0x0100),
            passive: flag_set(bits, 0x0200),
            dynamic: flag_set(bits, 0x0400),
            gfsk: flag_set(bits, 0x0800),
        }
    }
}

/// The flags that describe an extended channel: those of a channel, and seven more.
#[derive(Clone, Copy, Debug, PartialEq, Eq, Structural)]
pub struct XChannelFlags {
    /// Turbo channel.
    pub turbo: bool,
    /// Complementary code keying channel.
    pub cck: bool,
    /// Orthogonal frequency-division multiplexing channel.
    pub ofdm: bool,
    /// 2 GHz spectrum channel.
    pub ghz2: bool,
    /// 5 GHz spectrum channel.
    pub ghz5: bool,
    /// Only passive scan allowed.
    pub passive: bool,
    /// Dynamic CCK-OFDM channel.
    pub dynamic: bool,
    /// Gaussian frequency-shift keying channel.
    pub gfsk: bool,
    /// GSM channel.
    pub gsm: bool,
    /// Static turbo channel.
    pub sturbo: bool,
    /// Half rate channel.
    pub half: bool,
    /// Quarter rate channel.
    pub quarter: bool,
    /// HT channel, 20 MHz wide.
    pub ht20: bool,
    /// HT channel, 40 MHz wide, with the extension channel above.
    pub ht40u: bool,
    /// HT channel, 40 MHz wide, with the extension channel below.
    pub ht40d: bool,
}

impl XChannelFlags {
    /// The flags that a flag word holds.
    pub open spec fn of_bits(bits: u32) -> XChannelFlags {
        XChannelFlags {
            turbo: flag_is_set(bits, 0x0000_0010),
            cck: flag_is_set(bits, 0x0000_0020),
            ofdm: flag_is_set(bits, 0x0000_0040),
            ghz2: flag_is_set(bits, 0x0000_0080),
            ghz5: flag_is_set(bits, 0x0000_0100),
            passive: flag_is_set(bits, 0x0000_0200),
            dynamic: flag_is_set(bits, 0x0000_0400),
            gfsk: flag_is_set(bits, 0x0000_0800),
            gsm: flag_is_set(bits, 0x0000_1000),
            sturbo: flag_is_set(bits, 0x0000_2000),
            half: flag_is_set(bits, 0x0000_4000),
            quarter: flag_is_set(bits, 0x0000_8000),
            ht20: flag_is_set(bits, 0x0001_0000),
            ht40u: flag_is_set(bits, 0x0002_0000),
            ht40d: flag_is_set(bits, 0x0004_0000),
        }
    }

    /// Takes the flags out of the 32-bit flag word of the extended channel field.
    pub fn from_bits(bits: u32) -> (flags: XChannelFlags)
        ensures
            flags == Self::of_bits(bits),
    {
        XChannelFlags {
            turbo: flag_set(bits, 0x0000_0010),
            cck: flag_set(bits, 0x0000_0020),
            ofdm: flag_set(bits, 0x0000_0040),
            ghz2: flag_set(bits, 0x0000_0080),
            ghz5: flag_set(bits, 0x0000_0100),
            passive: flag_set(bits, 0x0000_0200),
            dynamic: flag_set(bits, 0x0000_0400),
            gfsk: flag_set(bits, 0x0000_0800),
            gsm: flag_set(bits, 0x0000_1000),
            sturbo: flag_set(bits, 0x0000_2000),
            half: flag_set(bits, 0x0000_4000),
            quarter: flag_set(bits, 0x0000_8000),
            ht20: flag_set(bits, 0x0001_0000),
            ht40u: flag_set(bits, 0x0002_0000),
            ht40d: flag_set(bits, 0x0004_0000),
        }
    }
}

/// The width of a channel and the part of it that a frame occupies.
///
/// All widths are in MHz. A frame either fills the channel, or it fills one of the equal
/// sidebands that the channel divides into; the sidebands are numbered from the lowest
/// frequency up, starting at zero.
#[derive(Clone, Copy, Debug, PartialEq, Eq)]
pub struct Bandwidth {
    /// The width of the channel.
    pub bandwidth: u8,
    /// The width of the sideband, where the frame occupies one.
    pub sideband: Option<u8>,
    /// The number of that sideband.
    pub sideband_index: Option<u8>,
}

impl Bandwidth {
    /// A frame that fills a channel of the given width.
    pub open spec fn whole(bandwidth: u8) -> Bandwidth {
        Bandwidth { bandwidth, sideband: None, sideband_index: None }
    }

    /// A frame in sideband number `index` of the sidebands of width `sideband`.
    pub open spec fn part(bandwidth: u8, sideband: u8, index: int) -> Bandwidth {
        Bandwidth { bandwidth, sideband: Some(sideband), sideband_index: Some(index as u8) }
    }

    /// The bandwidth that a bandwidth code stands for, if it stands for one.
    ///
    /// Code 0 is 20 MHz and code 1 is 40 MHz. Codes 2 and 3 are the lower and the upper half of
    /// 40 MHz. Code 4 is 80 MHz, followed by its two halves and its four quarters. Code 11 is
    /// 160 MHz, followed by its two halves, its four quarters and its eight eighths.
    pub open spec fn of_code(code: u8) -> Option<Bandwidth> {
        if code == 0 {
            Some(Self::whole(20))
        } else if code == 1 {
            Some(Self::whole(40))
        } else if code <= 3 {
            Some(Self::part(40, 20, code - 2))
        } else if code == 4 {
            Some(Self::whole(80))
        } else if code <= 6 {
            Some(Self::part(80, 40, code - 5))
        } else if code <= 10 {
            Some(Self::part(80, 20, code - 7))
        } else if code == 11 {
            Some(Self::whole(160))
        } else if code <= 13 {
            Some(Self::part(160, 80, code - 12))
        } else if code <= 17 {
            Some(Self::part(160, 40, code - 14))
        } else if code <= 25 {
            Some(Self::part(160, 20, code - 18))
        } else {
            None
        }
    }

    /// The width that the frame itself occupies: that of its sideband if it has one, else that
    /// of the channel.
    pub open spec fn occupied(self) -> u8 {
        match self.sideband {
            Some(width) => width,
            None => self.bandwidth,
        }
    }

    /// Decodes a bandwidth code. The codes from 26 on are reserved and rejected.
    pub fn new(value: u8) -> (r: Result<Bandwidth, ErrorKind>)
        ensures
            r == match Self::of_code(value) {
                Some(bw) => Ok::<Bandwidth, ErrorKind>(bw),
                None => Err(ErrorKind::InvalidFormat),
            },
    {
        let (bandwidth, sideband, sideband_index): (u8, Option<u8>, Option<u8>) = match value {
            0 => (20, None, None),
            1 => (40, None, None),
            2 => (40, Some(20), Some(0)),
            3 => (40, Some(20), Some(1)),
            4 => (80, None, None),
            5 => (80, Some(40), Some(0)),
            6 => (80, Some(40), Some(1)),
            7 => (80, Some(20), Some(0)),
            8 => (80, Some(20), Some(1)),
            9 => (80, Some(20), Some(2)),
            10 => (80, Some(20), Some(3)),
            11 => (160, None, None),
            12 => (160, Some(80), Some(0)),
            13 => (160, Some(80), Some(1)),
            14 => (160, Some(40), Some(0)),
            15 => (160, Some(40), Some(1)),
            16 => (160, Some(40), Some(2)),
            17 => (160, Some(40), Some(3)),
            18 => (160, Some(20), Some(0)),
            19 => (160, Some(20), Some(1)),
            20 => (160, Some(20), Some(2)),
            21 => (160, Some(20), Some(3)),
            22 => (160, Some(20), Some(4)),
            23 => (160, Some(20), Some(5)),
            24 => (160, Some(20), Some(6)),
            25 => (160, Some(20), Some(7)),
            _ => {
                return Err(ErrorKind::InvalidFormat);
            },
        };
        Ok(Bandwidth { bandwidth, sideband, sideband_index })
    }

    /// The width that the frame itself occupies.
    pub fn width(&self) -> (width: u8)
        ensures
            width == self.occupied(),
    {
        match self.sideband {
            Some(width) => width,
            None => self.bandwidth,
        }
    }
}

/// One of the up to four users of a VHT frame.
#[derive(Clone, Copy, Debug, PartialEq, Eq)]
pub struct VhtUser {
    /// The 802.11ac MCS index.
    pub index: u8,
    /// The forward error correction.
    pub fec: Fec,
    /// The number of spatial streams.
    pub nss: u8,
    /// The number of space-time streams.
    pub nsts: u8,
    /// The data rate in units of 100 kbit/s, where the bandwidth and the guard interval are
    /// known.
    pub datarate: Option<u32>,
}

} // verus!
