//! The MCS field: the modulation of an 802.11n frame.

use crate::bits::{bits_of, flag_is_set, flag_set, lemma_byte_parts, low_bits, read_u8};
use crate::error::ErrorKind;
use crate::field::rate::{ht_rate, ht_rate_of};
use crate::field::ext::{Bandwidth, Fec, GuardInterval, HtFormat};
use crate::field::{given, Field};
use vstd::prelude::*;
use vstd::slice::*;

verus! {

broadcast use group_slice_axioms;

/// The IEEE 802.11n data rate index. Usually only one of the `Rate`, `Mcs` and `Vht` fields is
/// present.
#[derive(Clone, Copy, Debug, PartialEq, Eq)]
pub struct Mcs {
    /// The bandwidth.
    pub bw: Option<Bandwidth>,
    /// The 802.11n MCS index.
    pub index: Option<u8>,
    /// The guard interval.
    pub gi: Option<GuardInterval>,
    /// The HT format.
    pub format: Option<HtFormat>,
    /// The FEC type.
    pub fec: Option<Fec>,
    /// Number of STBC streams.
    pub stbc: Option<u8>,
    /// Number of extension spatial streams.
    pub ness: Option<u8>,
    /// The data rate in units of 100 kbit/s, so that 722 stands for 72.2 Mbit/s.
    pub datarate: Option<u32>,
}

impl Mcs {
    /// The bandwidth that the low two bits of the flags stand for: 20 MHz, 40 MHz, and the
    /// lower and the upper 20 MHz of a 40 MHz channel.
    pub open spec fn bandwidth_of(flags: u8) -> Bandwidth {
        Bandwidth::of_code(flags % 4).unwrap()
    }

    /// The number of extension spatial streams: bit 7 of the known mask is its high bit and
    /// bit 7 of the flags its low bit.
    pub open spec fn ness_of(known: u8, flags: u8) -> u8 {
        let high: u8 = if flag_is_set(known as u32, 0x80) {
            2
        } else {
            0
        };
        let low: u8 = if flag_is_set(flags as u32, 0x80) {
            1
        } else {
            0
        };
        (high + low) as u8
    }

    /// The data rate of a frame: it has one if the field gives both its bandwidth and its guard
    /// interval and 802.11n defines a rate for its index.
    pub open spec fn datarate_of(
        index: u8,
        bw: Option<Bandwidth>,
        gi: Option<GuardInterval>,
    ) -> Option<u32> {
        if bw is Some && gi is Some {
            match ht_rate_of(index, bw.unwrap(), gi.unwrap()) {
                Ok(rate) => Some(rate),
                Err(_) => None,
            }
        } else {
            None
        }
    }
}

impl Field for Mcs {
    /// The field is three bytes: the known mask, the flags and the MCS index. A bit of the
    /// known mask makes the value that goes with it present.
    ///
    /// Bit 0 is for the bandwidth in the bits 0 and 1 of the flags, bit 1 for the index, bit 2
    /// for the guard interval in bit 2 of the flags, bit 3 for the format in bit 3, bit 4 for
    /// the FEC type in bit 4, bit 5 for the STBC streams in the bits 5 and 6, and bit 6 for the
    /// extension spatial streams.
    open spec fn decodes(input: Seq<u8>) -> Result<Self, ErrorKind> {
        if input.len() < 3 {
            Err(ErrorKind::InvalidFormat)
        } else {
            let known = input[0] as u32;
            let flags = input[1] as u32;
            let bw = given(flag_is_set(known, 0x01), Self::bandwidth_of(input[1]));
            let gi = given(
                flag_is_set(known, 0x04),
                if flag_is_set(flags, 0x04) {
                    GuardInterval::Short
                } else {
                    GuardInterval::Long
                },
            );
            Ok(
                Mcs {
                    bw,
                    index: given(flag_is_set(known, 0x02), input[2]),
                    gi,
                    format: given(
                        flag_is_set(known, 0x08),
                        if flag_is_set(flags, 0x08) {
                            HtFormat::Greenfield
                        } else {
                            HtFormat::Mixed
                        },
                    ),
                    fec: given(
                        flag_is_set(known, 0x10),
                        if flag_is_set(flags, 0x10) {
                            Fec::Ldpc
                        } else {
                            Fec::Bcc
                        },
                    ),
                    stbc: given(flag_is_set(known, 0x20), ((input[1] / 32) % 4) as u8),
                    ness: given(flag_is_set(known, 0x40), Self::ness_of(input[0], input[1])),
                    datarate: Self::datarate_of(input[2], bw, gi),
                },
            )
        }
    }

    fn from_bytes(input: &[u8]) -> (r: Result<Self, ErrorKind>) {
        if input.len() < 3 {
            return Err(ErrorKind::InvalidFormat);
        }
        let known_byte = read_u8(input, 0);
        let flag_byte = read_u8(input, 1);
        let index = read_u8(input, 2);
        let known: u32 = known_byte as u32;
        let flags: u32 = flag_byte as u32;

        let bw = if flag_set(known, 0x01) {
            match Bandwidth::new(low_bits(flag_byte, 2)) {
                Ok(bw) => Some(bw),
                Err(e) => {
                    return Err(e);
                },
            }
        } else {
            None
        };
        let index_known = if flag_set(known, 0x02) {
            Some(index)
        } else {
            None
        };
        let gi = if flag_set(known, 0x04) {
            Some(
                if flag_set(flags, 0x04) {
                    GuardInterval::Short
                } else {
                    GuardInterval::Long
                },
            )
        } else {
            None
        };
        let format = if flag_set(known, 0x08) {
            Some(
                if flag_set(flags, 0x08) {
                    HtFormat::Greenfield
                } else {
                    HtFormat::Mixed
                },
            )
        } else {
            None
        };
        let fec = if flag_set(known, 0x10) {
            Some(
                if flag_set(flags, 0x10) {
                    Fec::Ldpc
                } else {
                    Fec::Bcc
                },
            )
        } else {
            None
        };
        let stbc = if flag_set(known, 0x20) {
            proof {
                lemma_byte_parts(flag_byte);
            }
            Some(bits_of(flags, 5, 2) as u8)
        } else {
            None
        };
        let ness = if flag_set(known, 0x40) {
            // Yes this is stored weirdly
            let high: u8 = if flag_set(known, 0x80) {
                2
            } else {
                0
            };
            let low: u8 = if flag_set(flags, 0x80) {
                1
            } else {
                0
            };
            Some(high + low)
        } else {
            None
        };
        let datarate = match (bw, gi) {
            (Some(bw), Some(gi)) => match ht_rate(index, bw, gi) {
                Ok(rate) => Some(rate),
                Err(_) => None,
            },
            _ => None,
        };
        Ok(Mcs { bw, index: index_known, gi, format, fec, stbc, ness, datarate })
    }
}

} // verus!
