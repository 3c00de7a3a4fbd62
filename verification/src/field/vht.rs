//! The VHT field: the modulation of an 802.11ac frame and of its up to four users.

use crate::bits::{bit_is_set, bit_set, flag_is_set, flag_set, high_nibble, low_bits};
use crate::bits::{le_u16, read_u16, read_u8};
use crate::error::ErrorKind;
use crate::field::rate::{vht_rate, vht_rate_of};
use crate::field::ext::{Bandwidth, Fec, GuardInterval, VhtUser};
use crate::field::{given, Field};
use vstd::prelude::*;
use vstd::slice::*;

verus! {

broadcast use group_slice_axioms;

/// The IEEE 802.11ac data rate index. Usually only one of the `Rate`, `Mcs` and `Vht` fields
/// is present.
#[derive(Clone, Copy, Debug, PartialEq, Eq)]
pub struct Vht {
    /// Whether all spatial streams of all users have STBC.
    pub stbc: Option<bool>,
    /// Whether STAs may not doze during TXOP or transmitter is non-AP.
    pub txop_ps: Option<bool>,
    /// The guard interval.
    pub gi: Option<GuardInterval>,
    /// False if NSYM mod 10 != 9 or short GI not used. True if NSYM mod 10 = 9.
    pub sgi_nsym_da: Option<bool>,
    /// Whether one or more users are using LDPC and the encoding process resulted in extra
    /// OFDM symbol(s).
    pub ldpc_extra: Option<bool>,
    /// The frame was transmitted/received using beamforming.
    pub beamformed: Option<bool>,
    /// The bandwidth.
    pub bw: Option<Bandwidth>,
    /// The Group ID of the frame.
    pub group_id: Option<u8>,
    /// A non-unique identifier of a STA to identify whether the transmissions are destined to
    /// a STA or not, used in conjunction with GroupID.
    pub partial_aid: Option<u16>,
    /// The users for the current group.
    pub users: [Option<VhtUser>; 4],
}

impl Vht {
    /// The bandwidth that the field gives, where it marks one as known: the low five bits of
    /// the bandwidth byte are its code. A code that stands for no bandwidth is an error.
    pub open spec fn bandwidth_of(known: u32, code: u8) -> Result<Option<Bandwidth>, ErrorKind> {
        if !flag_is_set(known, 0x0040) {
            Ok(None)
        } else {
            match Bandwidth::of_code(code % 32) {
                Some(bw) => Ok(Some(bw)),
                None => Err(ErrorKind::InvalidFormat),
            }
        }
    }

    /// The user in slot `slot` of the four, given the byte of the slot, the flags and the
    /// coding byte of the field, and the bandwidth and the guard interval where they are known.
    ///
    /// The low four bits of the slot byte count the spatial streams, and a slot with none is
    /// empty; the high four bits are the MCS index. With STBC every spatial stream makes two
    /// space-time streams. A user has a data rate if both the bandwidth and the guard interval
    /// are known, and then it is an error if 802.11ac defines no rate for it.
    pub open spec fn user_of(
        slot: u8,
        mcs_nss: u8,
        flags: u8,
        coding: u8,
        bw: Option<Bandwidth>,
        gi: Option<GuardInterval>,
    ) -> Result<Option<VhtUser>, ErrorKind> {
        let nss = mcs_nss % 16;
        let index = mcs_nss / 16;
        let user = VhtUser {
            index,
            fec: if bit_is_set(coding as u32, slot) {
                Fec::Ldpc
            } else {
                Fec::Bcc
            },
            nss,
            nsts: if flag_is_set(flags as u32, 0x01) {
                (2 * nss) as u8
            } else {
                nss
            },
            datarate: None,
        };
        if nss == 0 {
            Ok(None)
        } else if bw is Some && gi is Some {
            match vht_rate_of(index, bw.unwrap(), gi.unwrap(), nss) {
                Ok(rate) => Ok(Some(VhtUser { datarate: Some(rate), ..user })),
                Err(e) => Err(e),
            }
        } else {
            Ok(Some(user))
        }
    }

    /// Decodes one user slot.
    fn user(
        slot: u8,
        mcs_nss: u8,
        flags: u8,
        coding: u8,
        bw: Option<Bandwidth>,
        gi: Option<GuardInterval>,
    ) -> (r: Result<Option<VhtUser>, ErrorKind>)
        requires
            slot < 4,
        ensures
            r == Self::user_of(slot, mcs_nss, flags, coding, bw, gi),
    {
        let nss = low_bits(mcs_nss, 4);
        if nss == 0 {
            return Ok(None);
        }
        let index = high_nibble(mcs_nss);
        let nsts = if flag_set(flags as u32, 0x01) {
            2 * nss
        } else {
            nss
        };
        let fec = if bit_set(coding as u32, slot) {
            Fec::Ldpc
        } else {
            Fec::Bcc
        };
        let datarate = match (bw, gi) {
            (Some(bw), Some(gi)) => match vht_rate(index, bw, gi, nss) {
                Ok(rate) => Some(rate),
                Err(e) => {
                    return Err(e);
                },
            },
            _ => None,
        };
        Ok(Some(VhtUser { index, fec, nss, nsts, datarate }))
    }
}

impl Field for Vht {
    /// The field is twelve bytes: the known mask (two bytes, little-endian), the flags, the
    /// bandwidth, the four user slots, the coding byte, the group ID and the partial AID (two
    /// bytes, little-endian). A bit of the known mask makes the value that goes with it
    /// present.
    open spec fn decodes(input: Seq<u8>) -> Result<Self, ErrorKind> {
        if input.len() < 12 {
            Err(ErrorKind::InvalidFormat)
        } else {
            let known = le_u16(input, 0) as u32;
            let flags = input[2] as u32;
            let gi = given(
                flag_is_set(known, 0x0004),
                if flag_is_set(flags, 0x04) {
                    GuardInterval::Short
                } else {
                    GuardInterval::Long
                },
            );
            match Self::bandwidth_of(known, input[3]) {
                Err(e) => Err(e),
                Ok(bw) => match (
                    Self::user_of(0, input[4], input[2], input[8], bw, gi),
                    Self::user_of(1, input[5], input[2], input[8], bw, gi),
                    Self::user_of(2, input[6], input[2], input[8], bw, gi),
                    Self::user_of(3, input[7], input[2], input[8], bw, gi),
                ) {
                    (Ok(user0), Ok(user1), Ok(user2), Ok(user3)) => Ok(
                        Vht {
                            stbc: given(flag_is_set(known, 0x0001), flag_is_set(flags, 0x01)),
                            txop_ps: given(flag_is_set(known, 0x0002), flag_is_set(flags, 0x02)),
                            gi,
                            sgi_nsym_da: given(
                                flag_is_set(known, 0x0008),
                                flag_is_set(flags, 0x08),
                            ),
                            ldpc_extra: given(flag_is_set(known, 0x0010), flag_is_set(flags, 0x10)),
                            beamformed: given(flag_is_set(known, 0x0020), flag_is_set(flags, 0x20)),
                            bw,
                            group_id: given(flag_is_set(known, 0x0080), input[9]),
                            partial_aid: given(flag_is_set(known, 0x0100), le_u16(input, 10)),
                            users: [user0, user1, user2, user3],
                        },
                    ),
                    _ => Err(ErrorKind::UnsupportedField),
                },
            }
        }
    }

    fn from_bytes(input: &[u8]) -> (r: Result<Self, ErrorKind>) {
        if input.len() < 12 {
            return Err(ErrorKind::InvalidFormat);
        }
        let known: u32 = read_u16(input, 0) as u32;
        let flag_byte = read_u8(input, 2);
        let flags: u32 = flag_byte as u32;
        let bandwidth = read_u8(input, 3);
        let coding = read_u8(input, 8);
        let group_id = read_u8(input, 9);
        let partial_aid = read_u16(input, 10);

        let stbc = if flag_set(known, 0x0001) {
            Some(flag_set(flags, 0x01))
        } else {
            None
        };
        let txop_ps = if flag_set(known, 0x0002) {
            Some(flag_set(flags, 0x02))
        } else {
            None
        };
        let gi = if flag_set(known, 0x0004) {
            Some(
                if flag_set(flags, 0x04) {
                    GuardInterval::Short
                } else {
                    GuardInterval::Long
                },
            )
        } else {
            None
        };
        let sgi_nsym_da = if flag_set(known, 0x0008) {
            Some(flag_set(flags, 0x08))
        } else {
            None
        };
        let ldpc_extra = if flag_set(known, 0x0010) {
            Some(flag_set(flags, 0x10))
        } else {
            None
        };
        let beamformed = if flag_set(known, 0x0020) {
            Some(flag_set(flags, 0x20))
        } else {
            None
        };
        let bw = if flag_set(known, 0x0040) {
            match Bandwidth::new(low_bits(bandwidth, 5)) {
                Ok(bw) => Some(bw),
                Err(e) => {
                    return Err(e);
                },
            }
        } else {
            None
        };
        let group_id = if flag_set(known, 0x0080) {
            Some(group_id)
        } else {
            None
        };
        let partial_aid = if flag_set(known, 0x0100) {
            Some(partial_aid)
        } else {
            None
        };

        let user0 = Self::user(0, read_u8(input, 4), flag_byte, coding, bw, gi);
        let user1 = Self::user(1, read_u8(input, 5), flag_byte, coding, bw, gi);
        let user2 = Self::user(2, read_u8(input, 6), flag_byte, coding, bw, gi);
        let user3 = Self::user(3, read_u8(input, 7), flag_byte, coding, bw, gi);
        match (user0, user1, user2, user3) {
            (Ok(user0), Ok(user1), Ok(user2), Ok(user3)) => Ok(
                Vht {
                    stbc,
                    txop_ps,
                    gi,
                    sgi_nsym_da,
                    ldpc_extra,
                    beamformed,
                    bw,
                    group_id,
                    partial_aid,
                    users: [user0, user1, user2, user3],
                },
            ),
            _ => Err(ErrorKind::UnsupportedField),
        }
    }
}

} // verus!
