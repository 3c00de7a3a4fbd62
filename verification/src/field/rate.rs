//! The HT and VHT rate tables.
//!
//! A rate is a whole number of units of 100 kbit/s, so that 65 stands for 6.5 Mbit/s. The
//! tables hold what the rate is made of: the data subcarriers of each channel width and the
//! data bits that each modulation puts on a subcarrier. The rate follows from them as the
//! standards define it, rounded as the standards print it.

use crate::error::ErrorKind;
use crate::field::ext::{Bandwidth, GuardInterval};
use vstd::prelude::*;

verus! {

/// The number of data subcarriers in an OFDM channel of the given width in MHz, and none for
/// any other width.
pub open spec fn data_subcarriers(width: u8) -> nat {
    if width == 20 {
        52
    } else if width == 40 {
        108
    } else if width == 80 {
        234
    } else if width == 160 {
        468
    } else {
        0
    }
}

/// The data bits that one symbol carries on one spatial stream, in sixths of a bit: for each
/// data subcarrier the bits of a constellation point times the coding rate, which the
/// modulation gives.
///
/// The ten modulations are BPSK 1/2, QPSK 1/2 and 3/4, 16-QAM 1/2 and 3/4, 64-QAM 2/3, 3/4 and
/// 5/6, and 256-QAM 3/4 and 5/6; they put 3, 6, 9, 12, 18, 24, 27, 30, 36 and 40 sixths of a
/// bit on a subcarrier.
pub open spec fn stream_bits(modulation: u8, width: u8) -> nat {
    let carriers = data_subcarriers(width);
    if modulation == 0 {
        3 * carriers
    } else if modulation == 1 {
        6 * carriers
    } else if modulation == 2 {
        9 * carriers
    } else if modulation == 3 {
        12 * carriers
    } else if modulation == 4 {
        18 * carriers
    } else if modulation == 5 {
        24 * carriers
    } else if modulation == 6 {
        27 * carriers
    } else if modulation == 7 {
        30 * carriers
    } else if modulation == 8 {
        36 * carriers
    } else if modulation == 9 {
        40 * carriers
    } else {
        0
    }
}

/// The data bits that one symbol carries on all of its one to eight spatial streams, in sixths
/// of a bit.
pub open spec fn symbol_bits(modulation: u8, width: u8, streams: u8) -> nat {
    let bits = stream_bits(modulation, width);
    if streams == 1 {
        bits
    } else if streams == 2 {
        2 * bits
    } else if streams == 3 {
        3 * bits
    } else if streams == 4 {
        4 * bits
    } else if streams == 5 {
        5 * bits
    } else if streams == 6 {
        6 * bits
    } else if streams == 7 {
        7 * bits
    } else if streams == 8 {
        8 * bits
    } else {
        0
    }
}

/// The rate of a frame whose symbols carry `bits` sixths of a bit, in units of 100 kbit/s and
/// rounded to the nearest unit, a half rounded up.
///
/// With the long guard interval a symbol lasts 4 microseconds, so the rate is 10 / 24 units
/// for every sixth of a bit; with the short one it lasts 3.6 microseconds, and the rate is
/// 100 / 216 units. Half a unit is added before the division cuts the fraction off.
pub open spec fn rounded_rate(bits: nat, gi: GuardInterval) -> nat {
    match gi {
        GuardInterval::Long => (20 * bits + 24) / 48,
        GuardInterval::Short => (100 * bits + 108) / 216,
    }
}

/// The rounded rate is the whole number nearest to the exact rate: it is no more than half a
/// unit above it, and less than half a unit below.
pub proof fn lemma_rate_is_nearest(bits: nat, gi: GuardInterval)
    ensures
        gi == GuardInterval::Long ==> 24 * (2 * rounded_rate(bits, gi) - 1) <= 20 * bits < 24 * (2
            * rounded_rate(bits, gi) + 1),
        gi == GuardInterval::Short ==> 108 * (2 * rounded_rate(bits, gi) - 1) <= 100 * bits < 108
            * (2 * rounded_rate(bits, gi) + 1),
{
}

/// Whether 802.11n defines a rate for this MCS index and this occupied width.
pub open spec fn ht_defined(index: u8, width: u8) -> bool {
    index <= 31 && (width == 20 || width == 40)
}

/// The rate of an HT frame in units of 100 kbit/s, where 802.11n defines one.
///
/// The indices 0 to 31 run through the first eight modulations on one spatial stream, then on
/// two, three and four.
pub open spec fn ht_rate_of(index: u8, bw: Bandwidth, gi: GuardInterval) -> Result<u32, ErrorKind> {
    if ht_defined(index, bw.occupied()) {
        Ok(
            rounded_rate(
                symbol_bits((index % 8) as u8, bw.occupied(), (index / 8 + 1) as u8),
                gi,
            ) as u32,
        )
    } else {
        Err(ErrorKind::UnsupportedField)
    }
}

/// Whether 802.11ac defines a rate for this MCS index, this occupied width and this number of
/// spatial streams.
///
/// The standard leaves out the combinations whose bits do not divide evenly among the
/// encoders: index 9 at 20 MHz unless the streams are three or six, index 6 at 80 MHz with
/// three or seven streams, index 9 at 80 MHz with six streams, and index 9 at 160 MHz with
/// three streams.
pub open spec fn vht_defined(index: u8, width: u8, nss: u8) -> bool {
    &&& index <= 9
    &&& 1 <= nss <= 8
    &&& width == 20 || width == 40 || width == 80 || width == 160
    &&& !(width == 20 && index == 9 && nss != 3 && nss != 6)
    &&& !(width == 80 && index == 6 && (nss == 3 || nss == 7))
    &&& !(width == 80 && index == 9 && nss == 6)
    &&& !(width == 160 && index == 9 && nss == 3)
}

/// The rate of a VHT frame in units of 100 kbit/s, where 802.11ac defines one.
pub open spec fn vht_rate_of(index: u8, bw: Bandwidth, gi: GuardInterval, nss: u8) -> Result<
    u32,
    ErrorKind,
> {
    if vht_defined(index, bw.occupied(), nss) {
        Ok(rounded_rate(symbol_bits(index, bw.occupied(), nss), gi) as u32)
    } else {
        Err(ErrorKind::UnsupportedField)
    }
}

/// Looks up the number of data subcarriers of a channel width.
fn subcarriers(width: u8) -> (n: u32)
    ensures
        n == data_subcarriers(width),
        n <= 468,
{
    match width {
        20 => 52,
        40 => 108,
        80 => 234,
        160 => 468,
        _ => 0,
    }
}

/// Looks up the data bits of one symbol on one spatial stream, in sixths of a bit.
fn bits_of_stream(modulation: u8, width: u8) -> (n: u32)
    ensures
        n == stream_bits(modulation, width),
        n <= 40 * 468,
{
    let carriers = subcarriers(width);
    match modulation {
        0 => 3 * carriers,
        1 => 6 * carriers,
        2 => 9 * carriers,
        3 => 12 * carriers,
        4 => 18 * carriers,
        5 => 24 * carriers,
        6 => 27 * carriers,
        7 => 30 * carriers,
        8 => 36 * carriers,
        9 => 40 * carriers,
        _ => 0,
    }
}

/// Computes the data bits of one symbol on all of its spatial streams, in sixths of a bit.
fn bits_of_symbol(modulation: u8, width: u8, streams: u8) -> (n: u32)
    ensures
        n == symbol_bits(modulation, width, streams),
        n <= 8 * 40 * 468,
{
    let bits = bits_of_stream(modulation, width);
    match streams {
        1 => bits,
        2 => 2 * bits,
        3 => 3 * bits,
        4 => 4 * bits,
        5 => 5 * bits,
        6 => 6 * bits,
        7 => 7 * bits,
        8 => 8 * bits,
        _ => 0,
    }
}

/// Computes the rate from the data bits of a symbol.
fn rate(bits: u32, gi: GuardInterval) -> (rate: u32)
    requires
        bits <= 8 * 40 * 468,
    ensures
        rate == rounded_rate(bits as nat, gi),
{
    match gi {
        GuardInterval::Long => (20 * bits + 24) / 48,
        GuardInterval::Short => (100 * bits + 108) / 216,
    }
}

/// Returns the data rate of an HT frame, in units of 100 kbit/s.
///
/// The rate is that of 802.11n for the MCS index, the width that the frame occupies and the
/// guard interval: 65 for index 0 at 20 MHz with the long guard interval, which is 6.5 Mbit/s.
/// An index above 31 or a width other than 20 or 40 MHz has no rate.
pub fn ht_rate(index: u8, bw: Bandwidth, gi: GuardInterval) -> (r: Result<u32, ErrorKind>)
    ensures
        r == ht_rate_of(index, bw, gi),
{
    if index > 31 {
        return Err(ErrorKind::UnsupportedField);
    }
    let width = bw.width();
    if width != 20 && width != 40 {
        return Err(ErrorKind::UnsupportedField);
    }
    Ok(rate(bits_of_symbol(index % 8, width, index / 8 + 1), gi))
}

/// Returns the data rate of a VHT frame, in units of 100 kbit/s.
///
/// The rate is that of 802.11ac for the MCS index, the width that the frame occupies, the
/// guard interval and the number of spatial streams. A combination that the standard does not
/// define has no rate.
pub fn vht_rate(index: u8, bw: Bandwidth, gi: GuardInterval, nss: u8) -> (r: Result<
    u32,
    ErrorKind,
>)
    ensures
        r == vht_rate_of(index, bw, gi, nss),
{
    if index > 9 || nss < 1 || nss > 8 {
        return Err(ErrorKind::UnsupportedField);
    }
    let width = bw.width();
    if width != 20 && width != 40 && width != 80 && width != 160 {
        return Err(ErrorKind::UnsupportedField);
    }
    let left_out = (width == 20 && index == 9 && nss != 3 && nss != 6) || (width == 80 && index
        == 6 && (nss == 3 || nss == 7)) || (width == 80 && index == 9 && nss == 6) || (width == 160
        && index == 9 && nss == 3);
    if left_out {
        return Err(ErrorKind::UnsupportedField);
    }
    Ok(rate(bits_of_symbol(index, width, nss), gi))
}

} // verus!
