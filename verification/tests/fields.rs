use radiotap::field::ext::{Bandwidth, ChannelFlags, Fec, GuardInterval, HtFormat, VhtUser};
use radiotap::field::ext::{SamplingPosition, TimeUnit, XChannelFlags};
use radiotap::field::{from_bytes, from_bytes_some, Field};
use radiotap::field::{AmpduStatus, Antenna, AntennaNoise, AntennaNoiseDb, AntennaSignal};
use radiotap::field::{AntennaSignalDb, Channel, DataRetries, Fhss, Flags, LockQuality, Mcs, Rate};
use radiotap::field::{RtsRetries, RxFlags, Timestamp, Tsft, TxAttenuation, TxAttenuationDb};
use radiotap::field::{TxFlags, TxPower, VendorNamespace, Vht, XChannel};
use radiotap::ErrorKind;

#[test]
fn mcs_known_bandwidth_index_and_guard_interval() {
    let mcs = Mcs::from_bytes(&[0x07, 0x04, 7]).unwrap();
    assert_eq!(
        mcs,
        Mcs {
            bw: Some(Bandwidth { bandwidth: 20, sideband: None, sideband_index: None }),
            index: Some(7),
            gi: Some(GuardInterval::Short),
            format: None,
            fec: None,
            stbc: None,
            ness: None,
            datarate: Some(722),
        }
    );
    assert_eq!(f64::from(mcs.datarate.unwrap()) / 10.0, 72.2);
}

#[test]
fn mcs_every_known_bit() {
    let mcs = Mcs::from_bytes(&[0xff, 0xff, 15]).unwrap();
    assert_eq!(
        mcs.bw,
        Some(Bandwidth { bandwidth: 40, sideband: Some(20), sideband_index: Some(1) })
    );
    assert_eq!(mcs.index, Some(15));
    assert_eq!(mcs.gi, Some(GuardInterval::Short));
    assert_eq!(mcs.format, Some(HtFormat::Greenfield));
    assert_eq!(mcs.fec, Some(Fec::Ldpc));
    assert_eq!(mcs.stbc, Some(3));
    assert_eq!(mcs.ness, Some(3));
    assert_eq!(mcs.datarate, Some(1444));

    let mcs = Mcs::from_bytes(&[0x7f, 0x41, 3]).unwrap();
    assert_eq!(mcs.bw, Some(Bandwidth { bandwidth: 40, sideband: None, sideband_index: None }));
    assert_eq!(mcs.gi, Some(GuardInterval::Long));
    assert_eq!(mcs.format, Some(HtFormat::Mixed));
    assert_eq!(mcs.fec, Some(Fec::Bcc));
    assert_eq!(mcs.stbc, Some(2));
    assert_eq!(mcs.ness, Some(0));
    assert_eq!(mcs.datarate, Some(540));

    assert_eq!(Mcs::from_bytes(&[0xc0, 0x00, 0]).unwrap().ness, Some(2));
    assert_eq!(Mcs::from_bytes(&[0x40, 0x80, 0]).unwrap().ness, Some(1));
    assert_eq!(Mcs::from_bytes(&[0x01, 0x02, 0]).unwrap().bw.unwrap().sideband_index, Some(0));
}

#[test]
fn mcs_nothing_known() {
    let mcs = Mcs::from_bytes(&[0x00, 0xff, 7, 99]).unwrap();
    assert_eq!(
        mcs,
        Mcs {
            bw: None,
            index: None,
            gi: None,
            format: None,
            fec: None,
            stbc: None,
            ness: None,
            datarate: None
        }
    );
}

#[test]
fn mcs_datarate_needs_bandwidth_guard_interval_and_an_index_in_range() {
    assert_eq!(Mcs::from_bytes(&[0x01, 0x00, 7]).unwrap().datarate, None);
    assert_eq!(Mcs::from_bytes(&[0x04, 0x00, 7]).unwrap().datarate, None);
    assert_eq!(Mcs::from_bytes(&[0x05, 0x00, 7]).unwrap().datarate, Some(650));
    assert_eq!(Mcs::from_bytes(&[0x05, 0x00, 31]).unwrap().datarate, Some(2600));
    let out_of_range = Mcs::from_bytes(&[0x07, 0x00, 32]).unwrap();
    assert_eq!(out_of_range.index, Some(32));
    assert_eq!(out_of_range.datarate, None);
}

#[test]
fn mcs_short_input() {
    assert_eq!(Mcs::from_bytes(&[0x07, 0x04]), Err(ErrorKind::InvalidFormat));
    assert_eq!(Mcs::from_bytes(&[]), Err(ErrorKind::InvalidFormat));
}

#[test]
fn flags_bit_by_bit() {
    let none = Flags {
        cfp: false,
        preamble: false,
        wep: false,
        fragmentation: false,
        fcs: false,
        data_pad: false,
        bad_fcs: false,
        sgi: false,
    };
    assert_eq!(Flags::from_bytes(&[0x00]), Ok(none));
    assert_eq!(Flags::from_bytes(&[0x01]), Ok(Flags { cfp: true, ..none }));
    assert_eq!(Flags::from_bytes(&[0x02]), Ok(Flags { preamble: true, ..none }));
    assert_eq!(Flags::from_bytes(&[0x04]), Ok(Flags { wep: true, ..none }));
    assert_eq!(Flags::from_bytes(&[0x08]), Ok(Flags { fragmentation: true, ..none }));
    assert_eq!(Flags::from_bytes(&[0x10]), Ok(Flags { fcs: true, ..none }));
    assert_eq!(Flags::from_bytes(&[0x20]), Ok(Flags { data_pad: true, ..none }));
    assert_eq!(Flags::from_bytes(&[0x40]), Ok(Flags { bad_fcs: true, ..none }));
    assert_eq!(Flags::from_bytes(&[0x80]), Ok(Flags { sgi: true, ..none }));
    assert_eq!(Flags::from_bytes(&[]), Err(ErrorKind::InvalidFormat));
}

#[test]
fn rate_counts_half_megabits() {
    assert_eq!(Rate::from_bytes(&[2]), Ok(Rate { value: 10 }));
    assert_eq!(Rate::from_bytes(&[4]), Ok(Rate { value: 20 }));
    assert_eq!(Rate::from_bytes(&[11]), Ok(Rate { value: 55 }));
    assert_eq!(Rate::from_bytes(&[108]), Ok(Rate { value: 540 }));
    assert_eq!(Rate::from_bytes(&[127]), Ok(Rate { value: 635 }));
    assert_eq!(Rate::from_bytes(&[0x80]), Ok(Rate { value: -640 }));
    assert_eq!(Rate::from_bytes(&[0xff]), Ok(Rate { value: -5 }));
    assert_eq!(Rate::from_bytes(&[]), Err(ErrorKind::InvalidFormat));
    assert_eq!(f32::from(Rate::from_bytes(&[11]).unwrap().value) / 10.0, 5.5);
}

#[test]
fn channel_frequency_and_flags() {
    let none = ChannelFlags {
        turbo: false,
        cck: false,
        ofdm: false,
        ghz2: false,
        ghz5: false,
        passive: false,
        dynamic: false,
        gfsk: false,
    };
    assert_eq!(
        Channel::from_bytes(&[158, 9, 160, 0]),
        Ok(Channel { freq: 2462, flags: ChannelFlags { cck: true, ghz2: true, ..none } })
    );
    assert_eq!(
        Channel::from_bytes(&[0x3c, 0x14, 0x40, 0x01]),
        Ok(Channel { freq: 5180, flags: ChannelFlags { ofdm: true, ghz5: true, ..none } })
    );
    let flags = |low: u8, high: u8| Channel::from_bytes(&[0, 0, low, high]).unwrap().flags;
    assert_eq!(flags(0x0f, 0xf0), none);
    assert_eq!(flags(0x10, 0), ChannelFlags { turbo: true, ..none });
    assert_eq!(flags(0, 0x02), ChannelFlags { passive: true, ..none });
    assert_eq!(flags(0, 0x04), ChannelFlags { dynamic: true, ..none });
    assert_eq!(flags(0, 0x08), ChannelFlags { gfsk: true, ..none });
    assert_eq!(Channel::from_bytes(&[158, 9, 160]), Err(ErrorKind::InvalidFormat));
}

#[test]
fn xchannel_fields() {
    let none = XChannelFlags {
        turbo: false,
        cck: false,
        ofdm: false,
        ghz2: false,
        ghz5: false,
        passive: false,
        dynamic: false,
        gfsk: false,
        gsm: false,
        sturbo: false,
        half: false,
        quarter: false,
        ht20: false,
        ht40u: false,
        ht40d: false,
    };
    assert_eq!(
        XChannel::from_bytes(&[0x40, 0x01, 0x01, 0x00, 0x7c, 0x15, 100, 34]),
        Ok(XChannel {
            flags: XChannelFlags { ofdm: true, ghz5: true, ht20: true, ..none },
            freq: 5500,
            channel: 100,
            max_power: 34,
        })
    );
    let flags = |bytes: [u8; 4]| {
        XChannel::from_bytes(&[bytes[0], bytes[1], bytes[2], bytes[3], 0, 0, 0, 0]).unwrap().flags
    };
    assert_eq!(flags([0x0f, 0, 0xf8, 0xff]), none);
    assert_eq!(flags([0, 0x10, 0, 0]), XChannelFlags { gsm: true, ..none });
    assert_eq!(flags([0, 0x20, 0, 0]), XChannelFlags { sturbo: true, ..none });
    assert_eq!(flags([0, 0x40, 0, 0]), XChannelFlags { half: true, ..none });
    assert_eq!(flags([0, 0x80, 0, 0]), XChannelFlags { quarter: true, ..none });
    assert_eq!(flags([0, 0, 0x02, 0]), XChannelFlags { ht40u: true, ..none });
    assert_eq!(flags([0, 0, 0x04, 0]), XChannelFlags { ht40d: true, ..none });
    assert_eq!(flags([0x30, 0x0f, 0, 0]).turbo, true);
    assert_eq!(XChannel::from_bytes(&[0; 7]), Err(ErrorKind::InvalidFormat));
}

#[test]
fn single_value_fields() {
    assert_eq!(
        Tsft::from_bytes(&[185, 31, 155, 154, 0, 0, 0, 0]),
        Ok(Tsft { value: 2593857465 })
    );
    assert_eq!(
        Tsft::from_bytes(&[1, 2, 3, 4, 5, 6, 7, 8, 9]),
        Ok(Tsft { value: 0x0807_0605_0403_0201 })
    );
    assert_eq!(Fhss::from_bytes(&[3, 9]), Ok(Fhss { hopset: 3, pattern: 9 }));
    assert_eq!(AntennaSignal::from_bytes(&[227]), Ok(AntennaSignal { value: -29 }));
    assert_eq!(AntennaSignalDb::from_bytes(&[227]), Ok(AntennaSignalDb { value: 227 }));
    assert_eq!(AntennaNoise::from_bytes(&[166]), Ok(AntennaNoise { value: -90 }));
    assert_eq!(AntennaNoiseDb::from_bytes(&[166]), Ok(AntennaNoiseDb { value: 166 }));
    assert_eq!(LockQuality::from_bytes(&[0x34, 0x12]), Ok(LockQuality { value: 0x1234 }));
    assert_eq!(TxAttenuation::from_bytes(&[0xff, 0x00]), Ok(TxAttenuation { value: 255 }));
    assert_eq!(TxAttenuationDb::from_bytes(&[0x00, 0xff]), Ok(TxAttenuationDb { value: 0xff00 }));
    assert_eq!(TxPower::from_bytes(&[0x80]), Ok(TxPower { value: -128 }));
    assert_eq!(TxPower::from_bytes(&[20]), Ok(TxPower { value: 20 }));
    assert_eq!(Antenna::from_bytes(&[5]), Ok(Antenna { value: 5 }));
    assert_eq!(RtsRetries::from_bytes(&[7]), Ok(RtsRetries { value: 7 }));
    assert_eq!(DataRetries::from_bytes(&[255]), Ok(DataRetries { value: 255 }));
}

#[test]
fn single_value_fields_short_input() {
    assert_eq!(Tsft::from_bytes(&[0; 7]), Err(ErrorKind::InvalidFormat));
    assert_eq!(Fhss::from_bytes(&[0; 1]), Err(ErrorKind::InvalidFormat));
    assert_eq!(AntennaSignal::from_bytes(&[]), Err(ErrorKind::InvalidFormat));
    assert_eq!(AntennaSignalDb::from_bytes(&[]), Err(ErrorKind::InvalidFormat));
    assert_eq!(AntennaNoise::from_bytes(&[]), Err(ErrorKind::InvalidFormat));
    assert_eq!(AntennaNoiseDb::from_bytes(&[]), Err(ErrorKind::InvalidFormat));
    assert_eq!(LockQuality::from_bytes(&[0; 1]), Err(ErrorKind::InvalidFormat));
    assert_eq!(TxAttenuation::from_bytes(&[0; 1]), Err(ErrorKind::InvalidFormat));
    assert_eq!(TxAttenuationDb::from_bytes(&[0; 1]), Err(ErrorKind::InvalidFormat));
    assert_eq!(TxPower::from_bytes(&[]), Err(ErrorKind::InvalidFormat));
    assert_eq!(Antenna::from_bytes(&[]), Err(ErrorKind::InvalidFormat));
    assert_eq!(RtsRetries::from_bytes(&[]), Err(ErrorKind::InvalidFormat));
    assert_eq!(DataRetries::from_bytes(&[]), Err(ErrorKind::InvalidFormat));
    assert_eq!(RxFlags::from_bytes(&[0; 1]), Err(ErrorKind::InvalidFormat));
    assert_eq!(TxFlags::from_bytes(&[0; 1]), Err(ErrorKind::InvalidFormat));
}

#[test]
fn rx_and_tx_flags() {
    assert_eq!(RxFlags::from_bytes(&[0x02, 0x00]), Ok(RxFlags { bad_plcp: true }));
    assert_eq!(RxFlags::from_bytes(&[0xfd, 0xff]), Ok(RxFlags { bad_plcp: false }));
    let none = TxFlags { fail: false, cts: false, rts: false, no_ack: false, no_seq: false };
    assert_eq!(TxFlags::from_bytes(&[0xe0, 0xff]), Ok(none));
    assert_eq!(TxFlags::from_bytes(&[0x01, 0]), Ok(TxFlags { fail: true, ..none }));
    assert_eq!(TxFlags::from_bytes(&[0x02, 0]), Ok(TxFlags { cts: true, ..none }));
    assert_eq!(TxFlags::from_bytes(&[0x04, 0]), Ok(TxFlags { rts: true, ..none }));
    assert_eq!(TxFlags::from_bytes(&[0x08, 0]), Ok(TxFlags { no_ack: true, ..none }));
    assert_eq!(TxFlags::from_bytes(&[0x10, 0]), Ok(TxFlags { no_seq: true, ..none }));
}

#[test]
fn ampdu_status_flags() {
    let status = |flags: u8| AmpduStatus::from_bytes(&[249, 1, 0, 0, flags, 0, 0x5a, 0]).unwrap();
    assert_eq!(
        status(0x00),
        AmpduStatus { reference: 505, zero_length: None, last: None, delimiter_crc: None }
    );
    assert_eq!(status(0x01).zero_length, Some(false));
    assert_eq!(status(0x03).zero_length, Some(true));
    assert_eq!(status(0x02).zero_length, None);
    assert_eq!(status(0x04).last, Some(false));
    assert_eq!(status(0x0c).last, Some(true));
    assert_eq!(status(0x08).last, None);
    assert_eq!(status(0x20).delimiter_crc, Some(0x5a));
    assert_eq!(status(0x30).delimiter_crc, None);
    assert_eq!(status(0x10).delimiter_crc, None);
    assert_eq!(AmpduStatus::from_bytes(&[0; 7]), Err(ErrorKind::InvalidFormat));
    assert_eq!(
        AmpduStatus::from_bytes(&[1, 2, 3, 4, 0, 0, 0, 0]).unwrap().reference,
        0x0403_0201
    );
}

#[test]
fn timestamp_units_and_positions() {
    let bytes = |unit_position: u8, flags: u8| {
        [0x40, 0xe2, 1, 0, 0, 0, 0, 0, 0x10, 0x27, unit_position, flags]
    };
    assert_eq!(
        Timestamp::from_bytes(&bytes(0x00, 0x02)),
        Ok(Timestamp {
            timestamp: 123456,
            unit: TimeUnit::Milliseconds,
            position: SamplingPosition::StartMpdu,
            accuracy: Some(10000),
        })
    );
    assert_eq!(
        Timestamp::from_bytes(&bytes(0x21, 0x00)),
        Ok(Timestamp {
            timestamp: 123456,
            unit: TimeUnit::Microseconds,
            position: SamplingPosition::EndPpdu,
            accuracy: None,
        })
    );
    let timestamp = Timestamp::from_bytes(&bytes(0x12, 0xfd)).unwrap();
    assert_eq!(timestamp.unit, TimeUnit::Nanoseconds);
    assert_eq!(timestamp.position, SamplingPosition::StartPlcp);
    assert_eq!(timestamp.accuracy, None);
    assert_eq!(
        Timestamp::from_bytes(&bytes(0x30, 0)).unwrap().position,
        SamplingPosition::EndMpdu
    );
    assert_eq!(
        Timestamp::from_bytes(&bytes(0xf1, 0)).unwrap().position,
        SamplingPosition::Unknown
    );
}

#[test]
fn timestamp_reserved_codes() {
    let bytes = |unit_position: u8| [0, 0, 0, 0, 0, 0, 0, 0, 0, 0, unit_position, 0];
    for unit in 3..16u8 {
        assert_eq!(Timestamp::from_bytes(&bytes(unit)), Err(ErrorKind::InvalidFormat));
    }
    for position in 4..15u8 {
        assert_eq!(Timestamp::from_bytes(&bytes(position << 4)), Err(ErrorKind::InvalidFormat));
    }
    assert_eq!(Timestamp::from_bytes(&[0; 11]), Err(ErrorKind::InvalidFormat));
    assert_eq!(TimeUnit::new(2), Ok(TimeUnit::Nanoseconds));
    assert_eq!(TimeUnit::new(3), Err(ErrorKind::InvalidFormat));
    assert_eq!(SamplingPosition::from(15), Ok(SamplingPosition::Unknown));
    assert_eq!(SamplingPosition::from(16), Err(ErrorKind::InvalidFormat));
}

#[test]
fn vht_one_user() {
    let vht = Vht::from_bytes(&[0xff, 0x01, 0x50, 4, 0x73, 0, 0, 0, 1, 63, 0x34, 0x12]).unwrap();
    assert_eq!(
        vht,
        Vht {
            stbc: Some(false),
            txop_ps: Some(false),
            gi: Some(GuardInterval::Long),
            sgi_nsym_da: Some(false),
            ldpc_extra: Some(true),
            beamformed: Some(false),
            bw: Some(Bandwidth { bandwidth: 80, sideband: None, sideband_index: None }),
            group_id: Some(63),
            partial_aid: Some(0x1234),
            users: [
                Some(VhtUser { index: 7, fec: Fec::Ldpc, nss: 3, nsts: 3, datarate: Some(8775) }),
                None,
                None,
                None,
            ],
        }
    );
}

#[test]
fn vht_four_users_with_stbc() {
    let vht =
        Vht::from_bytes(&[0x45, 0x00, 0x05, 11, 0x01, 0x12, 0x00, 0x94, 0x0a, 0, 0, 0]).unwrap();
    assert_eq!(vht.stbc, Some(true));
    assert_eq!(vht.txop_ps, None);
    assert_eq!(vht.gi, Some(GuardInterval::Short));
    assert_eq!(vht.group_id, None);
    assert_eq!(vht.partial_aid, None);
    assert_eq!(vht.bw, Some(Bandwidth { bandwidth: 160, sideband: None, sideband_index: None }));
    assert_eq!(
        vht.users,
        [
            Some(VhtUser { index: 0, fec: Fec::Bcc, nss: 1, nsts: 2, datarate: Some(650) }),
            Some(VhtUser { index: 1, fec: Fec::Ldpc, nss: 2, nsts: 4, datarate: Some(2600) }),
            None,
            Some(VhtUser { index: 9, fec: Fec::Ldpc, nss: 4, nsts: 8, datarate: Some(34667) }),
        ]
    );
}

#[test]
fn vht_without_bandwidth_has_no_datarate() {
    let vht = Vht::from_bytes(&[0x04, 0, 0, 4, 0x91, 0, 0, 0, 0, 0, 0, 0]).unwrap();
    assert_eq!(vht.bw, None);
    assert_eq!(
        vht.users[0],
        Some(VhtUser { index: 9, fec: Fec::Bcc, nss: 1, nsts: 1, datarate: None })
    );
}

#[test]
fn vht_sidebands() {
    let bw = |code: u8| {
        Vht::from_bytes(&[0x40, 0, 0, code, 0, 0, 0, 0, 0, 0, 0, 0]).unwrap().bw.unwrap()
    };
    assert_eq!(bw(0), Bandwidth { bandwidth: 20, sideband: None, sideband_index: None });
    assert_eq!(bw(1), Bandwidth { bandwidth: 40, sideband: None, sideband_index: None });
    assert_eq!(bw(3), Bandwidth { bandwidth: 40, sideband: Some(20), sideband_index: Some(1) });
    assert_eq!(bw(6), Bandwidth { bandwidth: 80, sideband: Some(40), sideband_index: Some(1) });
    assert_eq!(bw(10), Bandwidth { bandwidth: 80, sideband: Some(20), sideband_index: Some(3) });
    assert_eq!(bw(13), Bandwidth { bandwidth: 160, sideband: Some(80), sideband_index: Some(1) });
    assert_eq!(bw(17), Bandwidth { bandwidth: 160, sideband: Some(40), sideband_index: Some(3) });
    assert_eq!(bw(18), Bandwidth { bandwidth: 160, sideband: Some(20), sideband_index: Some(0) });
    assert_eq!(bw(25), Bandwidth { bandwidth: 160, sideband: Some(20), sideband_index: Some(7) });
    // Only the low five bits are the code.
    assert_eq!(bw(0xe4), Bandwidth { bandwidth: 80, sideband: None, sideband_index: None });
    for code in 0..=25u8 {
        assert_eq!(Bandwidth::new(code), Ok(bw(code)));
    }
}

#[test]
fn vht_errors() {
    // A bandwidth code that is reserved.
    assert_eq!(
        Vht::from_bytes(&[0x40, 0, 0, 26, 0, 0, 0, 0, 0, 0, 0, 0]),
        Err(ErrorKind::InvalidFormat)
    );
    assert_eq!(Bandwidth::new(26), Err(ErrorKind::InvalidFormat));
    assert_eq!(Bandwidth::new(255), Err(ErrorKind::InvalidFormat));
    // The same code does not matter while the bandwidth is not marked as known.
    assert!(Vht::from_bytes(&[0x00, 0, 0, 26, 0, 0, 0, 0, 0, 0, 0, 0]).is_ok());
    // A user at index 9 with one stream at 20 MHz has no rate.
    let no_rate = [0x44, 0, 0, 0, 0x91, 0, 0, 0, 0, 0, 0, 0];
    assert_eq!(Vht::from_bytes(&no_rate), Err(ErrorKind::UnsupportedField));
    assert_eq!(from_bytes::<Vht>(&no_rate), Err(ErrorKind::InvalidFormat));
    // An index above 9.
    assert_eq!(
        Vht::from_bytes(&[0x44, 0, 0, 0, 0x11, 0xa1, 0, 0, 0, 0, 0, 0]),
        Err(ErrorKind::UnsupportedField)
    );
    assert_eq!(Vht::from_bytes(&[0; 11]), Err(ErrorKind::InvalidFormat));
}

#[test]
fn vendor_namespace_descriptor() {
    assert_eq!(
        VendorNamespace::from_bytes(&[255, 255, 255, 255, 2, 0]),
        Ok(VendorNamespace { oui: [255, 255, 255], sub_namespace: 255, skip_length: 2 })
    );
    assert_eq!(
        VendorNamespace::from_bytes(&[0x00, 0x15, 0x6d, 3, 0x34, 0x12, 9]),
        Ok(VendorNamespace { oui: [0x00, 0x15, 0x6d], sub_namespace: 3, skip_length: 0x1234 })
    );
    assert_eq!(VendorNamespace::from_bytes(&[0; 5]), Err(ErrorKind::InvalidFormat));
}

#[test]
fn generic_parsers() {
    assert_eq!(from_bytes::<Tsft>(&[1, 0, 0, 0, 0, 0, 0, 0]), Ok(Tsft { value: 1 }));
    assert_eq!(from_bytes::<Tsft>(&[1, 0, 0]), Err(ErrorKind::InvalidFormat));
    assert_eq!(from_bytes_some::<Antenna>(&[3]), Ok(Some(Antenna { value: 3 })));
    assert_eq!(from_bytes_some::<Antenna>(&[]), Err(ErrorKind::InvalidFormat));
    let antenna: Antenna = from_bytes(&[9]).unwrap();
    assert_eq!(antenna.value, 9);
}
