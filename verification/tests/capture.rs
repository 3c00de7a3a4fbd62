use radiotap::field::ext::{Bandwidth, Fec, GuardInterval};
use radiotap::field::{Header, Rate};
use radiotap::{parse, parse_header};
use radiotap::{CaptureNamespace, ErrorKind, FieldExtent, NamespaceId, Radiotap, VendorLayout};
use radiotap::{NamespaceKind, RadiotapKind};

const GOOD: [u8; 39] = [
    0, 0, 39, 0, 46, 72, 0, 192, 0, 0, 0, 128, 0, 0, 0, 160, 4, 0, 0, 0, 16, 2, 158, 9, 160, 0, 227,
    5, 0, 0, 255, 255, 255, 255, 2, 0, 222, 173, 4,
];

#[test]
fn good_vendor() {
    let frame = [
        0, 0, 39, 0, 46, 72, 0, 192, 0, 0, 0, 128, 0, 0, 0, 160, 4, 0, 0, 0, 16, 2, 158, 9, 160, 0,
        227, 5, 0, 0, 255, 255, 255, 255, 2, 0, 222, 173, 4,
    ];

    let rate = Radiotap::from_bytes(&frame).unwrap().rate.unwrap();
    assert_eq!(rate, Rate { value: 20 });
    assert_eq!(f32::from(rate.value) / 10.0, 2.0);
}

#[test]
fn bad_version() {
    let frame = [
        1, 0, 39, 0, 46, 72, 0, 192, 0, 0, 0, 128, 0, 0, 0, 160, 4, 0, 0, 0, 16, 2, 158, 9, 160, 0,
        227, 5, 0, 0, 255, 255, 255, 255, 2, 0, 222, 173, 4,
    ];

    match Radiotap::from_bytes(&frame).unwrap_err() {
        ErrorKind::UnsupportedVersion => {}
        e => panic!("Error not UnsupportedVersion: {:?}", e),
    };
}

#[test]
fn bad_header_length() {
    let frame = [
        0, 0, 40, 0, 46, 72, 0, 192, 0, 0, 0, 128, 0, 0, 0, 160, 4, 0, 0, 0, 16, 2, 158, 9, 160, 0,
        227, 5, 0, 0, 255, 255, 255, 255, 2, 0, 222, 173, 4,
    ];

    match Radiotap::from_bytes(&frame).unwrap_err() {
        ErrorKind::InvalidLength => {}
        e => panic!("Error not InvalidLength: {:?}", e),
    };
}

#[test]
fn bad_actual_length() {
    let frame = [
        0, 0, 39, 0, 47, 72, 0, 192, 0, 0, 0, 128, 0, 0, 0, 160, 4, 0, 0, 0, 16, 2, 158, 9, 160, 0,
        227, 5, 0, 0, 255, 255, 255, 255, 2, 0, 222, 173, 4,
    ];

    match Radiotap::from_bytes(&frame).unwrap_err() {
        ErrorKind::IncompleteError => {}
        e => panic!("Error not IncompleteError: {:?}", e),
    };
}

#[test]
fn bad_vendor() {
    let frame = [
        0, 0, 34, 0, 46, 72, 0, 192, 0, 0, 0, 128, 0, 0, 0, 160, 4, 0, 0, 0, 16, 2, 158, 9, 160, 0,
        227, 5, 0, 0, 255, 255, 255, 255,
    ];

    match Radiotap::from_bytes(&frame).unwrap_err() {
        ErrorKind::IncompleteError => {}
        e => panic!("Error not IncompleteError: {:?}", e),
    };
}

#[test]
fn good_vendor_every_field() {
    let radiotap = Radiotap::from_bytes(&GOOD).unwrap();
    let flags = radiotap.flags.unwrap();
    assert!(flags.fcs);
    assert!(!flags.cfp && !flags.preamble && !flags.wep && !flags.fragmentation);
    assert!(!flags.data_pad && !flags.bad_fcs && !flags.sgi);
    let channel = radiotap.channel.unwrap();
    assert_eq!(channel.freq, 2462);
    assert!(channel.flags.cck && channel.flags.ghz2);
    assert!(!channel.flags.ofdm && !channel.flags.ghz5 && !channel.flags.turbo);
    assert_eq!(radiotap.antenna_signal.unwrap().value, -29);
    assert_eq!(radiotap.antenna.unwrap().value, 5);
    assert!(!radiotap.rx_flags.unwrap().bad_plcp);
    assert!(radiotap.tsft.is_none());
    assert!(radiotap.mcs.is_none());
    assert!(radiotap.vht.is_none());
}

#[test]
fn later_occurrence_overwrites() {
    // The rate occurs twice: as 1.0 Mbit/s in the first word and as 2.0 Mbit/s in the last.
    let (capture, rest) = parse(&GOOD).unwrap();
    assert!(rest.is_empty());
    assert_eq!(capture.radiotap.rate.unwrap().value, 20);
    let rates: Vec<&FieldExtent> = capture.fields.iter().filter(|f| f.bit == 2).collect();
    assert_eq!(rates.len(), 2);
    assert_eq!((rates[0].start, rates[0].end), (21, 22));
    assert_eq!((rates[1].start, rates[1].end), (38, 39));
    assert_eq!(GOOD[21], 2);
    assert_eq!(GOOD[38], 4);
}

#[test]
fn field_extents_in_order() {
    let (capture, _) = parse(&GOOD).unwrap();
    let found: Vec<(u8, usize, usize)> =
        capture.fields.iter().map(|f| (f.bit, f.start, f.end)).collect();
    assert_eq!(
        found,
        vec![(1, 20, 21), (2, 21, 22), (3, 22, 26), (5, 26, 27), (11, 27, 28), (14, 28, 30), (2, 38, 39)]
    );
    for field in capture.fields.iter() {
        assert_eq!(field.namespace, NamespaceId::Default);
    }
    let words: Vec<usize> = capture.fields.iter().map(|f| f.word).collect();
    assert_eq!(words, vec![0, 0, 0, 0, 0, 0, 3]);
}

#[test]
fn fields_are_in_the_order_of_their_announcement() {
    let mut registry = CaptureNamespace::new();
    registry.register_vendor([255, 255, 255], 255, VendorLayout::new().define(0, 1, 1));
    for capture in [parse(&GOOD).unwrap().0, registry.parse(&[
        0, 0, 27, 0, 6, 0, 0, 192, 1, 0, 0, 160, 6, 0, 0, 0, 16, 2, 255, 255, 255, 255, 0, 0,
        9, 16, 4,
    ]).unwrap().0] {
        for pair in capture.fields.windows(2) {
            assert!((pair[0].word, pair[0].bit) < (pair[1].word, pair[1].bit));
            assert!(pair[0].end <= pair[1].start);
        }
        for field in capture.fields.iter() {
            assert!(field.word < capture.header.present.len());
            assert!(field.bit < 29);
        }
    }
}

#[test]
fn fields_lie_in_payload_aligned_and_sized() {
    let (capture, _) = parse(&GOOD).unwrap();
    let mut cursor = capture.header.size;
    for field in capture.fields.iter() {
        let kind = RadiotapKind::from_bit(field.bit).unwrap();
        assert!(capture.header.size <= field.start);
        assert!(field.end <= capture.header.length);
        assert_eq!(field.start % kind.align(), 0);
        assert_eq!(field.end - field.start, kind.size());
        assert!(cursor <= field.start);
        cursor = field.end;
    }
}

#[test]
fn unknown_vendor_is_skipped_exactly() {
    let (capture, _) = parse(&GOOD).unwrap();
    assert_eq!(capture.vendors.len(), 1);
    let vendor = &capture.vendors[0];
    assert_eq!(vendor.oui, [255, 255, 255]);
    assert_eq!(vendor.sub_namespace, 255);
    assert_eq!(vendor.bit, None);
    assert_eq!(vendor.data, vec![222, 173]);
    // The descriptor ends at 36, two bytes are skipped, and the next field starts at 38.
    assert_eq!(capture.fields.last().unwrap().start, 36 + 2);
}

#[test]
fn unknown_vendor_skip_of_zero() {
    let frame = [
        0, 0, 19, 0, 0, 0, 0, 192, 4, 0, 0, 32, 1, 2, 3, 9, 0, 0, 7,
    ];
    let (capture, _) = parse(&frame).unwrap();
    assert_eq!(capture.vendors.len(), 1);
    assert_eq!(capture.vendors[0].oui, [1, 2, 3]);
    assert_eq!(capture.vendors[0].sub_namespace, 9);
    assert!(capture.vendors[0].data.is_empty());
    // Bit 2 of the second word is passed over in the unknown namespace; bit 29 is its last.
    assert!(capture.radiotap.rate.is_none());
    assert!(capture.fields.is_empty());
}

#[test]
fn unknown_vendor_skip_overruns() {
    let frame = [
        0, 0, 20, 0, 0, 0, 0, 64, 1, 2, 3, 9, 3, 0, 7, 7, 0, 0, 0, 0,
    ];
    // The descriptor is at 8..14 and announces 3 bytes, but the capture says that it ends at 16.
    let mut short = frame;
    short[2] = 16;
    assert_eq!(parse(&short).unwrap_err(), ErrorKind::IncompleteError);
    short[2] = 17;
    let (capture, rest) = parse(&short).unwrap();
    assert_eq!(capture.vendors[0].data, vec![7, 7, 0]);
    assert_eq!(rest, &[0, 0, 0]);
}

#[test]
fn registered_vendor_fields() {
    let mut registry = CaptureNamespace::new();
    let layout = VendorLayout::new().define(0, 4, 4).define(3, 1, 2);
    registry.register_vendor([0xaa, 0xbb, 0xcc], 7, layout);
    assert!(registry.knows([0xaa, 0xbb, 0xcc], 7));
    assert!(!registry.knows([0xaa, 0xbb, 0xcc], 8));
    let frame = [
        0, 0, 35, 0, // version, pad, length
        2, 0, 0, 192, // flags; vendor namespace next; more words
        9, 0, 0, 160, // vendor bits 0 and 3; back to default; more words
        2, 0, 0, 0, // flags again
        0x10, 0, // flags at 16, pad to 18
        0xaa, 0xbb, 0xcc, 7, 6, 0, // descriptor at 18..24
        1, 2, 3, 4, // vendor field 0 at 24..28
        5, 6, // vendor field 3 at 28..30
        0x80, // flags at 30
        0, 0, 0, 0,
    ];
    let (capture, rest) = registry.parse(&frame).unwrap();
    assert!(rest.is_empty());
    assert!(capture.radiotap.flags.unwrap().sgi);
    assert!(!capture.radiotap.flags.unwrap().fcs);
    assert_eq!(capture.vendors.len(), 2);
    assert_eq!(capture.vendors[0].bit, Some(0));
    assert_eq!(capture.vendors[0].data, vec![1, 2, 3, 4]);
    assert_eq!(capture.vendors[1].bit, Some(3));
    assert_eq!(capture.vendors[1].data, vec![5, 6]);
    assert_eq!(capture.vendors[1].oui, [0xaa, 0xbb, 0xcc]);
    assert_eq!(capture.vendors[1].sub_namespace, 7);
    let found: Vec<(u8, usize, usize)> =
        capture.fields.iter().map(|f| (f.bit, f.start, f.end)).collect();
    assert_eq!(found, vec![(1, 16, 17), (0, 24, 28), (3, 28, 30), (1, 30, 31)]);
    assert_eq!(
        capture.fields[1].namespace,
        NamespaceId::Vendor { oui: [0xaa, 0xbb, 0xcc], sub_namespace: 7 }
    );

    // Without the registration the six bytes are skipped in one piece.
    let (capture, _) = parse(&frame).unwrap();
    assert_eq!(capture.vendors.len(), 1);
    assert_eq!(capture.vendors[0].bit, None);
    assert_eq!(capture.vendors[0].data, vec![1, 2, 3, 4, 5, 6]);
    assert!(capture.radiotap.flags.unwrap().sgi);
}

#[test]
fn registered_vendor_undefined_bit() {
    let mut registry = CaptureNamespace::new();
    registry.register_vendor([1, 2, 3], 0, VendorLayout::new().define(0, 1, 1));
    let frame = [
        0, 0, 20, 0, 0, 0, 0, 192, 2, 0, 0, 0, 1, 2, 3, 0, 0, 0, 9, 9,
    ];
    assert_eq!(registry.parse(&frame).unwrap_err(), ErrorKind::UnsupportedField);
}

#[test]
fn vendor_layout_rejects_bad_definitions() {
    let layout = VendorLayout::new().define(29, 1, 1).define(4, 3, 1).define(5, 0, 1);
    for bit in 0..=255u8 {
        assert_eq!(layout.get(bit), None);
    }
    let layout = layout.define(28, 8, 16);
    assert_eq!(layout.get(28).unwrap().align, 8);
    assert_eq!(layout.get(28).unwrap().size, 16);
    let layout = layout.define(28, 2, 3);
    assert_eq!(layout.get(28).unwrap().align, 2);
    assert_eq!(layout.get(28).unwrap().size, 3);
}

#[test]
fn undefined_bit_of_default_namespace() {
    let frame = [0, 0, 9, 0, 0, 0, 128, 0, 1];
    assert_eq!(parse(&frame).unwrap_err(), ErrorKind::UnsupportedField);
}

#[test]
fn invalid_field_fails_the_parse() {
    // A timestamp whose unit code is 3.
    let frame = [0, 0, 20, 0, 0, 0, 64, 0, 1, 0, 0, 0, 0, 0, 0, 0, 0, 0, 0x03, 0];
    assert_eq!(parse(&frame).unwrap_err(), ErrorKind::InvalidFormat);
    let mut good = frame;
    good[18] = 0x12;
    let (capture, _) = parse(&good).unwrap();
    assert_eq!(capture.radiotap.timestamp.unwrap().timestamp, 1);
    assert_eq!((capture.fields[0].start, capture.fields[0].end), (8, 20));
}

#[test]
fn empty_input_is_an_io_error() {
    assert_eq!(parse(&[]).unwrap_err(), ErrorKind::IoError);
    assert_eq!(parse(&[0]).unwrap_err(), ErrorKind::IoError);
    assert_eq!(parse(&[0, 0, 0]).unwrap_err(), ErrorKind::IoError);
    assert_eq!(parse(&[0, 0, 4, 0]).unwrap_err(), ErrorKind::IoError);
    assert_eq!(parse(&[0, 0, 8, 0, 0, 0, 0, 128]).unwrap_err(), ErrorKind::IoError);
    assert_eq!(parse(&[0, 0, 8, 0, 0, 0, 0, 128, 0, 0, 0]).unwrap_err(), ErrorKind::IoError);
}

#[test]
fn version_is_checked_before_length() {
    assert_eq!(parse(&[1]).unwrap_err(), ErrorKind::UnsupportedVersion);
    assert_eq!(parse(&[0, 0, 200, 0, 0, 0, 0, 0]).unwrap_err(), ErrorKind::InvalidLength);
}

#[test]
fn header_of_good_vendor() {
    let header = Header::from_bytes(&GOOD).unwrap();
    assert_eq!(header.version, 0);
    assert_eq!(header.length, 39);
    assert_eq!(header.size, 20);
    assert_eq!(header.present, vec![0xc000482e, 0x80000000, 0xa0000000, 0x00000004]);
    let (again, rest) = parse_header(&GOOD).unwrap();
    assert_eq!(again, header);
    assert_eq!(rest, &GOOD[20..]);
}

#[test]
fn smallest_capture() {
    let frame = [0, 0, 8, 0, 0, 0, 0, 0, 1, 2, 3];
    let (capture, rest) = parse(&frame).unwrap();
    assert_eq!(capture.header.size, 8);
    assert_eq!(capture.header.present, vec![0]);
    assert_eq!(capture.radiotap, Radiotap::new());
    assert!(capture.fields.is_empty());
    assert!(capture.vendors.is_empty());
    assert_eq!(rest, &[1, 2, 3]);
    let (radiotap, rest) = Radiotap::parse(&frame).unwrap();
    assert_eq!(radiotap, Radiotap::default());
    assert_eq!(rest, &[1, 2, 3]);
}

#[test]
fn header_longer_than_declared_length() {
    // The header declares four bytes but takes eight; with no field that is no error.
    let frame = [0, 0, 4, 0, 0, 0, 0, 0];
    let (capture, rest) = parse(&frame).unwrap();
    assert_eq!(capture.header.length, 4);
    assert_eq!(capture.header.size, 8);
    assert_eq!(rest, &[0, 0, 0, 0]);
    let frame = [0, 0, 4, 0, 2, 0, 0, 0, 0];
    assert_eq!(parse(&frame).unwrap_err(), ErrorKind::IncompleteError);
}

#[test]
fn parsing_twice_gives_the_same() {
    let mut registry = CaptureNamespace::new();
    registry.register_vendor([255, 255, 255], 255, VendorLayout::new());
    assert_eq!(registry.parse(&GOOD).unwrap(), registry.parse(&GOOD).unwrap());
    assert_eq!(parse(&GOOD).unwrap(), parse(&GOOD).unwrap());
}

#[test]
fn documented_capture() {
    let capture = [
        0, 0, 56, 0, 107, 8, 52, 0, 185, 31, 155, 154, 0, 0, 0, 0, 20, 0, 124, 21, 64, 1, 213, 166,
        1, 0, 0, 0, 64, 1, 1, 0, 124, 21, 100, 34, 249, 1, 0, 0, 0, 0, 0, 0, 255, 1, 80, 4, 115, 0,
        0, 0, 1, 63, 0, 0,
    ];
    let radiotap = Radiotap::from_bytes(&capture).unwrap();
    assert_eq!(radiotap.tsft.unwrap().value, 2593857465);
    assert_eq!(radiotap.channel.unwrap().freq, 5500);
    assert!(radiotap.channel.unwrap().flags.ofdm && radiotap.channel.unwrap().flags.ghz5);
    assert_eq!(radiotap.antenna_signal.unwrap().value, -43);
    assert_eq!(radiotap.antenna_noise.unwrap().value, -90);
    assert_eq!(radiotap.antenna.unwrap().value, 1);
    assert_eq!(radiotap.ampdu_status.unwrap().reference, 505);
    assert_eq!(radiotap.ampdu_status.unwrap().zero_length, None);
    let xchannel = radiotap.xchannel.unwrap();
    assert_eq!(xchannel.freq, 5500);
    assert_eq!(xchannel.channel, 100);
    assert_eq!(xchannel.max_power, 34);
    assert!(xchannel.flags.ofdm && xchannel.flags.ghz5 && xchannel.flags.ht20);
    let vht = radiotap.vht.unwrap();
    assert_eq!(vht.stbc, Some(false));
    assert_eq!(vht.gi, Some(GuardInterval::Long));
    assert_eq!(vht.bw, Some(Bandwidth { bandwidth: 80, sideband: None, sideband_index: None }));
    let user = vht.users[0].unwrap();
    assert_eq!((user.index, user.nss, user.nsts), (7, 3, 3));
    assert_eq!(user.datarate, Some(8775));
    assert_eq!(user.fec, Fec::Ldpc);
    assert_eq!(vht.users[1], None);
    assert_eq!(vht.group_id, Some(63));
    assert_eq!(vht.partial_aid, Some(0));
}
