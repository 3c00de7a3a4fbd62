use radiotap::bits::{align_to, align_within, bits_as_int, is_bit_set};
use radiotap::bits::{read_i8, read_u16, read_u32, read_u64, read_u8};
use radiotap::cursor::Cursor;
use radiotap::ErrorKind;

#[test]
fn bits_are_counted_from_the_least_significant() {
    assert!(is_bit_set(0b1000, 3));
    assert!(!is_bit_set(0b1000, 2));
    assert!(is_bit_set(1, 0));
    assert!(is_bit_set(0x8000_0000, 31));
    assert!(!is_bit_set(0x7fff_ffff, 31));
    for bit in 32..=255u8 {
        assert!(!is_bit_set(0xffff_ffff, bit));
    }
}

#[test]
fn bit_ranges_are_shifted_down() {
    assert_eq!(bits_as_int(0xab000, 12, 8), 0xab);
    assert_eq!(bits_as_int(0xabcd, 0, 8), 0xcd);
    assert_eq!(bits_as_int(0b0110_0000, 5, 2), 3);
    assert_eq!(bits_as_int(0b0100_0000, 5, 2), 2);
    assert_eq!(bits_as_int(0xffff_ffff, 31, 1), 1);
    assert_eq!(bits_as_int(0xffff_ffff, 0, 31), 0x7fff_ffff);
    assert_eq!(bits_as_int(0xffff_ffff, 7, 0), 0);
    assert_eq!(bits_as_int(0xffff_ffff, 32, 4), 0);
    assert_eq!(bits_as_int(0xffff_ffff, 255, 255), 0);
    assert_eq!(bits_as_int(0xabcd_ef01, 8, 32), 0x00ab_cdef);
    assert_eq!(bits_as_int(0xabcd_ef01, 0, 200), 0xabcd_ef01);
}

#[test]
fn aligning_rounds_up_to_the_boundary() {
    assert_eq!(align_to(0, 8), 0);
    assert_eq!(align_to(1, 8), 8);
    assert_eq!(align_to(8, 8), 8);
    assert_eq!(align_to(9, 8), 16);
    assert_eq!(align_to(13, 4), 16);
    assert_eq!(align_to(13, 2), 14);
    assert_eq!(align_to(13, 1), 13);
    for pos in 0..100usize {
        for n in [1usize, 2, 4, 8] {
            let next = align_to(pos, n);
            assert_eq!(next, (pos + n - 1) & !(n - 1));
            assert_eq!(next % n, 0);
            assert!(pos <= next && next < pos + n);
        }
    }
}

#[test]
fn aligning_within_a_bound() {
    assert_eq!(align_within(13, 4, 16), Some(16));
    assert_eq!(align_within(13, 4, 15), None);
    assert_eq!(align_within(16, 8, 16), Some(16));
    assert_eq!(align_within(17, 1, 16), None);
    assert_eq!(align_within(0, 8, 0), Some(0));
    assert_eq!(align_within(usize::MAX, 1, usize::MAX), Some(usize::MAX));
    assert_eq!(align_within(usize::MAX, 2, usize::MAX), None);
    assert_eq!(align_within(usize::MAX - 8, 8, usize::MAX), Some(usize::MAX - 7));
    for pos in 0..40usize {
        for n in [1usize, 2, 4, 8] {
            for limit in 0..48usize {
                let next = align_to(pos, n);
                assert_eq!(align_within(pos, n, limit), if next <= limit { Some(next) } else { None });
            }
        }
    }
}

#[test]
fn reads_are_little_endian() {
    let bytes = [0x01, 0x02, 0x03, 0x04, 0x05, 0x06, 0x07, 0x08, 0xff];
    assert_eq!(read_u8(&bytes, 1), 0x02);
    assert_eq!(read_u16(&bytes, 0), 0x0201);
    assert_eq!(read_u16(&bytes, 7), 0xff08);
    assert_eq!(read_u32(&bytes, 0), 0x0403_0201);
    assert_eq!(read_u32(&bytes, 5), 0xff08_0706);
    assert_eq!(read_u64(&bytes, 0), 0x0807_0605_0403_0201);
    assert_eq!(read_u64(&bytes, 1), 0xff08_0706_0504_0302);
}

#[test]
fn signed_bytes_are_twos_complement() {
    let bytes = [0x00, 0x7f, 0x80, 0xff, 0xe3];
    assert_eq!(read_i8(&bytes, 0), 0);
    assert_eq!(read_i8(&bytes, 1), 127);
    assert_eq!(read_i8(&bytes, 2), -128);
    assert_eq!(read_i8(&bytes, 3), -1);
    assert_eq!(read_i8(&bytes, 4), -29);
}

#[test]
fn cursor_reads_and_advances() {
    let bytes = [9, 0x34, 0x12, 0x78, 0x56, 0x34, 0x12, 0xfe, 1, 2, 3, 4, 5, 6, 7, 8];
    let mut cursor = Cursor::new(&bytes);
    assert_eq!(cursor.position(), 0);
    assert_eq!(cursor.remaining(), 16);
    assert_eq!(cursor.read_u8(), Ok(9));
    assert_eq!(cursor.read_u16(), Ok(0x1234));
    assert_eq!(cursor.read_u32(), Ok(0x1234_5678));
    assert_eq!(cursor.read_i8(), Ok(-2));
    assert_eq!(cursor.position(), 8);
    assert_eq!(cursor.read_u64(), Ok(0x0807_0605_0403_0201));
    assert_eq!(cursor.position(), 16);
    assert_eq!(cursor.remaining(), 0);
}

#[test]
fn cursor_fails_at_the_end_without_moving() {
    let bytes = [1, 2, 3];
    let mut cursor = Cursor::new(&bytes);
    assert_eq!(cursor.read_u32(), Err(ErrorKind::IoError));
    assert_eq!(cursor.read_u64(), Err(ErrorKind::IoError));
    assert_eq!(cursor.position(), 0);
    assert_eq!(cursor.read_u16(), Ok(0x0201));
    assert_eq!(cursor.read_u16(), Err(ErrorKind::IoError));
    assert_eq!(cursor.position(), 2);
    assert_eq!(cursor.read_u8(), Ok(3));
    assert_eq!(cursor.read_u8(), Err(ErrorKind::IoError));
    assert_eq!(cursor.read_i8(), Err(ErrorKind::IoError));
    assert_eq!(cursor.position(), 3);
    assert_eq!(cursor.read_bytes(0), Ok(&bytes[3..]));
    assert_eq!(cursor.read_bytes(1), Err(ErrorKind::IoError));
}

#[test]
fn cursor_aligns_from_the_start_of_its_slice() {
    let bytes = [0u8; 32];
    let mut cursor = Cursor::new(&bytes);
    cursor.set_position(5);
    cursor.align(2);
    assert_eq!(cursor.position(), 6);
    cursor.align(2);
    assert_eq!(cursor.position(), 6);
    cursor.align(4);
    assert_eq!(cursor.position(), 8);
    cursor.align(8);
    assert_eq!(cursor.position(), 8);
    assert_eq!(cursor.read_bytes(3), Ok(&bytes[8..11]));
    cursor.align(8);
    assert_eq!(cursor.position(), 16);
    cursor.align(1);
    assert_eq!(cursor.position(), 16);
}

#[test]
fn cursor_past_the_end_reads_nothing() {
    let bytes = [1, 2, 3];
    let mut cursor = Cursor::new(&bytes);
    cursor.set_position(3);
    cursor.align(4);
    assert_eq!(cursor.position(), 4);
    assert_eq!(cursor.remaining(), 0);
    assert_eq!(cursor.read_bytes(0), Err(ErrorKind::IoError));
    assert_eq!(cursor.read_u8(), Err(ErrorKind::IoError));
    assert_eq!(cursor.position(), 4);
}

#[test]
fn error_kinds_have_messages() {
    assert_eq!(
        ErrorKind::IoError.message(),
        "the internal cursor over the data returned an IO error"
    );
    assert_eq!(
        ErrorKind::IncompleteError.message(),
        "the given data is not a complete Radiotap capture"
    );
    assert_eq!(
        ErrorKind::InvalidLength.message(),
        "the given data is shorter than the amount specified in the Radiotap header"
    );
    assert_eq!(ErrorKind::InvalidFormat.message(), "the given data is not a valid Radiotap capture");
    assert_eq!(ErrorKind::UnsupportedVersion.message(), "unsupported Radiotap header version");
    assert_eq!(ErrorKind::UnsupportedField.message(), "unsupported Radiotap field");
}
