use ttf_decode::reader::{BinaryReader, SECONDS_FROM_1904_TO_1970};

fn reader_of(bytes: &[u8]) -> BinaryReader {
    BinaryReader::new(bytes.to_vec())
}

#[test]
fn reads_unsigned_big_endian() {
    let mut r = reader_of(&[0x12, 0x34, 0x56, 0x78, 0x9a, 0xbc, 0xde]);
    assert_eq!(r.get_uint8(), Some(0x12));
    assert_eq!(r.get_uint16(), Some(0x3456));
    assert_eq!(r.get_uint32(), Some(0x789a_bcde));
    assert_eq!(r.get_position(), 7);
}

#[test]
fn reads_signed_big_endian() {
    let mut r = reader_of(&[0xff, 0xfe, 0x80, 0x00, 0x00, 0x00, 0xff, 0xff, 0xff, 0xff, 0x7f, 0xff]);
    assert_eq!(r.get_int16(), Some(-2));
    assert_eq!(r.get_int32(), Some(i32::MIN));
    assert_eq!(r.get_int32(), Some(-1));
    assert_eq!(r.get_fword(), Some(32767));
}

#[test]
fn ufword_is_unsigned_sixteen_bits() {
    let mut r = reader_of(&[0xff, 0xfe, 0x00, 0x01]);
    assert_eq!(r.get_ufword(), Some(65534));
    assert_eq!(r.get_position(), 2);
    assert_eq!(r.get_ufword(), Some(1));
}

#[test]
fn offsets_are_unsigned() {
    let mut r = reader_of(&[0x80, 0x01, 0x80, 0x00, 0x00, 0x02]);
    assert_eq!(r.get_offset16(), Some(0x8001));
    assert_eq!(r.get_offset32(), Some(0x8000_0002));
}

#[test]
fn read_past_end_fails_and_keeps_position() {
    let mut r = reader_of(&[0x01, 0x02, 0x03]);
    assert_eq!(r.get_uint16(), Some(0x0102));
    assert_eq!(r.get_uint16(), None);
    assert_eq!(r.get_position(), 2);
    assert_eq!(r.get_uint32(), None);
    assert_eq!(r.get_uint8(), Some(0x03));
    assert_eq!(r.get_uint8(), None);
    assert_eq!(r.get_position(), 3);
}

#[test]
fn seek_is_unchecked_until_read() {
    let mut r = reader_of(&[0xaa, 0xbb, 0xcc, 0xdd]);
    r.set_position(100);
    assert_eq!(r.get_position(), 100);
    assert_eq!(r.get_uint8(), None);
    r.set_position(2);
    assert_eq!(r.get_uint16(), Some(0xccdd));
    r.set_position(1);
    assert_eq!(r.get_uint8(), Some(0xbb));
}

#[test]
fn fixed_keeps_integer_part_toward_zero() {
    // 1.5, -1.5 and -0.25 in 16.16.
    let mut r = reader_of(&[
        0x00, 0x01, 0x80, 0x00, 0xff, 0xfe, 0x80, 0x00, 0xff, 0xff, 0xc0, 0x00, 0x00, 0x02, 0x00,
        0x00,
    ]);
    assert_eq!(r.get_fixed(), Some(1));
    assert_eq!(r.get_fixed(), Some(-1));
    assert_eq!(r.get_fixed(), Some(0));
    assert_eq!(r.get_fixed(), Some(2));
}

#[test]
fn f2dot14_keeps_integer_part_toward_zero() {
    // 1.0, -2.0, -0.5 and 1.75 in 2.14.
    let mut r = reader_of(&[0x40, 0x00, 0x80, 0x00, 0xe0, 0x00, 0x70, 0x00]);
    assert_eq!(r.get_f2dot14(), Some(1));
    assert_eq!(r.get_f2dot14(), Some(-2));
    assert_eq!(r.get_f2dot14(), Some(0));
    assert_eq!(r.get_f2dot14(), Some(1));
}

#[test]
fn string_reads_ascii() {
    let mut r = reader_of(b"glyfmore");
    assert_eq!(r.get_string(4), Some(String::from("glyf")));
    assert_eq!(r.get_position(), 4);
    assert_eq!(r.get_string(5), None);
    assert_eq!(r.get_position(), 4);
}

#[test]
fn string_replaces_invalid_utf8() {
    let mut r = reader_of(&[b'a', 0xff, b'b']);
    assert_eq!(r.get_string(3), Some(String::from("a\u{FFFD}b")));
}

fn date_bytes(mac: u64) -> Vec<u8> {
    mac.to_be_bytes().to_vec()
}

#[test]
fn date_at_unix_epoch_is_zero() {
    let mut r = BinaryReader::new(date_bytes(2082844800));
    assert_eq!(r.get_date(), Some(0));
    assert_eq!(r.get_position(), 8);
}

#[test]
fn date_before_unix_epoch_saturates() {
    let mut r = BinaryReader::new(date_bytes(1000));
    assert_eq!(r.get_date(), Some(0));
}

#[test]
fn date_after_unix_epoch() {
    let mut r = BinaryReader::new(date_bytes(SECONDS_FROM_1904_TO_1970 + 1_700_000_000));
    assert_eq!(r.get_date(), Some(1_700_000_000));
    let mut r = BinaryReader::new(date_bytes(0x0000_0001_0000_0000));
    assert_eq!(r.get_date(), Some(0x0000_0001_0000_0000 - 2082844800));
}

#[test]
fn date_truncated() {
    let mut r = reader_of(&[0, 0, 0, 0, 0, 0, 0]);
    assert_eq!(r.get_date(), None);
    assert_eq!(r.get_position(), 0);
}

#[test]
fn arrays_of_sixteen_bit_values() {
    let mut r = reader_of(&[0x00, 0x01, 0xff, 0xff, 0x12, 0x34]);
    assert_eq!(r.get_uint16_array(2), Some(vec![1, 0xffff]));
    r.set_position(0);
    assert_eq!(r.get_int16_array(3), Some(vec![1, -1, 0x1234]));
    r.set_position(2);
    assert_eq!(r.get_uint16_array(3), None);
    assert_eq!(r.get_position(), 2);
    assert_eq!(r.source_len(), 6);
    assert!(r.has(4));
    assert!(!r.has(5));
}
