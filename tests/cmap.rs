use ttf_decode::cmap::{cmap, select_encoding, supported_encoding, CmapSubtable, EncodingRecord, Format4};
use ttf_decode::error::FontError;
use ttf_decode::reader::BinaryReader;

fn put16(b: &mut Vec<u8>, v: u16) {
    b.extend_from_slice(&v.to_be_bytes());
}

fn put32(b: &mut Vec<u8>, v: u32) {
    b.extend_from_slice(&v.to_be_bytes());
}

/// A format-4 subtable with segments (start, end, delta, range offset),
/// followed by a glyph index array.
fn format4_bytes(segments: &[(u16, u16, i16, u16)], glyph_ids: &[u16]) -> Vec<u8> {
    let n = segments.len() as u16;
    let mut b = Vec::new();
    put16(&mut b, 4);
    put16(&mut b, 16 + 8 * n + 2 * glyph_ids.len() as u16);
    put16(&mut b, 0);
    put16(&mut b, 2 * n);
    put16(&mut b, 2);
    put16(&mut b, 0);
    put16(&mut b, 0);
    for s in segments {
        put16(&mut b, s.1);
    }
    put16(&mut b, 0);
    for s in segments {
        put16(&mut b, s.0);
    }
    for s in segments {
        put16(&mut b, s.2 as u16);
    }
    for s in segments {
        put16(&mut b, s.3);
    }
    for &g in glyph_ids {
        put16(&mut b, g);
    }
    b
}

/// A cmap table: header, encoding records, then `subtable` at the offset the
/// records that name `None` get.
fn cmap_bytes(version: u16, records: &[(u16, u16, Option<u32>)], subtable: &[u8]) -> Vec<u8> {
    let here = 4 + 8 * records.len() as u32;
    let mut b = Vec::new();
    put16(&mut b, version);
    put16(&mut b, records.len() as u16);
    for r in records {
        put16(&mut b, r.0);
        put16(&mut b, r.1);
        put32(&mut b, r.2.unwrap_or(here));
    }
    b.extend_from_slice(subtable);
    b
}

fn decode_format4(b: Vec<u8>) -> Result<Format4, FontError> {
    Format4::new(&mut BinaryReader::new(b))
}

#[test]
fn format4_header_and_arrays() {
    let f = decode_format4(format4_bytes(&[(65, 91, 0, 0), (0xffff, 0xffff, 1, 0)], &[])).unwrap();
    assert_eq!(f.format, 4);
    assert_eq!(f.length, 32);
    assert_eq!(f.seg_count_x2, 4);
    assert_eq!(f.search_range, 2);
    assert_eq!(f.end_code, vec![91, 0xffff]);
    assert_eq!(f.start_code, vec![65, 0xffff]);
    assert_eq!(f.id_delta, vec![0, 1]);
    assert_eq!(f.id_range_offset, vec![0, 0]);
}

#[test]
fn format4_direct_segment_adds_delta() {
    let f = decode_format4(format4_bytes(&[(65, 68, -60, 0)], &[])).unwrap();
    let m = &f.glyph_index_map;
    assert_eq!(m.len(), 3);
    assert_eq!(m.get(&65), Some(&5));
    assert_eq!(m.get(&66), Some(&6));
    assert_eq!(m.get(&67), Some(&7));
    assert_eq!(m.get(&68), None);
    assert_eq!(m.get(&64), None);
}

#[test]
fn format4_delta_wraps_modulo_65536() {
    let f = decode_format4(format4_bytes(&[(3, 5, -5, 0), (65530, 65535, 10, 0)], &[])).unwrap();
    let m = &f.glyph_index_map;
    assert_eq!(m.get(&3), Some(&65534));
    assert_eq!(m.get(&4), Some(&65535));
    assert_eq!(m.get(&65530), Some(&4));
    assert_eq!(m.get(&65534), Some(&8));
    assert_eq!(m.get(&65535), None);
}

#[test]
fn format4_end_code_is_excluded() {
    let f = decode_format4(format4_bytes(&[(10, 10, 0, 0), (20, 21, 0, 0)], &[])).unwrap();
    let m = &f.glyph_index_map;
    assert_eq!(m.len(), 1);
    assert_eq!(m.get(&20), Some(&20));
    assert_eq!(m.get(&10), None);
    assert_eq!(m.get(&21), None);
}

#[test]
fn format4_range_offset_reads_glyph_array() {
    // Two segments: the first points past the second's range offset, at the
    // start of the glyph array.
    let f = decode_format4(format4_bytes(&[(10, 13, 5, 4), (65, 67, 0, 0)], &[0, 7, 9])).unwrap();
    let m = &f.glyph_index_map;
    assert_eq!(m.get(&10), Some(&0));
    assert_eq!(m.get(&11), Some(&12));
    assert_eq!(m.get(&12), Some(&14));
    assert_eq!(m.get(&65), Some(&65));
    assert_eq!(m.get(&66), Some(&66));
    assert_eq!(m.len(), 5);
}

#[test]
fn format4_range_offset_of_second_segment() {
    let f = decode_format4(format4_bytes(&[(1, 2, 0, 0), (30, 32, -1, 2)], &[100, 0xffff])).unwrap();
    let m = &f.glyph_index_map;
    assert_eq!(m.get(&1), Some(&1));
    assert_eq!(m.get(&30), Some(&99));
    assert_eq!(m.get(&31), Some(&65534));
}

#[test]
fn format4_later_segment_overrides() {
    let f = decode_format4(format4_bytes(&[(10, 20, 0, 0), (15, 16, 100, 0)], &[])).unwrap();
    let m = &f.glyph_index_map;
    assert_eq!(m.get(&14), Some(&14));
    assert_eq!(m.get(&15), Some(&115));
    assert_eq!(m.get(&16), Some(&16));
}

#[test]
fn format4_range_offset_past_end_is_truncated() {
    let r = decode_format4(format4_bytes(&[(10, 13, 0, 4), (65, 67, 0, 0)], &[1, 2]));
    assert!(matches!(r, Err(FontError::TruncatedTable)));
}

#[test]
fn format4_truncated_arrays() {
    let mut b = format4_bytes(&[(65, 91, 0, 0)], &[]);
    b.pop();
    assert!(matches!(decode_format4(b), Err(FontError::TruncatedTable)));
    assert!(matches!(decode_format4(vec![0, 4, 0]), Err(FontError::TruncatedTable)));
}

#[test]
fn encoding_support_policy() {
    let rec = |platform_id, encoding_id| EncodingRecord { platform_id, encoding_id, subtable_offset: 0 };
    for e in [0, 1, 10] {
        assert!(supported_encoding(rec(3, e)));
    }
    for e in [2, 3, 4, 5, 9, 11] {
        assert!(!supported_encoding(rec(3, e)));
    }
    for e in 0..=4 {
        assert!(supported_encoding(rec(0, e)));
    }
    assert!(!supported_encoding(rec(0, 5)));
    assert!(!supported_encoding(rec(1, 0)));
    assert!(!supported_encoding(rec(2, 1)));
}

#[test]
fn first_supported_encoding_wins() {
    let recs = vec![
        EncodingRecord { platform_id: 1, encoding_id: 0, subtable_offset: 10 },
        EncodingRecord { platform_id: 0, encoding_id: 3, subtable_offset: 20 },
        EncodingRecord { platform_id: 3, encoding_id: 1, subtable_offset: 30 },
    ];
    assert_eq!(select_encoding(&recs), Some(1));
    assert_eq!(select_encoding(&recs[..1].to_vec()), None);
    assert_eq!(select_encoding(&vec![]), None);
}

fn decode_cmap(b: Vec<u8>) -> Result<cmap, FontError> {
    cmap::new(&mut BinaryReader::new(b))
}

#[test]
fn cmap_selects_subtable_and_maps() {
    let sub = format4_bytes(&[(65, 91, 0, 0)], &[]);
    let c = decode_cmap(cmap_bytes(0, &[(1, 0, Some(9999)), (3, 1, None)], &sub)).unwrap();
    assert_eq!(c.version, 0);
    assert_eq!(c.num_tables, 2);
    assert_eq!(c.encoding_records[0], EncodingRecord { platform_id: 1, encoding_id: 0, subtable_offset: 9999 });
    assert_eq!(c.encoding_records[1].subtable_offset, 20);
    assert_eq!(c.glyph_index(65), Some(65));
    assert_eq!(c.glyph_index(90), Some(90));
    assert_eq!(c.glyph_index(91), None);
    assert_eq!(c.glyph_index_map().len(), 26);
    assert!(matches!(c.subtable, CmapSubtable::Format4(_)));
}

#[test]
fn cmap_subtable_offset_is_from_table_start() {
    let sub = format4_bytes(&[(48, 50, 1, 0)], &[]);
    let mut b = vec![0xaa; 7];
    b.extend(cmap_bytes(0, &[(0, 4, None)], &sub));
    let mut r = BinaryReader::new(b);
    r.set_position(7);
    let c = cmap::new(&mut r).unwrap();
    assert_eq!(c.glyph_index(48), Some(49));
    assert_eq!(c.glyph_index(49), Some(50));
}

#[test]
fn cmap_version_one_is_unsupported() {
    let sub = format4_bytes(&[(65, 91, 0, 0)], &[]);
    let r = decode_cmap(cmap_bytes(1, &[(3, 1, None)], &sub));
    assert!(matches!(r, Err(FontError::UnsupportedCmapVersion)));
    // Rejected before the records are read, even when none follow.
    let r = decode_cmap(vec![0, 1, 0, 9]);
    assert!(matches!(r, Err(FontError::UnsupportedCmapVersion)));
}

#[test]
fn cmap_without_supported_encoding() {
    let sub = format4_bytes(&[(65, 91, 0, 0)], &[]);
    let r = decode_cmap(cmap_bytes(0, &[(1, 0, None), (3, 2, None)], &sub));
    assert!(matches!(r, Err(FontError::NoSupportedEncoding)));
    let r = decode_cmap(cmap_bytes(0, &[], &sub));
    assert!(matches!(r, Err(FontError::NoSupportedEncoding)));
}

#[test]
fn cmap_other_format_is_unsupported() {
    let mut sub = format4_bytes(&[(65, 91, 0, 0)], &[]);
    sub[1] = 6;
    let r = decode_cmap(cmap_bytes(0, &[(0, 3, None)], &sub));
    assert!(matches!(r, Err(FontError::UnsupportedCmapFormat)));
}

#[test]
fn cmap_truncated() {
    assert!(matches!(decode_cmap(vec![0, 0, 0]), Err(FontError::TruncatedTable)));
    assert!(matches!(decode_cmap(vec![0, 0, 0, 1, 0, 3, 0, 1]), Err(FontError::TruncatedTable)));
    let r = decode_cmap(cmap_bytes(0, &[(3, 1, Some(500))], &[]));
    assert!(matches!(r, Err(FontError::TruncatedTable)));
}
