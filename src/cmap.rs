use std::collections::HashMap;
use vstd::prelude::*;

use crate::error::FontError;
use crate::reader::{i16_at, i16s_at, u16_at, u16s_at, u32_at, BinaryReader};

verus! {

/// The number of segments of the format-4 subtable at `s[p..]`.
pub open spec fn seg_count(s: Seq<u8>, p: int) -> int {
    u16_at(s, p + 6) / 2
}

/// Where the `end_code` array of the subtable at `s[p..]` starts.
pub open spec fn end_codes_start(p: int) -> int {
    p + 14
}

/// Where the `start_code` array starts, past the reserved padding word.
pub open spec fn start_codes_start(s: Seq<u8>, p: int) -> int {
    p + 16 + 2 * seg_count(s, p)
}

/// Where the `id_delta` array starts.
pub open spec fn id_deltas_start(s: Seq<u8>, p: int) -> int {
    p + 16 + 4 * seg_count(s, p)
}

/// Where the `id_range_offset` array starts; its entries are byte offsets
/// from their own position.
pub open spec fn id_range_offsets_start(s: Seq<u8>, p: int) -> int {
    p + 16 + 6 * seg_count(s, p)
}

/// Bytes taken by the header and the four segment arrays.
pub open spec fn format4_arrays_end(s: Seq<u8>, p: int) -> int {
    p + 16 + 8 * seg_count(s, p)
}

pub open spec fn end_code_at(s: Seq<u8>, p: int, i: int) -> int {
    u16_at(s, end_codes_start(p) + 2 * i)
}

pub open spec fn start_code_at(s: Seq<u8>, p: int, i: int) -> int {
    u16_at(s, start_codes_start(s, p) + 2 * i)
}

pub open spec fn id_delta_at(s: Seq<u8>, p: int, i: int) -> int {
    i16_at(s, id_deltas_start(s, p) + 2 * i)
}

pub open spec fn id_range_offset_at(s: Seq<u8>, p: int, i: int) -> int {
    u16_at(s, id_range_offsets_start(s, p) + 2 * i)
}

/// Whether segment `i` maps character code `c`: its range is
/// `start_code..end_code`, the end excluded.
pub open spec fn covers(s: Seq<u8>, p: int, i: int, c: u16) -> bool {
    start_code_at(s, p, i) <= c < end_code_at(s, p, i)
}

/// Where the glyph index of `c` is stored, for a segment `i` with a nonzero
/// `id_range_offset`.
pub open spec fn glyph_index_offset(s: Seq<u8>, p: int, i: int, c: u16) -> int {
    id_range_offsets_start(s, p) + 2 * i + id_range_offset_at(s, p, i) + 2 * (c - start_code_at(
        s,
        p,
        i,
    ))
}

/// Whether the glyph index of `c` in segment `i` can be found: directly, or
/// at an offset within `s`.
pub open spec fn code_readable(s: Seq<u8>, p: int, i: int, c: u16) -> bool {
    id_range_offset_at(s, p, i) == 0 || glyph_index_offset(s, p, i, c) + 2 <= s.len()
}

/// The glyph index that segment `i` gives to `c`: `c + id_delta` when the
/// segment's `id_range_offset` is 0; else the stored index plus `id_delta`,
/// or 0 when the stored index is 0. Sums wrap modulo 65536.
pub open spec fn code_glyph(s: Seq<u8>, p: int, i: int, c: u16) -> int {
    if id_range_offset_at(s, p, i) == 0 {
        (c + id_delta_at(s, p, i)) % 65536
    } else {
        let raw = u16_at(s, glyph_index_offset(s, p, i, c));
        if raw == 0 {
            0
        } else {
            (raw + id_delta_at(s, p, i)) % 65536
        }
    }
}

/// Whether every code of the first `upto` segments has a readable glyph
/// index.
pub open spec fn segments_readable(s: Seq<u8>, p: int, upto: int) -> bool {
    forall|i: int, c: u16| 0 <= i < upto && #[trigger] covers(s, p, i, c) ==> code_readable(s, p, i, c)
}

/// Whether the format-4 subtable at `s[p..]` lies within `s`, with every
/// glyph index it refers to.
pub open spec fn format4_fits(s: Seq<u8>, p: int) -> bool {
    &&& format4_arrays_end(s, p) <= s.len()
    &&& segments_readable(s, p, seg_count(s, p))
}

/// Whether `m` is what expanding the first `upto` segments in order gives: it
/// holds the codes that one of them covers, each mapped by the last of them
/// that covers it.
pub open spec fn maps_segments(m: Map<u16, u16>, s: Seq<u8>, p: int, upto: int) -> bool {
    &&& forall|c: u16|
        #[trigger] m.contains_key(c) <==> exists|i: int| 0 <= i < upto && #[trigger] covers(s, p, i, c)
    &&& forall|c: u16, i: int|
        0 <= i < upto && #[trigger] covers(s, p, i, c) && (forall|j: int|
            i < j < upto ==> !#[trigger] covers(s, p, j, c)) ==> m[c] == code_glyph(s, p, i, c)
}

/// Whether `m` is the character-to-glyph mapping of the format-4 subtable
/// at `s[p..]`: every segment expanded, a later one overriding an earlier.
pub open spec fn maps_codes(m: Map<u16, u16>, s: Seq<u8>, p: int) -> bool {
    maps_segments(m, s, p, seg_count(s, p))
}

/// `(x + d) mod 65536`.
fn add_delta(x: u16, d: i16) -> (r: u16)
    ensures
        r == (x + d) % 65536,
{
    let sum: i32 = x as i32 + d as i32;
    if sum < 0 {
        (sum + 65536) as u16
    } else if sum >= 65536 {
        (sum - 65536) as u16
    } else {
        sum as u16
    }
}

/// Expanding segment `i` over the expansion of the segments before it gives
/// the expansion of the segments up to `i`.
proof fn lemma_extend_segments(m0: Map<u16, u16>, m: Map<u16, u16>, s: Seq<u8>, p: int, i: int)
    requires
        0 <= i,
        maps_segments(m0, s, p, i),
        forall|k: u16|
            !covers(s, p, i, k) ==> ((#[trigger] m.contains_key(k)) == m0.contains_key(k) && (
            m0.contains_key(k) ==> m[k] == m0[k])),
        forall|k: u16| #[trigger] covers(s, p, i, k) ==> m.contains_key(k),
        forall|k: u16| #[trigger] covers(s, p, i, k) ==> m[k] == code_glyph(s, p, i, k),
    ensures
        maps_segments(m, s, p, i + 1),
{
    assert forall|k: u16|
        #[trigger] m.contains_key(k) <==> exists|j: int| 0 <= j < i + 1 && #[trigger] covers(s, p, j, k) by {
        if !covers(s, p, i, k) {
            if m.contains_key(k) {
                assert(m0.contains_key(k));
                let j = choose|j: int| 0 <= j < i && #[trigger] covers(s, p, j, k);
                assert(0 <= j < i + 1 && covers(s, p, j, k));
            }
            if exists|j: int| 0 <= j < i + 1 && #[trigger] covers(s, p, j, k) {
                let j = choose|j: int| 0 <= j < i + 1 && #[trigger] covers(s, p, j, k);
                assert(j != i);
                assert(m0.contains_key(k));
            }
        }
    }
    assert forall|k: u16, j: int|
        0 <= j < i + 1 && #[trigger] covers(s, p, j, k) && (forall|j2: int|
            j < j2 < i + 1 ==> !#[trigger] covers(s, p, j2, k)) implies m[k] == code_glyph(
        s,
        p,
        j,
        k,
    ) by {
        if j < i {
            assert(!covers(s, p, i, k));
            assert(m0.contains_key(k));
            assert(m.contains_key(k) == m0.contains_key(k));
            assert(m[k] == m0[k]);
            assert(forall|j2: int| j < j2 < i ==> !#[trigger] covers(s, p, j2, k));
        }
    }
}

/// One segment of a format-4 subtable, as read.
struct Segment {
    index: u16,
    start: u16,
    end: u16,
    delta: i16,
    range_offset: u16,
}

/// Whether `g` is segment `g.index` of the subtable at `s[p..]`.
spec fn is_segment(g: Segment, s: Seq<u8>, p: int) -> bool {
    &&& 0 <= g.index < seg_count(s, p)
    &&& g.start == start_code_at(s, p, g.index as int)
    &&& g.end == end_code_at(s, p, g.index as int)
    &&& g.delta == id_delta_at(s, p, g.index as int)
    &&& g.range_offset == id_range_offset_at(s, p, g.index as int)
}

/// Adds the codes of one segment to `map`, which holds the expansion of the
/// segments before it.
fn map_segment(
    reader: &mut BinaryReader,
    map: &mut HashMap<u16, u16>,
    p: Ghost<int>,
    g: Segment,
    iro_start: u64,
    len: u64,
) -> (r: Result<(), FontError>)
    requires
        len == old(reader).bytes().len(),
        iro_start == id_range_offsets_start(old(reader).bytes(), p@),
        format4_arrays_end(old(reader).bytes(), p@) <= len,
        is_segment(g, old(reader).bytes(), p@),
        maps_segments(old(map)@, old(reader).bytes(), p@, g.index as int),
    ensures
        final(reader).bytes() == old(reader).bytes(),
        match r {
            Ok(()) => {
                &&& maps_segments(final(map)@, old(reader).bytes(), p@, g.index + 1)
                &&& forall|c: u16|
                    #[trigger] covers(old(reader).bytes(), p@, g.index as int, c) ==> code_readable(
                        old(reader).bytes(),
                        p@,
                        g.index as int,
                        c,
                    )
            },
            Err(e) => e == FontError::TruncatedTable && exists|c: u16|
                #[trigger] covers(old(reader).bytes(), p@, g.index as int, c) && !code_readable(
                    old(reader).bytes(),
                    p@,
                    g.index as int,
                    c,
                ),
        },
{
    let ghost s = reader.bytes();
    let ghost m0 = map@;
    let ghost i = g.index as int;
    let mut c: u16 = g.start;
    while c < g.end
        invariant
            reader.bytes() == s,
            s == old(reader).bytes(),
            m0 == old(map)@,
            maps_segments(m0, s, p@, i),
            len == s.len(),
            iro_start == id_range_offsets_start(s, p@),
            format4_arrays_end(s, p@) <= len,
            is_segment(g, s, p@),
            i == g.index,
            g.start <= c,
            c <= g.end || c == g.start,
            forall|k: u16|
                !(g.start <= k < c) ==> ((#[trigger] map@.contains_key(k)) == m0.contains_key(k)
                    && (m0.contains_key(k) ==> map@[k] == m0[k])),
            forall|k: u16| g.start <= k < c ==> #[trigger] map@.contains_key(k),
            forall|k: u16| g.start <= k < c ==> #[trigger] map@[k] == code_glyph(s, p@, i, k),
            forall|k: u16| g.start <= k < c ==> #[trigger] code_readable(s, p@, i, k),
        decreases g.end - c,
    {
        let glyph: u16 = if g.range_offset == 0 {
            add_delta(c, g.delta)
        } else {
            let rest: u64 = 2 * g.index as u64 + g.range_offset as u64 + 2 * (c - g.start) as u64;
            if rest + 2 > len - iro_start {
                assert(covers(s, p@, i, c) && !code_readable(s, p@, i, c));
                return Err(FontError::TruncatedTable);
            }
            reader.set_position(iro_start + rest);
            let raw = reader.get_uint16().unwrap();
            if raw == 0 {
                0
            } else {
                add_delta(raw, g.delta)
            }
        };
        map.insert(c, glyph);
        c = c + 1;
    }
    assert forall|k: u16| (g.start <= k < c) <==> #[trigger] covers(s, p@, i, k) by {}
    proof {
        lemma_extend_segments(m0, map@, s, p@, i);
    }
    Ok(())
}

/// Whether `f` is what decoding the format-4 subtable at `s[p..]` gives:
/// its header fields, its four segment arrays and its character-to-glyph
/// mapping, the whole subtable lying within `s`.
pub open spec fn is_format4_at(f: Format4, s: Seq<u8>, p: int) -> bool {
    let n = seg_count(s, p);
    &&& format4_fits(s, p)
    &&& f.format == u16_at(s, p)
    &&& f.length == u16_at(s, p + 2)
    &&& f.language == u16_at(s, p + 4)
    &&& f.seg_count_x2 == u16_at(s, p + 6)
    &&& f.search_range == u16_at(s, p + 8)
    &&& f.entry_selector == u16_at(s, p + 10)
    &&& f.range_shift == u16_at(s, p + 12)
    &&& f.end_code@ == u16s_at(s, end_codes_start(p), n)
    &&& f.start_code@ == u16s_at(s, start_codes_start(s, p), n)
    &&& f.id_delta@ == i16s_at(s, id_deltas_start(s, p), n)
    &&& f.id_range_offset@ == u16s_at(s, id_range_offsets_start(s, p), n)
    &&& maps_codes(f.glyph_index_map@, s, p)
}

/// A format-4 (segment mapping to delta values) `cmap` subtable.
pub struct Format4 {
    pub format: u16,
    pub length: u16,
    pub language: u16,
    pub seg_count_x2: u16,
    pub search_range: u16,
    pub entry_selector: u16,
    pub range_shift: u16,
    pub end_code: Vec<u16>,
    pub start_code: Vec<u16>,
    pub id_delta: Vec<i16>,
    pub id_range_offset: Vec<u16>,
    pub glyph_index_map: HashMap<u16, u16>,
}

impl Format4 {
    /// Reads the format-4 subtable that starts at the reader's position, and
    /// maps every character code of every segment to its glyph index.
    pub fn new(reader: &mut BinaryReader) -> (r: Result<Format4, FontError>)
        ensures
            final(reader).bytes() == old(reader).bytes(),
            match r {
                Ok(f) => is_format4_at(f, old(reader).bytes(), old(reader).pos()),
                Err(e) => e == FontError::TruncatedTable && !format4_fits(
                    old(reader).bytes(),
                    old(reader).pos(),
                ),
            },
    {
        let ghost s = reader.bytes();
        let ghost p = reader.pos();
        if !reader.has(14) {
            return Err(FontError::TruncatedTable);
        }
        let format = reader.get_uint16().unwrap();
        let length = reader.get_uint16().unwrap();
        let language = reader.get_uint16().unwrap();
        let seg_count_x2 = reader.get_uint16().unwrap();
        let search_range = reader.get_uint16().unwrap();
        let entry_selector = reader.get_uint16().unwrap();
        let range_shift = reader.get_uint16().unwrap();
        let n: u16 = seg_count_x2 / 2;
        if !reader.has(8 * n as u64 + 2) {
            return Err(FontError::TruncatedTable);
        }
        let end_code = reader.get_uint16_array(n).unwrap();
        reader.get_uint16().unwrap();
        let start_code = reader.get_uint16_array(n).unwrap();
        let id_delta = reader.get_int16_array(n).unwrap();
        let iro_start = reader.get_position();
        let id_range_offset = reader.get_uint16_array(n).unwrap();
        let len = reader.source_len();
        let mut glyph_index_map: HashMap<u16, u16> = HashMap::new();
        let mut i: u16 = 0;
        while i < n
            invariant
                reader.bytes() == s,
                s == old(reader).bytes(),
                p == old(reader).pos(),
                len == s.len(),
                n == seg_count(s, p),
                iro_start == id_range_offsets_start(s, p),
                format4_arrays_end(s, p) <= s.len(),
                end_code@ == u16s_at(s, end_codes_start(p), n as int),
                start_code@ == u16s_at(s, start_codes_start(s, p), n as int),
                id_delta@ == i16s_at(s, id_deltas_start(s, p), n as int),
                id_range_offset@ == u16s_at(s, id_range_offsets_start(s, p), n as int),
                i <= n,
                segments_readable(s, p, i as int),
                maps_segments(glyph_index_map@, s, p, i as int),
            decreases n - i,
        {
            let segment = Segment {
                index: i,
                start: start_code[i as usize],
                end: end_code[i as usize],
                delta: id_delta[i as usize],
                range_offset: id_range_offset[i as usize],
            };
            match map_segment(reader, &mut glyph_index_map, Ghost(p), segment, iro_start, len) {
                Ok(()) => {},
                Err(e) => {
                    return Err(e);
                },
            }
            i = i + 1;
        }
        Ok(
            Format4 {
                format,
                length,
                language,
                seg_count_x2,
                search_range,
                entry_selector,
                range_shift,
                end_code,
                start_code,
                id_delta,
                id_range_offset,
                glyph_index_map,
            },
        )
    }
}

/// In a segment whose `id_range_offset` is 0, every code of
/// `start_code..end_code` maps to `(c + id_delta) mod 65536`, unless a later
/// segment covers the same code (segments do not overlap in a well-formed
/// subtable).
pub proof fn lemma_direct_segment_glyph(f: Format4, s: Seq<u8>, p: int, i: int, c: u16)
    requires
        is_format4_at(f, s, p),
        0 <= i < f.start_code@.len(),
        f.id_range_offset@[i] == 0,
        f.start_code@[i] <= c < f.end_code@[i],
        forall|j: int|
            i < j < f.start_code@.len() ==> !(f.start_code@[j] <= c < #[trigger] f.end_code@[j]),
    ensures
        f.glyph_index_map@.contains_key(c),
        f.glyph_index_map@[c] == (c + f.id_delta@[i]) % 65536,
{
    assert(covers(s, p, i, c));
    assert forall|j: int| i < j < seg_count(s, p) implies !#[trigger] covers(s, p, j, c) by {
        assert(f.start_code@[j] == start_code_at(s, p, j));
        assert(f.end_code@[j] == end_code_at(s, p, j));
    }
}

/// One `cmap` encoding record: a platform, an encoding, and the offset of the
/// subtable from the start of the `cmap` table.
#[derive(Debug, Clone, Copy, PartialEq, Eq, Structural)]
pub struct EncodingRecord {
    pub platform_id: u16,
    pub encoding_id: u16,
    pub subtable_offset: u32,
}

/// The encoding record stored at `s[q..q + 8]`.
pub open spec fn encoding_record_at(s: Seq<u8>, q: int) -> EncodingRecord {
    EncodingRecord {
        platform_id: u16_at(s, q) as u16,
        encoding_id: u16_at(s, q + 2) as u16,
        subtable_offset: u32_at(s, q + 4) as u32,
    }
}

/// The `n` encoding records of the `cmap` table at `s[p..]`.
pub open spec fn encoding_records_at(s: Seq<u8>, p: int, n: int) -> Seq<EncodingRecord> {
    Seq::new(n as nat, |k: int| encoding_record_at(s, p + 4 + 8 * k))
}

/// Whether a platform and encoding pair is one this decoder reads: Windows
/// (platform 3) with encoding 0, 1 or 10, or Unicode (platform 0) with
/// encoding 0 to 4.
pub open spec fn is_supported_encoding(r: EncodingRecord) -> bool {
    ||| r.platform_id == 3 && (r.encoding_id == 0 || r.encoding_id == 1 || r.encoding_id == 10)
    ||| r.platform_id == 0 && r.encoding_id <= 4
}

/// The index of the first supported record at or after `k`, or -1.
pub open spec fn first_supported(recs: Seq<EncodingRecord>, k: int) -> int
    decreases recs.len() - k,
{
    if k < 0 || k >= recs.len() {
        -1
    } else if is_supported_encoding(recs[k]) {
        k
    } else {
        first_supported(recs, k + 1)
    }
}

/// The first supported record at or after `k` is one: `-1` means there is
/// none from `k` on, and no record between `k` and it is supported.
pub proof fn lemma_first_supported(recs: Seq<EncodingRecord>, k: int)
    requires
        0 <= k,
    ensures
        first_supported(recs, k) == -1 ==> forall|j: int|
            k <= j < recs.len() ==> !is_supported_encoding(#[trigger] recs[j]),
        first_supported(recs, k) != -1 ==> {
            let r = first_supported(recs, k);
            &&& k <= r < recs.len()
            &&& is_supported_encoding(recs[r])
            &&& forall|j: int| k <= j < r ==> !is_supported_encoding(#[trigger] recs[j])
        },
    decreases recs.len() - k,
{
    if k < recs.len() && !is_supported_encoding(recs[k]) {
        lemma_first_supported(recs, k + 1);
    }
}

/// Whether `r` is a supported platform and encoding pair.
pub fn supported_encoding(r: EncodingRecord) -> (b: bool)
    ensures
        b == is_supported_encoding(r),
{
    let windows = r.platform_id == 3 && (r.encoding_id == 0 || r.encoding_id == 1 || r.encoding_id
        == 10);
    let unicode = r.platform_id == 0 && r.encoding_id <= 4;
    windows || unicode
}

/// The index of the first supported record, if any.
pub fn select_encoding(records: &Vec<EncodingRecord>) -> (r: Option<usize>)
    ensures
        match r {
            Some(k) => k == first_supported(records@, 0),
            None => first_supported(records@, 0) == -1,
        },
{
    let mut k: usize = 0;
    while k < records.len()
        invariant
            k <= records@.len(),
            first_supported(records@, 0) == first_supported(records@, k as int),
        decreases records@.len() - k,
    {
        if supported_encoding(records[k]) {
            return Some(k);
        }
        k = k + 1;
    }
    None
}

/// The supported cmap subtable formats.
pub enum CmapSubtable {
    Format4(Format4),
}

/// What decoding the `cmap` table at `s[p..]` comes to: the start of the
/// selected format-4 subtable, or the first failure met.
pub open spec fn cmap_outcome(s: Seq<u8>, p: int) -> Result<int, FontError> {
    let n = u16_at(s, p + 2);
    if p + 4 > s.len() {
        Err(FontError::TruncatedTable)
    } else if u16_at(s, p) != 0 {
        Err(FontError::UnsupportedCmapVersion)
    } else if p + 4 + 8 * n > s.len() {
        Err(FontError::TruncatedTable)
    } else {
        let recs = encoding_records_at(s, p, n);
        let k = first_supported(recs, 0);
        if k < 0 {
            Err(FontError::NoSupportedEncoding)
        } else {
            let q = p + recs[k].subtable_offset;
            if q + 2 > s.len() {
                Err(FontError::TruncatedTable)
            } else if u16_at(s, q) != 4 {
                Err(FontError::UnsupportedCmapFormat)
            } else if !format4_fits(s, q) {
                Err(FontError::TruncatedTable)
            } else {
                Ok(q)
            }
        }
    }
}

/// Whether `c` is what decoding the `cmap` table at `s[p..]` gives.
pub open spec fn is_cmap_at(c: cmap, s: Seq<u8>, p: int) -> bool {
    let n = u16_at(s, p + 2);
    &&& cmap_outcome(s, p) is Ok
    &&& c.version == 0
    &&& c.num_tables == n
    &&& c.encoding_records@ == encoding_records_at(s, p, n)
    &&& match c.subtable {
        CmapSubtable::Format4(f) => is_format4_at(f, s, cmap_outcome(s, p)->Ok_0),
    }
}

/// The character map: the encoding records, and the subtable of the first
/// supported one.
pub struct cmap {
    pub version: u16,
    pub num_tables: u16,
    pub encoding_records: Vec<EncodingRecord>,
    pub subtable: CmapSubtable,
}

impl cmap {
    /// The character-to-glyph mapping of the selected subtable.
    pub open spec fn glyph_map(&self) -> Map<u16, u16> {
        match self.subtable {
            CmapSubtable::Format4(f) => f.glyph_index_map@,
        }
    }

    /// Reads the `cmap` table that starts at the reader's position.
    pub fn new(reader: &mut BinaryReader) -> (r: Result<cmap, FontError>)
        ensures
            final(reader).bytes() == old(reader).bytes(),
            match r {
                Ok(c) => is_cmap_at(c, old(reader).bytes(), old(reader).pos()),
                Err(e) => cmap_outcome(old(reader).bytes(), old(reader).pos()) == Err::<
                    int,
                    FontError,
                >(e),
            },
    {
        let ghost s = reader.bytes();
        let p = reader.get_position();
        if !reader.has(4) {
            return Err(FontError::TruncatedTable);
        }
        let version = reader.get_uint16().unwrap();
        let num_tables = reader.get_uint16().unwrap();
        if version != 0 {
            return Err(FontError::UnsupportedCmapVersion);
        }
        if !reader.has(8 * num_tables as u64) {
            return Err(FontError::TruncatedTable);
        }
        let mut encoding_records: Vec<EncodingRecord> = Vec::new();
        let mut i: u16 = 0;
        while i < num_tables
            invariant
                reader.bytes() == s,
                reader.pos() == p + 4 + 8 * i,
                p + 4 + 8 * num_tables <= s.len(),
                i <= num_tables,
                encoding_records@ == encoding_records_at(s, p as int, i as int),
            decreases num_tables - i,
        {
            let platform_id = reader.get_uint16().unwrap();
            let encoding_id = reader.get_uint16().unwrap();
            let subtable_offset = reader.get_offset32().unwrap();
            encoding_records.push(EncodingRecord { platform_id, encoding_id, subtable_offset });
            i = i + 1;
            assert(encoding_records@ =~= encoding_records_at(s, p as int, i as int));
        }
        let k = match select_encoding(&encoding_records) {
            Some(k) => k,
            None => {
                return Err(FontError::NoSupportedEncoding);
            },
        };
        proof {
            lemma_first_supported(encoding_records@, 0);
        }
        let offset = encoding_records[k].subtable_offset as u64;
        let len = reader.source_len();
        if offset + 2 > len - p {
            return Err(FontError::TruncatedTable);
        }
        reader.set_position(p + offset);
        let format = reader.get_uint16().unwrap();
        if format != 4 {
            return Err(FontError::UnsupportedCmapFormat);
        }
        reader.set_position(p + offset);
        let f = match Format4::new(reader) {
            Ok(f) => f,
            Err(e) => {
                return Err(e);
            },
        };
        Ok(
            cmap {
                version,
                num_tables,
                encoding_records,
                subtable: CmapSubtable::Format4(f),
            },
        )
    }

    /// The character-to-glyph mapping of the selected subtable.
    pub fn glyph_index_map(&self) -> (r: &HashMap<u16, u16>)
        ensures
            r@ == self.glyph_map(),
    {
        match &self.subtable {
            CmapSubtable::Format4(f) => &f.glyph_index_map,
        }
    }

    /// The glyph index of character code `c`, if the mapping has one.
    pub fn glyph_index(&self, c: u16) -> (r: Option<u16>)
        ensures
            match r {
                Some(g) => self.glyph_map().contains_key(c) && self.glyph_map()[c] == g,
                None => !self.glyph_map().contains_key(c),
            },
    {
        match self.glyph_index_map().get(&c) {
            Some(g) => Some(*g),
            None => None,
        }
    }
}

} // verus!
