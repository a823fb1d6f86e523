use vstd::prelude::*;

use crate::error::FontError;
use crate::reader::{
    advanced, div_toward_zero, i16_at, i16s_at, i32_at, u16_at, u32_at, u64_at, unix_from_mac,
    BinaryReader,
};

verus! {

/// Bytes taken by the `head` table's fields.
pub const HEAD_SIZE: u64 = 54;

/// Bytes taken by the `maxp` table's fields.
pub const MAXP_SIZE: u64 = 32;

/// Bytes taken by the `hhea` table's fields.
pub const HHEA_SIZE: u64 = 36;

/// The font header. Timestamps are seconds since the Unix epoch; the
/// revision is the integer part of a 16.16 fixed-point number.
#[derive(Debug, Clone, Copy, PartialEq, Eq, Structural)]
pub struct head {
    pub major_version: u16,
    pub minor_version: u16,
    pub font_revision: i32,
    pub checksum_adjustment: u32,
    pub magic_number: u32,
    pub flags: u16,
    pub units_per_em: u16,
    pub created: u64,
    pub modified: u64,
    pub x_min: i16,
    pub y_min: i16,
    pub x_max: i16,
    pub y_max: i16,
    pub mac_style: u16,
    pub lowest_rec_ppem: u16,
    pub font_direction_hint: i16,
    /// 0: `loca` holds 16-bit half offsets; otherwise 32-bit offsets.
    pub index_to_loc_format: i16,
    pub glyph_data_format: i16,
}

/// The `head` table stored at `s[p..p + 54]`.
pub open spec fn head_at(s: Seq<u8>, p: int) -> head {
    head {
        major_version: u16_at(s, p) as u16,
        minor_version: u16_at(s, p + 2) as u16,
        font_revision: div_toward_zero(i32_at(s, p + 4), 65536) as i32,
        checksum_adjustment: u32_at(s, p + 8) as u32,
        magic_number: u32_at(s, p + 12) as u32,
        flags: u16_at(s, p + 16) as u16,
        units_per_em: u16_at(s, p + 18) as u16,
        created: unix_from_mac(u64_at(s, p + 20)) as u64,
        modified: unix_from_mac(u64_at(s, p + 28)) as u64,
        x_min: i16_at(s, p + 36) as i16,
        y_min: i16_at(s, p + 38) as i16,
        x_max: i16_at(s, p + 40) as i16,
        y_max: i16_at(s, p + 42) as i16,
        mac_style: u16_at(s, p + 44) as u16,
        lowest_rec_ppem: u16_at(s, p + 46) as u16,
        font_direction_hint: i16_at(s, p + 48) as i16,
        index_to_loc_format: i16_at(s, p + 50) as i16,
        glyph_data_format: i16_at(s, p + 52) as i16,
    }
}

impl head {
    /// Reads the `head` fields at the reader's position.
    pub fn new(reader: &mut BinaryReader) -> (r: Result<head, FontError>)
        ensures
            match r {
                Ok(h) => old(reader).can_read(HEAD_SIZE as int) && advanced(
                    *old(reader),
                    *final(reader),
                    HEAD_SIZE as int,
                ) && h == head_at(old(reader).bytes(), old(reader).pos()),
                Err(e) => e == FontError::TruncatedTable && !old(reader).can_read(
                    HEAD_SIZE as int,
                ) && *final(reader) == *old(reader),
            },
    {
        if !reader.has(HEAD_SIZE) {
            return Err(FontError::TruncatedTable);
        }
        Ok(head {
            major_version: reader.get_uint16().unwrap(),
            minor_version: reader.get_uint16().unwrap(),
            font_revision: reader.get_fixed().unwrap(),
            checksum_adjustment: reader.get_uint32().unwrap(),
            magic_number: reader.get_uint32().unwrap(),
            flags: reader.get_uint16().unwrap(),
            units_per_em: reader.get_uint16().unwrap(),
            created: reader.get_date().unwrap(),
            modified: reader.get_date().unwrap(),
            x_min: reader.get_fword().unwrap(),
            y_min: reader.get_fword().unwrap(),
            x_max: reader.get_fword().unwrap(),
            y_max: reader.get_fword().unwrap(),
            mac_style: reader.get_uint16().unwrap(),
            lowest_rec_ppem: reader.get_uint16().unwrap(),
            font_direction_hint: reader.get_int16().unwrap(),
            index_to_loc_format: reader.get_int16().unwrap(),
            glyph_data_format: reader.get_int16().unwrap(),
        })
    }
}

/// The maximum profile: the glyph count and the limits a rasteriser needs.
/// The version is the integer part of a 16.16 fixed-point number.
#[derive(Debug, Clone, Copy, PartialEq, Eq, Structural)]
pub struct maxp {
    pub version: i32,
    pub num_glyphs: u16,
    pub max_points: u16,
    pub max_contours: u16,
    pub max_composite_points: u16,
    pub max_composite_contours: u16,
    pub max_zones: u16,
    pub max_twilight_points: u16,
    pub max_storage: u16,
    pub max_function_defs: u16,
    pub max_instruction_defs: u16,
    pub max_stack_elements: u16,
    pub max_size_of_instructions: u16,
    pub max_component_elements: u16,
    pub max_component_depth: u16,
}

/// The `maxp` table stored at `s[p..p + 32]`.
pub open spec fn maxp_at(s: Seq<u8>, p: int) -> maxp {
    maxp {
        version: div_toward_zero(i32_at(s, p), 65536) as i32,
        num_glyphs: u16_at(s, p + 4) as u16,
        max_points: u16_at(s, p + 6) as u16,
        max_contours: u16_at(s, p + 8) as u16,
        max_composite_points: u16_at(s, p + 10) as u16,
        max_composite_contours: u16_at(s, p + 12) as u16,
        max_zones: u16_at(s, p + 14) as u16,
        max_twilight_points: u16_at(s, p + 16) as u16,
        max_storage: u16_at(s, p + 18) as u16,
        max_function_defs: u16_at(s, p + 20) as u16,
        max_instruction_defs: u16_at(s, p + 22) as u16,
        max_stack_elements: u16_at(s, p + 24) as u16,
        max_size_of_instructions: u16_at(s, p + 26) as u16,
        max_component_elements: u16_at(s, p + 28) as u16,
        max_component_depth: u16_at(s, p + 30) as u16,
    }
}

impl maxp {
    /// Reads the `maxp` fields at the reader's position.
    pub fn new(reader: &mut BinaryReader) -> (r: Result<maxp, FontError>)
        ensures
            match r {
                Ok(m) => old(reader).can_read(MAXP_SIZE as int) && advanced(
                    *old(reader),
                    *final(reader),
                    MAXP_SIZE as int,
                ) && m == maxp_at(old(reader).bytes(), old(reader).pos()),
                Err(e) => e == FontError::TruncatedTable && !old(reader).can_read(
                    MAXP_SIZE as int,
                ) && *final(reader) == *old(reader),
            },
    {
        if !reader.has(MAXP_SIZE) {
            return Err(FontError::TruncatedTable);
        }
        Ok(maxp {
            version: reader.get_fixed().unwrap(),
            num_glyphs: reader.get_uint16().unwrap(),
            max_points: reader.get_uint16().unwrap(),
            max_contours: reader.get_uint16().unwrap(),
            max_composite_points: reader.get_uint16().unwrap(),
            max_composite_contours: reader.get_uint16().unwrap(),
            max_zones: reader.get_uint16().unwrap(),
            max_twilight_points: reader.get_uint16().unwrap(),
            max_storage: reader.get_uint16().unwrap(),
            max_function_defs: reader.get_uint16().unwrap(),
            max_instruction_defs: reader.get_uint16().unwrap(),
            max_stack_elements: reader.get_uint16().unwrap(),
            max_size_of_instructions: reader.get_uint16().unwrap(),
            max_component_elements: reader.get_uint16().unwrap(),
            max_component_depth: reader.get_uint16().unwrap(),
        })
    }
}

/// The horizontal header. The version is the integer part of a 16.16
/// fixed-point number; the four reserved fields are not kept.
#[derive(Debug, Clone, Copy, PartialEq, Eq, Structural)]
pub struct hhea {
    pub version: i32,
    pub ascent: i16,
    pub descent: i16,
    pub line_gap: i16,
    pub advance_width_max: u16,
    pub min_left_side_bearing: i16,
    pub min_right_side_bearing: i16,
    pub x_max_extent: i16,
    pub caret_slope_rise: i16,
    pub caret_slope_run: i16,
    pub caret_offset: i16,
    pub metric_data_format: i16,
    /// How many glyphs have an explicit advance width in `hmtx`.
    pub num_of_long_hor_metrics: u16,
}

/// The `hhea` table stored at `s[p..p + 36]`.
pub open spec fn hhea_at(s: Seq<u8>, p: int) -> hhea {
    hhea {
        version: div_toward_zero(i32_at(s, p), 65536) as i32,
        ascent: i16_at(s, p + 4) as i16,
        descent: i16_at(s, p + 6) as i16,
        line_gap: i16_at(s, p + 8) as i16,
        advance_width_max: u16_at(s, p + 10) as u16,
        min_left_side_bearing: i16_at(s, p + 12) as i16,
        min_right_side_bearing: i16_at(s, p + 14) as i16,
        x_max_extent: i16_at(s, p + 16) as i16,
        caret_slope_rise: i16_at(s, p + 18) as i16,
        caret_slope_run: i16_at(s, p + 20) as i16,
        caret_offset: i16_at(s, p + 22) as i16,
        metric_data_format: i16_at(s, p + 32) as i16,
        num_of_long_hor_metrics: u16_at(s, p + 34) as u16,
    }
}

impl hhea {
    /// Reads the `hhea` fields at the reader's position.
    pub fn new(reader: &mut BinaryReader) -> (r: Result<hhea, FontError>)
        ensures
            match r {
                Ok(h) => old(reader).can_read(HHEA_SIZE as int) && advanced(
                    *old(reader),
                    *final(reader),
                    HHEA_SIZE as int,
                ) && h == hhea_at(old(reader).bytes(), old(reader).pos()),
                Err(e) => e == FontError::TruncatedTable && !old(reader).can_read(
                    HHEA_SIZE as int,
                ) && *final(reader) == *old(reader),
            },
    {
        if !reader.has(HHEA_SIZE) {
            return Err(FontError::TruncatedTable);
        }
        let version = reader.get_fixed().unwrap();
        let ascent = reader.get_fword().unwrap();
        let descent = reader.get_fword().unwrap();
        let line_gap = reader.get_fword().unwrap();
        let advance_width_max = reader.get_ufword().unwrap();
        let min_left_side_bearing = reader.get_fword().unwrap();
        let min_right_side_bearing = reader.get_fword().unwrap();
        let x_max_extent = reader.get_fword().unwrap();
        let caret_slope_rise = reader.get_int16().unwrap();
        let caret_slope_run = reader.get_int16().unwrap();
        let caret_offset = reader.get_fword().unwrap();
        reader.get_int16().unwrap();
        reader.get_int16().unwrap();
        reader.get_int16().unwrap();
        reader.get_int16().unwrap();
        let metric_data_format = reader.get_int16().unwrap();
        let num_of_long_hor_metrics = reader.get_uint16().unwrap();
        Ok(hhea {
            version,
            ascent,
            descent,
            line_gap,
            advance_width_max,
            min_left_side_bearing,
            min_right_side_bearing,
            x_max_extent,
            caret_slope_rise,
            caret_slope_run,
            caret_offset,
            metric_data_format,
            num_of_long_hor_metrics,
        })
    }
}

/// How many glyphs have only a left side bearing in `hmtx`: those past the
/// `num_of_long_hor_metrics` that carry an advance width too (none when that
/// count exceeds the number of glyphs).
pub open spec fn bare_bearing_count(h: hhea, m: maxp) -> int {
    if m.num_glyphs >= h.num_of_long_hor_metrics {
        m.num_glyphs - h.num_of_long_hor_metrics
    } else {
        0
    }
}

/// Bytes taken by an `hmtx` table laid out after `h` and `m`.
pub open spec fn hmtx_size(h: hhea, m: maxp) -> int {
    4 * h.num_of_long_hor_metrics + 2 * bare_bearing_count(h, m)
}

/// `n` (advance width, left side bearing) pairs stored from `s[p]` on.
pub open spec fn long_metrics_at(s: Seq<u8>, p: int, n: int) -> Seq<(u16, i16)> {
    Seq::new(n as nat, |k: int| (u16_at(s, p + 4 * k) as u16, i16_at(s, p + 4 * k + 2) as i16))
}

/// Horizontal metrics: an (advance width, left side bearing) pair for each of
/// the first `num_of_long_hor_metrics` glyphs, then a bare left side bearing
/// for each remaining glyph.
#[derive(Debug, Clone)]
pub struct hmtx {
    pub h_metrics: Vec<(u16, i16)>,
    pub left_side_bearing: Vec<i16>,
}

impl hmtx {
    /// Reads the `hmtx` table at the reader's position, shaped by the glyph
    /// count of `maxp` and the long-metric count of `hhea`.
    pub fn new(reader: &mut BinaryReader, hhea: hhea, maxp: maxp) -> (r: Result<hmtx, FontError>)
        ensures
            match r {
                Ok(t) => {
                    let s = old(reader).bytes();
                    let p = old(reader).pos();
                    let n = hhea.num_of_long_hor_metrics as int;
                    &&& old(reader).can_read(hmtx_size(hhea, maxp))
                    &&& advanced(*old(reader), *final(reader), hmtx_size(hhea, maxp))
                    &&& t.h_metrics@ == long_metrics_at(s, p, n)
                    &&& t.left_side_bearing@ == i16s_at(
                        s,
                        p + 4 * n,
                        bare_bearing_count(hhea, maxp),
                    )
                },
                Err(e) => e == FontError::TruncatedTable && !old(reader).can_read(
                    hmtx_size(hhea, maxp),
                ) && *final(reader) == *old(reader),
            },
    {
        let ghost s = reader.bytes();
        let ghost p = reader.pos();
        let n = hhea.num_of_long_hor_metrics;
        let bare: u16 = if maxp.num_glyphs >= n {
            maxp.num_glyphs - n
        } else {
            0
        };
        if !reader.has(4 * n as u64 + 2 * bare as u64) {
            return Err(FontError::TruncatedTable);
        }
        let mut h_metrics: Vec<(u16, i16)> = Vec::new();
        let mut i: u16 = 0;
        while i < n
            invariant
                reader.bytes() == s,
                reader.pos() == p + 4 * i,
                p + 4 * n + 2 * bare <= s.len(),
                i <= n,
                h_metrics@ == long_metrics_at(s, p, i as int),
            decreases n - i,
        {
            let advance = reader.get_uint16().unwrap();
            let lsb = reader.get_int16().unwrap();
            h_metrics.push((advance, lsb));
            i = i + 1;
            assert(h_metrics@ =~= long_metrics_at(s, p, i as int));
        }
        let mut left_side_bearing: Vec<i16> = Vec::new();
        let mut j: u16 = 0;
        while j < bare
            invariant
                reader.bytes() == s,
                reader.pos() == p + 4 * n + 2 * j,
                p + 4 * n + 2 * bare <= s.len(),
                j <= bare,
                left_side_bearing@ == i16s_at(s, p + 4 * n, j as int),
            decreases bare - j,
        {
            left_side_bearing.push(reader.get_fword().unwrap());
            j = j + 1;
            assert(left_side_bearing@ =~= i16s_at(s, p + 4 * n, j as int));
        }
        Ok(hmtx { h_metrics, left_side_bearing })
    }
}

} // verus!
