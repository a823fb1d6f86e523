use std::collections::HashMap;
use vstd::prelude::*;

use crate::cmap::{cmap, cmap_outcome, is_cmap_at, CmapSubtable, Format4};
use crate::directory::{
    declared_tables, directory_fits, directory_map, TableDirectory, TableRecord, TAG_CMAP,
    TAG_GLYF, TAG_HEAD, TAG_HHEA, TAG_HMTX, TAG_LOCA, TAG_MAXP,
};
use crate::error::FontError;
use crate::glyphs::{
    glyf_fits, glyph_at, glyph_count, loca_at, loca_size, read_glyphs, read_loca, GlyfHeader,
};
use crate::reader::{i16s_at, BinaryReader};
use crate::tables::{
    bare_bearing_count, head, head_at, hhea, hhea_at, hmtx, hmtx_size, long_metrics_at, maxp,
    maxp_at, HEAD_SIZE, HHEA_SIZE, MAXP_SIZE,
};

verus! {

/// The tag-to-record mapping of the directory at the start of `s`.
pub open spec fn font_directory(s: Seq<u8>) -> Map<u32, TableRecord> {
    directory_map(s, 0, declared_tables(s, 0) as nat)
}

/// Whether the directory lists every table the decoder reads.
pub open spec fn has_required_tables(d: Map<u32, TableRecord>) -> bool {
    &&& d.contains_key(TAG_HEAD)
    &&& d.contains_key(TAG_MAXP)
    &&& d.contains_key(TAG_HHEA)
    &&& d.contains_key(TAG_HMTX)
    &&& d.contains_key(TAG_LOCA)
    &&& d.contains_key(TAG_GLYF)
    &&& d.contains_key(TAG_CMAP)
}

/// Where the table named `tag` starts in the font file `s`.
pub open spec fn table_start(s: Seq<u8>, tag: u32) -> int {
    font_directory(s)[tag].offset as int
}

pub open spec fn font_head(s: Seq<u8>) -> head {
    head_at(s, table_start(s, TAG_HEAD))
}

pub open spec fn font_maxp(s: Seq<u8>) -> maxp {
    maxp_at(s, table_start(s, TAG_MAXP))
}

pub open spec fn font_hhea(s: Seq<u8>) -> hhea {
    hhea_at(s, table_start(s, TAG_HHEA))
}

/// The `loca` offsets of the font file `s`.
pub open spec fn font_loca(s: Seq<u8>) -> Seq<u32> {
    loca_at(
        s,
        table_start(s, TAG_LOCA),
        font_head(s).index_to_loc_format,
        font_maxp(s).num_glyphs + 1,
    )
}

/// What loading the font file `s` comes to: success, or the first failure
/// met, stage by stage.
pub open spec fn load_outcome(s: Seq<u8>) -> Result<(), FontError> {
    if !directory_fits(s, 0) || !has_required_tables(font_directory(s)) {
        Err(FontError::MalformedDirectory)
    } else if table_start(s, TAG_HEAD) + HEAD_SIZE > s.len() || table_start(s, TAG_MAXP)
        + MAXP_SIZE > s.len() || table_start(s, TAG_HHEA) + HHEA_SIZE > s.len() || table_start(
        s,
        TAG_HMTX,
    ) + hmtx_size(font_hhea(s), font_maxp(s)) > s.len() || table_start(s, TAG_LOCA) + loca_size(
        font_head(s).index_to_loc_format,
        font_maxp(s).num_glyphs + 1,
    ) > s.len() || !glyf_fits(s, table_start(s, TAG_GLYF), font_loca(s)) {
        Err(FontError::TruncatedTable)
    } else {
        match cmap_outcome(s, table_start(s, TAG_CMAP)) {
            Ok(_) => Ok(()),
            Err(e) => Err(e),
        }
    }
}

/// A decoded font: the table directory and every table read from it.
pub struct Font {
    pub directory: TableDirectory,
    pub head: head,
    pub maxp: maxp,
    pub hhea: hhea,
    pub hmtx: hmtx,
    pub loca: Vec<u32>,
    /// One entry per glyph; `None` for a glyph without an outline.
    pub glyf: Vec<Option<GlyfHeader>>,
    pub cmap: cmap,
}

/// Whether `f` holds what decoding the font file `s` gives.
pub open spec fn is_font_of(f: Font, s: Seq<u8>) -> bool {
    let hmtx_start = table_start(s, TAG_HMTX);
    let long_count = font_hhea(s).num_of_long_hor_metrics as int;
    &&& f.directory.view() == font_directory(s)
    &&& f.head == font_head(s)
    &&& f.maxp == font_maxp(s)
    &&& f.hhea == font_hhea(s)
    &&& f.hmtx.h_metrics@ == long_metrics_at(s, hmtx_start, long_count)
    &&& f.hmtx.left_side_bearing@ == i16s_at(
        s,
        hmtx_start + 4 * long_count,
        bare_bearing_count(font_hhea(s), font_maxp(s)),
    )
    &&& f.loca@ == font_loca(s)
    &&& f.glyf@.len() == glyph_count(font_loca(s))
    &&& forall|i: int|
        0 <= i < glyph_count(font_loca(s)) ==> #[trigger] f.glyf@[i] == glyph_at(
            s,
            table_start(s, TAG_GLYF),
            font_loca(s),
            i,
        )
    &&& is_cmap_at(f.cmap, s, table_start(s, TAG_CMAP))
}

/// A `head` table whose fields are all 0.
pub open spec fn blank_head() -> head {
    head {
        major_version: 0,
        minor_version: 0,
        font_revision: 0,
        checksum_adjustment: 0,
        magic_number: 0,
        flags: 0,
        units_per_em: 0,
        created: 0,
        modified: 0,
        x_min: 0,
        y_min: 0,
        x_max: 0,
        y_max: 0,
        mac_style: 0,
        lowest_rec_ppem: 0,
        font_direction_hint: 0,
        index_to_loc_format: 0,
        glyph_data_format: 0,
    }
}

/// A `maxp` table whose fields are all 0.
pub open spec fn blank_maxp() -> maxp {
    maxp {
        version: 0,
        num_glyphs: 0,
        max_points: 0,
        max_contours: 0,
        max_composite_points: 0,
        max_composite_contours: 0,
        max_zones: 0,
        max_twilight_points: 0,
        max_storage: 0,
        max_function_defs: 0,
        max_instruction_defs: 0,
        max_stack_elements: 0,
        max_size_of_instructions: 0,
        max_component_elements: 0,
        max_component_depth: 0,
    }
}

/// An `hhea` table whose fields are all 0.
pub open spec fn blank_hhea() -> hhea {
    hhea {
        version: 0,
        ascent: 0,
        descent: 0,
        line_gap: 0,
        advance_width_max: 0,
        min_left_side_bearing: 0,
        min_right_side_bearing: 0,
        x_max_extent: 0,
        caret_slope_rise: 0,
        caret_slope_run: 0,
        caret_offset: 0,
        metric_data_format: 0,
        num_of_long_hor_metrics: 0,
    }
}

/// Whether `f` is the font with no tables: zero header fields, no glyphs,
/// no metrics, no encoding records and an empty character map.
pub open spec fn is_blank_font(f: Font) -> bool {
    &&& f.directory.view() == Map::<u32, TableRecord>::empty()
    &&& f.head == blank_head()
    &&& f.maxp == blank_maxp()
    &&& f.hhea == blank_hhea()
    &&& f.hmtx.h_metrics@.len() == 0
    &&& f.hmtx.left_side_bearing@.len() == 0
    &&& f.loca@.len() == 0
    &&& f.glyf@.len() == 0
    &&& f.cmap.version == 0
    &&& f.cmap.num_tables == 0
    &&& f.cmap.encoding_records@.len() == 0
    &&& f.cmap.glyph_map() == Map::<u16, u16>::empty()
}

/// The record of `tag`, or a directory failure when it is missing.
fn required(directory: &TableDirectory, tag: u32) -> (r: Result<TableRecord, FontError>)
    ensures
        match r {
            Ok(rec) => directory.view().contains_key(tag) && directory.view()[tag] == rec,
            Err(e) => e == FontError::MalformedDirectory && !directory.view().contains_key(tag),
        },
{
    match directory.get(tag) {
        Some(rec) => Ok(rec),
        None => Err(FontError::MalformedDirectory),
    }
}

impl Font {
    /// Decodes a TrueType font file held in memory: the directory, then
    /// `head`, `maxp`, `hhea`, `hmtx`, `loca`, `glyf` and `cmap`, each read
    /// at the offset its directory record gives. The first failure aborts the
    /// whole load.
    pub fn load_ttf(data: Vec<u8>) -> (r: Result<Font, FontError>)
        ensures
            match r {
                Ok(f) => load_outcome(data@) is Ok && is_font_of(f, data@),
                Err(e) => load_outcome(data@) == Err::<(), FontError>(e),
            },
    {
        let ghost s = data@;
        let mut reader = BinaryReader::new(data);
        let directory = match TableDirectory::parse(&mut reader) {
            Ok(d) => d,
            Err(e) => {
                return Err(e);
            },
        };
        let head_rec = match required(&directory, TAG_HEAD) {
            Ok(rec) => rec,
            Err(e) => {
                return Err(e);
            },
        };
        let maxp_rec = match required(&directory, TAG_MAXP) {
            Ok(rec) => rec,
            Err(e) => {
                return Err(e);
            },
        };
        let hhea_rec = match required(&directory, TAG_HHEA) {
            Ok(rec) => rec,
            Err(e) => {
                return Err(e);
            },
        };
        let hmtx_rec = match required(&directory, TAG_HMTX) {
            Ok(rec) => rec,
            Err(e) => {
                return Err(e);
            },
        };
        let loca_rec = match required(&directory, TAG_LOCA) {
            Ok(rec) => rec,
            Err(e) => {
                return Err(e);
            },
        };
        let glyf_rec = match required(&directory, TAG_GLYF) {
            Ok(rec) => rec,
            Err(e) => {
                return Err(e);
            },
        };
        let cmap_rec = match required(&directory, TAG_CMAP) {
            Ok(rec) => rec,
            Err(e) => {
                return Err(e);
            },
        };
        reader.set_position(head_rec.offset as u64);
        let head = match head::new(&mut reader) {
            Ok(t) => t,
            Err(e) => {
                return Err(e);
            },
        };
        reader.set_position(maxp_rec.offset as u64);
        let maxp = match maxp::new(&mut reader) {
            Ok(t) => t,
            Err(e) => {
                return Err(e);
            },
        };
        reader.set_position(hhea_rec.offset as u64);
        let hhea = match hhea::new(&mut reader) {
            Ok(t) => t,
            Err(e) => {
                return Err(e);
            },
        };
        reader.set_position(hmtx_rec.offset as u64);
        let hmtx = match hmtx::new(&mut reader, hhea, maxp) {
            Ok(t) => t,
            Err(e) => {
                return Err(e);
            },
        };
        reader.set_position(loca_rec.offset as u64);
        let loca = match read_loca(&mut reader, head.index_to_loc_format, maxp.num_glyphs) {
            Ok(t) => t,
            Err(e) => {
                return Err(e);
            },
        };
        let glyf = match read_glyphs(&mut reader, glyf_rec.offset, &loca) {
            Ok(t) => t,
            Err(e) => {
                return Err(e);
            },
        };
        reader.set_position(cmap_rec.offset as u64);
        let cmap = match cmap::new(&mut reader) {
            Ok(t) => t,
            Err(e) => {
                return Err(e);
            },
        };
        Ok(Font { directory, head, maxp, hhea, hmtx, loca, glyf, cmap })
    }
}

impl Default for Font {
    /// The font with no tables.
    fn default() -> (r: Font)
        ensures
            is_blank_font(r),
    {
        let subtable = Format4 {
            format: 4,
            length: 0,
            language: 0,
            seg_count_x2: 0,
            search_range: 0,
            entry_selector: 0,
            range_shift: 0,
            end_code: Vec::new(),
            start_code: Vec::new(),
            id_delta: Vec::new(),
            id_range_offset: Vec::new(),
            glyph_index_map: HashMap::new(),
        };
        Font {
            directory: TableDirectory { tables: HashMap::new() },
            head: head {
                major_version: 0,
                minor_version: 0,
                font_revision: 0,
                checksum_adjustment: 0,
                magic_number: 0,
                flags: 0,
                units_per_em: 0,
                created: 0,
                modified: 0,
                x_min: 0,
                y_min: 0,
                x_max: 0,
                y_max: 0,
                mac_style: 0,
                lowest_rec_ppem: 0,
                font_direction_hint: 0,
                index_to_loc_format: 0,
                glyph_data_format: 0,
            },
            maxp: maxp {
                version: 0,
                num_glyphs: 0,
                max_points: 0,
                max_contours: 0,
                max_composite_points: 0,
                max_composite_contours: 0,
                max_zones: 0,
                max_twilight_points: 0,
                max_storage: 0,
                max_function_defs: 0,
                max_instruction_defs: 0,
                max_stack_elements: 0,
                max_size_of_instructions: 0,
                max_component_elements: 0,
                max_component_depth: 0,
            },
            hhea: hhea {
                version: 0,
                ascent: 0,
                descent: 0,
                line_gap: 0,
                advance_width_max: 0,
                min_left_side_bearing: 0,
                min_right_side_bearing: 0,
                x_max_extent: 0,
                caret_slope_rise: 0,
                caret_slope_run: 0,
                caret_offset: 0,
                metric_data_format: 0,
                num_of_long_hor_metrics: 0,
            },
            hmtx: hmtx { h_metrics: Vec::new(), left_side_bearing: Vec::new() },
            loca: Vec::new(),
            glyf: Vec::new(),
            cmap: cmap {
                version: 0,
                num_tables: 0,
                encoding_records: Vec::new(),
                subtable: CmapSubtable::Format4(subtable),
            },
        }
    }
}

} // verus!
