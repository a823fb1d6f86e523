use vstd::prelude::*;

use crate::error::FontError;
use crate::reader::{advanced, i16_at, u16_at, u32_at, BinaryReader};

verus! {

/// Bytes taken by a `loca` table of `n` entries in the given format.
pub open spec fn loca_size(index_to_loc_format: i16, n: int) -> int {
    if index_to_loc_format == 0 {
        2 * n
    } else {
        4 * n
    }
}

/// The `n` byte offsets of the `loca` table at `s[p..]`.
pub open spec fn loca_at(s: Seq<u8>, p: int, index_to_loc_format: i16, n: int) -> Seq<u32> {
    Seq::new(
        n as nat,
        |k: int|
            if index_to_loc_format == 0 {
                (2 * u16_at(s, p + 2 * k)) as u32
            } else {
                u32_at(s, p + 4 * k) as u32
            },
    )
}

/// The `loca` table: `num_glyphs + 1` byte offsets into `glyf`.
///
/// With `index_to_loc_format` 0 each entry is stored as a 16-bit half
/// offset, which is doubled here; with any other value each entry is stored
/// as a 32-bit offset, kept as it is.
pub fn read_loca(reader: &mut BinaryReader, index_to_loc_format: i16, num_glyphs: u16) -> (r:
    Result<Vec<u32>, FontError>)
    ensures
        match r {
            Ok(loca) => {
                let s = old(reader).bytes();
                let p = old(reader).pos();
                let n = num_glyphs + 1;
                &&& old(reader).can_read(loca_size(index_to_loc_format, n))
                &&& advanced(*old(reader), *final(reader), loca_size(index_to_loc_format, n))
                &&& loca@ == loca_at(s, p, index_to_loc_format, n)
                &&& index_to_loc_format == 0 ==> forall|k: int|
                    0 <= k < n ==> #[trigger] loca@[k] == 2 * u16_at(s, p + 2 * k)
                &&& index_to_loc_format != 0 ==> forall|k: int|
                    0 <= k < n ==> #[trigger] loca@[k] == u32_at(s, p + 4 * k)
            },
            Err(e) => e == FontError::TruncatedTable && !old(reader).can_read(
                loca_size(index_to_loc_format, num_glyphs + 1),
            ) && *final(reader) == *old(reader),
        },
{
    let ghost s = reader.bytes();
    let ghost p = reader.pos();
    let n: u32 = num_glyphs as u32 + 1;
    let short = index_to_loc_format == 0;
    let size: u64 = if short {
        2 * n as u64
    } else {
        4 * n as u64
    };
    if !reader.has(size) {
        return Err(FontError::TruncatedTable);
    }
    let mut loca: Vec<u32> = Vec::new();
    let mut i: u32 = 0;
    while i < n
        invariant
            short == (index_to_loc_format == 0),
            reader.bytes() == s,
            reader.pos() == p + loca_size(index_to_loc_format, i as int),
            p + loca_size(index_to_loc_format, n as int) <= s.len(),
            n == num_glyphs + 1,
            i <= n,
            loca@.len() == i,
            short ==> forall|k: int| 0 <= k < i ==> #[trigger] loca@[k] == 2 * u16_at(s, p + 2 * k),
            !short ==> forall|k: int| 0 <= k < i ==> #[trigger] loca@[k] == u32_at(s, p + 4 * k),
        decreases n - i,
    {
        if short {
            let half = reader.get_offset16().unwrap();
            loca.push(half as u32 * 2);
        } else {
            loca.push(reader.get_offset32().unwrap());
        }
        i = i + 1;
    }
    assert(loca@ =~= loca_at(s, p, index_to_loc_format, n as int));
    Ok(loca)
}

/// The header of one glyph's outline: its contour count and bounding box.
#[derive(Debug, Clone, Copy, PartialEq, Eq, Structural)]
pub struct GlyfHeader {
    pub number_of_contours: i16,
    pub x_min: i16,
    pub y_min: i16,
    pub x_max: i16,
    pub y_max: i16,
}

/// The glyph header stored at `s[p..p + 10]`.
pub open spec fn glyf_header_at(s: Seq<u8>, p: int) -> GlyfHeader {
    GlyfHeader {
        number_of_contours: i16_at(s, p) as i16,
        x_min: i16_at(s, p + 2) as i16,
        y_min: i16_at(s, p + 4) as i16,
        x_max: i16_at(s, p + 6) as i16,
        y_max: i16_at(s, p + 8) as i16,
    }
}

/// How many glyphs a `loca` table of this many entries describes.
pub open spec fn glyph_count(loca: Seq<u32>) -> int {
    if loca.len() == 0 {
        0
    } else {
        loca.len() - 1
    }
}

/// Whether glyph `i` has no outline: its `loca` range is empty.
pub open spec fn is_empty_glyph(loca: Seq<u32>, i: int) -> bool {
    loca[i] == loca[i + 1]
}

/// Whether every glyph with an outline has its header within `s`, the
/// `glyf` table starting at `base`.
pub open spec fn glyf_fits(s: Seq<u8>, base: int, loca: Seq<u32>) -> bool {
    forall|i: int|
        0 <= i < glyph_count(loca) && !is_empty_glyph(loca, i) ==> base + #[trigger] loca[i] + 10
            <= s.len()
}

/// What is read for glyph `i`: nothing for an empty glyph, else the header at
/// its `loca` offset from `base`.
pub open spec fn glyph_at(s: Seq<u8>, base: int, loca: Seq<u32>, i: int) -> Option<GlyfHeader> {
    if is_empty_glyph(loca, i) {
        None
    } else {
        Some(glyf_header_at(s, base + loca[i]))
    }
}

/// Reads the header of each glyph of the `glyf` table at `glyf_offset`.
///
/// Glyph `i` spans `loca[i]..loca[i + 1]` from the table's start; `loca`
/// entries are byte offsets already, so they are not scaled again. A glyph
/// whose range is empty has no outline: nothing is read for it and its entry
/// is `None`.
pub fn read_glyphs(reader: &mut BinaryReader, glyf_offset: u32, loca: &Vec<u32>) -> (r: Result<
    Vec<Option<GlyfHeader>>,
    FontError,
>)
    ensures
        final(reader).bytes() == old(reader).bytes(),
        match r {
            Ok(glyphs) => {
                &&& glyf_fits(old(reader).bytes(), glyf_offset as int, loca@)
                &&& glyphs@.len() == glyph_count(loca@)
                &&& forall|i: int|
                    0 <= i < glyph_count(loca@) ==> #[trigger] glyphs@[i] == glyph_at(
                        old(reader).bytes(),
                        glyf_offset as int,
                        loca@,
                        i,
                    )
                &&& forall|i: int|
                    0 <= i < glyph_count(loca@) && is_empty_glyph(loca@, i) ==> (
                    #[trigger] glyphs@[i]) is None
            },
            Err(e) => e == FontError::TruncatedTable && !glyf_fits(
                old(reader).bytes(),
                glyf_offset as int,
                loca@,
            ),
        },
{
    let ghost s = reader.bytes();
    assert(s == old(reader).bytes());
    let mut glyphs: Vec<Option<GlyfHeader>> = Vec::new();
    if loca.len() == 0 {
        return Ok(glyphs);
    }
    let count = loca.len() - 1;
    let mut i: usize = 0;
    while i < count
        invariant
            reader.bytes() == s,
            s == old(reader).bytes(),
            count == glyph_count(loca@),
            i <= count,
            glyphs@.len() == i,
            forall|k: int| 0 <= k < i ==> #[trigger] glyphs@[k] == glyph_at(s, glyf_offset as int, loca@, k),
            forall|k: int|
                0 <= k < i && !is_empty_glyph(loca@, k) ==> glyf_offset + #[trigger] loca@[k] + 10 <= s.len(),
        decreases count - i,
    {
        if loca[i] == loca[i + 1] {
            glyphs.push(None);
        } else {
            reader.set_position(glyf_offset as u64 + loca[i] as u64);
            if !reader.has(10) {
                assert(!is_empty_glyph(loca@, i as int) && glyf_offset + loca@[i as int] + 10 > s.len());
                return Err(FontError::TruncatedTable);
            }
            glyphs.push(
                Some(
                    GlyfHeader {
                        number_of_contours: reader.get_int16().unwrap(),
                        x_min: reader.get_int16().unwrap(),
                        y_min: reader.get_int16().unwrap(),
                        x_max: reader.get_int16().unwrap(),
                        y_max: reader.get_int16().unwrap(),
                    },
                ),
            );
        }
        i = i + 1;
    }
    Ok(glyphs)
}

} // verus!
