//! From character codes to glyph indices.

use vstd::prelude::*;

use crate::truetype_loader::char_glyph_mapping_table::EncodingFormatView;
use crate::truetype_loader::char_glyph_mapping_table::EncodingTableView;
use crate::truetype_loader::font::SfntFontView;
use crate::truetype_loader::CharGlyphMappingEncodingTable;
use crate::truetype_loader::CharGlyphMappingEncodingTableFormat;
use crate::truetype_loader::SfntFont;

verus! {

/// The first of the encodings from number `i` on that is a byte encoding.
pub open spec fn first_byte_encoding(tables: Seq<EncodingTableView>, i: int) -> Option<int>
    decreases tables.len() - i,
{
    if i < 0 || i >= tables.len() {
        None
    } else if tables[i].subtable is ByteEncoding {
        Some(i)
    } else {
        first_byte_encoding(tables, i + 1)
    }
}

/// The first of the encodings from number `i` on that is a segment mapping.
pub open spec fn first_segment_map(tables: Seq<EncodingTableView>, i: int) -> Option<int>
    decreases tables.len() - i,
{
    if i < 0 || i >= tables.len() {
        None
    } else if tables[i].subtable is SegmentMapToDelta {
        Some(i)
    } else {
        first_segment_map(tables, i + 1)
    }
}

/// The first segment from number `i` on that ends at or behind the code `c`.
pub open spec fn first_segment(end_count: Seq<u16>, c: int, i: int) -> Option<int>
    decreases end_count.len() - i,
{
    if i < 0 || i >= end_count.len() {
        None
    } else if end_count[i] >= c {
        Some(i)
    } else {
        first_segment(end_count, c, i + 1)
    }
}

/// The glyph of the code `c` in a byte encoding: the entry of that number,
/// and glyph 0 for a code without an entry.
pub open spec fn byte_lookup(glyph_ids: Seq<u8>, c: int) -> int {
    if 0 <= c < glyph_ids.len() {
        glyph_ids[c] as int
    } else {
        0
    }
}

/// The glyph of the code `c` in the segment `i` of a segment mapping. A
/// segment without a range offset maps by adding its delta. One with a range
/// offset points into the glyph indices, counted in bytes from the place of
/// the offset itself; the delta is added to an index that is not zero. All
/// sums are taken modulo 65536.
pub open spec fn segment_glyph(
    seg: int,
    start_count: Seq<u16>,
    id_delta: Seq<u16>,
    id_range_offset: Seq<u16>,
    glyph_indices: Seq<u16>,
    c: int,
    i: int,
) -> int {
    if i >= start_count.len() || i >= id_delta.len() || i >= id_range_offset.len() || start_count[i]
        > c {
        0
    } else if id_range_offset[i] == 0 {
        (c + id_delta[i]) % 0x1_0000
    } else {
        let at = id_range_offset[i] / 2 + (c - start_count[i]) - (seg - i);
        if 0 <= at < glyph_indices.len() && glyph_indices[at] != 0 {
            (glyph_indices[at] + id_delta[i]) % 0x1_0000
        } else {
            0
        }
    }
}

/// The glyph of the code `c` in the encoding `format`; glyph 0 for a code
/// that the encoding does not map, and for encodings other than byte
/// encodings, segment mappings and trimmed tables.
pub open spec fn lookup(format: EncodingFormatView, c: int) -> int {
    match format {
        EncodingFormatView::ByteEncoding { glyph_ids } => byte_lookup(glyph_ids, c),
        EncodingFormatView::SegmentMapToDelta {
            seg_countx2,
            end_count,
            start_count,
            id_delta,
            id_range_offset,
            glyph_indices,
            ..
        } => {
            if c > 0xFFFF {
                0
            } else {
                match first_segment(end_count, c, 0) {
                    Some(i) => segment_glyph(
                        seg_countx2 as int / 2,
                        start_count,
                        id_delta,
                        id_range_offset,
                        glyph_indices,
                        c,
                        i,
                    ),
                    None => 0,
                }
            }
        },
        EncodingFormatView::Trimmed { first_code, glyph_indices, .. } => {
            if first_code <= c && c - first_code < glyph_indices.len() {
                glyph_indices[c - first_code] as int
            } else {
                0
            }
        },
        _ => 0,
    }
}

fn find_segment(end_count: &Vec<u16>, c: u32) -> (r: Option<usize>)
    ensures
        match r {
            Some(i) => first_segment(end_count@, c as int, 0) == Some(i as int) && i
                < end_count@.len(),
            None => first_segment(end_count@, c as int, 0) is None,
        },
{
    let mut i: usize = 0;
    while i < end_count.len()
        invariant
            i <= end_count@.len(),
            first_segment(end_count@, c as int, 0) == first_segment(end_count@, c as int, i as int),
        decreases end_count.len() - i,
    {
        if end_count[i] as u32 >= c {
            return Some(i);
        }
        i = i + 1;
    }
    None
}

/// Looks the code `c` up in one encoding subtable.
pub fn lookup_in(format: &CharGlyphMappingEncodingTableFormat, c: u32) -> (g: usize)
    ensures
        g == lookup(format@, c as int),
{
    match format {
        CharGlyphMappingEncodingTableFormat::ByteEncoding { glyph_ids } => {
            if (c as usize) < glyph_ids.len() {
                glyph_ids[c as usize] as usize
            } else {
                0
            }
        },
        CharGlyphMappingEncodingTableFormat::SegmentMapToDelta {
            seg_countx2,
            end_count,
            start_count,
            id_delta,
            id_range_offset,
            glyph_indices,
            ..
        } => {
            if c > 0xFFFF {
                return 0;
            }
            let i: usize = match find_segment(end_count, c) {
                Some(i) => i,
                None => { return 0; },
            };
            if i >= start_count.len() || i >= id_delta.len() || i >= id_range_offset.len()
                || start_count[i] as u32 > c {
                return 0;
            }
            let delta: u32 = id_delta[i] as u32;
            if id_range_offset[i] == 0 {
                ((c + delta) % 0x1_0000) as usize
            } else {
                let seg: u128 = (*seg_countx2 / 2) as u128;
                let forward: u128 = (id_range_offset[i] / 2) as u128 + (c - start_count[i] as u32) as u128
                    + i as u128;
                if forward < seg {
                    return 0;
                }
                let at: u128 = forward - seg;
                if at < glyph_indices.len() as u128 && glyph_indices[at as usize] != 0 {
                    ((glyph_indices[at as usize] as u32 + delta) % 0x1_0000) as usize
                } else {
                    0
                }
            }
        },
        CharGlyphMappingEncodingTableFormat::Trimmed { first_code, glyph_indices, .. } => {
            if *first_code as u32 <= c && ((c - *first_code as u32) as usize) < glyph_indices.len() {
                glyph_indices[(c - *first_code as u32) as usize] as usize
            } else {
                0
            }
        },
        _ => 0,
    }
}

/// The encodings of a font that serve to find glyphs: a byte encoding for
/// the codes below 256 and a segment mapping for the others, as far as the
/// font has them.
pub struct CharMap<'f> {
    pub byte_encoding: Option<&'f CharGlyphMappingEncodingTableFormat>,
    pub segment_map: Option<&'f CharGlyphMappingEncodingTableFormat>,
}

/// The encodings of the font `font`; none where it has no `cmap` table.
pub open spec fn encodings_of(font: SfntFontView) -> Seq<EncodingTableView> {
    match font.cmap_table {
        Some(t) => t.encoding_tables,
        None => Seq::empty(),
    }
}

/// The glyph of the code `c` in the font `font`: a code below 256 is looked
/// up in the first byte encoding, any code that this does not settle in the
/// first segment mapping. Glyph 0 stands for a code that is not mapped.
pub open spec fn glyph_of(font: SfntFontView, c: int) -> int {
    let tables = encodings_of(font);
    if c < 256 && first_byte_encoding(tables, 0) is Some {
        lookup(tables[first_byte_encoding(tables, 0)->Some_0].subtable, c)
    } else if first_segment_map(tables, 0) is Some {
        lookup(tables[first_segment_map(tables, 0)->Some_0].subtable, c)
    } else {
        0
    }
}

fn find_byte_encoding(tables: &Vec<CharGlyphMappingEncodingTable>) -> (r: Option<usize>)
    ensures
        match r {
            Some(i) => first_byte_encoding(tables@.map_values(|t: CharGlyphMappingEncodingTable| t@), 0)
                == Some(i as int) && i < tables@.len(),
            None => first_byte_encoding(
                tables@.map_values(|t: CharGlyphMappingEncodingTable| t@),
                0,
            ) is None,
        },
{
    let ghost views = tables@.map_values(|t: CharGlyphMappingEncodingTable| t@);
    let mut i: usize = 0;
    while i < tables.len()
        invariant
            i <= tables@.len(),
            views == tables@.map_values(|t: CharGlyphMappingEncodingTable| t@),
            first_byte_encoding(views, 0) == first_byte_encoding(views, i as int),
        decreases tables.len() - i,
    {
        match &tables[i].subtable {
            CharGlyphMappingEncodingTableFormat::ByteEncoding { .. } => {
                return Some(i);
            },
            _ => {},
        }
        i = i + 1;
    }
    None
}

fn find_segment_map(tables: &Vec<CharGlyphMappingEncodingTable>) -> (r: Option<usize>)
    ensures
        match r {
            Some(i) => first_segment_map(tables@.map_values(|t: CharGlyphMappingEncodingTable| t@), 0)
                == Some(i as int) && i < tables@.len(),
            None => first_segment_map(
                tables@.map_values(|t: CharGlyphMappingEncodingTable| t@),
                0,
            ) is None,
        },
{
    let ghost views = tables@.map_values(|t: CharGlyphMappingEncodingTable| t@);
    let mut i: usize = 0;
    while i < tables.len()
        invariant
            i <= tables@.len(),
            views == tables@.map_values(|t: CharGlyphMappingEncodingTable| t@),
            first_segment_map(views, 0) == first_segment_map(views, i as int),
        decreases tables.len() - i,
    {
        match &tables[i].subtable {
            CharGlyphMappingEncodingTableFormat::SegmentMapToDelta { .. } => {
                return Some(i);
            },
            _ => {},
        }
        i = i + 1;
    }
    None
}

impl<'f> CharMap<'f> {
    /// Whether the map holds the encodings that `glyph_of` uses for `font`.
    pub open spec fn is_map_of(&self, font: SfntFontView) -> bool {
        let tables = encodings_of(font);
        &&& match self.byte_encoding {
            Some(t) => first_byte_encoding(tables, 0) is Some && t@ == tables[first_byte_encoding(
                tables,
                0,
            )->Some_0].subtable,
            None => first_byte_encoding(tables, 0) is None,
        }
        &&& match self.segment_map {
            Some(t) => first_segment_map(tables, 0) is Some && t@ == tables[first_segment_map(
                tables,
                0,
            )->Some_0].subtable,
            None => first_segment_map(tables, 0) is None,
        }
    }

    /// The glyph that the map gives for the code `c`.
    pub open spec fn spec_map(&self, c: int) -> int {
        if c < 256 && self.byte_encoding is Some {
            lookup(self.byte_encoding->Some_0@, c)
        } else if self.segment_map is Some {
            lookup(self.segment_map->Some_0@, c)
        } else {
            0
        }
    }

    /// Picks the encodings of `font` that serve to find glyphs.
    pub fn from_truetype(font: &'f SfntFont) -> (m: CharMap<'f>)
        ensures
            m.is_map_of(font@),
            forall|c: int| m.spec_map(c) == glyph_of(font@, c),
    {
        match &font.cmap_table {
            Some(table) => {
                let tables = &table.encoding_tables;
                let byte_encoding = match find_byte_encoding(tables) {
                    Some(i) => Some(&tables[i].subtable),
                    None => None,
                };
                let segment_map = match find_segment_map(tables) {
                    Some(i) => Some(&tables[i].subtable),
                    None => None,
                };
                CharMap { byte_encoding, segment_map }
            },
            None => CharMap { byte_encoding: None, segment_map: None },
        }
    }

    /// The glyph index of the character `c`; 0 where the font has no glyph
    /// for it.
    pub fn map(&self, c: char) -> (g: usize)
        ensures
            g == self.spec_map(c as u32 as int),
    {
        let code: u32 = c as u32;
        if code < 256 && self.byte_encoding.is_some() {
            match self.byte_encoding {
                Some(t) => lookup_in(t, code),
                None => 0,
            }
        } else {
            match self.segment_map {
                Some(t) => lookup_in(t, code),
                None => 0,
            }
        }
    }
}

} // verus!
