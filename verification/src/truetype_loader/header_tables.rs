//! The fixed-layout tables `head`, `maxp` and `hhea`.

use vstd::prelude::*;

use crate::truetype_loader::binary_reader::be_fixed;
use crate::truetype_loader::binary_reader::be_i16;
use crate::truetype_loader::binary_reader::be_u16;
use crate::truetype_loader::binary_reader::be_u32;
use crate::truetype_loader::binary_reader::be_u64;
use crate::truetype_loader::binary_reader::BinaryReader;
use crate::truetype_loader::Fixed;
use crate::truetype_loader::LoadError;
use crate::truetype_loader::Table;
use crate::truetype_loader::TableTag;

verus! {

/// The number that every `head` table holds at byte 12.
pub const HEAD_MAGIC: u32 = 0x5F0F_3CF5;

/// The `head` table: global facts about the font.
#[derive(Clone, Copy, Debug, PartialEq, Eq, Structural)]
pub struct FontHeader {
    pub version: Fixed,
    pub font_rev: Fixed,
    pub checksum: u32,
    pub flags: u16,
    pub units_per_em: u16,
    pub created: u64,
    pub modified: u64,
    pub x_min: i16,
    pub y_min: i16,
    pub x_max: i16,
    pub y_max: i16,
    pub mac_style: u16,
    pub lowest_rec_ppem: u16,
    pub font_direction_hint: i16,
    pub index_to_locformat: i16,
    pub glyph_data_format: i16,
}

impl FontHeader {
    /// The length of the table in bytes.
    pub open spec fn size() -> int {
        54
    }

    /// The header that the 54 bytes of `s` from `at` on encode.
    pub open spec fn decode(s: Seq<u8>, at: int) -> FontHeader {
        FontHeader {
            version: be_fixed(s, at),
            font_rev: be_fixed(s, at + 4),
            checksum: be_u32(s, at + 8),
            flags: be_u16(s, at + 16),
            units_per_em: be_u16(s, at + 18),
            created: be_u64(s, at + 20),
            modified: be_u64(s, at + 28),
            x_min: be_i16(s, at + 36),
            y_min: be_i16(s, at + 38),
            x_max: be_i16(s, at + 40),
            y_max: be_i16(s, at + 42),
            mac_style: be_u16(s, at + 44),
            lowest_rec_ppem: be_u16(s, at + 46),
            font_direction_hint: be_i16(s, at + 48),
            index_to_locformat: be_i16(s, at + 50),
            glyph_data_format: be_i16(s, at + 52),
        }
    }

    /// What decoding a `head` table at `at` gives: the header, or
    /// `MalformedData` where the bytes end early or the magic number is wrong.
    pub open spec fn parse(s: Seq<u8>, at: int) -> Result<FontHeader, LoadError> {
        if at + 54 <= s.len() && be_u32(s, at + 12) == HEAD_MAGIC {
            Ok(FontHeader::decode(s, at))
        } else {
            Err(LoadError::MalformedData)
        }
    }

    pub fn from_binary(reader: &mut BinaryReader) -> (r: Result<FontHeader, LoadError>)
        ensures
            final(reader).data == old(reader).data,
            r == FontHeader::parse(old(reader).data@, old(reader).pos as int),
            r is Ok ==> final(reader).pos == old(reader).pos + 54,
    {
        let version = reader.read_fixed()?;
        let font_rev = reader.read_fixed()?;
        let checksum = reader.read_u32()?;
        let magic = reader.read_u32()?;
        if magic != HEAD_MAGIC {
            return Err(LoadError::MalformedData);
        }
        let flags = reader.read_u16()?;
        let units_per_em = reader.read_u16()?;
        let created = reader.read_u64()?;
        let modified = reader.read_u64()?;
        let x_min = reader.read_i16()?;
        let y_min = reader.read_i16()?;
        let x_max = reader.read_i16()?;
        let y_max = reader.read_i16()?;
        let mac_style = reader.read_u16()?;
        let lowest_rec_ppem = reader.read_u16()?;
        let font_direction_hint = reader.read_i16()?;
        let index_to_locformat = reader.read_i16()?;
        let glyph_data_format = reader.read_i16()?;
        Ok(
            FontHeader {
                version,
                font_rev,
                checksum,
                flags,
                units_per_em,
                created,
                modified,
                x_min,
                y_min,
                x_max,
                y_max,
                mac_style,
                lowest_rec_ppem,
                font_direction_hint,
                index_to_locformat,
                glyph_data_format,
            },
        )
    }
}

impl Table for FontHeader {
    fn tag(&self) -> (t: TableTag)
        ensures
            t == TableTag::FontHeader,
    {
        TableTag::FontHeader
    }
}

/// The `maxp` table: the limits by which the hinting engine sizes its
/// resources.
#[derive(Clone, Copy, Debug, PartialEq, Eq, Structural)]
pub struct MaxProfileTable {
    pub version: Fixed,
    pub num_glyphs: u16,
    pub num_points: u16,
    pub max_contours: u16,
    pub max_composite_points: u16,
    pub max_composite_contours: u16,
    pub max_zones: u16,
    pub max_twilight_points: u16,
    pub max_storage: u16,
    pub max_function_defs: u16,
    pub max_instruction_defs: u16,
    pub max_stack: u16,
    pub max_instruction_size: u16,
    pub max_component_elements: u16,
    pub max_component_depth: u16,
}

impl MaxProfileTable {
    /// The profile that the 32 bytes of `s` from `at` on encode.
    pub open spec fn decode(s: Seq<u8>, at: int) -> MaxProfileTable {
        MaxProfileTable {
            version: be_fixed(s, at),
            num_glyphs: be_u16(s, at + 4),
            num_points: be_u16(s, at + 6),
            max_contours: be_u16(s, at + 8),
            max_composite_points: be_u16(s, at + 10),
            max_composite_contours: be_u16(s, at + 12),
            max_zones: be_u16(s, at + 14),
            max_twilight_points: be_u16(s, at + 16),
            max_storage: be_u16(s, at + 18),
            max_function_defs: be_u16(s, at + 20),
            max_instruction_defs: be_u16(s, at + 22),
            max_stack: be_u16(s, at + 24),
            max_instruction_size: be_u16(s, at + 26),
            max_component_elements: be_u16(s, at + 28),
            max_component_depth: be_u16(s, at + 30),
        }
    }

    /// What decoding a `maxp` table at `at` gives.
    pub open spec fn parse(s: Seq<u8>, at: int) -> Result<MaxProfileTable, LoadError> {
        if at + 32 <= s.len() {
            Ok(MaxProfileTable::decode(s, at))
        } else {
            Err(LoadError::MalformedData)
        }
    }

    pub fn from_binary(reader: &mut BinaryReader) -> (r: Result<MaxProfileTable, LoadError>)
        ensures
            final(reader).data == old(reader).data,
            r == MaxProfileTable::parse(old(reader).data@, old(reader).pos as int),
            r is Ok ==> final(reader).pos == old(reader).pos + 32,
    {
        let version = reader.read_fixed()?;
        let num_glyphs = reader.read_u16()?;
        let num_points = reader.read_u16()?;
        let max_contours = reader.read_u16()?;
        let max_composite_points = reader.read_u16()?;
        let max_composite_contours = reader.read_u16()?;
        let max_zones = reader.read_u16()?;
        let max_twilight_points = reader.read_u16()?;
        let max_storage = reader.read_u16()?;
        let max_function_defs = reader.read_u16()?;
        let max_instruction_defs = reader.read_u16()?;
        let max_stack = reader.read_u16()?;
        let max_instruction_size = reader.read_u16()?;
        let max_component_elements = reader.read_u16()?;
        let max_component_depth = reader.read_u16()?;
        Ok(
            MaxProfileTable {
                version,
                num_glyphs,
                num_points,
                max_contours,
                max_composite_points,
                max_composite_contours,
                max_zones,
                max_twilight_points,
                max_storage,
                max_function_defs,
                max_instruction_defs,
                max_stack,
                max_instruction_size,
                max_component_elements,
                max_component_depth,
            },
        )
    }
}

impl Table for MaxProfileTable {
    fn tag(&self) -> (t: TableTag)
        ensures
            t == TableTag::MaxProfile,
    {
        TableTag::MaxProfile
    }
}

/// The `hhea` table: line metrics for horizontal text, and the number of
/// full entries in the horizontal metrics.
#[derive(Clone, Copy, Debug, PartialEq, Eq, Structural)]
pub struct HorizHeaderTable {
    pub version: Fixed,
    pub ascent: i16,
    pub descent: i16,
    pub line_gap: i16,
    pub advance_width_max: u16,
    pub min_left_side_bearing: i16,
    pub min_right_side_bearing: i16,
    pub x_max_extent: i16,
    pub caret_slope_rise: i16,
    pub caret_slope_run: i16,
    pub caret_offset: i16,
    pub metric_data_format: i16,
    pub number_of_h_metrics: u16,
}

impl HorizHeaderTable {
    /// The header that the 36 bytes of `s` from `at` on encode. Bytes 24 to
    /// 31 are reserved and not kept.
    pub open spec fn decode(s: Seq<u8>, at: int) -> HorizHeaderTable {
        HorizHeaderTable {
            version: be_fixed(s, at),
            ascent: be_i16(s, at + 4),
            descent: be_i16(s, at + 6),
            line_gap: be_i16(s, at + 8),
            advance_width_max: be_u16(s, at + 10),
            min_left_side_bearing: be_i16(s, at + 12),
            min_right_side_bearing: be_i16(s, at + 14),
            x_max_extent: be_i16(s, at + 16),
            caret_slope_rise: be_i16(s, at + 18),
            caret_slope_run: be_i16(s, at + 20),
            caret_offset: be_i16(s, at + 22),
            metric_data_format: be_i16(s, at + 32),
            number_of_h_metrics: be_u16(s, at + 34),
        }
    }

    /// What decoding an `hhea` table at `at` gives.
    pub open spec fn parse(s: Seq<u8>, at: int) -> Result<HorizHeaderTable, LoadError> {
        if at + 36 <= s.len() {
            Ok(HorizHeaderTable::decode(s, at))
        } else {
            Err(LoadError::MalformedData)
        }
    }

    pub fn from_binary(reader: &mut BinaryReader) -> (r: Result<HorizHeaderTable, LoadError>)
        ensures
            final(reader).data == old(reader).data,
            r == HorizHeaderTable::parse(old(reader).data@, old(reader).pos as int),
            r is Ok ==> final(reader).pos == old(reader).pos + 36,
    {
        let version = reader.read_fixed()?;
        let ascent = reader.read_i16()?;
        let descent = reader.read_i16()?;
        let line_gap = reader.read_i16()?;
        let advance_width_max = reader.read_u16()?;
        let min_left_side_bearing = reader.read_i16()?;
        let min_right_side_bearing = reader.read_i16()?;
        let x_max_extent = reader.read_i16()?;
        let caret_slope_rise = reader.read_i16()?;
        let caret_slope_run = reader.read_i16()?;
        let caret_offset = reader.read_i16()?;
        let _ = reader.take(8)?;
        let metric_data_format = reader.read_i16()?;
        let number_of_h_metrics = reader.read_u16()?;
        Ok(
            HorizHeaderTable {
                version,
                ascent,
                descent,
                line_gap,
                advance_width_max,
                min_left_side_bearing,
                min_right_side_bearing,
                x_max_extent,
                caret_slope_rise,
                caret_slope_run,
                caret_offset,
                metric_data_format,
                number_of_h_metrics,
            },
        )
    }
}

impl Table for HorizHeaderTable {
    fn tag(&self) -> (t: TableTag)
        ensures
            t == TableTag::HorizHeader,
    {
        TableTag::HorizHeader
    }
}

} // verus!
