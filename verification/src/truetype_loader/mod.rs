//! The tables of an `sfnt` font container and their decoding.

use vstd::prelude::*;

pub mod binary_reader;
pub mod char_glyph_mapping_table;
pub mod directory;
pub mod font;
pub mod glyph_data_table;
pub mod header_tables;
pub mod indexed_tables;

pub use char_glyph_mapping_table::CharGlyphMappingEncodingTable;
pub use char_glyph_mapping_table::CharGlyphMappingEncodingTableFormat;
pub use char_glyph_mapping_table::CharGlyphMappingTable;
pub use char_glyph_mapping_table::HighByteMappingSubheader;
pub use directory::calculate_table_checksum;
pub use directory::OffsetTable;
pub use directory::TableDirectoryEntry;
pub use font::SfntFont;
pub use glyph_data_table::ComponentGlyphDescription;
pub use glyph_data_table::GlyphDataTable;
pub use glyph_data_table::GlyphDescription;
pub use glyph_data_table::GlyphPoint;
pub use glyph_data_table::Transformation;
pub use header_tables::FontHeader;
pub use header_tables::HorizHeaderTable;
pub use header_tables::MaxProfileTable;
pub use indexed_tables::ControlValueProgram;
pub use indexed_tables::ControlValueTable;
pub use indexed_tables::DeviceRecord;
pub use indexed_tables::FontProgram;
pub use indexed_tables::GASPRange;
pub use indexed_tables::GASPTable;
pub use indexed_tables::HorizDeviceMetricsTable;
pub use indexed_tables::HorizMetricsTable;
pub use indexed_tables::LocationTable;
pub use indexed_tables::LongHorMetric;

verus! {

/// Why a font could not be loaded.
#[derive(Clone, Copy, Debug, PartialEq, Eq, Structural)]
pub enum LoadError {
    /// The bytes end too early, an offset points outside the data, a checksum
    /// does not match, or a field holds a value its format does not allow.
    MalformedData,
    /// A table is present whose decoding needs another table that is absent.
    MissingRequiredTable(TableTag),
}

/// A 16.16 fixed-point number, kept as its two halves.
#[derive(Clone, Copy, Debug, PartialEq, Eq, Structural)]
pub struct Fixed {
    pub int_part: u16,
    pub frac_part: u16,
}

/// A 2.14 fixed-point number, kept as its raw 16 bits: the number times 16384.
#[derive(Clone, Copy, Debug, PartialEq, Eq, Structural)]
pub struct F2dot14(pub i16);

/// The tables of a TrueType font that have a name here.
#[derive(Clone, Copy, Debug, PartialEq, Eq, Structural)]
pub enum TableTag {
    CharGlyphMapping,
    GlyphData,
    FontHeader,
    HorizHeader,
    HorizMetics,
    LocationIndex,
    MaxProfile,
    Nameing,
    PostScriptInfo,
    WindowsOS2SpecificMetric,
    ControlValue,
    EmbeddedBitmapData,
    EmbeddedBitmapLocationData,
    EmbeddedBitmapScalingData,
    FontProgram,
    GridFitAndScanConvertProc,
    HorizDevMetric,
    Kerning,
    LinearThreshold,
    CVTProgram,
    PCL5,
    VertDevMetrics,
    VertHeader,
    VertMetrics,
}

impl TableTag {
    /// The four-character code under which the table stands in the directory.
    pub open spec fn spec_code(self) -> u32 {
        match self {
            TableTag::CharGlyphMapping => 0x636D_6170,  // cmap
            TableTag::GlyphData => 0x676C_7966,  // glyf
            TableTag::FontHeader => 0x6865_6164,  // head
            TableTag::HorizHeader => 0x6868_6561,  // hhea
            TableTag::HorizMetics => 0x686D_7478,  // hmtx
            TableTag::LocationIndex => 0x6C6F_6361,  // loca
            TableTag::MaxProfile => 0x6D61_7870,  // maxp
            TableTag::Nameing => 0x6E61_6D65,  // name
            TableTag::PostScriptInfo => 0x706F_7374,  // post
            TableTag::WindowsOS2SpecificMetric => 0x4F53_2F32,  // OS/2
            TableTag::ControlValue => 0x6376_7420,  // cvt
            TableTag::EmbeddedBitmapData => 0x4542_4454,  // EBDT
            TableTag::EmbeddedBitmapLocationData => 0x4542_4C43,  // EBLC
            TableTag::EmbeddedBitmapScalingData => 0x4542_5343,  // EBSC
            TableTag::FontProgram => 0x6670_676D,  // fpgm
            TableTag::GridFitAndScanConvertProc => 0x6761_7370,  // gasp
            TableTag::HorizDevMetric => 0x6864_6D78,  // hdmx
            TableTag::Kerning => 0x6B65_726E,  // kern
            TableTag::LinearThreshold => 0x4C54_5348,  // LTSH
            TableTag::CVTProgram => 0x7072_6570,  // prep
            TableTag::PCL5 => 0x5043_4C54,  // PCLT
            TableTag::VertDevMetrics => 0x5644_4D58,  // VDMX
            TableTag::VertHeader => 0x7668_6561,  // vhea
            TableTag::VertMetrics => 0x766D_7478,  // vmtx
        }
    }

    /// The tag that stands under `code`, if it has a name here.
    pub open spec fn spec_from_code(code: u32) -> Option<TableTag> {
        if code == 0x636D_6170 {
            Some(TableTag::CharGlyphMapping)
        } else if code == 0x676C_7966 {
            Some(TableTag::GlyphData)
        } else if code == 0x6865_6164 {
            Some(TableTag::FontHeader)
        } else if code == 0x6868_6561 {
            Some(TableTag::HorizHeader)
        } else if code == 0x686D_7478 {
            Some(TableTag::HorizMetics)
        } else if code == 0x6C6F_6361 {
            Some(TableTag::LocationIndex)
        } else if code == 0x6D61_7870 {
            Some(TableTag::MaxProfile)
        } else if code == 0x6E61_6D65 {
            Some(TableTag::Nameing)
        } else if code == 0x706F_7374 {
            Some(TableTag::PostScriptInfo)
        } else if code == 0x4F53_2F32 {
            Some(TableTag::WindowsOS2SpecificMetric)
        } else if code == 0x6376_7420 {
            Some(TableTag::ControlValue)
        } else if code == 0x4542_4454 {
            Some(TableTag::EmbeddedBitmapData)
        } else if code == 0x4542_4C43 {
            Some(TableTag::EmbeddedBitmapLocationData)
        } else if code == 0x4542_5343 {
            Some(TableTag::EmbeddedBitmapScalingData)
        } else if code == 0x6670_676D {
            Some(TableTag::FontProgram)
        } else if code == 0x6761_7370 {
            Some(TableTag::GridFitAndScanConvertProc)
        } else if code == 0x6864_6D78 {
            Some(TableTag::HorizDevMetric)
        } else if code == 0x6B65_726E {
            Some(TableTag::Kerning)
        } else if code == 0x4C54_5348 {
            Some(TableTag::LinearThreshold)
        } else if code == 0x7072_6570 {
            Some(TableTag::CVTProgram)
        } else if code == 0x5043_4C54 {
            Some(TableTag::PCL5)
        } else if code == 0x5644_4D58 {
            Some(TableTag::VertDevMetrics)
        } else if code == 0x7668_6561 {
            Some(TableTag::VertHeader)
        } else if code == 0x766D_7478 {
            Some(TableTag::VertMetrics)
        } else {
            None
        }
    }

    pub fn code(self) -> (c: u32)
        ensures
            c == self.spec_code(),
    {
        match self {
            TableTag::CharGlyphMapping => 0x636D_6170,
            TableTag::GlyphData => 0x676C_7966,
            TableTag::FontHeader => 0x6865_6164,
            TableTag::HorizHeader => 0x6868_6561,
            TableTag::HorizMetics => 0x686D_7478,
            TableTag::LocationIndex => 0x6C6F_6361,
            TableTag::MaxProfile => 0x6D61_7870,
            TableTag::Nameing => 0x6E61_6D65,
            TableTag::PostScriptInfo => 0x706F_7374,
            TableTag::WindowsOS2SpecificMetric => 0x4F53_2F32,
            TableTag::ControlValue => 0x6376_7420,
            TableTag::EmbeddedBitmapData => 0x4542_4454,
            TableTag::EmbeddedBitmapLocationData => 0x4542_4C43,
            TableTag::EmbeddedBitmapScalingData => 0x4542_5343,
            TableTag::FontProgram => 0x6670_676D,
            TableTag::GridFitAndScanConvertProc => 0x6761_7370,
            TableTag::HorizDevMetric => 0x6864_6D78,
            TableTag::Kerning => 0x6B65_726E,
            TableTag::LinearThreshold => 0x4C54_5348,
            TableTag::CVTProgram => 0x7072_6570,
            TableTag::PCL5 => 0x5043_4C54,
            TableTag::VertDevMetrics => 0x5644_4D58,
            TableTag::VertHeader => 0x7668_6561,
            TableTag::VertMetrics => 0x766D_7478,
        }
    }

    /// The tag that stands under `code`; `None` for a code without a name here.
    pub fn from_code(code: u32) -> (r: Option<TableTag>)
        ensures
            r == TableTag::spec_from_code(code),
    {
        if code == 0x636D_6170 {
            Some(TableTag::CharGlyphMapping)
        } else if code == 0x676C_7966 {
            Some(TableTag::GlyphData)
        } else if code == 0x6865_6164 {
            Some(TableTag::FontHeader)
        } else if code == 0x6868_6561 {
            Some(TableTag::HorizHeader)
        } else if code == 0x686D_7478 {
            Some(TableTag::HorizMetics)
        } else if code == 0x6C6F_6361 {
            Some(TableTag::LocationIndex)
        } else if code == 0x6D61_7870 {
            Some(TableTag::MaxProfile)
        } else if code == 0x6E61_6D65 {
            Some(TableTag::Nameing)
        } else if code == 0x706F_7374 {
            Some(TableTag::PostScriptInfo)
        } else if code == 0x4F53_2F32 {
            Some(TableTag::WindowsOS2SpecificMetric)
        } else if code == 0x6376_7420 {
            Some(TableTag::ControlValue)
        } else if code == 0x4542_4454 {
            Some(TableTag::EmbeddedBitmapData)
        } else if code == 0x4542_4C43 {
            Some(TableTag::EmbeddedBitmapLocationData)
        } else if code == 0x4542_5343 {
            Some(TableTag::EmbeddedBitmapScalingData)
        } else if code == 0x6670_676D {
            Some(TableTag::FontProgram)
        } else if code == 0x6761_7370 {
            Some(TableTag::GridFitAndScanConvertProc)
        } else if code == 0x6864_6D78 {
            Some(TableTag::HorizDevMetric)
        } else if code == 0x6B65_726E {
            Some(TableTag::Kerning)
        } else if code == 0x4C54_5348 {
            Some(TableTag::LinearThreshold)
        } else if code == 0x7072_6570 {
            Some(TableTag::CVTProgram)
        } else if code == 0x5043_4C54 {
            Some(TableTag::PCL5)
        } else if code == 0x5644_4D58 {
            Some(TableTag::VertDevMetrics)
        } else if code == 0x7668_6561 {
            Some(TableTag::VertHeader)
        } else if code == 0x766D_7478 {
            Some(TableTag::VertMetrics)
        } else {
            None
        }
    }
}

/// A tag is found again under its own code, and a code that names a tag is
/// that tag's code.
pub proof fn lemma_tag_code_round_trip(tag: TableTag, code: u32)
    ensures
        TableTag::spec_from_code(tag.spec_code()) == Some(tag),
        TableTag::spec_from_code(code) matches Some(t) ==> t.spec_code() == code,
{
}

/// What every decoded table can say of itself.
pub trait Table {
    /// The tag under which the table stands in the directory.
    fn tag(&self) -> TableTag;
}

} // verus!
