//! The font as a whole: the offset table and every table that is decoded.

use vstd::prelude::*;

use crate::truetype_loader::char_glyph_mapping_table::CharGlyphMappingTableView;
use crate::truetype_loader::directory::decoding_order;
use crate::truetype_loader::directory::order_for_decoding;
use crate::truetype_loader::directory::OffsetTableView;
use crate::truetype_loader::glyph_data_table::GlyphDescriptionView;
use crate::truetype_loader::indexed_tables::parse_bytes;
use crate::truetype_loader::indexed_tables::GASPTableView;
use crate::truetype_loader::indexed_tables::HorizDeviceMetricsTableView;
use crate::truetype_loader::binary_reader::BinaryReader;
use crate::truetype_loader::CharGlyphMappingTable;
use crate::truetype_loader::ControlValueProgram;
use crate::truetype_loader::ControlValueTable;
use crate::truetype_loader::Fixed;
use crate::truetype_loader::FontHeader;
use crate::truetype_loader::FontProgram;
use crate::truetype_loader::GASPTable;
use crate::truetype_loader::GlyphDataTable;
use crate::truetype_loader::HorizDeviceMetricsTable;
use crate::truetype_loader::HorizHeaderTable;
use crate::truetype_loader::HorizMetricsTable;
use crate::truetype_loader::LoadError;
use crate::truetype_loader::LocationTable;
use crate::truetype_loader::LongHorMetric;
use crate::truetype_loader::MaxProfileTable;
use crate::truetype_loader::OffsetTable;
use crate::truetype_loader::TableDirectoryEntry;
use crate::truetype_loader::TableTag;

verus! {

/// A loaded font. The directory is kept in the order in which its tables
/// were decoded.
#[derive(Clone, Debug)]
pub struct SfntFont {
    pub sfnt_version: Fixed,
    pub search_range: u16,
    pub entry_selector: u16,
    pub range_shift: u16,
    pub table_directory: Vec<TableDirectoryEntry>,
    pub cmap_table: Option<CharGlyphMappingTable>,
    pub cval_table: Option<ControlValueTable>,
    pub fprg_table: Option<FontProgram>,
    pub prep_table: Option<ControlValueProgram>,
    pub gasp_table: Option<GASPTable>,
    pub glyf_table: Option<GlyphDataTable>,
    pub loca_table: Option<LocationTable>,
    pub hdmx_table: Option<HorizDeviceMetricsTable>,
    pub head_table: Option<FontHeader>,
    pub hhea_table: Option<HorizHeaderTable>,
    pub hmtx_table: Option<HorizMetricsTable>,
    pub maxp_table: Option<MaxProfileTable>,
}

/// What an `SfntFont` holds.
pub struct SfntFontView {
    pub sfnt_version: Fixed,
    pub search_range: u16,
    pub entry_selector: u16,
    pub range_shift: u16,
    pub table_directory: Seq<TableDirectoryEntry>,
    pub cmap_table: Option<CharGlyphMappingTableView>,
    pub cval_table: Option<Seq<i16>>,
    pub fprg_table: Option<Seq<u8>>,
    pub prep_table: Option<Seq<u8>>,
    pub gasp_table: Option<GASPTableView>,
    pub glyf_table: Option<Seq<GlyphDescriptionView>>,
    pub loca_table: Option<Seq<u32>>,
    pub hdmx_table: Option<HorizDeviceMetricsTableView>,
    pub head_table: Option<FontHeader>,
    pub hhea_table: Option<HorizHeaderTable>,
    pub hmtx_table: Option<Seq<LongHorMetric>>,
    pub maxp_table: Option<MaxProfileTable>,
}

/// The view of a table that may be absent.
pub open spec fn view_of<T: View>(t: Option<T>) -> Option<T::V> {
    match t {
        Some(v) => Some(v@),
        None => None,
    }
}

impl View for SfntFont {
    type V = SfntFontView;

    open spec fn view(&self) -> SfntFontView {
        SfntFontView {
            sfnt_version: self.sfnt_version,
            search_range: self.search_range,
            entry_selector: self.entry_selector,
            range_shift: self.range_shift,
            table_directory: self.table_directory@,
            cmap_table: view_of(self.cmap_table),
            cval_table: view_of(self.cval_table),
            fprg_table: view_of(self.fprg_table),
            prep_table: view_of(self.prep_table),
            gasp_table: view_of(self.gasp_table),
            glyf_table: view_of(self.glyf_table),
            loca_table: view_of(self.loca_table),
            hdmx_table: view_of(self.hdmx_table),
            head_table: self.head_table,
            hhea_table: self.hhea_table,
            hmtx_table: view_of(self.hmtx_table),
            maxp_table: self.maxp_table,
        }
    }
}

/// The font of the offset table `ot` before any table is decoded.
pub open spec fn without_tables(ot: OffsetTableView) -> SfntFontView {
    SfntFontView {
        sfnt_version: ot.sfnt_version,
        search_range: ot.search_range,
        entry_selector: ot.entry_selector,
        range_shift: ot.range_shift,
        table_directory: decoding_order(ot.table_directory),
        cmap_table: None,
        cval_table: None,
        fprg_table: None,
        prep_table: None,
        gasp_table: None,
        glyf_table: None,
        loca_table: None,
        hdmx_table: None,
        head_table: None,
        hhea_table: None,
        hmtx_table: None,
        maxp_table: None,
    }
}

/// Whether the loader decodes the table with the tag `tag`.
pub open spec fn is_decoded(tag: Option<TableTag>) -> bool {
    match tag {
        Some(TableTag::CharGlyphMapping) => true,
        Some(TableTag::ControlValue) => true,
        Some(TableTag::FontProgram) => true,
        Some(TableTag::CVTProgram) => true,
        Some(TableTag::GridFitAndScanConvertProc) => true,
        Some(TableTag::GlyphData) => true,
        Some(TableTag::LocationIndex) => true,
        Some(TableTag::HorizDevMetric) => true,
        Some(TableTag::FontHeader) => true,
        Some(TableTag::HorizHeader) => true,
        Some(TableTag::HorizMetics) => true,
        Some(TableTag::MaxProfile) => true,
        _ => false,
    }
}

/// The font `font` after the table of the entry `e`, whose bytes are `b`,
/// has been decoded. A table that needs another which the font does not
/// hold yet is refused with the tag of the missing one.
pub open spec fn with_table(font: SfntFontView, tag: TableTag, e: TableDirectoryEntry, b: Seq<u8>) -> Result<
    SfntFontView,
    LoadError,
> {
    match tag {
        TableTag::CharGlyphMapping => match CharGlyphMappingTable::parse(b, 0, 0) {
            Ok(t) => Ok(SfntFontView { cmap_table: Some(t), ..font }),
            Err(err) => Err(err),
        },
        TableTag::ControlValue => match ControlValueTable::parse(b, 0, e.length) {
            Ok(t) => Ok(SfntFontView { cval_table: Some(t), ..font }),
            Err(err) => Err(err),
        },
        TableTag::FontProgram => match parse_bytes(b, 0, e.length) {
            Ok(t) => Ok(SfntFontView { fprg_table: Some(t), ..font }),
            Err(err) => Err(err),
        },
        TableTag::CVTProgram => match parse_bytes(b, 0, e.length) {
            Ok(t) => Ok(SfntFontView { prep_table: Some(t), ..font }),
            Err(err) => Err(err),
        },
        TableTag::GridFitAndScanConvertProc => match GASPTable::parse(b, 0) {
            Ok(t) => Ok(SfntFontView { gasp_table: Some(t), ..font }),
            Err(err) => Err(err),
        },
        TableTag::GlyphData => if font.maxp_table is None {
            Err(LoadError::MissingRequiredTable(TableTag::MaxProfile))
        } else if font.loca_table is None {
            Err(LoadError::MissingRequiredTable(TableTag::LocationIndex))
        } else {
            match GlyphDataTable::parse(b, 0, font.loca_table->Some_0) {
                Ok(t) => Ok(SfntFontView { glyf_table: Some(t), ..font }),
                Err(err) => Err(err),
            }
        },
        TableTag::LocationIndex => if font.maxp_table is None {
            Err(LoadError::MissingRequiredTable(TableTag::MaxProfile))
        } else if font.head_table is None {
            Err(LoadError::MissingRequiredTable(TableTag::FontHeader))
        } else {
            match LocationTable::parse(
                b,
                0,
                font.maxp_table->Some_0.num_glyphs,
                font.head_table->Some_0.index_to_locformat,
            ) {
                Ok(t) => Ok(SfntFontView { loca_table: Some(t), ..font }),
                Err(err) => Err(err),
            }
        },
        TableTag::HorizDevMetric => if font.maxp_table is None {
            Err(LoadError::MissingRequiredTable(TableTag::MaxProfile))
        } else {
            match HorizDeviceMetricsTable::parse(b, 0, font.maxp_table->Some_0.num_glyphs) {
                Ok(t) => Ok(SfntFontView { hdmx_table: Some(t), ..font }),
                Err(err) => Err(err),
            }
        },
        TableTag::FontHeader => match FontHeader::parse(b, 0) {
            Ok(t) => Ok(SfntFontView { head_table: Some(t), ..font }),
            Err(err) => Err(err),
        },
        TableTag::HorizHeader => match HorizHeaderTable::parse(b, 0) {
            Ok(t) => Ok(SfntFontView { hhea_table: Some(t), ..font }),
            Err(err) => Err(err),
        },
        TableTag::HorizMetics => if font.maxp_table is None {
            Err(LoadError::MissingRequiredTable(TableTag::MaxProfile))
        } else if font.hhea_table is None {
            Err(LoadError::MissingRequiredTable(TableTag::HorizHeader))
        } else {
            match HorizMetricsTable::parse(
                b,
                0,
                font.maxp_table->Some_0.num_glyphs,
                font.hhea_table->Some_0.number_of_h_metrics,
            ) {
                Ok(t) => Ok(SfntFontView { hmtx_table: Some(t), ..font }),
                Err(err) => Err(err),
            }
        },
        TableTag::MaxProfile => match MaxProfileTable::parse(b, 0) {
            Ok(t) => Ok(SfntFontView { maxp_table: Some(t), ..font }),
            Err(err) => Err(err),
        },
        _ => Ok(font),
    }
}

/// The font `font` after the directory entry `e` of the file `s` has been
/// handled. A table that the loader does not decode is passed over. One that
/// it decodes must lie inside the file and match its checksum.
#[verifier::opaque]
pub open spec fn after_entry(s: Seq<u8>, font: SfntFontView, e: TableDirectoryEntry) -> Result<
    SfntFontView,
    LoadError,
> {
    let tag = TableTag::spec_from_code(e.tag_code);
    if !is_decoded(tag) {
        Ok(font)
    } else if !e.intact(s) {
        Err(LoadError::MalformedData)
    } else {
        with_table(font, tag->Some_0, e, e.bytes(s))
    }
}

/// The font `font` after the first `n` entries of `entries` have been
/// handled one after the other; the first failure ends the load.
pub open spec fn after_entries(
    s: Seq<u8>,
    font: SfntFontView,
    entries: Seq<TableDirectoryEntry>,
    n: nat,
) -> Result<SfntFontView, LoadError>
    decreases n,
{
    if n == 0 {
        Ok(font)
    } else {
        match after_entries(s, font, entries, (n - 1) as nat) {
            Ok(f) => after_entry(s, f, entries[n - 1]),
            Err(e) => Err(e),
        }
    }
}

impl SfntFont {
    /// What loading the font whose offset table starts at `at` gives: the
    /// offset table is decoded, then every table of the directory in the
    /// order of decoding.
    pub open spec fn parse(s: Seq<u8>, at: int) -> Result<SfntFontView, LoadError> {
        match OffsetTable::parse(s, at) {
            Ok(ot) => after_entries(
                s,
                without_tables(ot),
                decoding_order(ot.table_directory),
                decoding_order(ot.table_directory).len(),
            ),
            Err(e) => Err(e),
        }
    }

    /// Decodes the table of one directory entry into the font.
    fn decode_entry(&mut self, data: &[u8], entry: &TableDirectoryEntry) -> (r: Result<
        (),
        LoadError,
    >)
        ensures
            match r {
                Ok(_) => after_entry(data@, old(self)@, *entry) == Ok::<SfntFontView, LoadError>(
                    final(self)@,
                ),
                Err(e) => after_entry(data@, old(self)@, *entry) == Err::<SfntFontView, LoadError>(
                    e,
                ),
            },
    {
        reveal(after_entry);
        let tag = match entry.tag() {
            Some(t) => t,
            None => { return Ok(()); },
        };
        match tag {
            TableTag::CharGlyphMapping
            | TableTag::ControlValue
            | TableTag::FontProgram
            | TableTag::CVTProgram
            | TableTag::GridFitAndScanConvertProc
            | TableTag::GlyphData
            | TableTag::LocationIndex
            | TableTag::HorizDevMetric
            | TableTag::FontHeader
            | TableTag::HorizHeader
            | TableTag::HorizMetics
            | TableTag::MaxProfile => {},
            _ => { return Ok(()); },
        }
        let bytes = entry.table_bytes(data)?;
        let mut reader = BinaryReader::new(bytes);
        match tag {
            TableTag::CharGlyphMapping => {
                let t = CharGlyphMappingTable::from_binary(&mut reader, 0)?;
                self.cmap_table = Some(t);
            },
            TableTag::ControlValue => {
                let t = ControlValueTable::from_binary(&mut reader, entry.length)?;
                self.cval_table = Some(t);
            },
            TableTag::FontProgram => {
                let t = FontProgram::from_binary(&mut reader, entry.length)?;
                self.fprg_table = Some(t);
            },
            TableTag::CVTProgram => {
                let t = ControlValueProgram::from_binary(&mut reader, entry.length)?;
                self.prep_table = Some(t);
            },
            TableTag::GridFitAndScanConvertProc => {
                let t = GASPTable::from_binary(&mut reader)?;
                self.gasp_table = Some(t);
            },
            TableTag::GlyphData => {
                let maxp = match self.maxp_table {
                    Some(m) => m,
                    None => { return Err(LoadError::MissingRequiredTable(TableTag::MaxProfile)); },
                };
                let t = match &self.loca_table {
                    Some(loca) => GlyphDataTable::from_binary(&mut reader, 0, maxp, loca)?,
                    None => {
                        return Err(LoadError::MissingRequiredTable(TableTag::LocationIndex));
                    },
                };
                self.glyf_table = Some(t);
            },
            TableTag::LocationIndex => {
                let maxp = match self.maxp_table {
                    Some(m) => m,
                    None => { return Err(LoadError::MissingRequiredTable(TableTag::MaxProfile)); },
                };
                let head = match self.head_table {
                    Some(h) => h,
                    None => { return Err(LoadError::MissingRequiredTable(TableTag::FontHeader)); },
                };
                let t = LocationTable::from_binary(
                    &mut reader,
                    maxp.num_glyphs,
                    head.index_to_locformat,
                )?;
                self.loca_table = Some(t);
            },
            TableTag::HorizDevMetric => {
                let maxp = match self.maxp_table {
                    Some(m) => m,
                    None => { return Err(LoadError::MissingRequiredTable(TableTag::MaxProfile)); },
                };
                let t = HorizDeviceMetricsTable::from_binary(&mut reader, maxp.num_glyphs)?;
                self.hdmx_table = Some(t);
            },
            TableTag::FontHeader => {
                let t = FontHeader::from_binary(&mut reader)?;
                self.head_table = Some(t);
            },
            TableTag::HorizHeader => {
                let t = HorizHeaderTable::from_binary(&mut reader)?;
                self.hhea_table = Some(t);
            },
            TableTag::HorizMetics => {
                let maxp = match self.maxp_table {
                    Some(m) => m,
                    None => { return Err(LoadError::MissingRequiredTable(TableTag::MaxProfile)); },
                };
                let hhea = match self.hhea_table {
                    Some(h) => h,
                    None => { return Err(LoadError::MissingRequiredTable(TableTag::HorizHeader)); },
                };
                let t = HorizMetricsTable::from_binary(
                    &mut reader,
                    maxp.num_glyphs,
                    hhea.number_of_h_metrics,
                )?;
                self.hmtx_table = Some(t);
            },
            TableTag::MaxProfile => {
                let t = MaxProfileTable::from_binary(&mut reader)?;
                self.maxp_table = Some(t);
            },
            _ => {},
        }
        Ok(())
    }

    /// Loads the font whose offset table starts at the cursor. Offsets in
    /// the directory count from the start of the reader's data.
    pub fn from_binary(reader: &mut BinaryReader) -> (r: Result<SfntFont, LoadError>)
        ensures
            final(reader).data == old(reader).data,
            match r {
                Ok(font) => SfntFont::parse(old(reader).data@, old(reader).pos as int) == Ok::<
                    SfntFontView,
                    LoadError,
                >(font@),
                Err(e) => SfntFont::parse(old(reader).data@, old(reader).pos as int) == Err::<
                    SfntFontView,
                    LoadError,
                >(e),
            },
    {
        let ot = OffsetTable::from_binary(reader)?;
        let order = order_for_decoding(&ot.table_directory);
        let mut font = SfntFont {
            sfnt_version: ot.sfnt_version,
            search_range: ot.search_range,
            entry_selector: ot.entry_selector,
            range_shift: ot.range_shift,
            table_directory: order.clone(),
            cmap_table: None,
            cval_table: None,
            fprg_table: None,
            prep_table: None,
            gasp_table: None,
            glyf_table: None,
            loca_table: None,
            hdmx_table: None,
            head_table: None,
            hhea_table: None,
            hmtx_table: None,
            maxp_table: None,
        };
        let ghost s = reader.data@;
        let ghost start = without_tables(ot@);
        assert(font.table_directory@ =~= order@);
        assert(font@ == start);
        let data = reader.data;
        let mut i: usize = 0;
        while i < order.len()
            invariant
                data@ == s,
                s == old(reader).data@,
                reader.data == old(reader).data,
                OffsetTable::parse(s, old(reader).pos as int) == Ok::<OffsetTableView, LoadError>(
                    ot@,
                ),
                order@ == decoding_order(ot@.table_directory),
                start == without_tables(ot@),
                i <= order@.len(),
                after_entries(s, start, order@, i as nat) == Ok::<SfntFontView, LoadError>(font@),
            decreases order.len() - i,
        {
            match font.decode_entry(data, &order[i]) {
                Ok(_) => {},
                Err(e) => {
                    proof {
                        lemma_first_failure(s, start, order@, (i + 1) as nat, order@.len());
                    }
                    return Err(e);
                },
            }
            i = i + 1;
        }
        Ok(font)
    }
}

/// Once an entry has failed, the load has failed: handling more entries
/// gives the same error.
pub proof fn lemma_first_failure(
    s: Seq<u8>,
    font: SfntFontView,
    entries: Seq<TableDirectoryEntry>,
    n: nat,
    m: nat,
)
    requires
        n <= m,
        after_entries(s, font, entries, n) is Err,
    ensures
        after_entries(s, font, entries, m) == after_entries(s, font, entries, n),
    decreases m - n,
{
    if n < m {
        lemma_first_failure(s, font, entries, n, (m - 1) as nat);
    }
}

} // verus!
