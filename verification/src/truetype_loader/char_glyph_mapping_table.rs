//! The `cmap` table: the encodings that lead from character codes to glyphs.

use vstd::prelude::*;

use crate::truetype_loader::binary_reader::be_i16;
use crate::truetype_loader::binary_reader::be_u16;
use crate::truetype_loader::binary_reader::be_u16_array;
use crate::truetype_loader::binary_reader::be_u32;
use crate::truetype_loader::binary_reader::BinaryReader;
use crate::truetype_loader::LoadError;
use crate::truetype_loader::Table;
use crate::truetype_loader::TableTag;

verus! {

/// One subheader of a high-byte mapping.
#[derive(Clone, Copy, Debug, PartialEq, Eq, Structural)]
pub struct HighByteMappingSubheader {
    pub first_code: u16,
    pub entry_count: u16,
    pub id_delta: i16,
    pub id_range_offset: u16,
}

/// The body of an encoding subtable, by format.
#[derive(Clone, Debug)]
pub enum CharGlyphMappingEncodingTableFormat {
    /// Format 0: one glyph index for each of the 256 byte values.
    ByteEncoding { glyph_ids: Vec<u8> },
    /// Format 2: mixed 8- and 16-bit codes, led by the high byte.
    HighByteMapping {
        subheader_keys: Vec<u16>,
        subheaders: Vec<HighByteMappingSubheader>,
        glyph_indices: Vec<u16>,
    },
    /// Format 4: segments of the basic multilingual plane.
    SegmentMapToDelta {
        seg_countx2: u16,
        search_range: u16,
        entry_selector: u16,
        range_shift: u16,
        end_count: Vec<u16>,
        reserved_pad: u16,
        start_count: Vec<u16>,
        id_delta: Vec<u16>,
        id_range_offset: Vec<u16>,
        glyph_indices: Vec<u16>,
    },
    /// Format 6: one dense range of codes.
    Trimmed { first_code: u16, entry_count: u16, glyph_indices: Vec<u16> },
}

/// What a `CharGlyphMappingEncodingTableFormat` holds.
pub enum EncodingFormatView {
    ByteEncoding { glyph_ids: Seq<u8> },
    HighByteMapping {
        subheader_keys: Seq<u16>,
        subheaders: Seq<HighByteMappingSubheader>,
        glyph_indices: Seq<u16>,
    },
    SegmentMapToDelta {
        seg_countx2: u16,
        search_range: u16,
        entry_selector: u16,
        range_shift: u16,
        end_count: Seq<u16>,
        reserved_pad: u16,
        start_count: Seq<u16>,
        id_delta: Seq<u16>,
        id_range_offset: Seq<u16>,
        glyph_indices: Seq<u16>,
    },
    Trimmed { first_code: u16, entry_count: u16, glyph_indices: Seq<u16> },
}

impl View for CharGlyphMappingEncodingTableFormat {
    type V = EncodingFormatView;

    open spec fn view(&self) -> EncodingFormatView {
        match self {
            CharGlyphMappingEncodingTableFormat::ByteEncoding { glyph_ids } => {
                EncodingFormatView::ByteEncoding { glyph_ids: glyph_ids@ }
            },
            CharGlyphMappingEncodingTableFormat::HighByteMapping {
                subheader_keys,
                subheaders,
                glyph_indices,
            } => EncodingFormatView::HighByteMapping {
                subheader_keys: subheader_keys@,
                subheaders: subheaders@,
                glyph_indices: glyph_indices@,
            },
            CharGlyphMappingEncodingTableFormat::SegmentMapToDelta {
                seg_countx2,
                search_range,
                entry_selector,
                range_shift,
                end_count,
                reserved_pad,
                start_count,
                id_delta,
                id_range_offset,
                glyph_indices,
            } => EncodingFormatView::SegmentMapToDelta {
                seg_countx2: *seg_countx2,
                search_range: *search_range,
                entry_selector: *entry_selector,
                range_shift: *range_shift,
                end_count: end_count@,
                reserved_pad: *reserved_pad,
                start_count: start_count@,
                id_delta: id_delta@,
                id_range_offset: id_range_offset@,
                glyph_indices: glyph_indices@,
            },
            CharGlyphMappingEncodingTableFormat::Trimmed {
                first_code,
                entry_count,
                glyph_indices,
            } => EncodingFormatView::Trimmed {
                first_code: *first_code,
                entry_count: *entry_count,
                glyph_indices: glyph_indices@,
            },
        }
    }
}

/// One encoding of the `cmap` table: the platform it is for, and its subtable.
#[derive(Clone, Debug)]
pub struct CharGlyphMappingEncodingTable {
    pub platform_id: u16,
    pub platform_encoding_id: u16,
    pub version: u16,
    pub subtable: CharGlyphMappingEncodingTableFormat,
}

/// What a `CharGlyphMappingEncodingTable` holds.
pub struct EncodingTableView {
    pub platform_id: u16,
    pub platform_encoding_id: u16,
    pub version: u16,
    pub subtable: EncodingFormatView,
}

impl View for CharGlyphMappingEncodingTable {
    type V = EncodingTableView;

    open spec fn view(&self) -> EncodingTableView {
        EncodingTableView {
            platform_id: self.platform_id,
            platform_encoding_id: self.platform_encoding_id,
            version: self.version,
            subtable: self.subtable@,
        }
    }
}

/// The `cmap` table: all its encodings, in the order of the file.
#[derive(Clone, Debug)]
pub struct CharGlyphMappingTable {
    pub table_version: u16,
    pub encoding_tables: Vec<CharGlyphMappingEncodingTable>,
}

/// What a `CharGlyphMappingTable` holds.
pub struct CharGlyphMappingTableView {
    pub table_version: u16,
    pub encoding_tables: Seq<EncodingTableView>,
}

impl View for CharGlyphMappingTable {
    type V = CharGlyphMappingTableView;

    open spec fn view(&self) -> CharGlyphMappingTableView {
        CharGlyphMappingTableView {
            table_version: self.table_version,
            encoding_tables: self.encoding_tables@.map_values(
                |t: CharGlyphMappingEncodingTable| t@,
            ),
        }
    }
}

/// The greatest of the first `n` numbers of `keys`; zero where there is none.
pub open spec fn max_key(keys: Seq<u16>, n: nat) -> int
    decreases n,
{
    if n == 0 {
        0
    } else if keys[n - 1] > max_key(keys, (n - 1) as nat) {
        keys[n - 1] as int
    } else {
        max_key(keys, (n - 1) as nat)
    }
}

/// Subheader number `j` of the high-byte mapping at `sub`.
pub open spec fn subheader(s: Seq<u8>, sub: int, j: int) -> HighByteMappingSubheader {
    HighByteMappingSubheader {
        first_code: be_u16(s, sub + 518 + 8 * j),
        entry_count: be_u16(s, sub + 520 + 8 * j),
        id_delta: be_i16(s, sub + 522 + 8 * j),
        id_range_offset: be_u16(s, sub + 524 + 8 * j),
    }
}

/// The body of a format 0 subtable that starts at `sub`: 256 bytes after the
/// six bytes of the header.
pub open spec fn byte_encoding(s: Seq<u8>, sub: int) -> Result<EncodingFormatView, LoadError> {
    if sub + 262 <= s.len() {
        Ok(EncodingFormatView::ByteEncoding { glyph_ids: s.subrange(sub + 6, sub + 262) })
    } else {
        Err(LoadError::MalformedData)
    }
}

/// The number of subheaders of the high-byte mapping at `sub`: each key is
/// eight times the index of a subheader.
pub open spec fn subheader_count(s: Seq<u8>, sub: int) -> int {
    max_key(be_u16_array(s, sub + 6, 256), 256) / 8 + 1
}

/// The body of a format 2 subtable that starts at `sub`: 256 keys, the
/// subheaders that the keys point to, and glyph indices up to the length
/// that the header gives.
pub open spec fn high_byte_mapping(s: Seq<u8>, sub: int) -> Result<EncodingFormatView, LoadError> {
    let length = be_u16(s, sub + 2) as int;
    let n = subheader_count(s, sub);
    let count = (length - 518 - 8 * n) / 2;
    if sub + 518 + 8 * n <= s.len() && length >= 518 + 8 * n && sub + 518 + 8 * n + 2 * count
        <= s.len() {
        Ok(
            EncodingFormatView::HighByteMapping {
                subheader_keys: be_u16_array(s, sub + 6, 256),
                subheaders: Seq::new(n as nat, |j: int| subheader(s, sub, j)),
                glyph_indices: be_u16_array(s, sub + 518 + 8 * n, count as nat),
            },
        )
    } else {
        Err(LoadError::MalformedData)
    }
}

/// The body of a format 4 subtable that starts at `sub`: four parallel
/// arrays of one entry per segment, and glyph indices up to the length that
/// the header gives. The padding word between the first two arrays is not
/// kept.
pub open spec fn segment_map(s: Seq<u8>, sub: int) -> Result<EncodingFormatView, LoadError> {
    let length = be_u16(s, sub + 2) as int;
    let seg = be_u16(s, sub + 6) as int / 2;
    let count = (length - 16 - 8 * seg) / 2;
    if sub + 16 + 8 * seg <= s.len() && length >= 16 + 8 * seg && sub + 16 + 8 * seg + 2 * count
        <= s.len() {
        Ok(
            EncodingFormatView::SegmentMapToDelta {
                seg_countx2: be_u16(s, sub + 6),
                search_range: be_u16(s, sub + 8),
                entry_selector: be_u16(s, sub + 10),
                range_shift: be_u16(s, sub + 12),
                end_count: be_u16_array(s, sub + 14, seg as nat),
                reserved_pad: 0,
                start_count: be_u16_array(s, sub + 16 + 2 * seg, seg as nat),
                id_delta: be_u16_array(s, sub + 16 + 4 * seg, seg as nat),
                id_range_offset: be_u16_array(s, sub + 16 + 6 * seg, seg as nat),
                glyph_indices: be_u16_array(s, sub + 16 + 8 * seg, count as nat),
            },
        )
    } else {
        Err(LoadError::MalformedData)
    }
}

/// The body of a format 6 subtable that starts at `sub`.
pub open spec fn trimmed(s: Seq<u8>, sub: int) -> Result<EncodingFormatView, LoadError> {
    if sub + 10 <= s.len() && sub + 10 + 2 * be_u16(s, sub + 8) <= s.len() {
        Ok(
            EncodingFormatView::Trimmed {
                first_code: be_u16(s, sub + 6),
                entry_count: be_u16(s, sub + 8),
                glyph_indices: be_u16_array(s, sub + 10, be_u16(s, sub + 8) as nat),
            },
        )
    } else {
        Err(LoadError::MalformedData)
    }
}

/// The body of the subtable that starts at `sub`, by the format number in its
/// header. A format other than 0, 2, 4 and 6 is refused.
pub open spec fn subtable_body(s: Seq<u8>, sub: int) -> Result<EncodingFormatView, LoadError> {
    let format = be_u16(s, sub);
    if format == 0 {
        byte_encoding(s, sub)
    } else if format == 2 {
        high_byte_mapping(s, sub)
    } else if format == 4 {
        segment_map(s, sub)
    } else if format == 6 {
        trimmed(s, sub)
    } else {
        Err(LoadError::MalformedData)
    }
}

/// Encoding number `i` of the table that starts at `table_offset`: the record
/// in the table's header, and the subtable that the record points to.
pub open spec fn encoding(s: Seq<u8>, table_offset: int, i: int) -> Result<
    EncodingTableView,
    LoadError,
> {
    let rec = table_offset + 4 + 8 * i;
    let sub = table_offset + be_u32(s, rec + 4);
    if rec + 8 <= s.len() && sub + 6 <= s.len() {
        match subtable_body(s, sub) {
            Ok(body) => Ok(
                EncodingTableView {
                    platform_id: be_u16(s, rec),
                    platform_encoding_id: be_u16(s, rec + 2),
                    version: be_u16(s, sub + 4),
                    subtable: body,
                },
            ),
            Err(e) => Err(e),
        }
    } else {
        Err(LoadError::MalformedData)
    }
}

/// An encoding that cannot be decoded is refused as malformed.
pub proof fn lemma_encoding_error(s: Seq<u8>, table_offset: int, i: int)
    ensures
        encoding(s, table_offset, i) matches Err(e) ==> e == LoadError::MalformedData,
{
}

fn highest_key(keys: &Vec<u16>) -> (m: u16)
    ensures
        m == max_key(keys@, keys@.len()),
{
    let mut m: u16 = 0;
    let mut i: usize = 0;
    while i < keys.len()
        invariant
            i <= keys.len(),
            m == max_key(keys@, i as nat),
        decreases keys.len() - i,
    {
        if keys[i] > m {
            m = keys[i];
        }
        i = i + 1;
    }
    m
}

fn read_subheaders(reader: &mut BinaryReader, n: usize) -> (r: Result<
    Vec<HighByteMappingSubheader>,
    LoadError,
>)
    requires
        old(reader).pos >= 518,
    ensures
        final(reader).data == old(reader).data,
        old(reader).has(8 * n) ==> r is Ok && r->Ok_0@ == Seq::new(
            n as nat,
            |j: int| subheader(old(reader).data@, old(reader).pos - 518, j),
        ) && final(reader).pos == old(reader).pos + 8 * n,
        !old(reader).has(8 * n) ==> r == Err::<Vec<HighByteMappingSubheader>, LoadError>(
            LoadError::MalformedData,
        ),
{
    let len = reader.data.len();
    if reader.pos > len || (len - reader.pos) / 8 < n {
        return Err(LoadError::MalformedData);
    }
    let ghost start = reader.pos as int;
    let ghost s = reader.data@;
    let mut out: Vec<HighByteMappingSubheader> = Vec::new();
    let mut i: usize = 0;
    while i < n
        invariant
            reader.data@ == s,
            reader.data == old(reader).data,
            s.len() == len,
            i <= n,
            start + 8 * n <= len,
            reader.pos == start + 8 * i,
            out@.len() == i,
            forall|j: int| 0 <= j < i ==> out@[j] == subheader(s, start - 518, j),
        decreases n - i,
    {
        let first_code = reader.read_u16()?;
        let entry_count = reader.read_u16()?;
        let id_delta = reader.read_i16()?;
        let id_range_offset = reader.read_u16()?;
        out.push(HighByteMappingSubheader { first_code, entry_count, id_delta, id_range_offset });
        i = i + 1;
    }
    assert(out@ =~= Seq::new(n as nat, |j: int| subheader(s, start - 518, j)));
    Ok(out)
}

/// Decodes the body of a subtable whose six header bytes have been read.
fn read_subtable_body(reader: &mut BinaryReader, format: u16, length: u16) -> (r: Result<
    CharGlyphMappingEncodingTableFormat,
    LoadError,
>)
    requires
        old(reader).pos >= 6,
        old(reader).pos <= old(reader).data@.len(),
        format == be_u16(old(reader).data@, old(reader).pos - 6),
        length == be_u16(old(reader).data@, old(reader).pos - 4),
    ensures
        final(reader).data == old(reader).data,
        match r {
            Ok(t) => subtable_body(old(reader).data@, old(reader).pos - 6) == Ok::<
                EncodingFormatView,
                LoadError,
            >(t@),
            Err(e) => subtable_body(old(reader).data@, old(reader).pos - 6) == Err::<
                EncodingFormatView,
                LoadError,
            >(e),
        },
{
    let ghost s = reader.data@;
    let ghost sub = reader.pos - 6;
    if format == 0 {
        let glyph_ids = reader.read_bytes(256)?;
        Ok(CharGlyphMappingEncodingTableFormat::ByteEncoding { glyph_ids })
    } else if format == 2 {
        let subheader_keys = reader.read_u16_array(256)?;
        let n: usize = (highest_key(&subheader_keys) / 8) as usize + 1;
        let subheaders = read_subheaders(reader, n)?;
        let total: usize = 518 + 8 * n;
        if (length as usize) < total {
            return Err(LoadError::MalformedData);
        }
        let count: usize = (length as usize - total) / 2;
        let glyph_indices = reader.read_u16_array(count)?;
        Ok(
            CharGlyphMappingEncodingTableFormat::HighByteMapping {
                subheader_keys,
                subheaders,
                glyph_indices,
            },
        )
    } else if format == 4 {
        let seg_countx2 = reader.read_u16()?;
        let search_range = reader.read_u16()?;
        let entry_selector = reader.read_u16()?;
        let range_shift = reader.read_u16()?;
        let seg: usize = (seg_countx2 / 2) as usize;
        let end_count = reader.read_u16_array(seg)?;
        let _ = reader.read_u16()?;
        let start_count = reader.read_u16_array(seg)?;
        let id_delta = reader.read_u16_array(seg)?;
        let id_range_offset = reader.read_u16_array(seg)?;
        let total: usize = 16 + 8 * seg;
        if (length as usize) < total {
            return Err(LoadError::MalformedData);
        }
        let count: usize = (length as usize - total) / 2;
        let glyph_indices = reader.read_u16_array(count)?;
        Ok(
            CharGlyphMappingEncodingTableFormat::SegmentMapToDelta {
                seg_countx2,
                search_range,
                entry_selector,
                range_shift,
                end_count,
                reserved_pad: 0,
                start_count,
                id_delta,
                id_range_offset,
                glyph_indices,
            },
        )
    } else if format == 6 {
        let first_code = reader.read_u16()?;
        let entry_count = reader.read_u16()?;
        let glyph_indices = reader.read_u16_array(entry_count as usize)?;
        Ok(CharGlyphMappingEncodingTableFormat::Trimmed { first_code, entry_count, glyph_indices })
    } else {
        Err(LoadError::MalformedData)
    }
}

/// Decodes encoding number `i` of the table that starts at `table_offset`.
fn read_encoding(reader: &mut BinaryReader, table_offset: usize, i: u16) -> (r: Result<
    CharGlyphMappingEncodingTable,
    LoadError,
>)
    ensures
        final(reader).data == old(reader).data,
        match r {
            Ok(t) => encoding(old(reader).data@, table_offset as int, i as int) == Ok::<
                EncodingTableView,
                LoadError,
            >(t@),
            Err(e) => encoding(old(reader).data@, table_offset as int, i as int) == Err::<
                EncodingTableView,
                LoadError,
            >(e),
        },
{
    let len = reader.data.len();
    let rec: usize = match table_offset.checked_add(4 + 8 * (i as usize)) {
        Some(v) => v,
        None => { return Err(LoadError::MalformedData); },
    };
    reader.seek(rec)?;
    let platform_id = reader.read_u16()?;
    let platform_encoding_id = reader.read_u16()?;
    let offset = reader.read_u32()?;
    let sub: usize = match table_offset.checked_add(offset as usize) {
        Some(v) => v,
        None => { return Err(LoadError::MalformedData); },
    };
    reader.seek(sub)?;
    let format = reader.read_u16()?;
    let length = reader.read_u16()?;
    let version = reader.read_u16()?;
    let subtable = read_subtable_body(reader, format, length)?;
    Ok(CharGlyphMappingEncodingTable { platform_id, platform_encoding_id, version, subtable })
}

impl CharGlyphMappingTable {
    /// What decoding a `cmap` table gives whose header is read at `at` and
    /// whose offsets count from `table_offset`: all its encodings, or
    /// `MalformedData` where the header or one of the encodings cannot be
    /// decoded.
    pub open spec fn parse(s: Seq<u8>, at: int, table_offset: int) -> Result<
        CharGlyphMappingTableView,
        LoadError,
    > {
        if at + 4 <= s.len() && (forall|i: int|
            0 <= i < be_u16(s, at + 2) ==> (#[trigger] encoding(s, table_offset, i)) is Ok) {
            Ok(
                CharGlyphMappingTableView {
                    table_version: be_u16(s, at),
                    encoding_tables: Seq::new(
                        be_u16(s, at + 2) as nat,
                        |i: int| encoding(s, table_offset, i)->Ok_0,
                    ),
                },
            )
        } else {
            Err(LoadError::MalformedData)
        }
    }

    pub fn from_binary(reader: &mut BinaryReader, table_offset: usize) -> (r: Result<
        CharGlyphMappingTable,
        LoadError,
    >)
        ensures
            final(reader).data == old(reader).data,
            match r {
                Ok(t) => CharGlyphMappingTable::parse(
                    old(reader).data@,
                    old(reader).pos as int,
                    table_offset as int,
                ) == Ok::<CharGlyphMappingTableView, LoadError>(t@),
                Err(e) => CharGlyphMappingTable::parse(
                    old(reader).data@,
                    old(reader).pos as int,
                    table_offset as int,
                ) == Err::<CharGlyphMappingTableView, LoadError>(e),
            },
    {
        let ghost s = reader.data@;
        let table_version = reader.read_u16()?;
        let num_encoding_tables = reader.read_u16()?;
        let mut encoding_tables: Vec<CharGlyphMappingEncodingTable> = Vec::new();
        let mut i: u16 = 0;
        while i < num_encoding_tables
            invariant
                reader.data@ == s,
                reader.data == old(reader).data,
                s == old(reader).data@,
                old(reader).pos + 4 <= s.len(),
                num_encoding_tables == be_u16(s, old(reader).pos + 2),
                i <= num_encoding_tables,
                encoding_tables@.len() == i,
                forall|j: int|
                    0 <= j < i ==> encoding(s, table_offset as int, j) == Ok::<
                        EncodingTableView,
                        LoadError,
                    >((#[trigger] encoding_tables@[j])@),
            decreases num_encoding_tables - i,
        {
            match read_encoding(reader, table_offset, i) {
                Ok(t) => {
                    encoding_tables.push(t);
                },
                Err(e) => {
                    proof {
                        lemma_encoding_error(s, table_offset as int, i as int);
                        assert(!(encoding(s, table_offset as int, i as int) is Ok));
                    }
                    return Err(e);
                },
            }
            i = i + 1;
        }
        assert(encoding_tables@.map_values(|t: CharGlyphMappingEncodingTable| t@) =~= Seq::new(
            num_encoding_tables as nat,
            |i: int| encoding(s, table_offset as int, i)->Ok_0,
        ));
        assert forall|j: int| 0 <= j < num_encoding_tables implies (#[trigger] encoding(
            s,
            table_offset as int,
            j,
        )) is Ok by {
            assert(encoding(s, table_offset as int, j) == Ok::<EncodingTableView, LoadError>(
                encoding_tables@[j]@,
            ));
        }
        Ok(CharGlyphMappingTable { table_version, encoding_tables })
    }
}

impl Table for CharGlyphMappingTable {
    fn tag(&self) -> (t: TableTag)
        ensures
            t == TableTag::CharGlyphMapping,
    {
        TableTag::CharGlyphMapping
    }
}

} // verus!
