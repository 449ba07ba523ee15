//! Tables that are arrays of records: `loca`, `cvt `, `fpgm`, `prep`, `gasp`,
//! `hdmx` and `hmtx`.

use vstd::prelude::*;

use crate::truetype_loader::binary_reader::be_i16;
use crate::truetype_loader::binary_reader::be_i32;
use crate::truetype_loader::binary_reader::be_u16;
use crate::truetype_loader::binary_reader::be_u32;
use crate::truetype_loader::binary_reader::be_u8;
use crate::truetype_loader::binary_reader::BinaryReader;
use crate::truetype_loader::LoadError;
use crate::truetype_loader::Table;
use crate::truetype_loader::TableTag;

verus! {

/// The `loca` table: for each glyph the offset of its description in the
/// glyph data, and one more offset that ends the last glyph.
#[derive(Clone, Debug)]
pub struct LocationTable {
    pub offsets: Vec<u32>,
}

impl View for LocationTable {
    type V = Seq<u32>;

    open spec fn view(&self) -> Seq<u32> {
        self.offsets@
    }
}

impl LocationTable {
    /// The width in bytes of one stored offset.
    pub open spec fn entry_width(format: i16) -> int {
        if format == 1 {
            4
        } else {
            2
        }
    }

    /// Offset number `i`. The long format stores it as it is, the short
    /// format stores half of it.
    pub open spec fn entry(s: Seq<u8>, at: int, format: i16, i: int) -> u32 {
        if format == 1 {
            be_u32(s, at + 4 * i)
        } else {
            (be_u16(s, at + 2 * i) as int * 2) as u32
        }
    }

    /// What decoding a `loca` table at `at` gives for a font of `num_glyphs`
    /// glyphs: `num_glyphs + 1` offsets.
    pub open spec fn parse(s: Seq<u8>, at: int, num_glyphs: u16, format: i16) -> Result<
        Seq<u32>,
        LoadError,
    > {
        if at + LocationTable::entry_width(format) * (num_glyphs + 1) <= s.len() {
            Ok(Seq::new((num_glyphs + 1) as nat, |i: int| LocationTable::entry(s, at, format, i)))
        } else {
            Err(LoadError::MalformedData)
        }
    }

    pub fn from_binary(reader: &mut BinaryReader, num_glyphs: u16, format: i16) -> (r: Result<
        LocationTable,
        LoadError,
    >)
        ensures
            final(reader).data == old(reader).data,
            match r {
                Ok(t) => LocationTable::parse(
                    old(reader).data@,
                    old(reader).pos as int,
                    num_glyphs,
                    format,
                ) == Ok::<Seq<u32>, LoadError>(t@),
                Err(e) => LocationTable::parse(
                    old(reader).data@,
                    old(reader).pos as int,
                    num_glyphs,
                    format,
                ) == Err::<Seq<u32>, LoadError>(e),
            },
    {
        let n: usize = num_glyphs as usize + 1;
        let width: usize = if format == 1 { 4 } else { 2 };
        let len = reader.data.len();
        if reader.pos > len || len - reader.pos < width * n {
            return Err(LoadError::MalformedData);
        }
        let ghost start = reader.pos as int;
        let ghost s = reader.data@;
        let mut offsets: Vec<u32> = Vec::new();
        let mut i: usize = 0;
        while i < n
            invariant
                reader.data@ == s,
                reader.data == old(reader).data,
                s.len() == len,
                i <= n,
                n == num_glyphs + 1,
                width == LocationTable::entry_width(format),
                start + width * n <= len,
                reader.pos == start + width * i,
                offsets@.len() == i,
                forall|j: int| 0 <= j < i ==> offsets@[j] == LocationTable::entry(s, start, format, j),
            decreases n - i,
        {
            let v: u32 = if format == 1 {
                reader.read_u32()?
            } else {
                let half = reader.read_u16()?;
                half as u32 * 2
            };
            offsets.push(v);
            i = i + 1;
        }
        assert(offsets@ =~= Seq::new(
            (num_glyphs + 1) as nat,
            |i: int| LocationTable::entry(s, start, format, i),
        ));
        Ok(LocationTable { offsets })
    }
}

impl Table for LocationTable {
    fn tag(&self) -> (t: TableTag)
        ensures
            t == TableTag::LocationIndex,
    {
        TableTag::LocationIndex
    }
}

/// The `cvt ` table: control values in font units.
#[derive(Clone, Debug)]
pub struct ControlValueTable(pub Vec<i16>);

impl View for ControlValueTable {
    type V = Seq<i16>;

    open spec fn view(&self) -> Seq<i16> {
        self.0@
    }
}

impl ControlValueTable {
    /// What decoding a `cvt ` table of `length` bytes at `at` gives: one value
    /// for every two bytes; an odd last byte is not read.
    pub open spec fn parse(s: Seq<u8>, at: int, length: u32) -> Result<Seq<i16>, LoadError> {
        if at + 2 * (length / 2) <= s.len() {
            Ok(Seq::new((length / 2) as nat, |i: int| be_i16(s, at + 2 * i)))
        } else {
            Err(LoadError::MalformedData)
        }
    }

    pub fn from_binary(reader: &mut BinaryReader, length: u32) -> (r: Result<
        ControlValueTable,
        LoadError,
    >)
        ensures
            final(reader).data == old(reader).data,
            match r {
                Ok(t) => ControlValueTable::parse(old(reader).data@, old(reader).pos as int, length)
                    == Ok::<Seq<i16>, LoadError>(t@),
                Err(e) => ControlValueTable::parse(
                    old(reader).data@,
                    old(reader).pos as int,
                    length,
                ) == Err::<Seq<i16>, LoadError>(e),
            },
    {
        let n: usize = (length / 2) as usize;
        let len = reader.data.len();
        if reader.pos > len || (len - reader.pos) / 2 < n {
            return Err(LoadError::MalformedData);
        }
        let ghost start = reader.pos as int;
        let ghost s = reader.data@;
        let mut values: Vec<i16> = Vec::new();
        let mut i: usize = 0;
        while i < n
            invariant
                reader.data@ == s,
                reader.data == old(reader).data,
                s.len() == len,
                i <= n,
                start + 2 * n <= len,
                reader.pos == start + 2 * i,
                values@.len() == i,
                forall|j: int| 0 <= j < i ==> values@[j] == be_i16(s, start + 2 * j),
            decreases n - i,
        {
            let v = reader.read_i16()?;
            values.push(v);
            i = i + 1;
        }
        assert(values@ =~= Seq::new((length / 2) as nat, |i: int| be_i16(s, start + 2 * i)));
        Ok(ControlValueTable(values))
    }
}

impl Table for ControlValueTable {
    fn tag(&self) -> (t: TableTag)
        ensures
            t == TableTag::ControlValue,
    {
        TableTag::ControlValue
    }
}

/// What copying `length` bytes at `at` gives.
pub open spec fn parse_bytes(s: Seq<u8>, at: int, length: u32) -> Result<Seq<u8>, LoadError> {
    if at + length <= s.len() {
        Ok(s.subrange(at, at + length))
    } else {
        Err(LoadError::MalformedData)
    }
}

/// The `fpgm` table: the program that is run once when the font is loaded.
#[derive(Clone, Debug)]
pub struct FontProgram(pub Vec<u8>);

impl View for FontProgram {
    type V = Seq<u8>;

    open spec fn view(&self) -> Seq<u8> {
        self.0@
    }
}

impl FontProgram {
    pub fn from_binary(reader: &mut BinaryReader, length: u32) -> (r: Result<FontProgram, LoadError>)
        ensures
            final(reader).data == old(reader).data,
            match r {
                Ok(t) => parse_bytes(old(reader).data@, old(reader).pos as int, length) == Ok::<
                    Seq<u8>,
                    LoadError,
                >(t@),
                Err(e) => parse_bytes(old(reader).data@, old(reader).pos as int, length) == Err::<
                    Seq<u8>,
                    LoadError,
                >(e),
            },
    {
        let code = reader.read_bytes(length as usize)?;
        Ok(FontProgram(code))
    }
}

impl Table for FontProgram {
    fn tag(&self) -> (t: TableTag)
        ensures
            t == TableTag::FontProgram,
    {
        TableTag::FontProgram
    }
}

/// The `prep` table: the program that is run whenever the size changes.
#[derive(Clone, Debug)]
pub struct ControlValueProgram(pub Vec<u8>);

impl View for ControlValueProgram {
    type V = Seq<u8>;

    open spec fn view(&self) -> Seq<u8> {
        self.0@
    }
}

impl ControlValueProgram {
    pub fn from_binary(reader: &mut BinaryReader, length: u32) -> (r: Result<
        ControlValueProgram,
        LoadError,
    >)
        ensures
            final(reader).data == old(reader).data,
            match r {
                Ok(t) => parse_bytes(old(reader).data@, old(reader).pos as int, length) == Ok::<
                    Seq<u8>,
                    LoadError,
                >(t@),
                Err(e) => parse_bytes(old(reader).data@, old(reader).pos as int, length) == Err::<
                    Seq<u8>,
                    LoadError,
                >(e),
            },
    {
        let code = reader.read_bytes(length as usize)?;
        Ok(ControlValueProgram(code))
    }
}

impl Table for ControlValueProgram {
    fn tag(&self) -> (t: TableTag)
        ensures
            t == TableTag::CVTProgram,
    {
        TableTag::CVTProgram
    }
}

/// One line of the `gasp` table: up to `range_max_ppem` pixels per em the
/// rasterizer should behave as `range_gasp_behavior` says.
#[derive(Clone, Copy, Debug, PartialEq, Eq, Structural)]
pub struct GASPRange {
    pub range_max_ppem: u16,
    pub range_gasp_behavior: u16,
}

/// Bit of `range_gasp_behavior`: grid-fit the outlines.
pub const GASP_GRIDFIT: u16 = 0x0001;

/// Bit of `range_gasp_behavior`: render in shades of grey.
pub const GASP_GRAYSCALE: u16 = 0x0002;

/// The `gasp` table.
#[derive(Clone, Debug)]
pub struct GASPTable {
    pub version: u16,
    pub gasp_ranges: Vec<GASPRange>,
}

/// What a `GASPTable` holds.
pub struct GASPTableView {
    pub version: u16,
    pub gasp_ranges: Seq<GASPRange>,
}

impl View for GASPTable {
    type V = GASPTableView;

    open spec fn view(&self) -> GASPTableView {
        GASPTableView { version: self.version, gasp_ranges: self.gasp_ranges@ }
    }
}

impl GASPTable {
    /// Range number `i` of the table at `at`.
    pub open spec fn range(s: Seq<u8>, at: int, i: int) -> GASPRange {
        GASPRange {
            range_max_ppem: be_u16(s, at + 4 + 4 * i),
            range_gasp_behavior: be_u16(s, at + 6 + 4 * i),
        }
    }

    /// What decoding a `gasp` table at `at` gives.
    pub open spec fn parse(s: Seq<u8>, at: int) -> Result<GASPTableView, LoadError> {
        if at + 4 <= s.len() && at + 4 + 4 * be_u16(s, at + 2) <= s.len() {
            Ok(
                GASPTableView {
                    version: be_u16(s, at),
                    gasp_ranges: Seq::new(
                        be_u16(s, at + 2) as nat,
                        |i: int| GASPTable::range(s, at, i),
                    ),
                },
            )
        } else {
            Err(LoadError::MalformedData)
        }
    }

    pub fn from_binary(reader: &mut BinaryReader) -> (r: Result<GASPTable, LoadError>)
        ensures
            final(reader).data == old(reader).data,
            match r {
                Ok(t) => GASPTable::parse(old(reader).data@, old(reader).pos as int) == Ok::<
                    GASPTableView,
                    LoadError,
                >(t@),
                Err(e) => GASPTable::parse(old(reader).data@, old(reader).pos as int) == Err::<
                    GASPTableView,
                    LoadError,
                >(e),
            },
    {
        let ghost start = reader.pos as int;
        let ghost s = reader.data@;
        let version = reader.read_u16()?;
        let num_ranges = reader.read_u16()?;
        let n: usize = num_ranges as usize;
        let len = reader.data.len();
        if (len - reader.pos) / 4 < n {
            return Err(LoadError::MalformedData);
        }
        let mut ranges: Vec<GASPRange> = Vec::new();
        let mut i: usize = 0;
        while i < n
            invariant
                reader.data@ == s,
                reader.data == old(reader).data,
                s.len() == len,
                i <= n,
                start + 4 + 4 * n <= len,
                reader.pos == start + 4 + 4 * i,
                ranges@.len() == i,
                forall|j: int| 0 <= j < i ==> ranges@[j] == GASPTable::range(s, start, j),
            decreases n - i,
        {
            let range_max_ppem = reader.read_u16()?;
            let range_gasp_behavior = reader.read_u16()?;
            ranges.push(GASPRange { range_max_ppem, range_gasp_behavior });
            i = i + 1;
        }
        assert(ranges@ =~= Seq::new(num_ranges as nat, |i: int| GASPTable::range(s, start, i)));
        Ok(GASPTable { version, gasp_ranges: ranges })
    }
}

impl Table for GASPTable {
    fn tag(&self) -> (t: TableTag)
        ensures
            t == TableTag::GridFitAndScanConvertProc,
    {
        TableTag::GridFitAndScanConvertProc
    }
}

/// The widths of all glyphs at one size, in pixels.
#[derive(Clone, Debug)]
pub enum DeviceRecord {
    Format0 { pixel_size: u8, max_width: u8, widths: Vec<u8> },
}

/// What a `DeviceRecord` holds.
pub struct DeviceRecordView {
    pub pixel_size: u8,
    pub max_width: u8,
    pub widths: Seq<u8>,
}

impl View for DeviceRecord {
    type V = DeviceRecordView;

    open spec fn view(&self) -> DeviceRecordView {
        match self {
            DeviceRecord::Format0 { pixel_size, max_width, widths } => DeviceRecordView {
                pixel_size: *pixel_size,
                max_width: *max_width,
                widths: widths@,
            },
        }
    }
}

/// The `hdmx` table: device records for a number of sizes.
#[derive(Clone, Debug)]
pub struct HorizDeviceMetricsTable {
    pub version: u16,
    pub records: Vec<DeviceRecord>,
}

/// What a `HorizDeviceMetricsTable` holds.
pub struct HorizDeviceMetricsTableView {
    pub version: u16,
    pub records: Seq<DeviceRecordView>,
}

impl View for HorizDeviceMetricsTable {
    type V = HorizDeviceMetricsTableView;

    open spec fn view(&self) -> HorizDeviceMetricsTableView {
        HorizDeviceMetricsTableView {
            version: self.version,
            records: self.records@.map_values(|r: DeviceRecord| r@),
        }
    }
}

impl HorizDeviceMetricsTable {
    /// The number of records that the table at `at` announces; a negative
    /// count stands for none.
    pub open spec fn record_count(s: Seq<u8>, at: int) -> int {
        if be_i16(s, at + 2) < 0 {
            0
        } else {
            be_i16(s, at + 2) as int
        }
    }

    /// Record number `i` of the table at `at`. Records lie `size` bytes apart.
    pub open spec fn record(s: Seq<u8>, at: int, num_glyphs: u16, size: int, i: int) -> DeviceRecordView {
        DeviceRecordView {
            pixel_size: be_u8(s, at + 8 + size * i),
            max_width: be_u8(s, at + 9 + size * i),
            widths: s.subrange(at + 10 + size * i, at + 10 + size * i + num_glyphs),
        }
    }

    /// What decoding an `hdmx` table at `at` gives for a font of `num_glyphs`
    /// glyphs. Where there are records, each must have room for two bytes and
    /// one width per glyph.
    pub open spec fn parse(s: Seq<u8>, at: int, num_glyphs: u16) -> Result<
        HorizDeviceMetricsTableView,
        LoadError,
    > {
        let count = HorizDeviceMetricsTable::record_count(s, at);
        let size = be_i32(s, at + 4) as int;
        if at + 8 <= s.len() && (count == 0 || (size >= num_glyphs + 2 && at + 8 + size * count
            <= s.len())) {
            Ok(
                HorizDeviceMetricsTableView {
                    version: be_u16(s, at),
                    records: Seq::new(
                        count as nat,
                        |i: int| HorizDeviceMetricsTable::record(s, at, num_glyphs, size, i),
                    ),
                },
            )
        } else {
            Err(LoadError::MalformedData)
        }
    }

    pub fn from_binary(reader: &mut BinaryReader, num_glyphs: u16) -> (r: Result<
        HorizDeviceMetricsTable,
        LoadError,
    >)
        ensures
            final(reader).data == old(reader).data,
            match r {
                Ok(t) => HorizDeviceMetricsTable::parse(
                    old(reader).data@,
                    old(reader).pos as int,
                    num_glyphs,
                ) == Ok::<HorizDeviceMetricsTableView, LoadError>(t@),
                Err(e) => HorizDeviceMetricsTable::parse(
                    old(reader).data@,
                    old(reader).pos as int,
                    num_glyphs,
                ) == Err::<HorizDeviceMetricsTableView, LoadError>(e),
            },
    {
        let ghost start = reader.pos as int;
        let ghost s = reader.data@;
        let version = reader.read_u16()?;
        let num_records = reader.read_i16()?;
        let size_record = reader.read_i32()?;
        let count: usize = if num_records < 0 { 0 } else { num_records as usize };
        let len = reader.data.len();
        let base: usize = reader.pos;
        let mut records: Vec<DeviceRecord> = Vec::new();
        if count == 0 {
            assert(records@.map_values(|r: DeviceRecord| r@) =~= Seq::new(
                0,
                |i: int| HorizDeviceMetricsTable::record(s, start, num_glyphs, size_record as int, i),
            ));
            return Ok(HorizDeviceMetricsTable { version, records });
        }
        if size_record < num_glyphs as i32 + 2 {
            return Err(LoadError::MalformedData);
        }
        let size: usize = size_record as usize;
        if (len - base) / size < count {
            assert(size * count > len - base) by (nonlinear_arith)
                requires
                    (len - base) / (size as int) < count,
                    size > 0,
            ;
            return Err(LoadError::MalformedData);
        }
        assert(size * count <= len - base) by (nonlinear_arith)
            requires
                (len - base) / (size as int) >= count,
                size > 0,
                len - base >= 0,
        ;
        let mut i: usize = 0;
        while i < count
            invariant
                reader.data@ == s,
                reader.data == old(reader).data,
                s.len() == len,
                i <= count,
                base == start + 8,
                size >= num_glyphs + 2,
                size == size_record,
                base + size * count <= len,
                reader.pos == base + size * i,
                records@.len() == i,
                forall|j: int|
                    0 <= j < i ==> (#[trigger] records@[j])@ == HorizDeviceMetricsTable::record(
                        s,
                        start,
                        num_glyphs,
                        size as int,
                        j,
                    ),
            decreases count - i,
        {
            assert(size * i + size <= size * count) by (nonlinear_arith)
                requires
                    i < count,
                    size > 0,
            ;
            let pixel_size = reader.read_u8()?;
            let max_width = reader.read_u8()?;
            let widths = reader.read_bytes(num_glyphs as usize)?;
            reader.seek(base + size * i + size)?;
            records.push(DeviceRecord::Format0 { pixel_size, max_width, widths });
            assert(size * (i + 1) == size * i + size) by (nonlinear_arith);
            i = i + 1;
        }
        assert(records@.map_values(|r: DeviceRecord| r@) =~= Seq::new(
            count as nat,
            |i: int| HorizDeviceMetricsTable::record(s, start, num_glyphs, size as int, i),
        ));
        Ok(HorizDeviceMetricsTable { version, records })
    }
}

impl Table for HorizDeviceMetricsTable {
    fn tag(&self) -> (t: TableTag)
        ensures
            t == TableTag::HorizDevMetric,
    {
        TableTag::HorizDevMetric
    }
}

/// The horizontal metrics of one glyph, in font units.
#[derive(Clone, Copy, Debug, PartialEq, Eq, Structural)]
pub struct LongHorMetric {
    pub advance_width: u16,
    pub left_side_bearing: i16,
}

/// The `hmtx` table: horizontal metrics for every glyph.
#[derive(Clone, Debug)]
pub struct HorizMetricsTable {
    pub metrics: Vec<LongHorMetric>,
}

impl View for HorizMetricsTable {
    type V = Seq<LongHorMetric>;

    open spec fn view(&self) -> Seq<LongHorMetric> {
        self.metrics@
    }
}

impl HorizMetricsTable {
    /// The metrics of glyph `i`. The first `full` glyphs have an entry of
    /// their own; the others share the advance width of the last of those and
    /// have only a bearing of their own.
    pub open spec fn metric(s: Seq<u8>, at: int, full: int, i: int) -> LongHorMetric {
        if i < full {
            LongHorMetric {
                advance_width: be_u16(s, at + 4 * i),
                left_side_bearing: be_i16(s, at + 4 * i + 2),
            }
        } else {
            LongHorMetric {
                advance_width: be_u16(s, at + 4 * (full - 1)),
                left_side_bearing: be_i16(s, at + 4 * full + 2 * (i - full)),
            }
        }
    }

    /// What decoding an `hmtx` table at `at` gives for a font of `num_glyphs`
    /// glyphs of which `full` have a full entry. A font with glyphs needs at
    /// least one full entry and cannot have more full entries than glyphs.
    pub open spec fn parse(s: Seq<u8>, at: int, num_glyphs: u16, full: u16) -> Result<
        Seq<LongHorMetric>,
        LoadError,
    > {
        if full <= num_glyphs && (num_glyphs == 0 || full >= 1) && at + 4 * full + 2 * (num_glyphs
            - full) <= s.len() {
            Ok(
                Seq::new(
                    num_glyphs as nat,
                    |i: int| HorizMetricsTable::metric(s, at, full as int, i),
                ),
            )
        } else {
            Err(LoadError::MalformedData)
        }
    }

    pub fn from_binary(reader: &mut BinaryReader, num_glyphs: u16, full: u16) -> (r: Result<
        HorizMetricsTable,
        LoadError,
    >)
        ensures
            final(reader).data == old(reader).data,
            match r {
                Ok(t) => HorizMetricsTable::parse(
                    old(reader).data@,
                    old(reader).pos as int,
                    num_glyphs,
                    full,
                ) == Ok::<Seq<LongHorMetric>, LoadError>(t@),
                Err(e) => HorizMetricsTable::parse(
                    old(reader).data@,
                    old(reader).pos as int,
                    num_glyphs,
                    full,
                ) == Err::<Seq<LongHorMetric>, LoadError>(e),
            },
    {
        if full > num_glyphs || (num_glyphs != 0 && full == 0) {
            return Err(LoadError::MalformedData);
        }
        let n: usize = num_glyphs as usize;
        let f: usize = full as usize;
        let total: usize = 4 * f + 2 * (n - f);
        let len = reader.data.len();
        if reader.pos > len || len - reader.pos < total {
            return Err(LoadError::MalformedData);
        }
        let ghost start = reader.pos as int;
        let ghost s = reader.data@;
        let mut metrics: Vec<LongHorMetric> = Vec::new();
        let mut last_advance: u16 = 0;
        let mut i: usize = 0;
        while i < n
            invariant
                reader.data@ == s,
                reader.data == old(reader).data,
                s.len() == len,
                i <= n,
                f <= n,
                n == num_glyphs,
                f == full,
                n == 0 || f >= 1,
                start + 4 * f + 2 * (n - f) <= len,
                i <= f ==> reader.pos == start + 4 * i,
                i > f ==> reader.pos == start + 4 * f + 2 * (i - f),
                i >= f && f > 0 ==> last_advance == be_u16(s, start + 4 * (f - 1)),
                metrics@.len() == i,
                forall|j: int|
                    0 <= j < i ==> metrics@[j] == HorizMetricsTable::metric(s, start, f as int, j),
            decreases n - i,
        {
            if i < f {
                let advance_width = reader.read_u16()?;
                let left_side_bearing = reader.read_i16()?;
                last_advance = advance_width;
                metrics.push(LongHorMetric { advance_width, left_side_bearing });
            } else {
                let left_side_bearing = reader.read_i16()?;
                metrics.push(LongHorMetric { advance_width: last_advance, left_side_bearing });
            }
            i = i + 1;
        }
        assert(metrics@ =~= Seq::new(
            num_glyphs as nat,
            |i: int| HorizMetricsTable::metric(s, start, full as int, i),
        ));
        Ok(HorizMetricsTable { metrics })
    }
}

impl Table for HorizMetricsTable {
    fn tag(&self) -> (t: TableTag)
        ensures
            t == TableTag::HorizMetics,
    {
        TableTag::HorizMetics
    }
}

} // verus!
