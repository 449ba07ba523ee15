//! The offset table at the start of a font, its directory of tables, and the
//! checksum that guards each table.

use vstd::prelude::*;

use crate::truetype_loader::binary_reader::be_fixed;
use crate::truetype_loader::binary_reader::be_u16;
use crate::truetype_loader::binary_reader::be_u32;
use crate::truetype_loader::binary_reader::BinaryReader;
use crate::truetype_loader::Fixed;
use crate::truetype_loader::LoadError;
use crate::truetype_loader::TableTag;

verus! {

/// Byte `i` of `s`, or zero past its end.
pub open spec fn byte_or_zero(s: Seq<u8>, i: int) -> int {
    if 0 <= i < s.len() {
        s[i] as int
    } else {
        0
    }
}

/// The `i`-th big-endian 32-bit word of `s`, the last one padded with zeros.
pub open spec fn padded_word(s: Seq<u8>, i: int) -> int {
    byte_or_zero(s, 4 * i) * 0x100_0000 + byte_or_zero(s, 4 * i + 1) * 0x1_0000 + byte_or_zero(
        s,
        4 * i + 2,
    ) * 0x100 + byte_or_zero(s, 4 * i + 3)
}

/// The sum of the first `n` words of `s`, modulo `2^32`.
pub open spec fn word_sum(s: Seq<u8>, n: nat) -> int
    decreases n,
{
    if n == 0 {
        0
    } else {
        (word_sum(s, (n - 1) as nat) + padded_word(s, n - 1)) % 0x1_0000_0000
    }
}

/// The checksum of a table whose bytes are `s`: the sum of its big-endian
/// 32-bit words modulo `2^32`, the table padded with zeros to a whole number
/// of words.
pub open spec fn table_checksum(s: Seq<u8>) -> int {
    word_sum(s, ((s.len() + 3) / 4) as nat)
}

/// Computes the checksum of the table that `data` holds.
pub fn calculate_table_checksum(data: &[u8]) -> (sum: u32)
    ensures
        sum == table_checksum(data@),
{
    let len = data.len();
    let words: usize = len / 4 + (if len % 4 == 0 { 0usize } else { 1usize });
    let mut sum: u32 = 0;
    let mut i: usize = 0;
    while i < words
        invariant
            len == data@.len(),
            words == (len + 3) / 4,
            i <= words,
            sum == word_sum(data@, i as nat),
        decreases words - i,
    {
        let k: usize = 4 * i;
        let b0: u32 = data[k] as u32;
        let b1: u32 = if k + 1 < len { data[k + 1] as u32 } else { 0 };
        let b2: u32 = if k + 2 < len { data[k + 2] as u32 } else { 0 };
        let b3: u32 = if k + 3 < len { data[k + 3] as u32 } else { 0 };
        let word: u32 = b0 * 0x100_0000 + b1 * 0x1_0000 + b2 * 0x100 + b3;
        assert(word == padded_word(data@, i as int));
        sum = sum.wrapping_add(word);
        i = i + 1;
    }
    sum
}

/// One line of the table directory.
#[derive(Clone, Copy, Debug, PartialEq, Eq, Structural)]
pub struct TableDirectoryEntry {
    /// The four-character code of the table, as it stands in the file.
    pub tag_code: u32,
    pub check_sum: u32,
    /// Where the table starts, counted from the start of the file.
    pub offset: u32,
    /// The length of the table in bytes, without padding.
    pub length: u32,
}

impl TableDirectoryEntry {
    /// The entry that the 16 bytes of `s` from `at` on encode.
    pub open spec fn decode(s: Seq<u8>, at: int) -> TableDirectoryEntry {
        TableDirectoryEntry {
            tag_code: be_u32(s, at),
            check_sum: be_u32(s, at + 4),
            offset: be_u32(s, at + 8),
            length: be_u32(s, at + 12),
        }
    }

    /// What decoding a directory entry at `at` gives.
    pub open spec fn parse(s: Seq<u8>, at: int) -> Result<TableDirectoryEntry, LoadError> {
        if at + 16 <= s.len() {
            Ok(TableDirectoryEntry::decode(s, at))
        } else {
            Err(LoadError::MalformedData)
        }
    }

    /// Whether the table lies inside a file of `file_len` bytes.
    pub open spec fn in_bounds(self, file_len: int) -> bool {
        self.offset + self.length <= file_len
    }

    /// The bytes of the table in the file `s`.
    pub open spec fn bytes(self, s: Seq<u8>) -> Seq<u8> {
        s.subrange(self.offset as int, self.offset + self.length)
    }

    /// The checksum that the directory should hold for this table. The `head`
    /// table holds a word, at byte 8, that is set after all checksums are
    /// made; it counts as zero.
    pub open spec fn expected_checksum(self, s: Seq<u8>) -> int {
        if self.tag_code == TableTag::FontHeader.spec_code() && self.length >= 12 {
            (table_checksum(self.bytes(s)) - be_u32(self.bytes(s), 8) + 0x1_0000_0000)
                % 0x1_0000_0000
        } else {
            table_checksum(self.bytes(s))
        }
    }

    /// Whether the table lies inside the file and its checksum is the one
    /// that the directory gives.
    pub open spec fn intact(self, s: Seq<u8>) -> bool {
        self.in_bounds(s.len() as int) && self.check_sum == self.expected_checksum(s)
    }

    pub fn from_binary(reader: &mut BinaryReader) -> (r: Result<TableDirectoryEntry, LoadError>)
        ensures
            final(reader).data == old(reader).data,
            r == TableDirectoryEntry::parse(old(reader).data@, old(reader).pos as int),
            r is Ok ==> final(reader).pos == old(reader).pos + 16,
    {
        let tag_code = reader.read_u32()?;
        let check_sum = reader.read_u32()?;
        let offset = reader.read_u32()?;
        let length = reader.read_u32()?;
        Ok(TableDirectoryEntry { tag_code, check_sum, offset, length })
    }

    /// The tag of the table, if it is one that has a name here.
    pub fn tag(&self) -> (t: Option<TableTag>)
        ensures
            t == TableTag::spec_from_code(self.tag_code),
    {
        TableTag::from_code(self.tag_code)
    }

    /// The bytes of the table, if the whole table lies inside `data` and its
    /// checksum matches.
    pub fn table_bytes<'a>(&self, data: &'a [u8]) -> (r: Result<&'a [u8], LoadError>)
        ensures
            self.intact(data@) ==> r is Ok && r->Ok_0@ == self.bytes(data@),
            !self.intact(data@) ==> r == Err::<&[u8], LoadError>(LoadError::MalformedData),
    {
        let len = data.len();
        let offset = self.offset as usize;
        let length = self.length as usize;
        if offset > len || len - offset < length {
            return Err(LoadError::MalformedData);
        }
        let bytes = vstd::slice::slice_subrange(data, offset, offset + length);
        let sum = calculate_table_checksum(bytes);
        let expected: u32 = if self.tag_code == TableTag::FontHeader.code() && length >= 12 {
            let mut r = BinaryReader { data: bytes, pos: 8 };
            match r.read_u32() {
                Ok(adjustment) => sum.wrapping_sub(adjustment),
                Err(_) => sum,
            }
        } else {
            sum
        };
        if expected == self.check_sum {
            Ok(bytes)
        } else {
            Err(LoadError::MalformedData)
        }
    }
}

/// The scaler type of fonts with TrueType outlines, version 1.0, as the
/// 32-bit number at the start of the file.
pub const SFNT_VERSION_ONE: u32 = 0x0001_0000;

/// The scaler type that some fonts carry instead: the letters `true`.
pub const SFNT_VERSION_TRUE: u32 = 0x7472_7565;

/// The start of a font file: the scaler type, three fields that help a binary
/// search of the directory, and the directory in the order of the file.
#[derive(Clone, Debug)]
pub struct OffsetTable {
    pub sfnt_version: Fixed,
    pub search_range: u16,
    pub entry_selector: u16,
    pub range_shift: u16,
    pub table_directory: Vec<TableDirectoryEntry>,
}

/// What an `OffsetTable` holds.
pub struct OffsetTableView {
    pub sfnt_version: Fixed,
    pub search_range: u16,
    pub entry_selector: u16,
    pub range_shift: u16,
    pub table_directory: Seq<TableDirectoryEntry>,
}

impl View for OffsetTable {
    type V = OffsetTableView;

    open spec fn view(&self) -> OffsetTableView {
        OffsetTableView {
            sfnt_version: self.sfnt_version,
            search_range: self.search_range,
            entry_selector: self.entry_selector,
            range_shift: self.range_shift,
            table_directory: self.table_directory@,
        }
    }
}

impl OffsetTable {
    /// Whether `v` is a scaler type of a font with TrueType outlines.
    pub open spec fn known_version(v: Fixed) -> bool {
        let code = v.int_part as int * 0x1_0000 + v.frac_part as int;
        code == SFNT_VERSION_ONE || code == SFNT_VERSION_TRUE
    }

    /// What decoding the offset table at `at` gives: `MalformedData` for
    /// another scaler type or where the bytes end before the last directory
    /// entry.
    pub open spec fn parse(s: Seq<u8>, at: int) -> Result<OffsetTableView, LoadError> {
        if at + 12 <= s.len() && OffsetTable::known_version(be_fixed(s, at)) && at + 12 + 16
            * be_u16(s, at + 4) <= s.len() {
            Ok(
                OffsetTableView {
                    sfnt_version: be_fixed(s, at),
                    search_range: be_u16(s, at + 6),
                    entry_selector: be_u16(s, at + 8),
                    range_shift: be_u16(s, at + 10),
                    table_directory: Seq::new(
                        be_u16(s, at + 4) as nat,
                        |i: int| TableDirectoryEntry::decode(s, at + 12 + 16 * i),
                    ),
                },
            )
        } else {
            Err(LoadError::MalformedData)
        }
    }

    pub fn from_binary(reader: &mut BinaryReader) -> (r: Result<OffsetTable, LoadError>)
        ensures
            final(reader).data == old(reader).data,
            match r {
                Ok(t) => OffsetTable::parse(old(reader).data@, old(reader).pos as int) == Ok::<
                    OffsetTableView,
                    LoadError,
                >(t@),
                Err(e) => OffsetTable::parse(old(reader).data@, old(reader).pos as int) == Err::<
                    OffsetTableView,
                    LoadError,
                >(e),
            },
    {
        let ghost start = reader.pos as int;
        let ghost s = reader.data@;
        let sfnt_version = reader.read_fixed()?;
        if !(sfnt_version.int_part == 1 && sfnt_version.frac_part == 0) && !(sfnt_version.int_part
            == 0x7472 && sfnt_version.frac_part == 0x7565) {
            return Err(LoadError::MalformedData);
        }
        let num_tables = reader.read_u16()?;
        let search_range = reader.read_u16()?;
        let entry_selector = reader.read_u16()?;
        let range_shift = reader.read_u16()?;
        let n: usize = num_tables as usize;
        let len = reader.data.len();
        if (len - reader.pos) / 16 < n {
            return Err(LoadError::MalformedData);
        }
        let mut table_directory: Vec<TableDirectoryEntry> = Vec::new();
        let mut i: usize = 0;
        while i < n
            invariant
                reader.data@ == s,
                reader.data == old(reader).data,
                s.len() == len,
                i <= n,
                start + 12 + 16 * n <= len,
                reader.pos == start + 12 + 16 * i,
                table_directory@.len() == i,
                forall|j: int|
                    0 <= j < i ==> table_directory@[j] == TableDirectoryEntry::decode(
                        s,
                        start + 12 + 16 * j,
                    ),
            decreases n - i,
        {
            let entry = TableDirectoryEntry::from_binary(reader)?;
            table_directory.push(entry);
            i = i + 1;
        }
        assert(table_directory@ =~= Seq::new(
            num_tables as nat,
            |i: int| TableDirectoryEntry::decode(s, start + 12 + 16 * i),
        ));
        Ok(OffsetTable { sfnt_version, search_range, entry_selector, range_shift, table_directory })
    }
}

/// A file whose first byte is neither zero nor the letter `t` has no known
/// scaler type: its offset table is refused as malformed.
pub proof fn lemma_first_byte_decides(s: Seq<u8>)
    requires
        s.len() > 0,
        s[0] != 0,
        s[0] != 0x74,
    ensures
        OffsetTable::parse(s, 0) == Err::<OffsetTableView, LoadError>(LoadError::MalformedData),
{
}

/// The place of a table in the order of decoding: the maximum profile first,
/// then the font header, then the location index, then the horizontal
/// header, then all others.
pub open spec fn decoding_rank(tag_code: u32) -> int {
    if tag_code == TableTag::MaxProfile.spec_code() {
        0
    } else if tag_code == TableTag::FontHeader.spec_code() {
        1
    } else if tag_code == TableTag::LocationIndex.spec_code() {
        2
    } else if tag_code == TableTag::HorizHeader.spec_code() {
        3
    } else {
        4
    }
}

/// Those of the first `n` entries of `dir` that have the rank `rank`, in the
/// order of the file.
pub open spec fn entries_of_rank(dir: Seq<TableDirectoryEntry>, rank: int, n: nat) -> Seq<
    TableDirectoryEntry,
>
    decreases n,
{
    if n == 0 {
        Seq::empty()
    } else if decoding_rank(dir[n - 1].tag_code) == rank {
        entries_of_rank(dir, rank, (n - 1) as nat).push(dir[n - 1])
    } else {
        entries_of_rank(dir, rank, (n - 1) as nat)
    }
}

/// The entries of the ranks below `ranks`, rank after rank.
pub open spec fn entries_below_rank(dir: Seq<TableDirectoryEntry>, ranks: nat) -> Seq<
    TableDirectoryEntry,
>
    decreases ranks,
{
    if ranks == 0 {
        Seq::empty()
    } else {
        entries_below_rank(dir, (ranks - 1) as nat) + entries_of_rank(dir, ranks - 1, dir.len())
    }
}

/// The directory in the order in which its tables are decoded.
pub open spec fn decoding_order(dir: Seq<TableDirectoryEntry>) -> Seq<TableDirectoryEntry> {
    entries_below_rank(dir, 5)
}

fn rank_of(tag_code: u32) -> (r: u8)
    ensures
        r == decoding_rank(tag_code),
{
    if tag_code == TableTag::MaxProfile.code() {
        0
    } else if tag_code == TableTag::FontHeader.code() {
        1
    } else if tag_code == TableTag::LocationIndex.code() {
        2
    } else if tag_code == TableTag::HorizHeader.code() {
        3
    } else {
        4
    }
}

/// Puts the directory into the order of decoding.
pub fn order_for_decoding(dir: &Vec<TableDirectoryEntry>) -> (out: Vec<TableDirectoryEntry>)
    ensures
        out@ == decoding_order(dir@),
{
    let mut out: Vec<TableDirectoryEntry> = Vec::new();
    let mut rank: u8 = 0;
    while rank < 5
        invariant
            rank <= 5,
            out@ == entries_below_rank(dir@, rank as nat),
        decreases 5 - rank,
    {
        let ghost before = out@;
        let mut i: usize = 0;
        while i < dir.len()
            invariant
                i <= dir.len(),
                rank < 5,
                out@ == before + entries_of_rank(dir@, rank as int, i as nat),
            decreases dir.len() - i,
        {
            if rank_of(dir[i].tag_code) == rank {
                out.push(dir[i]);
            }
            i = i + 1;
        }
        rank = rank + 1;
    }
    out
}

/// Every entry of the directory is decoded, and no entry is decoded before
/// one of a lower rank: the decoding order has the length of the directory
/// and its ranks never fall.
pub proof fn lemma_decoding_order_sorted(dir: Seq<TableDirectoryEntry>)
    ensures
        decoding_order(dir).len() == dir.len(),
        forall|i: int, j: int|
            0 <= i <= j < decoding_order(dir).len() ==> decoding_rank(
                #[trigger] decoding_order(dir)[i].tag_code,
            ) <= decoding_rank(#[trigger] decoding_order(dir)[j].tag_code),
{
    lemma_rank_counts(dir, dir.len());
    lemma_ranks_of(dir, 0, dir.len());
    lemma_ranks_of(dir, 1, dir.len());
    lemma_ranks_of(dir, 2, dir.len());
    lemma_ranks_of(dir, 3, dir.len());
    lemma_ranks_of(dir, 4, dir.len());
    reveal_with_fuel(entries_below_rank, 6);
}

proof fn lemma_ranks_of(dir: Seq<TableDirectoryEntry>, rank: int, n: nat)
    requires
        n <= dir.len(),
    ensures
        forall|i: int|
            0 <= i < entries_of_rank(dir, rank, n).len() ==> decoding_rank(
                #[trigger] entries_of_rank(dir, rank, n)[i].tag_code,
            ) == rank,
    decreases n,
{
    if n > 0 {
        lemma_ranks_of(dir, rank, (n - 1) as nat);
        let prev = entries_of_rank(dir, rank, (n - 1) as nat);
        let cur = entries_of_rank(dir, rank, n);
        assert forall|i: int| 0 <= i < cur.len() implies decoding_rank(
            #[trigger] cur[i].tag_code,
        ) == rank by {
            if i < prev.len() {
                assert(cur[i] == prev[i]);
            }
        }
    }
}

proof fn lemma_rank_counts(dir: Seq<TableDirectoryEntry>, n: nat)
    requires
        n <= dir.len(),
    ensures
        entries_of_rank(dir, 0, n).len() + entries_of_rank(dir, 1, n).len() + entries_of_rank(
            dir,
            2,
            n,
        ).len() + entries_of_rank(dir, 3, n).len() + entries_of_rank(dir, 4, n).len() == n,
    decreases n,
{
    if n > 0 {
        lemma_rank_counts(dir, (n - 1) as nat);
    }
}

} // verus!
