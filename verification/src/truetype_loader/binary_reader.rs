//! Big-endian decoding of integers and fixed-point numbers from a byte slice.

use byteorder::ByteOrder;
use vstd::prelude::*;
use vstd::slice::slice_subrange;
use vstd::slice::slice_to_vec;

use crate::numerics::F26d6;
use crate::truetype_loader::F2dot14;
use crate::truetype_loader::Fixed;
use crate::truetype_loader::LoadError;

verus! {

/// The two's-complement reading of a 16-bit pattern.
pub open spec fn signed16(v: int) -> int {
    if v >= 0x8000 {
        v - 0x1_0000
    } else {
        v
    }
}

/// The two's-complement reading of a 32-bit pattern.
pub open spec fn signed32(v: int) -> int {
    if v >= 0x8000_0000 {
        v - 0x1_0000_0000
    } else {
        v
    }
}

/// The two's-complement reading of a 64-bit pattern.
pub open spec fn signed64(v: int) -> int {
    if v >= 0x8000_0000_0000_0000 {
        v - 0x1_0000_0000_0000_0000
    } else {
        v
    }
}

pub open spec fn be_u8(s: Seq<u8>, at: int) -> u8 {
    s[at]
}

pub open spec fn be_i8(s: Seq<u8>, at: int) -> i8 {
    (if s[at] >= 0x80 {
        s[at] - 0x100
    } else {
        s[at] as int
    }) as i8
}

pub open spec fn be_u16(s: Seq<u8>, at: int) -> u16 {
    (s[at] as int * 0x100 + s[at + 1] as int) as u16
}

pub open spec fn be_i16(s: Seq<u8>, at: int) -> i16 {
    signed16(be_u16(s, at) as int) as i16
}

pub open spec fn be_u32(s: Seq<u8>, at: int) -> u32 {
    (be_u16(s, at) as int * 0x1_0000 + be_u16(s, at + 2) as int) as u32
}

pub open spec fn be_i32(s: Seq<u8>, at: int) -> i32 {
    signed32(be_u32(s, at) as int) as i32
}

pub open spec fn be_u64(s: Seq<u8>, at: int) -> u64 {
    (be_u32(s, at) as int * 0x1_0000_0000 + be_u32(s, at + 4) as int) as u64
}

pub open spec fn be_i64(s: Seq<u8>, at: int) -> i64 {
    signed64(be_u64(s, at) as int) as i64
}

/// A 16.16 number: integer part first, then fraction.
pub open spec fn be_fixed(s: Seq<u8>, at: int) -> Fixed {
    Fixed { int_part: be_u16(s, at), frac_part: be_u16(s, at + 2) }
}

pub open spec fn be_f2dot14(s: Seq<u8>, at: int) -> F2dot14 {
    F2dot14(be_i16(s, at))
}

pub open spec fn be_f26dot6(s: Seq<u8>, at: int) -> F26d6 {
    F26d6(be_i32(s, at))
}

/// The `n` 16-bit numbers that lie one after the other from `at` on.
pub open spec fn be_u16_array(s: Seq<u8>, at: int, n: nat) -> Seq<u16> {
    Seq::new(n, |i: int| be_u16(s, at + 2 * i))
}

/// The big-endian form of a 16-bit pattern.
pub open spec fn bytes_u16(v: u16) -> Seq<u8> {
    seq![(v / 0x100) as u8, (v % 0x100) as u8]
}

/// The big-endian form of a 32-bit pattern.
pub open spec fn bytes_u32(v: u32) -> Seq<u8> {
    bytes_u16((v / 0x1_0000) as u16) + bytes_u16((v % 0x1_0000) as u16)
}

/// The 16-bit pattern that stands for `v` in two's complement.
pub open spec fn pattern16(v: i16) -> u16 {
    (if v < 0 {
        v + 0x1_0000
    } else {
        v as int
    }) as u16
}

/// The 32-bit pattern that stands for `v` in two's complement.
pub open spec fn pattern32(v: i32) -> u32 {
    (if v < 0 {
        v + 0x1_0000_0000
    } else {
        v as int
    }) as u32
}

/// `byteorder::BigEndian::read_u16`, which reads the first two bytes of `buf`
/// as an unsigned number, most significant byte first.
#[verifier::external_body]
fn big_endian_u16(buf: &[u8]) -> (r: u16)
    requires
        buf@.len() >= 2,
    ensures
        r == be_u16(buf@, 0),
{
    byteorder::BigEndian::read_u16(buf)
}

/// `byteorder::BigEndian::read_i16`: the same two bytes read as a
/// two's-complement number.
#[verifier::external_body]
fn big_endian_i16(buf: &[u8]) -> (r: i16)
    requires
        buf@.len() >= 2,
    ensures
        r == be_i16(buf@, 0),
{
    byteorder::BigEndian::read_i16(buf)
}

/// `byteorder::BigEndian::read_u32`, which reads the first four bytes of `buf`
/// as an unsigned number, most significant byte first.
#[verifier::external_body]
fn big_endian_u32(buf: &[u8]) -> (r: u32)
    requires
        buf@.len() >= 4,
    ensures
        r == be_u32(buf@, 0),
{
    byteorder::BigEndian::read_u32(buf)
}

/// `byteorder::BigEndian::read_i32`: the same four bytes read as a
/// two's-complement number.
#[verifier::external_body]
fn big_endian_i32(buf: &[u8]) -> (r: i32)
    requires
        buf@.len() >= 4,
    ensures
        r == be_i32(buf@, 0),
{
    byteorder::BigEndian::read_i32(buf)
}

/// `byteorder::BigEndian::read_u64`, which reads the first eight bytes of
/// `buf` as an unsigned number, most significant byte first.
#[verifier::external_body]
fn big_endian_u64(buf: &[u8]) -> (r: u64)
    requires
        buf@.len() >= 8,
    ensures
        r == be_u64(buf@, 0),
{
    byteorder::BigEndian::read_u64(buf)
}

/// `byteorder::BigEndian::read_i64`: the same eight bytes read as a
/// two's-complement number.
#[verifier::external_body]
fn big_endian_i64(buf: &[u8]) -> (r: i64)
    requires
        buf@.len() >= 8,
    ensures
        r == be_i64(buf@, 0),
{
    byteorder::BigEndian::read_i64(buf)
}

/// A cursor over the bytes of a font file.
pub struct BinaryReader<'a> {
    pub data: &'a [u8],
    pub pos: usize,
}

impl<'a> BinaryReader<'a> {
    /// Whether `n` more bytes can be read at the cursor.
    pub open spec fn has(&self, n: int) -> bool {
        self.pos + n <= self.data@.len()
    }

    pub fn new(data: &'a [u8]) -> (r: BinaryReader<'a>)
        ensures
            r.data == data,
            r.pos == 0,
    {
        BinaryReader { data, pos: 0 }
    }

    pub fn position(&self) -> (p: usize)
        ensures
            p == self.pos,
    {
        self.pos
    }

    /// Moves the cursor to the absolute offset `target`. A target past the
    /// end of the data is refused and leaves the cursor where it was.
    pub fn seek(&mut self, target: usize) -> (r: Result<(), LoadError>)
        ensures
            final(self).data == old(self).data,
            target <= old(self).data@.len() ==> r is Ok && final(self).pos == target,
            target > old(self).data@.len() ==> r == Err::<(), LoadError>(LoadError::MalformedData)
                && final(self).pos == old(self).pos,
    {
        if target <= self.data.len() {
            self.pos = target;
            Ok(())
        } else {
            Err(LoadError::MalformedData)
        }
    }

    /// The next `n` bytes as a slice, consumed; nothing is consumed when fewer
    /// than `n` bytes are left.
    pub fn take(&mut self, n: usize) -> (r: Result<&'a [u8], LoadError>)
        ensures
            final(self).data == old(self).data,
            old(self).has(n as int) ==> r is Ok && r->Ok_0@ == old(self).data@.subrange(
                old(self).pos as int,
                old(self).pos + n,
            ) && final(self).pos == old(self).pos + n,
            !old(self).has(n as int) ==> r == Err::<&[u8], LoadError>(LoadError::MalformedData)
                && final(self).pos == old(self).pos,
    {
        let len = self.data.len();
        if n <= len && self.pos <= len - n {
            let out = slice_subrange(self.data, self.pos, self.pos + n);
            self.pos = self.pos + n;
            Ok(out)
        } else {
            Err(LoadError::MalformedData)
        }
    }

    /// The next `n` bytes, copied out.
    pub fn read_bytes(&mut self, n: usize) -> (r: Result<Vec<u8>, LoadError>)
        ensures
            final(self).data == old(self).data,
            old(self).has(n as int) ==> r is Ok && r->Ok_0@ == old(self).data@.subrange(
                old(self).pos as int,
                old(self).pos + n,
            ) && final(self).pos == old(self).pos + n,
            !old(self).has(n as int) ==> r == Err::<Vec<u8>, LoadError>(LoadError::MalformedData)
                && final(self).pos == old(self).pos,
    {
        let s = self.take(n)?;
        Ok(slice_to_vec(s))
    }

    pub fn read_u8(&mut self) -> (r: Result<u8, LoadError>)
        ensures
            final(self).data == old(self).data,
            old(self).has(1) ==> r == Ok::<u8, LoadError>(be_u8(old(self).data@, old(self).pos as int))
                && final(self).pos == old(self).pos + 1,
            !old(self).has(1) ==> r == Err::<u8, LoadError>(LoadError::MalformedData)
                && final(self).pos == old(self).pos,
    {
        let s = self.take(1)?;
        Ok(s[0])
    }

    pub fn read_i8(&mut self) -> (r: Result<i8, LoadError>)
        ensures
            final(self).data == old(self).data,
            old(self).has(1) ==> r == Ok::<i8, LoadError>(be_i8(old(self).data@, old(self).pos as int))
                && final(self).pos == old(self).pos + 1,
            !old(self).has(1) ==> r == Err::<i8, LoadError>(LoadError::MalformedData)
                && final(self).pos == old(self).pos,
    {
        let s = self.take(1)?;
        let b: u8 = s[0];
        if b >= 0x80 {
            Ok((b as i16 - 0x100) as i8)
        } else {
            Ok(b as i8)
        }
    }

    pub fn read_u16(&mut self) -> (r: Result<u16, LoadError>)
        ensures
            final(self).data == old(self).data,
            old(self).has(2) ==> r == Ok::<u16, LoadError>(be_u16(old(self).data@, old(self).pos as int))
                && final(self).pos == old(self).pos + 2,
            !old(self).has(2) ==> r == Err::<u16, LoadError>(LoadError::MalformedData)
                && final(self).pos == old(self).pos,
    {
        let s = self.take(2)?;
        Ok(big_endian_u16(s))
    }

    pub fn read_i16(&mut self) -> (r: Result<i16, LoadError>)
        ensures
            final(self).data == old(self).data,
            old(self).has(2) ==> r == Ok::<i16, LoadError>(be_i16(old(self).data@, old(self).pos as int))
                && final(self).pos == old(self).pos + 2,
            !old(self).has(2) ==> r == Err::<i16, LoadError>(LoadError::MalformedData)
                && final(self).pos == old(self).pos,
    {
        let s = self.take(2)?;
        Ok(big_endian_i16(s))
    }

    pub fn read_u32(&mut self) -> (r: Result<u32, LoadError>)
        ensures
            final(self).data == old(self).data,
            old(self).has(4) ==> r == Ok::<u32, LoadError>(be_u32(old(self).data@, old(self).pos as int))
                && final(self).pos == old(self).pos + 4,
            !old(self).has(4) ==> r == Err::<u32, LoadError>(LoadError::MalformedData)
                && final(self).pos == old(self).pos,
    {
        let s = self.take(4)?;
        Ok(big_endian_u32(s))
    }

    pub fn read_i32(&mut self) -> (r: Result<i32, LoadError>)
        ensures
            final(self).data == old(self).data,
            old(self).has(4) ==> r == Ok::<i32, LoadError>(be_i32(old(self).data@, old(self).pos as int))
                && final(self).pos == old(self).pos + 4,
            !old(self).has(4) ==> r == Err::<i32, LoadError>(LoadError::MalformedData)
                && final(self).pos == old(self).pos,
    {
        let s = self.take(4)?;
        Ok(big_endian_i32(s))
    }

    pub fn read_u64(&mut self) -> (r: Result<u64, LoadError>)
        ensures
            final(self).data == old(self).data,
            old(self).has(8) ==> r == Ok::<u64, LoadError>(be_u64(old(self).data@, old(self).pos as int))
                && final(self).pos == old(self).pos + 8,
            !old(self).has(8) ==> r == Err::<u64, LoadError>(LoadError::MalformedData)
                && final(self).pos == old(self).pos,
    {
        let s = self.take(8)?;
        Ok(big_endian_u64(s))
    }

    pub fn read_i64(&mut self) -> (r: Result<i64, LoadError>)
        ensures
            final(self).data == old(self).data,
            old(self).has(8) ==> r == Ok::<i64, LoadError>(be_i64(old(self).data@, old(self).pos as int))
                && final(self).pos == old(self).pos + 8,
            !old(self).has(8) ==> r == Err::<i64, LoadError>(LoadError::MalformedData)
                && final(self).pos == old(self).pos,
    {
        let s = self.take(8)?;
        Ok(big_endian_i64(s))
    }

    /// The next `n` unsigned 16-bit numbers; nothing is consumed when fewer
    /// than `2 * n` bytes are left.
    pub fn read_u16_array(&mut self, n: usize) -> (r: Result<Vec<u16>, LoadError>)
        ensures
            final(self).data == old(self).data,
            old(self).has(2 * n) ==> r is Ok && r->Ok_0@ == be_u16_array(
                old(self).data@,
                old(self).pos as int,
                n as nat,
            ) && final(self).pos == old(self).pos + 2 * n,
            !old(self).has(2 * n) ==> r == Err::<Vec<u16>, LoadError>(LoadError::MalformedData)
                && final(self).pos == old(self).pos,
    {
        let len = self.data.len();
        if self.pos > len || (len - self.pos) / 2 < n {
            return Err(LoadError::MalformedData);
        }
        let ghost start = self.pos as int;
        let ghost s = self.data@;
        let mut out: Vec<u16> = Vec::new();
        let mut i: usize = 0;
        while i < n
            invariant
                self.data@ == s,
                self.data == old(self).data,
                s.len() == len,
                i <= n,
                start + 2 * n <= len,
                self.pos == start + 2 * i,
                out@.len() == i,
                forall|j: int| 0 <= j < i ==> out@[j] == be_u16(s, start + 2 * j),
            decreases n - i,
        {
            let v = self.read_u16()?;
            out.push(v);
            i = i + 1;
        }
        assert(out@ =~= be_u16_array(s, start, n as nat));
        Ok(out)
    }

    /// A 16.16 fixed-point number.
    pub fn read_fixed(&mut self) -> (r: Result<Fixed, LoadError>)
        ensures
            final(self).data == old(self).data,
            old(self).has(4) ==> r == Ok::<Fixed, LoadError>(be_fixed(old(self).data@, old(self).pos as int))
                && final(self).pos == old(self).pos + 4,
            !old(self).has(4) ==> r == Err::<Fixed, LoadError>(LoadError::MalformedData)
                && final(self).pos == old(self).pos,
    {
        let s = self.take(4)?;
        let int_part = big_endian_u16(s);
        let frac_part = big_endian_u16(slice_subrange(s, 2, 4));
        Ok(Fixed { int_part, frac_part })
    }

    /// A 2.14 fixed-point number.
    pub fn read_f2dot14(&mut self) -> (r: Result<F2dot14, LoadError>)
        ensures
            final(self).data == old(self).data,
            old(self).has(2) ==> r == Ok::<F2dot14, LoadError>(be_f2dot14(old(self).data@, old(self).pos as int))
                && final(self).pos == old(self).pos + 2,
            !old(self).has(2) ==> r == Err::<F2dot14, LoadError>(LoadError::MalformedData)
                && final(self).pos == old(self).pos,
    {
        let s = self.take(2)?;
        Ok(F2dot14(big_endian_i16(s)))
    }

    /// A 26.6 fixed-point number, held as its raw 32 bits.
    pub fn read_f26dot6(&mut self) -> (r: Result<F26d6, LoadError>)
        ensures
            final(self).data == old(self).data,
            old(self).has(4) ==> r == Ok::<F26d6, LoadError>(be_f26dot6(old(self).data@, old(self).pos as int))
                && final(self).pos == old(self).pos + 4,
            !old(self).has(4) ==> r == Err::<F26d6, LoadError>(LoadError::MalformedData)
                && final(self).pos == old(self).pos,
    {
        let s = self.take(4)?;
        Ok(F26d6(big_endian_i32(s)))
    }
}

impl Fixed {
    /// Reads a 16.16 number at the cursor.
    pub fn from_binary(reader: &mut BinaryReader) -> (r: Result<Fixed, LoadError>)
        ensures
            final(reader).data == old(reader).data,
            old(reader).has(4) ==> r == Ok::<Fixed, LoadError>(
                be_fixed(old(reader).data@, old(reader).pos as int),
            ) && final(reader).pos == old(reader).pos + 4,
            !old(reader).has(4) ==> r == Err::<Fixed, LoadError>(LoadError::MalformedData)
                && final(reader).pos == old(reader).pos,
    {
        reader.read_fixed()
    }
}

/// Decoding the big-endian form of a 16-bit number gives the number back.
pub proof fn lemma_u16_round_trip(v: u16)
    ensures
        bytes_u16(v).len() == 2,
        be_u16(bytes_u16(v), 0) == v,
{
}

/// Decoding the big-endian form of a signed 16-bit number gives it back.
pub proof fn lemma_i16_round_trip(v: i16)
    ensures
        be_i16(bytes_u16(pattern16(v)), 0) == v,
{
}

/// Decoding the big-endian form of a 32-bit number gives the number back.
pub proof fn lemma_u32_round_trip(v: u32)
    ensures
        bytes_u32(v).len() == 4,
        be_u32(bytes_u32(v), 0) == v,
{
    let hi = (v / 0x1_0000) as u16;
    let lo = (v % 0x1_0000) as u16;
    let s = bytes_u32(v);
    assert(s[0] == bytes_u16(hi)[0]);
    assert(s[1] == bytes_u16(hi)[1]);
    assert(s[2] == bytes_u16(lo)[0]);
    assert(s[3] == bytes_u16(lo)[1]);
}

/// Decoding the big-endian form of a signed 32-bit number gives it back.
pub proof fn lemma_i32_round_trip(v: i32)
    ensures
        be_i32(bytes_u32(pattern32(v)), 0) == v,
{
    lemma_u32_round_trip(pattern32(v));
}

/// Decoding the big-endian form of the raw bits of a 26.6 number gives the
/// number back.
pub proof fn lemma_f26dot6_round_trip(v: F26d6)
    ensures
        be_f26dot6(bytes_u32(pattern32(v.0)), 0) == v,
{
    lemma_i32_round_trip(v.0);
}

/// A single byte is its own big-endian form.
pub proof fn lemma_u8_round_trip(v: u8)
    ensures
        be_u8(seq![v], 0) == v,
{
}

} // verus!
