//! A bounds-checked cursor over a byte buffer and the primitive values that
//! both container formats are built from.
//!
//! Every decoder comes in two forms. A function of `(bytes, pos)` in spec
//! mode says what the format holds at offset `pos` and how many bytes the
//! value takes; an executable function with `decode_` in its name, or a
//! method of [`MocReader`], computes just that. Numbers are little-endian.
//! Floating-point fields are carried as their IEEE-754 bit patterns, as
//! `u32`: `f32::from_bits` gives the number.

use crate::errors::L2Error;
use crate::text::{str_from_utf8, string_from_utf8_lossy, utf8_lossy};
use crate::varint::{decode_var, lemma_varint_len, varint_decoded};
use vstd::array::array_fill_for_copy_types;
use vstd::prelude::*;
use vstd::slice::slice_subrange;
use vstd::utf8::{decode_utf8, valid_utf8};

verus! {

/// What the format holds at an offset: the value and the number of bytes
/// that it takes, or the failure.
pub type Parsed<T> = Result<(T, nat), L2Error>;

/// The number of bytes that a value takes, if there is one.
pub open spec fn len_of<T>(r: Parsed<T>) -> nat {
    match r {
        Ok((_, len)) => len,
        Err(_) => 0,
    }
}

/// The failure of a read of `need` bytes at `pos`.
pub open spec fn shortfall(bytes: Seq<u8>, pos: int, need: int) -> L2Error {
    L2Error::OutOfBounds { have: (bytes.len() - pos) as u64, need: need as u64 }
}

/// The four bytes from `pos` on as an unsigned number, low byte first.
pub open spec fn le_u32(bytes: Seq<u8>, pos: int) -> u32 {
    (bytes[pos] + 0x100 * bytes[pos + 1] + 0x1_0000 * bytes[pos + 2] + 0x100_0000 * bytes[pos
        + 3]) as u32
}

/// A 32-bit pattern read as a two's complement number.
pub open spec fn as_signed(bits: u32) -> i32 {
    if bits >= 0x8000_0000 {
        (bits - 0x1_0000_0000) as i32
    } else {
        bits as i32
    }
}

/// One byte.
pub open spec fn parsed_u8(bytes: Seq<u8>, pos: int) -> Parsed<u8> {
    if bytes.len() - pos < 1 {
        Err(shortfall(bytes, pos, 1))
    } else {
        Ok((bytes[pos], 1))
    }
}

/// An unsigned 32-bit number; also the bit pattern of a 32-bit float.
pub open spec fn parsed_u32(bytes: Seq<u8>, pos: int) -> Parsed<u32> {
    if bytes.len() - pos < 4 {
        Err(shortfall(bytes, pos, 4))
    } else {
        Ok((le_u32(bytes, pos), 4))
    }
}

/// A signed 32-bit number.
pub open spec fn parsed_i32(bytes: Seq<u8>, pos: int) -> Parsed<i32> {
    if bytes.len() - pos < 4 {
        Err(shortfall(bytes, pos, 4))
    } else {
        Ok((as_signed(le_u32(bytes, pos)), 4))
    }
}

/// `len` raw bytes.
pub open spec fn parsed_bytes(bytes: Seq<u8>, pos: int, len: nat) -> Parsed<Seq<u8>> {
    if bytes.len() - pos < len {
        Err(shortfall(bytes, pos, len as int))
    } else {
        Ok((bytes.subrange(pos, pos + len), len))
    }
}

/// A variable-length integer.
pub open spec fn parsed_var(bytes: Seq<u8>, pos: int) -> Parsed<u64> {
    match varint_decoded(bytes.skip(pos)) {
        Some((value, len)) => Ok((value as u64, len)),
        None => Err(L2Error::InvalidVarint),
    }
}

/// A string with its length before it: a variable-length integer, then that
/// many bytes, decoded as UTF-8 with replacement of what is malformed.
pub open spec fn parsed_str(bytes: Seq<u8>, pos: int) -> Parsed<Seq<char>> {
    match parsed_var(bytes, pos) {
        Err(e) => Err(e),
        Ok((len, prefix)) => match parsed_bytes(bytes, pos + prefix, len as nat) {
            Err(e) => Err(e),
            Ok((raw, _)) => Ok((utf8_lossy(raw), prefix + len as nat)),
        },
    }
}

/// The index of the first zero byte of `field` at or behind `from`, or the
/// length of `field` where there is none.
pub open spec fn nul_end(field: Seq<u8>, from: int) -> int
    decreases field.len() - from,
{
    if from >= field.len() || field[from] == 0 {
        from
    } else {
        nul_end(field, from + 1)
    }
}

/// The text of a field that is padded with zero bytes: the bytes of the
/// field up to the first zero byte, or all of them where none is zero. The
/// text must be UTF-8.
pub open spec fn padded_text(field: Seq<u8>) -> Result<Seq<char>, L2Error> {
    let raw = field.take(nul_end(field, 0));
    if valid_utf8(raw) {
        Ok(decode_utf8(raw))
    } else {
        Err(L2Error::MalformedUtf8)
    }
}

/// A string in a field of `width` bytes, padded with zero bytes.
pub open spec fn parsed_cstr(bytes: Seq<u8>, pos: int, width: nat) -> Parsed<Seq<char>> {
    match parsed_bytes(bytes, pos, width) {
        Err(e) => Err(e),
        Ok((field, _)) => match padded_text(field) {
            Err(e) => Err(e),
            Ok(text) => Ok((text, width)),
        },
    }
}

/// A list of 32-bit patterns with its length before it: a variable-length
/// integer, then that many numbers.
pub open spec fn parsed_u32_list(bytes: Seq<u8>, pos: int) -> Parsed<Seq<u32>> {
    match parsed_var(bytes, pos) {
        Err(e) => Err(e),
        Ok((count, prefix)) => match parsed_u32s(bytes, pos + prefix, count as nat) {
            Err(e) => Err(e),
            Ok((values, len)) => Ok((values, prefix + len)),
        },
    }
}

/// `count` 32-bit patterns in a row. The list fails as its first number
/// that does not fit fails.
pub open spec fn parsed_u32s(bytes: Seq<u8>, pos: int, count: nat) -> Parsed<Seq<u32>> {
    if bytes.len() - pos < 4 * count {
        Err(L2Error::OutOfBounds { have: ((bytes.len() - pos) % 4) as u64, need: 4 })
    } else {
        Ok((Seq::new(count, |i: int| le_u32(bytes, pos + 4 * i)), 4 * count))
    }
}

/// An executable result is what the format holds at `pos`: the same value,
/// ending where the value ends, inside the buffer; or the same failure.
pub open spec fn agrees<T>(
    r: Result<(T, usize), L2Error>,
    bytes: Seq<u8>,
    pos: usize,
    expected: Parsed<T>,
) -> bool {
    match r {
        Ok((value, end)) => expected == Ok::<(T, nat), L2Error>((value, (end - pos) as nat))
            && pos <= end <= bytes.len(),
        Err(e) => expected == Err::<(T, nat), L2Error>(e),
    }
}

/// As [`agrees`], for a value that stands for its view.
pub open spec fn agrees_in_view<T: View>(
    r: Result<(T, usize), L2Error>,
    bytes: Seq<u8>,
    pos: usize,
    expected: Parsed<T::V>,
) -> bool {
    match r {
        Ok((value, end)) => expected == Ok::<(T::V, nat), L2Error>((value@, (end - pos) as nat))
            && pos <= end <= bytes.len(),
        Err(e) => expected == Err::<(T::V, nat), L2Error>(e),
    }
}

/// Reads one byte at `pos`.
pub fn decode_u8(bytes: &[u8], pos: usize) -> (r: Result<(u8, usize), L2Error>)
    requires
        pos <= bytes.len(),
    ensures
        agrees(r, bytes@, pos, parsed_u8(bytes@, pos as int)),
{
    if bytes.len() - pos < 1 {
        Err(L2Error::OutOfBounds { have: (bytes.len() - pos) as u64, need: 1 })
    } else {
        Ok((bytes[pos], pos + 1))
    }
}

/// Reads an unsigned 32-bit number, or the bits of a float, at `pos`.
pub fn decode_u32(bytes: &[u8], pos: usize) -> (r: Result<(u32, usize), L2Error>)
    requires
        pos <= bytes.len(),
    ensures
        agrees(r, bytes@, pos, parsed_u32(bytes@, pos as int)),
{
    if bytes.len() - pos < 4 {
        Err(L2Error::OutOfBounds { have: (bytes.len() - pos) as u64, need: 4 })
    } else {
        let value: u32 = bytes[pos] as u32 + 0x100 * (bytes[pos + 1] as u32) + 0x1_0000 * (bytes[pos
            + 2] as u32) + 0x100_0000 * (bytes[pos + 3] as u32);
        Ok((value, pos + 4))
    }
}

/// Reads a signed 32-bit number at `pos`.
pub fn decode_i32(bytes: &[u8], pos: usize) -> (r: Result<(i32, usize), L2Error>)
    requires
        pos <= bytes.len(),
    ensures
        agrees(r, bytes@, pos, parsed_i32(bytes@, pos as int)),
{
    match decode_u32(bytes, pos) {
        Err(e) => Err(e),
        Ok((bits, end)) => {
            let value: i32 = if bits >= 0x8000_0000 {
                ((bits - 0x8000_0000) as i32) + i32::MIN
            } else {
                bits as i32
            };
            Ok((value, end))
        },
    }
}

/// Borrows `len` bytes at `pos`.
pub fn decode_bytes<'a>(bytes: &'a [u8], pos: usize, len: u64) -> (r: Result<
    (&'a [u8], usize),
    L2Error,
>)
    requires
        pos <= bytes.len(),
    ensures
        agrees_in_view(r, bytes@, pos, parsed_bytes(bytes@, pos as int, len as nat)),
{
    let have = bytes.len() - pos;
    if (have as u64) < len {
        Err(L2Error::OutOfBounds { have: have as u64, need: len })
    } else {
        let end = pos + len as usize;
        Ok((slice_subrange(bytes, pos, end), end))
    }
}

/// Reads a variable-length integer at `pos`.
pub fn decode_varint(bytes: &[u8], pos: usize) -> (r: Result<(u64, usize), L2Error>)
    requires
        pos <= bytes.len(),
    ensures
        agrees(r, bytes@, pos, parsed_var(bytes@, pos as int)),
        r matches Ok((_, end)) ==> pos < end,
{
    let rest = slice_subrange(bytes, pos, bytes.len());
    proof {
        assert(rest@ == bytes@.skip(pos as int));
        lemma_varint_len(rest@);
    }
    match decode_var(rest) {
        Some((value, len)) => Ok((value, pos + len)),
        None => Err(L2Error::InvalidVarint),
    }
}

/// Reads a string with its length before it at `pos`.
pub fn decode_str(bytes: &[u8], pos: usize) -> (r: Result<(String, usize), L2Error>)
    requires
        pos <= bytes.len(),
    ensures
        agrees_in_view(r, bytes@, pos, parsed_str(bytes@, pos as int)),
        r matches Ok((_, end)) ==> pos < end,
{
    match decode_varint(bytes, pos) {
        Err(e) => Err(e),
        Ok((len, start)) => match decode_bytes(bytes, start, len) {
            Err(e) => Err(e),
            Ok((raw, end)) => Ok((string_from_utf8_lossy(raw), end)),
        },
    }
}

/// Reads the text of a field that is padded with zero bytes.
pub fn decode_padded<'a>(field: &'a [u8]) -> (r: Result<&'a str, L2Error>)
    ensures
        match r {
            Ok(text) => padded_text(field@) == Ok::<Seq<char>, L2Error>(text@),
            Err(e) => padded_text(field@) == Err::<Seq<char>, L2Error>(e),
        },
{
    let mut end: usize = 0;
    while end < field.len() && field[end] != 0
        invariant
            end <= field.len(),
            nul_end(field@, 0) == nul_end(field@, end as int),
        decreases field.len() - end,
    {
        end = end + 1;
    }
    match str_from_utf8(slice_subrange(field, 0, end)) {
        Some(text) => Ok(text),
        None => Err(L2Error::MalformedUtf8),
    }
}

/// Reads a string in a field of `width` bytes at `pos`.
pub fn decode_cstr<'a>(bytes: &'a [u8], pos: usize, width: usize) -> (r: Result<
    (&'a str, usize),
    L2Error,
>)
    requires
        pos <= bytes.len(),
    ensures
        agrees_in_view(r, bytes@, pos, parsed_cstr(bytes@, pos as int, width as nat)),
{
    let (field, end) = decode_bytes(bytes, pos, width as u64)?;
    let text = decode_padded(field)?;
    Ok((text, end))
}

/// Reads a list of 32-bit patterns with its length before it at `pos`.
pub fn decode_u32_list(bytes: &[u8], pos: usize) -> (r: Result<(Vec<u32>, usize), L2Error>)
    requires
        pos <= bytes.len(),
    ensures
        agrees_in_view(r, bytes@, pos, parsed_u32_list(bytes@, pos as int)),
        r matches Ok((_, end)) ==> pos < end,
{
    match decode_varint(bytes, pos) {
        Err(e) => Err(e),
        Ok((count, start)) => {
            let have = bytes.len() - start;
            if ((have / 4) as u64) < count {
                return Err(L2Error::OutOfBounds { have: (have % 4) as u64, need: 4 });
            }
            let mut values: Vec<u32> = Vec::new();
            let mut at: usize = start;
            let mut done: u64 = 0;
            while done < count
                invariant
                    start <= at <= bytes.len(),
                    done <= count,
                    4 * count <= bytes.len() - start,
                    at == start + 4 * done,
                    values@ == Seq::new(done as nat, |i: int| le_u32(bytes@, start + 4 * i)),
                decreases count - done,
            {
                let value: u32 = bytes[at] as u32 + 0x100 * (bytes[at + 1] as u32) + 0x1_0000 * (
                bytes[at + 2] as u32) + 0x100_0000 * (bytes[at + 3] as u32);
                values.push(value);
                at = at + 4;
                done = done + 1;
                assert(values@ =~= Seq::new(done as nat, |i: int| le_u32(bytes@, start + 4 * i)));
            }
            Ok((values, at))
        },
    }
}

/// A cursor into a buffer. It moves forward only, and never leaves the
/// buffer: a read that would pass the end fails and leaves the cursor where
/// it was.
pub struct MocReader<'i> {
    moc: &'i [u8],
    ptr: usize,
    version: u8,
}

impl<'i> MocReader<'i> {
    /// The buffer that the cursor runs over.
    pub closed spec fn bytes(&self) -> Seq<u8> {
        self.moc@
    }

    /// The offset of the cursor from the start of the buffer.
    pub closed spec fn position(&self) -> int {
        self.ptr as int
    }

    /// The version of the file, by which the tagged format decides whether a
    /// node has its later fields.
    pub closed spec fn file_version(&self) -> u8 {
        self.version
    }

    /// The cursor is inside the buffer or at its end.
    pub open spec fn wf(&self) -> bool {
        0 <= self.position() <= self.bytes().len()
    }

    /// The bytes from the cursor to the end of the buffer.
    pub open spec fn remaining(&self) -> Seq<u8> {
        self.bytes().skip(self.position())
    }

    /// `post` is this reader after a read that the format answers with
    /// `expected`: the cursor has moved by the bytes of the value, or has not
    /// moved where the read failed.
    pub open spec fn reads<T>(
        &self,
        post: &MocReader<'i>,
        r: Result<T, L2Error>,
        expected: Parsed<T>,
    ) -> bool {
        &&& post.wf()
        &&& post.bytes() == self.bytes()
        &&& post.file_version() == self.file_version()
        &&& match expected {
            Ok((value, len)) => r == Ok::<T, L2Error>(value) && post.position()
                == self.position() + len,
            Err(e) => r == Err::<T, L2Error>(e) && post.position() == self.position(),
        }
    }

    /// As [`MocReader::reads`], for a value that stands for its view.
    pub open spec fn reads_in_view<T: View>(
        &self,
        post: &MocReader<'i>,
        r: Result<T, L2Error>,
        expected: Parsed<T::V>,
    ) -> bool {
        &&& post.wf()
        &&& post.bytes() == self.bytes()
        &&& post.file_version() == self.file_version()
        &&& match expected {
            Ok((value, len)) => r matches Ok(got) && got@ == value && post.position()
                == self.position() + len,
            Err(e) => r == Err::<T, L2Error>(e) && post.position() == self.position(),
        }
    }

    /// A cursor at the start of `moc`, for a file of version 0.
    pub fn new(moc: &'i [u8]) -> (reader: Self)
        ensures
            reader.wf(),
            reader.bytes() == moc@,
            reader.position() == 0,
            reader.file_version() == 0,
    {
        MocReader { moc, ptr: 0, version: 0 }
    }

    /// A cursor at the start of `moc`, for a file of the given version.
    pub fn with_version(moc: &'i [u8], version: u8) -> (reader: Self)
        ensures
            reader.wf(),
            reader.bytes() == moc@,
            reader.position() == 0,
            reader.file_version() == version,
    {
        MocReader { moc, ptr: 0, version }
    }

    /// The version of the file.
    pub fn version(&self) -> (version: u8)
        ensures
            version == self.file_version(),
    {
        self.version
    }

    /// The offset of the cursor.
    pub fn offset(&self) -> (offset: usize)
        ensures
            offset == self.position(),
    {
        self.ptr
    }

    /// The whole buffer.
    pub fn input(&self) -> (bytes: &'i [u8])
        ensures
            bytes@ == self.bytes(),
    {
        self.moc
    }

    /// Takes over what a decoder found at the cursor: the cursor moves behind
    /// a value, and stays for a failure.
    pub(crate) fn accept<T>(&mut self, decoded: Result<(T, usize), L2Error>) -> (r: Result<
        T,
        L2Error,
    >)
        requires
            old(self).wf(),
            decoded matches Ok((_, end)) ==> old(self).position() <= end <= old(self).bytes().len(),
        ensures
            final(self).wf(),
            final(self).bytes() == old(self).bytes(),
            final(self).file_version() == old(self).file_version(),
            match decoded {
                Ok((value, end)) => r == Ok::<T, L2Error>(value) && final(self).position() == end,
                Err(e) => r == Err::<T, L2Error>(e) && final(self).position() == old(
                    self,
                ).position(),
            },
    {
        match decoded {
            Ok((value, end)) => {
                self.ptr = end;
                Ok(value)
            },
            Err(e) => Err(e),
        }
    }

    /// The bytes from the cursor to the end of the buffer.
    pub fn rest(&self) -> (rest: &[u8])
        requires
            self.wf(),
        ensures
            rest@ == self.remaining(),
    {
        slice_subrange(self.moc, self.ptr, self.moc.len())
    }

    /// The next `len` bytes, without moving the cursor.
    pub fn view(&self, len: usize) -> (r: Result<&[u8], L2Error>)
        requires
            self.wf(),
        ensures
            match r {
                Ok(raw) => len <= self.remaining().len() && raw@ == self.remaining().take(
                    len as int,
                ),
                Err(e) => len > self.remaining().len() && e == shortfall(
                    self.bytes(),
                    self.position(),
                    len as int,
                ),
            },
    {
        match decode_bytes(self.moc, self.ptr, len as u64) {
            Ok((raw, _)) => {
                assert(raw@ == self.remaining().take(len as int));
                Ok(raw)
            },
            Err(e) => Err(e),
        }
    }

    /// Moves the cursor forward by `n` bytes. The move is not checked: the
    /// caller has made sure that `n` bytes are left.
    pub fn advance(&mut self, n: usize)
        requires
            old(self).wf(),
            n <= old(self).remaining().len(),
        ensures
            final(self).wf(),
            final(self).bytes() == old(self).bytes(),
            final(self).file_version() == old(self).file_version(),
            final(self).position() == old(self).position() + n,
    {
        let total = self.moc.len();
        assert(n <= total - self.ptr);
        self.ptr = self.ptr + n;
    }

    /// Reads a variable-length integer.
    pub fn read_var(&mut self) -> (r: Result<u64, L2Error>)
        requires
            old(self).wf(),
        ensures
            old(self).reads(final(self), r, parsed_var(old(self).bytes(), old(self).position())),
    {
        match decode_varint(self.moc, self.ptr) {
            Ok((value, end)) => {
                self.ptr = end;
                Ok(value)
            },
            Err(e) => Err(e),
        }
    }

    /// Reads one byte.
    pub fn read_u8(&mut self) -> (r: Result<u8, L2Error>)
        requires
            old(self).wf(),
        ensures
            old(self).reads(final(self), r, parsed_u8(old(self).bytes(), old(self).position())),
    {
        match decode_u8(self.moc, self.ptr) {
            Ok((value, end)) => {
                self.ptr = end;
                Ok(value)
            },
            Err(e) => Err(e),
        }
    }

    /// Reads a signed 32-bit number.
    pub fn read_i32(&mut self) -> (r: Result<i32, L2Error>)
        requires
            old(self).wf(),
        ensures
            old(self).reads(final(self), r, parsed_i32(old(self).bytes(), old(self).position())),
    {
        match decode_i32(self.moc, self.ptr) {
            Ok((value, end)) => {
                self.ptr = end;
                Ok(value)
            },
            Err(e) => Err(e),
        }
    }

    /// Reads an unsigned 32-bit number.
    pub fn read_u32(&mut self) -> (r: Result<u32, L2Error>)
        requires
            old(self).wf(),
        ensures
            old(self).reads(final(self), r, parsed_u32(old(self).bytes(), old(self).position())),
    {
        match decode_u32(self.moc, self.ptr) {
            Ok((value, end)) => {
                self.ptr = end;
                Ok(value)
            },
            Err(e) => Err(e),
        }
    }

    /// Reads a 32-bit float, as its bit pattern.
    pub fn read_f32(&mut self) -> (r: Result<u32, L2Error>)
        requires
            old(self).wf(),
        ensures
            old(self).reads(final(self), r, parsed_u32(old(self).bytes(), old(self).position())),
    {
        self.read_u32()
    }

    /// Reads exactly `N` raw bytes.
    pub fn read_array<const N: usize>(&mut self) -> (r: Result<[u8; N], L2Error>)
        requires
            old(self).wf(),
        ensures
            old(self).reads_in_view(
                final(self),
                r,
                parsed_bytes(old(self).bytes(), old(self).position(), N as nat),
            ),
    {
        match decode_bytes(self.moc, self.ptr, N as u64) {
            Err(e) => Err(e),
            Ok((raw, end)) => {
                let mut array: [u8; N] = array_fill_for_copy_types(0u8);
                let mut i: usize = 0;
                while i < N
                    invariant
                        i <= N,
                        raw@.len() == N,
                        forall|j: int| 0 <= j < i ==> array@[j] == raw@[j],
                    decreases N - i,
                {
                    array[i] = raw[i];
                    i = i + 1;
                }
                assert(array@ =~= raw@);
                self.ptr = end;
                Ok(array)
            },
        }
    }

    /// Reads a string in a field of `width` bytes, padded with zero bytes.
    /// The cursor moves behind the whole field.
    pub fn read_cstr(&mut self, width: usize) -> (r: Result<&'i str, L2Error>)
        requires
            old(self).wf(),
        ensures
            old(self).reads_in_view(
                final(self),
                r,
                parsed_cstr(old(self).bytes(), old(self).position(), width as nat),
            ),
    {
        match decode_cstr(self.moc, self.ptr, width) {
            Ok((text, end)) => {
                self.ptr = end;
                Ok(text)
            },
            Err(e) => Err(e),
        }
    }

    /// Reads a string with its length before it.
    pub fn read_str(&mut self) -> (r: Result<String, L2Error>)
        requires
            old(self).wf(),
        ensures
            old(self).reads_in_view(
                final(self),
                r,
                parsed_str(old(self).bytes(), old(self).position()),
            ),
    {
        match decode_str(self.moc, self.ptr) {
            Ok((value, end)) => {
                self.ptr = end;
                Ok(value)
            },
            Err(e) => Err(e),
        }
    }
}

} // verus!
