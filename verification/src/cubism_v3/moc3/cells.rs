//! Reads at offsets from the start of the file: the records of the preamble
//! and the cells of the columns.
//!
//! A column is an array of equal-sized cells that begins at the offset its
//! table gives; cell `index` of a column of `size`-byte cells lies at
//! `offset + index * size`. No cell is read before it is known to lie inside
//! the buffer.

use crate::errors::L2Error;
use crate::reader::{as_signed, decode_padded, le_u32, padded_text};
use vstd::prelude::*;
use vstd::slice::slice_subrange;

verus! {

/// The width of a name cell in bytes.
pub const NAME_WIDTH: usize = 64;

/// The bytes that are left from offset `at` on: none where `at` lies behind
/// the end.
pub open spec fn left_at(bytes: Seq<u8>, at: int) -> int {
    if at <= bytes.len() {
        bytes.len() - at
    } else {
        0
    }
}

/// A record of `slots` 32-bit numbers at offset `at` lies inside the buffer.
pub open spec fn record_fits(bytes: Seq<u8>, at: int, slots: int) -> bool {
    at + 4 * slots <= bytes.len()
}

/// The failure of a record that does not fit.
pub open spec fn record_shortfall(bytes: Seq<u8>, at: int, slots: int) -> L2Error {
    L2Error::OutOfBounds { have: left_at(bytes, at) as u64, need: (4 * slots) as u64 }
}

/// The address of cell `index` in a column of `size`-byte cells.
pub open spec fn cell_address(offset: u32, index: u32, size: int) -> int {
    offset + index * size
}

/// The failure of a cell of `size` bytes at `at` that does not fit.
pub open spec fn cell_shortfall(bytes: Seq<u8>, at: int, size: int) -> L2Error {
    L2Error::OutOfBounds { have: left_at(bytes, at) as u64, need: size as u64 }
}

/// Cell `index` of a column of unsigned 32-bit numbers, or of the bit
/// patterns of floats.
pub open spec fn u32_cell(bytes: Seq<u8>, offset: u32, index: u32) -> Result<u32, L2Error> {
    let at = cell_address(offset, index, 4);
    if at + 4 > bytes.len() {
        Err(cell_shortfall(bytes, at, 4))
    } else {
        Ok(le_u32(bytes, at))
    }
}

/// Cell `index` of a column of signed 32-bit numbers.
pub open spec fn i32_cell(bytes: Seq<u8>, offset: u32, index: u32) -> Result<i32, L2Error> {
    match u32_cell(bytes, offset, index) {
        Ok(bits) => Ok(as_signed(bits)),
        Err(e) => Err(e),
    }
}

/// Cell `index` of a column of flags, each a 32-bit number that is 0 for
/// false.
pub open spec fn flag_cell(bytes: Seq<u8>, offset: u32, index: u32) -> Result<bool, L2Error> {
    match u32_cell(bytes, offset, index) {
        Ok(bits) => Ok(bits != 0),
        Err(e) => Err(e),
    }
}

/// Cell `index` of a column of names: the text of a field of 64 bytes that
/// is padded with zero bytes.
pub open spec fn name_cell(bytes: Seq<u8>, offset: u32, index: u32) -> Result<
    Seq<char>,
    L2Error,
> {
    let at = cell_address(offset, index, 64);
    if at + 64 > bytes.len() {
        Err(cell_shortfall(bytes, at, 64))
    } else {
        padded_text(bytes.subrange(at, at + 64))
    }
}

/// An optional column's cell: nothing where the file's generation has no
/// such column.
pub open spec fn optional_i32_cell(bytes: Seq<u8>, offset: Option<u32>, index: u32) -> Result<
    Option<i32>,
    L2Error,
> {
    match offset {
        None => Ok(None),
        Some(offset) => match i32_cell(bytes, offset, index) {
            Ok(value) => Ok(Some(value)),
            Err(e) => Err(e),
        },
    }
}

/// As [`optional_i32_cell`], for an unsigned column.
pub open spec fn optional_u32_cell(bytes: Seq<u8>, offset: Option<u32>, index: u32) -> Result<
    Option<u32>,
    L2Error,
> {
    match offset {
        None => Ok(None),
        Some(offset) => match u32_cell(bytes, offset, index) {
            Ok(value) => Ok(Some(value)),
            Err(e) => Err(e),
        },
    }
}

/// The number of bytes from `at` to the end of a buffer of `len` bytes.
fn left(len: usize, at: u64) -> (have: u64)
    ensures
        have == if at <= len {
            len - at
        } else {
            0
        },
{
    if at <= len as u64 {
        len as u64 - at
    } else {
        0
    }
}

/// Checks that a record of `slots` numbers at `at` fits, and gives `at` as
/// an index.
pub fn start_record(bytes: &[u8], at: u64, slots: usize) -> (r: Result<usize, L2Error>)
    requires
        slots <= 64,
        at <= 0x1_0000_0000,
    ensures
        match r {
            Ok(start) => record_fits(bytes@, at as int, slots as int) && start == at,
            Err(e) => !record_fits(bytes@, at as int, slots as int) && e == record_shortfall(
                bytes@,
                at as int,
                slots as int,
            ),
        },
{
    let need: u64 = 4 * (slots as u64);
    if at + need > bytes.len() as u64 {
        Err(L2Error::OutOfBounds { have: left(bytes.len(), at), need })
    } else {
        Ok(at as usize)
    }
}

/// The 32-bit number at `at`, which is known to fit.
pub fn word(bytes: &[u8], at: usize) -> (value: u32)
    requires
        at + 4 <= bytes.len(),
    ensures
        value == le_u32(bytes@, at as int),
{
    bytes[at] as u32 + 0x100 * (bytes[at + 1] as u32) + 0x1_0000 * (bytes[at + 2] as u32)
        + 0x100_0000 * (bytes[at + 3] as u32)
}

/// Reads cell `index` of an unsigned column.
pub fn read_u32_cell(bytes: &[u8], offset: u32, index: u32) -> (r: Result<u32, L2Error>)
    ensures
        r == u32_cell(bytes@, offset, index),
{
    let at: u64 = offset as u64 + 4 * (index as u64);
    if at + 4 > bytes.len() as u64 {
        Err(L2Error::OutOfBounds { have: left(bytes.len(), at), need: 4 })
    } else {
        Ok(word(bytes, at as usize))
    }
}

/// Reads cell `index` of a signed column.
pub fn read_i32_cell(bytes: &[u8], offset: u32, index: u32) -> (r: Result<i32, L2Error>)
    ensures
        r == i32_cell(bytes@, offset, index),
{
    let bits = read_u32_cell(bytes, offset, index)?;
    if bits >= 0x8000_0000 {
        Ok(((bits - 0x8000_0000) as i32) + i32::MIN)
    } else {
        Ok(bits as i32)
    }
}

/// Reads cell `index` of a column of flags.
pub fn read_flag_cell(bytes: &[u8], offset: u32, index: u32) -> (r: Result<bool, L2Error>)
    ensures
        r == flag_cell(bytes@, offset, index),
{
    let bits = read_u32_cell(bytes, offset, index)?;
    Ok(bits != 0)
}

/// Reads cell `index` of an optional signed column.
pub fn read_optional_i32_cell(bytes: &[u8], offset: Option<u32>, index: u32) -> (r: Result<
    Option<i32>,
    L2Error,
>)
    ensures
        r == optional_i32_cell(bytes@, offset, index),
{
    match offset {
        None => Ok(None),
        Some(offset) => {
            let value = read_i32_cell(bytes, offset, index)?;
            Ok(Some(value))
        },
    }
}

/// Reads cell `index` of an optional unsigned column.
pub fn read_optional_u32_cell(bytes: &[u8], offset: Option<u32>, index: u32) -> (r: Result<
    Option<u32>,
    L2Error,
>)
    ensures
        r == optional_u32_cell(bytes@, offset, index),
{
    match offset {
        None => Ok(None),
        Some(offset) => {
            let value = read_u32_cell(bytes, offset, index)?;
            Ok(Some(value))
        },
    }
}

/// Reads cell `index` of a column of names.
pub fn read_name_cell<'a>(bytes: &'a [u8], offset: u32, index: u32) -> (r: Result<
    &'a str,
    L2Error,
>)
    ensures
        match r {
            Ok(name) => name_cell(bytes@, offset, index) == Ok::<Seq<char>, L2Error>(name@),
            Err(e) => name_cell(bytes@, offset, index) == Err::<Seq<char>, L2Error>(e),
        },
{
    let at: u64 = offset as u64 + 64 * (index as u64);
    if at + 64 > bytes.len() as u64 {
        return Err(L2Error::OutOfBounds { have: left(bytes.len(), at), need: 64 });
    }
    let start = at as usize;
    decode_padded(slice_subrange(bytes, start, start + NAME_WIDTH))
}

} // verus!
