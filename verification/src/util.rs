//! Small conversions between the conventions of the Win32 interface and Rust
//! values, and readers for a buffer that is held as 16-bit units.

use crate::errors::DecodeError;
use crate::utf16::{decode_utf16, from_utf16};
use vstd::prelude::*;
use vstd::slice::slice_subrange;

verus! {

/// The Win32 `BOOL` value that stands for `true`.
pub const TRUE: i32 = 1;

/// The Win32 `BOOL` value that stands for `false`.
pub const FALSE: i32 = 0;

/// Converts a Win32 `BOOL` that is `TRUE` or `FALSE` into the `bool` it
/// stands for.
pub fn to_bool(b: i32) -> (r: bool)
    requires
        b == TRUE || b == FALSE,
    ensures
        r == (b == TRUE),
{
    b == TRUE
}

/// Converts a `bool` into the Win32 `BOOL` that stands for it.
pub fn from_bool(b: bool) -> (r: i32)
    ensures
        r == if b {
            TRUE
        } else {
            FALSE
        },
{
    if b {
        TRUE
    } else {
        FALSE
    }
}

/// The 32-bit number held in two 16-bit units, low unit first.
pub open spec fn units_u32(units: Seq<u16>, at: int) -> u32
    recommends
        0 <= at,
        at + 2 <= units.len(),
{
    (units[at] + 0x1_0000 * units[at + 1]) as u32
}

/// Reads the 32-bit number held in the two units of `v` from `offset` on,
/// low unit first.
pub fn to_u32le(v: &[u16], offset: usize) -> (r: u32)
    requires
        offset + 2 <= v.len(),
    ensures
        r == units_u32(v@, offset as int),
{
    let lo: u32 = v[offset] as u32;
    let hi: u32 = v[offset + 1] as u32;
    assert(hi << 16 | lo == lo + 0x1_0000 * hi) by (bit_vector)
        requires
            lo < 0x1_0000,
            hi < 0x1_0000,
    ;
    hi << 16 | lo
}

/// The name held in the units of `units` from `offset` on, where the name is
/// `length_in_bytes` bytes long, two bytes to a unit.
pub open spec fn filename_of(units: Seq<u16>, offset: int, length_in_bytes: int) -> Result<
    Seq<char>,
    DecodeError,
> {
    let end = offset + length_in_bytes / 2;
    if end > units.len() {
        Err(DecodeError::TruncatedRecord)
    } else {
        match decode_utf16(units.subrange(offset, end)) {
            None => Err(DecodeError::InvalidEncoding),
            Some(name) => Ok(name),
        }
    }
}

/// Decodes the name held in the units of `v` from `offset` on, where the
/// name is `file_name_length_in_bytes` bytes long. A name that reaches past
/// the end of `v` is refused as truncated, one that is not well-formed UTF-16
/// as invalid.
pub fn to_filename(v: &[u16], offset: usize, file_name_length_in_bytes: usize) -> (r: Result<
    String,
    DecodeError,
>)
    ensures
        match r {
            Ok(name) => filename_of(v@, offset as int, file_name_length_in_bytes as int) == Ok::<
                Seq<char>,
                DecodeError,
            >(name@),
            Err(e) => filename_of(v@, offset as int, file_name_length_in_bytes as int) == Err::<
                Seq<char>,
                DecodeError,
            >(e),
        },
{
    let count: usize = file_name_length_in_bytes / 2;
    if offset > v.len() || count > v.len() - offset {
        return Err(DecodeError::TruncatedRecord);
    }
    match from_utf16(slice_subrange(v, offset, offset + count)) {
        Some(name) => Ok(name),
        None => Err(DecodeError::InvalidEncoding),
    }
}

} // verus!
