//! The byte layout of a buffer of change records, as mathematics: what a
//! buffer decodes to, how a list of records is laid out, and the proof that
//! the two agree.
//!
//! A buffer holds a chain of records. Each record starts with three
//! little-endian 32-bit fields: the distance in bytes from this record to the
//! next one (zero in the last record), the action code, and the length of the
//! name in bytes. The name follows as UTF-16 code units, low byte first.

use crate::errors::DecodeError;
use crate::types::FileAction;
use crate::utf16::{decode_utf16, encode_utf16, lemma_decode_encode_utf16};
use vstd::prelude::*;

verus! {

/// The number of bytes that the three fixed fields of a record take.
pub const HEADER_LEN: usize = 12;

/// One change as the decoder reports it: what happened, and to which entry.
pub struct ChangeRecord {
    pub action: FileAction,
    pub name: Seq<char>,
}

/// The little-endian 32-bit number in the four bytes of `buf` from `at` on.
pub open spec fn le_u32(buf: Seq<u8>, at: int) -> u32
    recommends
        0 <= at,
        at + 4 <= buf.len(),
{
    (buf[at] + 0x100 * buf[at + 1] + 0x1_0000 * buf[at + 2] + 0x100_0000 * buf[at + 3]) as u32
}

/// The little-endian 16-bit number in the two bytes of `buf` from `at` on.
pub open spec fn le_u16(buf: Seq<u8>, at: int) -> u16
    recommends
        0 <= at,
        at + 2 <= buf.len(),
{
    (buf[at] + 0x100 * buf[at + 1]) as u16
}

/// The code units that `bytes` hold, two bytes each, low byte first. A last
/// byte without a partner is left out.
pub open spec fn le_units(bytes: Seq<u8>) -> Seq<u16> {
    Seq::new(bytes.len() / 2, |i: int| le_u16(bytes, 2 * i))
}

/// The name held in the `len` bytes of `buf` from `start` on, read no further
/// than the end of `buf`.
pub open spec fn name_at(buf: Seq<u8>, start: int, len: int) -> Result<Seq<char>, DecodeError> {
    if start + len > buf.len() {
        Err(DecodeError::TruncatedRecord)
    } else {
        match decode_utf16(le_units(buf.subrange(start, start + len))) {
            None => Err(DecodeError::InvalidEncoding),
            Some(name) => Ok(name),
        }
    }
}

/// The record that starts at `at`, read no further than the end of `buf`.
/// The header has to lie within the buffer; then the action code has to be a
/// known one; then the name has to lie within the buffer; then the name has
/// to be well-formed.
pub open spec fn record_at(buf: Seq<u8>, at: int) -> Result<ChangeRecord, DecodeError> {
    if at + HEADER_LEN > buf.len() {
        Err(DecodeError::TruncatedRecord)
    } else {
        match FileAction::of_code(le_u32(buf, at + 4)) {
            None => Err(DecodeError::UnknownActionCode),
            Some(action) => match name_at(buf, at + HEADER_LEN, le_u32(buf, at + 8) as int) {
                Err(e) => Err(e),
                Ok(name) => Ok(ChangeRecord { action, name }),
            },
        }
    }
}

/// `records` followed by what the rest of a chain decodes to; a failure in
/// the rest is the failure of the whole.
pub open spec fn chain_after(
    records: Seq<ChangeRecord>,
    rest: Result<Seq<ChangeRecord>, DecodeError>,
) -> Result<Seq<ChangeRecord>, DecodeError> {
    match rest {
        Ok(more) => Ok(records + more),
        Err(e) => Err(e),
    }
}

/// The records of the chain that starts at `at`, in the order of the chain,
/// or the failure of the first record that cannot be decoded.
pub open spec fn decode_from(buf: Seq<u8>, at: int) -> Result<Seq<ChangeRecord>, DecodeError>
    decreases buf.len() - at,
{
    match record_at(buf, at) {
        Err(e) => Err(e),
        Ok(record) => {
            let next = le_u32(buf, at);
            if next == 0 {
                Ok(seq![record])
            } else if at + next + HEADER_LEN > buf.len() {
                Err(DecodeError::TruncatedRecord)
            } else {
                chain_after(seq![record], decode_from(buf, at + next))
            }
        },
    }
}

/// How many bytes of `buf` count when `valid_length` of them are said to be
/// valid: no more than the buffer holds.
pub open spec fn valid_region(buf: Seq<u8>, valid_length: int) -> Seq<u8> {
    if valid_length <= 0 {
        Seq::empty()
    } else if valid_length >= buf.len() {
        buf
    } else {
        buf.take(valid_length)
    }
}

/// What the first `valid_length` bytes of `buf` decode to. An empty region
/// holds no record; any other region holds the chain that starts at its
/// first byte.
pub open spec fn decode_spec(buf: Seq<u8>, valid_length: int) -> Result<
    Seq<ChangeRecord>,
    DecodeError,
> {
    let region = valid_region(buf, valid_length);
    if region.len() == 0 {
        Ok(Seq::empty())
    } else {
        decode_from(region, 0)
    }
}

/// An empty valid region decodes to no record, whatever the buffer holds.
pub proof fn lemma_empty_region_decodes_to_nothing(buf: Seq<u8>, valid_length: int)
    requires
        valid_length <= 0 || buf.len() == 0,
    ensures
        decode_spec(buf, valid_length) == Ok::<Seq<ChangeRecord>, DecodeError>(Seq::empty()),
{
}

/// Decoding reads nothing past the valid length: two buffers that agree on
/// their first `valid_length` bytes decode alike.
pub proof fn lemma_decode_reads_only_the_valid_region(a: Seq<u8>, b: Seq<u8>, valid_length: int)
    requires
        0 <= valid_length <= a.len(),
        valid_length <= b.len(),
        a.take(valid_length) == b.take(valid_length),
    ensures
        decode_spec(a, valid_length) == decode_spec(b, valid_length),
{
    assert(a.take(a.len() as int) =~= a);
    assert(b.take(b.len() as int) =~= b);
    assert(valid_region(a, valid_length) =~= a.take(valid_length));
    assert(valid_region(b, valid_length) =~= b.take(valid_length));
}

/// A record whose header lies within the buffer and whose action code is
/// known, but whose declared name length reaches past the end of the buffer,
/// is refused as truncated, and so is the chain that starts with it.
pub proof fn lemma_name_past_the_end_is_refused(buf: Seq<u8>, at: int)
    requires
        0 <= at,
        at + HEADER_LEN <= buf.len(),
        FileAction::of_code(le_u32(buf, at + 4)) is Some,
        at + HEADER_LEN + le_u32(buf, at + 8) > buf.len(),
    ensures
        record_at(buf, at) == Err::<ChangeRecord, DecodeError>(DecodeError::TruncatedRecord),
        decode_from(buf, at) == Err::<Seq<ChangeRecord>, DecodeError>(
            DecodeError::TruncatedRecord,
        ),
{
}

/// A chain fails with the failure of its first record, and where the first
/// record is sound and another follows, with the failure of the rest: no
/// part of a chain is given out once any record of it has failed.
pub proof fn lemma_any_failure_fails_the_chain(buf: Seq<u8>, at: int)
    ensures
        record_at(buf, at) is Err ==> decode_from(buf, at) == Err::<
            Seq<ChangeRecord>,
            DecodeError,
        >(record_at(buf, at)->Err_0),
        record_at(buf, at) is Ok && le_u32(buf, at) != 0 && at + le_u32(buf, at) + HEADER_LEN
            <= buf.len() && decode_from(buf, at + le_u32(buf, at)) is Err ==> decode_from(buf, at)
            == decode_from(buf, at + le_u32(buf, at)),
{
}

/// The four bytes that hold `x`, low byte first.
pub open spec fn u32_le_bytes(x: u32) -> Seq<u8> {
    seq![
        (x % 0x100) as u8,
        ((x / 0x100) % 0x100) as u8,
        ((x / 0x1_0000) % 0x100) as u8,
        ((x / 0x100_0000) % 0x100) as u8,
    ]
}

/// The bytes that hold `units`, two bytes each, low byte first.
pub open spec fn units_le_bytes(units: Seq<u16>) -> Seq<u8> {
    Seq::new(
        2 * units.len(),
        |i: int|
            if i % 2 == 0 {
                (units[i / 2] % 0x100) as u8
            } else {
                (units[i / 2] / 0x100) as u8
            },
    )
}

/// The bytes of the name of `record`.
pub open spec fn name_bytes(record: ChangeRecord) -> Seq<u8> {
    units_le_bytes(encode_utf16(record.name))
}

/// The number of bytes that `record` takes in a buffer.
pub open spec fn encoded_len(record: ChangeRecord) -> nat {
    HEADER_LEN as nat + name_bytes(record).len()
}

/// Whether `record` can be laid out at all: its length has to fit the 32-bit
/// field that holds the distance to the next record.
pub open spec fn encodable(record: ChangeRecord) -> bool {
    encoded_len(record) <= u32::MAX
}

/// The bytes of one record. The last record of a chain has zero as the
/// distance to the next one; every other record is directly followed by the
/// next.
pub open spec fn encode_record(record: ChangeRecord, last: bool) -> Seq<u8> {
    u32_le_bytes(next_field(record, last)) + u32_le_bytes(record.action.code_spec()) + u32_le_bytes(
        name_bytes(record).len() as u32,
    ) + name_bytes(record)
}

/// The bytes of a chain of records, in order.
pub open spec fn encode_records(records: Seq<ChangeRecord>) -> Seq<u8>
    decreases records.len(),
{
    if records.len() == 0 {
        Seq::empty()
    } else {
        encode_record(records[0], records.len() == 1) + encode_records(records.skip(1))
    }
}

/// Reading four bytes that were written for `x` gives `x`.
pub proof fn lemma_le_u32_of_bytes(buf: Seq<u8>, at: int, x: u32)
    requires
        0 <= at,
        at + 4 <= buf.len(),
        buf.subrange(at, at + 4) == u32_le_bytes(x),
    ensures
        le_u32(buf, at) == x,
{
    let four = buf.subrange(at, at + 4);
    assert(buf[at] == four[0]);
    assert(buf[at + 1] == four[1]);
    assert(buf[at + 2] == four[2]);
    assert(buf[at + 3] == four[3]);
}

/// Reading the bytes that were written for a sequence of code units gives
/// the code units.
pub proof fn lemma_le_units_of_bytes(units: Seq<u16>)
    ensures
        le_units(units_le_bytes(units)) == units,
{
    let bytes = units_le_bytes(units);
    assert(le_units(bytes).len() == units.len());
    assert forall|i: int| 0 <= i < units.len() implies le_units(bytes)[i] == units[i] by {
        assert(bytes[2 * i] == (units[i] % 0x100) as u8);
        assert(bytes[2 * i + 1] == (units[(2 * i + 1) / 2] / 0x100) as u8);
    }
    assert(le_units(bytes) =~= units);
}

/// The distance field of a record that is laid out as the last of its chain,
/// or as one that is followed by another.
pub open spec fn next_field(record: ChangeRecord, last: bool) -> u32 {
    if last {
        0u32
    } else {
        encoded_len(record) as u32
    }
}

/// Where each field of a laid-out record stands.
pub proof fn lemma_encode_record_fields(record: ChangeRecord, last: bool)
    ensures
        encode_record(record, last).len() == encoded_len(record),
        encode_record(record, last).subrange(0, 4) == u32_le_bytes(next_field(record, last)),
        encode_record(record, last).subrange(4, 8) == u32_le_bytes(record.action.code_spec()),
        encode_record(record, last).subrange(8, 12) == u32_le_bytes(
            name_bytes(record).len() as u32,
        ),
        encode_record(record, last).subrange(12, encoded_len(record) as int) == name_bytes(record),
{
    let head = encode_record(record, last);
    let name = name_bytes(record);
    let a = u32_le_bytes(next_field(record, last));
    let b = u32_le_bytes(record.action.code_spec());
    let c = u32_le_bytes(name.len() as u32);
    assert(head == a + b + c + name);
    assert(a.len() == 4 && b.len() == 4 && c.len() == 4);
    assert(head.subrange(0, 4) =~= a);
    assert(head.subrange(4, 8) =~= b);
    assert(head.subrange(8, 12) =~= c);
    assert(head.subrange(12, encoded_len(record) as int) =~= name);
}

/// A laid-out record is read back as it was, with the distance it was laid
/// out with.
pub proof fn lemma_record_at_encoded(buf: Seq<u8>, at: int, record: ChangeRecord, last: bool)
    requires
        0 <= at,
        at + encoded_len(record) <= buf.len(),
        encodable(record),
        buf.subrange(at, at + encoded_len(record)) == encode_record(record, last),
    ensures
        record_at(buf, at) == Ok::<ChangeRecord, DecodeError>(record),
        le_u32(buf, at) == next_field(record, last),
{
    let head = encode_record(record, last);
    let name = name_bytes(record);
    let len = encoded_len(record) as int;
    let part = buf.subrange(at, at + len);
    lemma_encode_record_fields(record, last);
    assert(buf.subrange(at, at + 4) =~= part.subrange(0, 4));
    assert(buf.subrange(at + 4, at + 8) =~= part.subrange(4, 8));
    assert(buf.subrange(at + 8, at + 12) =~= part.subrange(8, 12));
    assert(buf.subrange(at + 12, at + len) =~= part.subrange(12, len));
    lemma_le_u32_of_bytes(buf, at, next_field(record, last));
    lemma_le_u32_of_bytes(buf, at + 4, record.action.code_spec());
    lemma_le_u32_of_bytes(buf, at + 8, name.len() as u32);
    FileAction::lemma_codes_correspond(0, record.action);
    lemma_le_units_of_bytes(encode_utf16(record.name));
    lemma_decode_encode_utf16(record.name);
    assert(at + HEADER_LEN + le_u32(buf, at + 8) == at + len);
}

/// A chain of records that was laid out from `at` to the end of `buf`
/// decodes to those records.
pub proof fn lemma_decode_from_encoded(buf: Seq<u8>, at: int, records: Seq<ChangeRecord>)
    requires
        0 <= at <= buf.len(),
        records.len() > 0,
        forall|i: int| 0 <= i < records.len() ==> encodable(#[trigger] records[i]),
        buf.subrange(at, buf.len() as int) == encode_records(records),
    ensures
        decode_from(buf, at) == Ok::<Seq<ChangeRecord>, DecodeError>(records),
    decreases records.len(),
{
    let record = records[0];
    let last = records.len() == 1;
    let rest = records.skip(1);
    let head = encode_record(record, last);
    let tail = encode_records(rest);
    let len = encoded_len(record) as int;
    assert(encodable(record));
    lemma_encode_record_fields(record, last);
    assert(encode_records(records) == head + tail);
    assert(buf.len() - at == len + tail.len());
    assert(buf.subrange(at, at + len) =~= head) by {
        assert((head + tail).subrange(0, len) =~= head);
        assert(buf.subrange(at, at + len) =~= buf.subrange(at, buf.len() as int).subrange(0, len));
    }
    lemma_record_at_encoded(buf, at, record, last);
    if last {
        assert(records =~= seq![record]);
    } else {
        assert forall|i: int| 0 <= i < rest.len() implies encodable(#[trigger] rest[i]) by {
            assert(rest[i] == records[i + 1]);
        }
        assert(buf.subrange(at + len, buf.len() as int) =~= tail) by {
            assert((head + tail).subrange(len, len + tail.len()) =~= tail);
            assert(buf.subrange(at + len, buf.len() as int) =~= buf.subrange(
                at,
                buf.len() as int,
            ).subrange(len, len + tail.len()));
        }
        lemma_encoded_chain_len(rest);
        lemma_decode_from_encoded(buf, at + len, rest);
        assert(seq![record] + rest =~= records);
    }
}

/// A chain of at least one record takes at least the bytes of a header.
pub proof fn lemma_encoded_chain_len(records: Seq<ChangeRecord>)
    requires
        records.len() > 0,
    ensures
        encode_records(records).len() >= HEADER_LEN,
{
    lemma_encode_record_fields(records[0], records.len() == 1);
}

/// A list of records that is laid out as a chain and decoded again comes back
/// unchanged and in its order.
pub proof fn lemma_decode_encode(records: Seq<ChangeRecord>)
    requires
        forall|i: int| 0 <= i < records.len() ==> encodable(#[trigger] records[i]),
    ensures
        decode_spec(encode_records(records), encode_records(records).len() as int) == Ok::<
            Seq<ChangeRecord>,
            DecodeError,
        >(records),
{
    let buf = encode_records(records);
    if records.len() == 0 {
        assert(records =~= Seq::<ChangeRecord>::empty());
    } else {
        lemma_encoded_chain_len(records);
        assert(buf.subrange(0, buf.len() as int) =~= buf);
        lemma_decode_from_encoded(buf, 0, records);
    }
}

} // verus!
