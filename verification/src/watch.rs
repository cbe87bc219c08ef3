//! The batch watcher: the decoder for a buffer of change records, and the
//! watcher that owns the buffer and judges each read of the directory.
//!
//! The watcher never calls the operating system itself. It says what to ask
//! for ([`WinWatch::read_request`]), lends the buffer that the system fills
//! ([`WinWatch::buffer_mut`]), and turns what the system answered into
//! records or an error ([`WinWatch::watch`]).

use crate::errors::{DecodeError, Error, ErrorView};
use crate::handle::Handle;
use crate::layout::{
    chain_after,
    decode_from,
    decode_spec,
    le_u16,
    le_u32,
    le_units,
    name_at,
    record_at,
    valid_region,
    ChangeRecord,
    HEADER_LEN,
};
use crate::types::{FileAction, FileNotifyChange};
use crate::utf16::from_utf16;
use crate::util::from_bool;
use vstd::prelude::*;
use vstd::slice::slice_subrange;
use vstd::string::StringExecFns;

verus! {

/// One decoded change: what happened, and the name of the entry it happened
/// to, relative to the watched directory.
#[derive(Debug, Clone, PartialEq, Eq)]
pub struct FileNotifyInformation {
    action: FileAction,
    filename: String,
}

impl View for FileNotifyInformation {
    type V = ChangeRecord;

    closed spec fn view(&self) -> ChangeRecord {
        ChangeRecord { action: self.action, name: self.filename@ }
    }
}

impl FileNotifyInformation {
    /// A record of `action` on the entry called `filename`.
    pub fn new(action: FileAction, filename: String) -> (r: FileNotifyInformation)
        ensures
            r@ == (ChangeRecord { action, name: filename@ }),
    {
        FileNotifyInformation { action, filename }
    }

    /// What happened.
    pub fn action(&self) -> (a: FileAction)
        ensures
            a == self@.action,
    {
        self.action
    }

    /// The name of the entry.
    pub fn filename(&self) -> (s: &str)
        ensures
            s@ == self@.name,
    {
        self.filename.as_str()
    }

    /// The record as one line of text: the action, an arrow, the name.
    pub fn to_string(&self) -> (s: String)
        ensures
            s@ == self@.action.name() + " -> "@ + self@.name,
    {
        let mut s = self.action.to_string();
        s.append(" -> ");
        s.append(self.filename.as_str());
        s
    }
}

/// The records that a list of decoded changes stands for.
pub open spec fn records_view(records: Seq<FileNotifyInformation>) -> Seq<ChangeRecord> {
    records.map_values(|r: FileNotifyInformation| r@)
}

/// Reads the little-endian 32-bit number in the four bytes of `v` from
/// `offset` on.
pub fn as_u32le(v: &[u8], offset: usize) -> (r: u32)
    requires
        offset + 4 <= v.len(),
    ensures
        r == le_u32(v@, offset as int),
{
    let b0: u32 = v[offset] as u32;
    let b1: u32 = v[offset + 1] as u32;
    let b2: u32 = v[offset + 2] as u32;
    let b3: u32 = v[offset + 3] as u32;
    assert(b3 << 24 | b2 << 16 | b1 << 8 | b0 == b0 + 0x100 * b1 + 0x1_0000 * b2 + 0x100_0000 * b3)
        by (bit_vector)
        requires
            b0 < 0x100,
            b1 < 0x100,
            b2 < 0x100,
            b3 < 0x100,
    ;
    b3 << 24 | b2 << 16 | b1 << 8 | b0
}

/// Reads `v` as 16-bit units, two bytes each, low byte first. A last byte
/// without a partner is left out.
pub fn as_u16_slice(v: &[u8]) -> (units: Vec<u16>)
    ensures
        units@ == le_units(v@),
{
    let count: usize = v.len() / 2;
    let mut units: Vec<u16> = Vec::with_capacity(count);
    let mut i: usize = 0;
    while i < count
        invariant
            count == v.len() / 2,
            i <= count,
            units@.len() == i,
            forall|k: int| 0 <= k < i ==> units@[k] == le_u16(v@, 2 * k),
        decreases count - i,
    {
        let lo: u16 = v[2 * i] as u16;
        let hi: u16 = v[2 * i + 1] as u16;
        assert(hi << 8 | lo == lo + 0x100 * hi) by (bit_vector)
            requires
                lo < 0x100,
                hi < 0x100,
        ;
        units.push(hi << 8 | lo);
        i = i + 1;
    }
    assert(units@ =~= le_units(v@));
    units
}

/// Decodes the name held in the `file_name_length` bytes of `v` from
/// `offset` on. A name that reaches past the end of `v` is refused as
/// truncated, one that is not well-formed UTF-16 as invalid.
pub fn to_filename(v: &[u8], offset: usize, file_name_length: usize) -> (r: Result<
    String,
    DecodeError,
>)
    ensures
        match r {
            Ok(name) => name_at(v@, offset as int, file_name_length as int) == Ok::<
                Seq<char>,
                DecodeError,
            >(name@),
            Err(e) => name_at(v@, offset as int, file_name_length as int) == Err::<
                Seq<char>,
                DecodeError,
            >(e),
        },
{
    if offset > v.len() || file_name_length > v.len() - offset {
        return Err(DecodeError::TruncatedRecord);
    }
    let units = as_u16_slice(slice_subrange(v, offset, offset + file_name_length));
    match from_utf16(units.as_slice()) {
        Some(name) => Ok(name),
        None => Err(DecodeError::InvalidEncoding),
    }
}

/// Decodes the record that starts at `offset` in `v`. The header has to lie
/// within `v`, the action code has to be a known one, the name has to lie
/// within `v` and be well-formed UTF-16; the first of these that fails
/// decides the error.
pub fn to_file_notify_information(v: &[u8], offset: usize) -> (r: Result<
    FileNotifyInformation,
    DecodeError,
>)
    ensures
        match r {
            Ok(info) => record_at(v@, offset as int) == Ok::<ChangeRecord, DecodeError>(info@),
            Err(e) => record_at(v@, offset as int) == Err::<ChangeRecord, DecodeError>(e),
        },
{
    if offset > v.len() || v.len() - offset < HEADER_LEN {
        return Err(DecodeError::TruncatedRecord);
    }
    let action = match FileAction::from_u32(as_u32le(v, offset + 4)) {
        Ok(action) => action,
        Err(e) => {
            return Err(e);
        },
    };
    let file_name_length: u32 = as_u32le(v, offset + 8);
    match to_filename(v, offset + HEADER_LEN, file_name_length as usize) {
        Ok(filename) => Ok(FileNotifyInformation { action, filename }),
        Err(e) => Err(e),
    }
}

/// Decodes the first `valid_length` bytes of `buffer`, or all of it where it
/// holds fewer, into the change records they hold, in the order of the
/// chain. An empty region holds no record. Any record that cannot be decoded
/// fails the whole call with the error of the first such record; nothing
/// past the region is ever read.
pub fn decode(buffer: &[u8], valid_length: usize) -> (r: Result<
    Vec<FileNotifyInformation>,
    DecodeError,
>)
    ensures
        match r {
            Ok(records) => decode_spec(buffer@, valid_length as int) == Ok::<
                Seq<ChangeRecord>,
                DecodeError,
            >(records_view(records@)),
            Err(e) => decode_spec(buffer@, valid_length as int) == Err::<
                Seq<ChangeRecord>,
                DecodeError,
            >(e),
        },
        valid_length == 0 || buffer@.len() == 0 ==> (r matches Ok(records) && records@.len() == 0),
{
    let limit: usize = if valid_length < buffer.len() {
        valid_length
    } else {
        buffer.len()
    };
    let v = slice_subrange(buffer, 0, limit);
    assert(v@ =~= valid_region(buffer@, valid_length as int));
    let mut result: Vec<FileNotifyInformation> = Vec::new();
    if limit == 0 {
        assert(records_view(result@) =~= Seq::<ChangeRecord>::empty());
        return Ok(result);
    }
    assert(valid_length > 0 && buffer@.len() > 0);
    let mut offset: usize = 0;
    assert(records_view(result@) + decode_from(v@, 0)->Ok_0 =~= decode_from(v@, 0)->Ok_0);
    loop
        invariant
            valid_length > 0,
            v@.len() > 0,
            v@ == valid_region(buffer@, valid_length as int),
            offset <= v.len(),
            decode_from(v@, 0) == chain_after(
                records_view(result@),
                decode_from(v@, offset as int),
            ),
        decreases v.len() - offset,
    {
        let ghost before = records_view(result@);
        let record = match to_file_notify_information(v, offset) {
            Ok(record) => record,
            Err(e) => {
                return Err(e);
            },
        };
        let ghost added = record@;
        let next_entry_offset: u32 = as_u32le(v, offset);
        result.push(record);
        assert(records_view(result@) =~= before.push(added));
        if next_entry_offset == 0 {
            assert(before + seq![added] =~= before.push(added));
            return Ok(result);
        }
        let step: usize = next_entry_offset as usize;
        let left: usize = v.len() - offset;
        if step > left || left - step < HEADER_LEN {
            return Err(DecodeError::TruncatedRecord);
        }
        proof {
            let rest = decode_from(v@, offset + next_entry_offset);
            if rest is Ok {
                assert(before + (seq![added] + rest->Ok_0) =~= before.push(added) + rest->Ok_0);
            }
        }
        offset = offset + step;
    }
}

/// What to ask the operating system for in one read of the directory.
#[derive(Debug, Copy, Clone, PartialEq, Eq, Structural)]
pub struct ReadRequest {
    /// The number of the directory handle to read from.
    pub handle: usize,
    /// How many bytes the system may write into the buffer.
    pub buffer_length: u32,
    /// Whether the whole subtree is watched, as a Win32 `BOOL`.
    pub watch_subtree: i32,
    /// The filter mask of the categories to report.
    pub notify_filter: u32,
}

/// What the operating system answered to one read of the directory.
#[derive(Debug, Copy, Clone, PartialEq, Eq, Structural)]
pub enum ReadOutcome {
    /// The read succeeded and wrote `bytes_returned` bytes into the buffer.
    Completed { bytes_returned: u32 },
    /// The read failed and left the error code `error_code`.
    Failed { error_code: u32 },
}

/// What a batch watcher holds.
pub struct WinWatchView {
    /// The number of the directory handle that the watcher owns.
    pub handle: usize,
    /// Whether the whole subtree is watched.
    pub watch_subdirs: bool,
    /// The size in bytes that the buffer was made with.
    pub buffer_size: u32,
    /// The bytes in the buffer.
    pub buffer: Seq<u8>,
    /// The filter mask, built once from the categories asked for.
    pub notify_filter: u32,
}

/// A watcher that reads batches of change records from one directory. It
/// owns the directory handle and one buffer, which every read fills anew.
/// The size of the buffer is counted in bytes.
#[derive(Debug)]
pub struct WinWatch {
    h_directory: Handle,
    watch_subdirs: bool,
    buffer_size: u32,
    result_buffer: Vec<u8>,
    dw_notify_filter: u32,
}

impl View for WinWatch {
    type V = WinWatchView;

    closed spec fn view(&self) -> WinWatchView {
        WinWatchView {
            handle: self.h_directory@,
            watch_subdirs: self.watch_subdirs,
            buffer_size: self.buffer_size,
            buffer: self.result_buffer@,
            notify_filter: self.dw_notify_filter,
        }
    }
}

/// What a list of decoded changes or an error stands for.
pub open spec fn watch_result_view(r: Result<Box<Vec<FileNotifyInformation>>, Error>) -> Result<
    Seq<ChangeRecord>,
    ErrorView,
> {
    match r {
        Ok(records) => Ok(records_view(records@)),
        Err(e) => Err(e@),
    }
}

/// What a watcher whose buffer holds `buffer` makes of the answer `outcome`:
/// after a read that succeeded, the records in the bytes that were written,
/// or the error of the first record that cannot be decoded; after a read
/// that failed, the error that carries the system's error code.
pub open spec fn watch_result(buffer: Seq<u8>, outcome: ReadOutcome) -> Result<
    Seq<ChangeRecord>,
    ErrorView,
> {
    match outcome {
        ReadOutcome::Completed { bytes_returned } => match decode_spec(
            buffer,
            bytes_returned as int,
        ) {
            Ok(records) => Ok(records),
            Err(e) => Err(Error::decode_view(e)),
        },
        ReadOutcome::Failed { error_code } => Err(Error::os_call_failed_view(error_code)),
    }
}

impl WinWatch {
    /// A watcher on the open directory `h_directory` that reports the
    /// categories in `notify_changes`, for the directory alone or for its
    /// whole subtree, with a buffer of `buffer_size` bytes, all zero.
    pub fn new(
        h_directory: Handle,
        notify_changes: Box<Vec<FileNotifyChange>>,
        watch_subdirs: bool,
        buffer_size: u32,
    ) -> (w: WinWatch)
        ensures
            w@ == (WinWatchView {
                handle: h_directory@,
                watch_subdirs,
                buffer_size,
                buffer: Seq::new(buffer_size as nat, |i: int| 0u8),
                notify_filter: FileNotifyChange::mask_of(notify_changes@.to_set()),
            }),
    {
        let result_buffer: Vec<u8> = vec![0u8; buffer_size as usize];
        assert(result_buffer@ =~= Seq::new(buffer_size as nat, |i: int| 0u8));
        WinWatch {
            h_directory,
            watch_subdirs,
            buffer_size,
            result_buffer,
            dw_notify_filter: FileNotifyChange::as_u32(notify_changes),
        }
    }

    /// The parameters of the next read: the handle, the subtree flag and the
    /// filter mask as they were given, and as the length the size that the
    /// buffer was made with, but never more than the buffer holds.
    pub fn read_request(&self) -> (request: ReadRequest)
        ensures
            request == (ReadRequest {
                handle: self@.handle,
                buffer_length: if self@.buffer.len() < self@.buffer_size {
                    self@.buffer.len() as u32
                } else {
                    self@.buffer_size
                },
                watch_subtree: if self@.watch_subdirs {
                    crate::util::TRUE
                } else {
                    crate::util::FALSE
                },
                notify_filter: self@.notify_filter,
            }),
    {
        let held: usize = self.result_buffer.len();
        let buffer_length: u32 = if held < self.buffer_size as usize {
            held as u32
        } else {
            self.buffer_size
        };
        ReadRequest {
            handle: self.h_directory.as_raw(),
            buffer_length,
            watch_subtree: from_bool(self.watch_subdirs),
            notify_filter: self.dw_notify_filter,
        }
    }

    /// The buffer, for the operating system to write into. Whatever is
    /// written there is what the watcher holds afterwards; nothing else of
    /// the watcher changes.
    pub fn buffer_mut(&mut self) -> (buffer: &mut [u8])
        ensures
            buffer@ == old(self)@.buffer,
            final(self)@ == (WinWatchView { buffer: final(buffer)@, ..old(self)@ }),
    {
        self.result_buffer.as_mut_slice()
    }

    /// The bytes in the buffer.
    pub fn buffer(&self) -> (buffer: &[u8])
        ensures
            buffer@ == self@.buffer,
    {
        self.result_buffer.as_slice()
    }

    /// The directory handle that the watcher owns.
    pub fn handle(&self) -> (h: &Handle)
        ensures
            h@ == self@.handle,
    {
        &self.h_directory
    }

    /// Ends the watch and hands the directory handle back, to be closed.
    pub fn into_handle(self) -> (h: Handle)
        ensures
            h@ == self@.handle,
    {
        self.h_directory
    }

    /// Judges the answer to one read of the directory. After a read that
    /// succeeded, the bytes that were written are decoded into their records;
    /// after one that failed, the result is the error that carries the
    /// system's error code. Either way the watcher is left as it was, ready
    /// for the next read.
    pub fn watch(&mut self, outcome: ReadOutcome) -> (r: Result<
        Box<Vec<FileNotifyInformation>>,
        Error,
    >)
        ensures
            watch_result_view(r) == watch_result(old(self)@.buffer, outcome),
            final(self)@ == old(self)@,
    {
        match outcome {
            ReadOutcome::Completed { bytes_returned } => {
                match decode(self.result_buffer.as_slice(), bytes_returned as usize) {
                    Ok(records) => Ok(Box::new(records)),
                    Err(e) => Err(Error::decode(e)),
                }
            },
            ReadOutcome::Failed { error_code } => Err(Error::os_call_failed(error_code)),
        }
    }
}

} // verus!
