//! The operating system's handle to a watched directory, as a plain value.

use crate::errors::Error;
use vstd::prelude::*;

verus! {

/// An open handle of the operating system, held as the number that the
/// system gave for it. A handle is owned by one watcher at a time: it moves
/// and cannot be copied.
#[derive(Debug, PartialEq, Eq)]
pub struct Handle {
    raw: usize,
}

impl View for Handle {
    type V = usize;

    closed spec fn view(&self) -> usize {
        self.raw
    }
}

impl Handle {
    /// The number that the system returns in place of a handle when it could
    /// not open one.
    pub open spec fn invalid_value() -> usize {
        usize::MAX
    }

    /// Takes ownership of the handle with the number `raw`.
    pub fn from_raw(raw: usize) -> (h: Handle)
        ensures
            h@ == raw,
    {
        Handle { raw }
    }

    /// The number of this handle.
    pub fn as_raw(&self) -> (raw: usize)
        ensures
            raw == self@,
    {
        self.raw
    }

    /// Gives up ownership of the handle and returns its number.
    pub fn into_raw(self) -> (raw: usize)
        ensures
            raw == self@,
    {
        self.raw
    }

    /// Judges what a call that opens a handle returned: `raw` is what came
    /// back, `last_error` the system's error code right after the call. The
    /// invalid value is a failure that carries the error code; any other
    /// value is the handle.
    pub fn from_open_result(raw: usize, last_error: u32) -> (r: Result<Handle, Error>)
        ensures
            match r {
                Ok(h) => raw != Self::invalid_value() && h@ == raw,
                Err(e) => raw == Self::invalid_value() && e@ == Error::os_call_failed_view(
                    last_error,
                ),
            },
    {
        if raw == usize::MAX {
            Err(Error::os_call_failed(last_error))
        } else {
            Ok(Handle { raw })
        }
    }
}

} // verus!
