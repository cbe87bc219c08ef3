//! The failures that decoding and watching can report.

use crate::text::{decimal_text, push_decimal};
use vstd::prelude::*;

verus! {

/// Why a buffer of change records could not be decoded.
#[derive(Debug, Copy, Clone, PartialEq, Eq, Structural)]
pub enum DecodeError {
    /// A record carries an action code outside 1 to 5.
    UnknownActionCode,
    /// A record's name is not well-formed UTF-16.
    InvalidEncoding,
    /// A record's header or name reaches past the valid part of the buffer.
    TruncatedRecord,
}

impl DecodeError {
    /// What this failure is called in a description.
    pub open spec fn message(self) -> Seq<char> {
        match self {
            DecodeError::UnknownActionCode => "Unknown action code in change record"@,
            DecodeError::InvalidEncoding => "Invalid UTF-16 in file name of change record"@,
            DecodeError::TruncatedRecord => "Change record reaches past the end of the buffer"@,
        }
    }

    /// What this failure is called in a description.
    pub fn to_string(self) -> (s: String)
        ensures
            s@ == self.message(),
    {
        match self {
            DecodeError::UnknownActionCode => "Unknown action code in change record".to_owned(),
            DecodeError::InvalidEncoding => "Invalid UTF-16 in file name of change record".to_owned(),
            DecodeError::TruncatedRecord => "Change record reaches past the end of the buffer".to_owned(),
        }
    }
}

/// What an [`Error`] goes back to.
#[derive(Debug, Copy, Clone, PartialEq, Eq, Structural)]
pub enum ErrorCause {
    /// A call into the operating system failed; `code` is the error code
    /// that the system had for the failure.
    OsCallFailed { code: u32 },
    /// The system filled a buffer that could not be decoded.
    Decode(DecodeError),
    /// Anything else that a caller chose to describe.
    Other,
}

/// A failure with a description for a human reader and the cause behind it.
#[derive(Debug, Clone, PartialEq, Eq)]
pub struct Error {
    description: String,
    cause: ErrorCause,
}

/// What an [`Error`] holds.
pub struct ErrorView {
    pub description: Seq<char>,
    pub cause: ErrorCause,
}

impl View for Error {
    type V = ErrorView;

    closed spec fn view(&self) -> ErrorView {
        ErrorView { description: self.description@, cause: self.cause }
    }
}

/// The description of a failed system call that left the error code `code`.
pub open spec fn os_failure_text(code: u32) -> Seq<char> {
    "Failure detected with system error code "@ + decimal_text(code as nat)
}

/// The description of a failed system call that left the error code `code`.
pub fn os_failure_description(code: u32) -> (s: String)
    ensures
        s@ == os_failure_text(code),
{
    let mut s = "Failure detected with system error code ".to_owned();
    push_decimal(&mut s, code);
    s
}

impl Error {
    /// What a failed system call with the error code `code` is reported as.
    pub open spec fn os_call_failed_view(code: u32) -> ErrorView {
        ErrorView {
            description: os_failure_text(code),
            cause: ErrorCause::OsCallFailed { code },
        }
    }

    /// What a buffer that failed to decode with `e` is reported as.
    pub open spec fn decode_view(e: DecodeError) -> ErrorView {
        ErrorView { description: e.message(), cause: ErrorCause::Decode(e) }
    }

    /// The text that this error was made from.
    pub closed spec fn text(&self) -> String {
        self.description
    }

    /// An error that carries `description`, converted to a `String`, and no
    /// further cause.
    pub fn new<S>(description: S) -> (e: Error) where S: Into<String>
        ensures
            call_ensures(<S as Into<String>>::into, (description,), e.text()),
            e@.description == e.text()@,
            e@.cause == ErrorCause::Other,
    {
        Error { description: description.into(), cause: ErrorCause::Other }
    }

    /// The error for a failed system call that left the error code `code`.
    pub fn os_call_failed(code: u32) -> (e: Error)
        ensures
            e@ == Self::os_call_failed_view(code),
    {
        Error {
            description: os_failure_description(code),
            cause: ErrorCause::OsCallFailed { code },
        }
    }

    /// The error for a buffer that could not be decoded.
    pub fn decode(e: DecodeError) -> (r: Error)
        ensures
            r@ == Self::decode_view(e),
    {
        Error { description: e.to_string(), cause: ErrorCause::Decode(e) }
    }

    /// The description for a human reader.
    pub fn description(&self) -> (s: &str)
        ensures
            s@ == self@.description,
    {
        self.description.as_str()
    }

    /// The cause behind this error.
    pub fn cause(&self) -> (c: ErrorCause)
        ensures
            c == self@.cause,
    {
        self.cause
    }

    /// The description as text of its own.
    pub fn to_string(&self) -> (s: String)
        ensures
            s@ == self@.description,
    {
        self.description.clone()
    }
}

} // verus!
