//! Watching a directory tree for changes, without the calls into the
//! operating system: the decoder for the buffers of change records that the
//! system fills, and the decisions of the two watchers that are built on its
//! two notification mechanisms.
//!
//! A program that uses this library opens the handles, makes the blocking
//! calls and closes the handles; the library tells it what to ask for and
//! judges what came back.

use vstd::prelude::*;

pub mod errors;
pub mod handle;
pub mod layout;
pub mod notify;
pub mod text;
pub mod types;
pub mod utf16;
pub mod util;
pub mod watch;

pub use crate::errors::{DecodeError, Error, ErrorCause};
pub use crate::handle::Handle;
pub use crate::notify::{NotifyAction, WinNotify};
pub use crate::types::{FileAction, FileNotifyChange, NotifyStatus, WaitOutcome};
pub use crate::watch::{decode, FileNotifyInformation, ReadOutcome, ReadRequest, WinWatch};

verus! {

/// A batch watcher on the open directory `directory`; see [`WinWatch::new`].
pub fn watch_changes(
    directory: Handle,
    notify_changes: Box<Vec<FileNotifyChange>>,
    watch_subdirs: bool,
    buffer_size: u32,
) -> (w: WinWatch)
    ensures
        w@ == (crate::watch::WinWatchView {
            handle: directory@,
            watch_subdirs,
            buffer_size,
            buffer: Seq::new(buffer_size as nat, |i: int| 0u8),
            notify_filter: FileNotifyChange::mask_of(notify_changes@.to_set()),
        }),
{
    WinWatch::new(directory, notify_changes, watch_subdirs, buffer_size)
}

/// A signal watcher on the armed notification `directory`; see
/// [`WinNotify::new`].
pub fn notify_changes(
    directory: Handle,
    filters: Box<Vec<FileNotifyChange>>,
    watch_subtree: bool,
) -> (w: WinNotify)
    ensures
        w@ == (crate::notify::WinNotifyView {
            handle: directory@,
            watch_subtree,
            notify_filter: FileNotifyChange::mask_of(filters@.to_set()),
            timeout_millis: crate::types::INFINITE,
            rearm_pending: false,
        }),
{
    WinNotify::new(directory, filters, watch_subtree)
}

} // verus!
