//! The signal watcher: it waits for the one coalesced signal that something
//! changed, and keeps track of the re-arming that has to follow each signal.
//!
//! The watcher never calls the operating system itself. It says what to do
//! next ([`WinNotify::next_action`]) and is told what came of it
//! ([`WinNotify::notify`] after a wait, [`WinNotify::rearmed`] after a
//! re-arm).

use crate::handle::Handle;
use crate::types::{FileNotifyChange, NotifyStatus, WaitOutcome, INFINITE};
use crate::util::{FALSE, TRUE};
use vstd::prelude::*;

verus! {

/// What the caller of a signal watcher has to do next.
#[derive(Debug, Copy, Clone, PartialEq, Eq, Structural)]
pub enum NotifyAction {
    /// Wait on the notification with the number `handle`, for at most
    /// `timeout_millis` milliseconds.
    Wait { handle: usize, timeout_millis: u32 },
    /// Re-arm the notification with the number `handle`: it was signaled
    /// and will not signal again before it is re-armed.
    Rearm { handle: usize },
}

/// What a signal watcher holds.
pub struct WinNotifyView {
    /// The number of the notification handle that the watcher owns.
    pub handle: usize,
    /// Whether the whole subtree is watched.
    pub watch_subtree: bool,
    /// The filter mask, built once from the categories asked for.
    pub notify_filter: u32,
    /// The most that one wait may take, in milliseconds.
    pub timeout_millis: u32,
    /// Whether the notification was signaled and has not been re-armed since.
    pub rearm_pending: bool,
}

/// A watcher that is woken when anything that its filter covers changes
/// under one directory. It learns that something changed, not what.
#[derive(Debug)]
pub struct WinNotify {
    handle: Handle,
    watch_subtree: bool,
    notify_filter: u32,
    timeout_millis: u32,
    rearm_pending: bool,
}

impl View for WinNotify {
    type V = WinNotifyView;

    closed spec fn view(&self) -> WinNotifyView {
        WinNotifyView {
            handle: self.handle@,
            watch_subtree: self.watch_subtree,
            notify_filter: self.notify_filter,
            timeout_millis: self.timeout_millis,
            rearm_pending: self.rearm_pending,
        }
    }
}

impl WinNotify {
    /// A watcher on the armed notification `handle`, which reports the
    /// categories in `filters` for a directory alone or for its whole
    /// subtree. It waits without limit and has nothing to re-arm.
    pub fn new(handle: Handle, filters: Box<Vec<FileNotifyChange>>, watch_subtree: bool) -> (w:
        WinNotify)
        ensures
            w@ == (WinNotifyView {
                handle: handle@,
                watch_subtree,
                notify_filter: FileNotifyChange::mask_of(filters@.to_set()),
                timeout_millis: INFINITE,
                rearm_pending: false,
            }),
    {
        WinNotify {
            handle,
            watch_subtree,
            notify_filter: FileNotifyChange::as_u32(filters),
            timeout_millis: INFINITE,
            rearm_pending: false,
        }
    }

    /// Sets the most that one wait may take: `Some` number of milliseconds,
    /// or `None` for a wait without limit.
    pub fn set_timeout(&mut self, timeout: Option<u32>)
        ensures
            final(self)@ == (WinNotifyView {
                timeout_millis: match timeout {
                    Some(millis) => millis,
                    None => INFINITE,
                },
                ..old(self)@
            }),
    {
        self.timeout_millis =
        match timeout {
            Some(millis) => millis,
            None => INFINITE,
        };
    }

    /// What to do next: re-arm the notification if it was signaled and has
    /// not been re-armed since, wait on it otherwise.
    pub fn next_action(&self) -> (action: NotifyAction)
        ensures
            action == if self@.rearm_pending {
                NotifyAction::Rearm { handle: self@.handle }
            } else {
                NotifyAction::Wait { handle: self@.handle, timeout_millis: self@.timeout_millis }
            },
    {
        if self.rearm_pending {
            NotifyAction::Rearm { handle: self.handle.as_raw() }
        } else {
            NotifyAction::Wait {
                handle: self.handle.as_raw(),
                timeout_millis: self.timeout_millis,
            }
        }
    }

    /// Judges how one wait ended and reports it. A signal means that
    /// something changed, and from then on the notification has to be
    /// re-armed; every other outcome leaves the watcher as it was.
    pub fn notify(&mut self, outcome: WaitOutcome) -> (status: NotifyStatus)
        ensures
            status@ == outcome.status_view(),
            final(self)@ == (WinNotifyView {
                rearm_pending: old(self)@.rearm_pending || outcome == WaitOutcome::Signaled,
                ..old(self)@
            }),
    {
        match outcome {
            WaitOutcome::Signaled => {
                self.rearm_pending = true;
            },
            _ => {},
        }
        outcome.to_status()
    }

    /// Takes note of how a re-arm went: after one that succeeded nothing is
    /// left to re-arm; one that failed changes nothing.
    pub fn rearmed(&mut self, success: bool)
        ensures
            final(self)@ == (WinNotifyView {
                rearm_pending: old(self)@.rearm_pending && !success,
                ..old(self)@
            }),
    {
        if success {
            self.rearm_pending = false;
        }
    }

    /// The subtree flag of this watcher as a Win32 `BOOL`.
    pub fn watch_subtree_flag(&self) -> (flag: i32)
        ensures
            flag == if self@.watch_subtree {
                TRUE
            } else {
                FALSE
            },
    {
        crate::util::from_bool(self.watch_subtree)
    }

    /// The filter mask of this watcher.
    pub fn notify_filter(&self) -> (mask: u32)
        ensures
            mask == self@.notify_filter,
    {
        self.notify_filter
    }

    /// The notification handle that the watcher owns.
    pub fn handle(&self) -> (h: &Handle)
        ensures
            h@ == self@.handle,
    {
        &self.handle
    }

    /// Ends the watch and hands the notification handle back, to be closed.
    pub fn into_handle(self) -> (h: Handle)
        ensures
            h@ == self@.handle,
    {
        self.handle
    }
}

} // verus!
