//! The vocabulary shared by both watchers: change categories and the filter
//! mask built from them, the actions a change record can report, and the
//! outcome of one wait for a change signal.

use crate::errors::{os_failure_description, os_failure_text, DecodeError};
use vstd::prelude::*;

verus! {

/// A category of change that a watcher can ask the operating system to report.
#[derive(Debug, Copy, Clone, PartialEq, Eq, Structural)]
pub enum FileNotifyChange {
    FileName,
    DirName,
    Attributes,
    Size,
    LastWrite,
    LastAccess,
    Creation,
    Security,
}

impl FileNotifyChange {
    /// The bit that stands for this category in a filter mask.
    pub open spec fn tag_spec(self) -> u32 {
        match self {
            FileNotifyChange::FileName => 0x0000_0001u32,
            FileNotifyChange::DirName => 0x0000_0002u32,
            FileNotifyChange::Attributes => 0x0000_0004u32,
            FileNotifyChange::Size => 0x0000_0008u32,
            FileNotifyChange::LastWrite => 0x0000_0010u32,
            FileNotifyChange::LastAccess => 0x0000_0020u32,
            FileNotifyChange::Creation => 0x0000_0040u32,
            FileNotifyChange::Security => 0x0000_0100u32,
        }
    }

    /// What the category `c` contributes to the mask of `members`: its tag if
    /// it is a member, nothing otherwise.
    pub open spec fn contribution(members: Set<FileNotifyChange>, c: FileNotifyChange) -> u32 {
        if members.contains(c) {
            c.tag_spec()
        } else {
            0u32
        }
    }

    /// The filter mask of a set of categories: the bitwise OR of the tags of
    /// its members.
    pub open spec fn mask_of(members: Set<FileNotifyChange>) -> u32 {
        Self::contribution(members, FileNotifyChange::FileName)
            | Self::contribution(members, FileNotifyChange::DirName)
            | Self::contribution(members, FileNotifyChange::Attributes)
            | Self::contribution(members, FileNotifyChange::Size)
            | Self::contribution(members, FileNotifyChange::LastWrite)
            | Self::contribution(members, FileNotifyChange::LastAccess)
            | Self::contribution(members, FileNotifyChange::Creation)
            | Self::contribution(members, FileNotifyChange::Security)
    }

    /// The bit that stands for this category in a filter mask.
    #[verifier::when_used_as_spec(tag_spec)]
    pub fn tag(self) -> (r: u32)
        ensures
            r == self.tag_spec(),
    {
        match self {
            FileNotifyChange::FileName => 0x0000_0001,
            FileNotifyChange::DirName => 0x0000_0002,
            FileNotifyChange::Attributes => 0x0000_0004,
            FileNotifyChange::Size => 0x0000_0008,
            FileNotifyChange::LastWrite => 0x0000_0010,
            FileNotifyChange::LastAccess => 0x0000_0020,
            FileNotifyChange::Creation => 0x0000_0040,
            FileNotifyChange::Security => 0x0000_0100,
        }
    }

    /// Adding a category to a set ORs its tag into the mask.
    pub proof fn lemma_mask_insert(members: Set<FileNotifyChange>, c: FileNotifyChange)
        ensures
            Self::mask_of(members.insert(c)) == Self::mask_of(members) | c.tag_spec(),
    {
        let b1 = Self::contribution(members, FileNotifyChange::FileName);
        let b2 = Self::contribution(members, FileNotifyChange::DirName);
        let b3 = Self::contribution(members, FileNotifyChange::Attributes);
        let b4 = Self::contribution(members, FileNotifyChange::Size);
        let b5 = Self::contribution(members, FileNotifyChange::LastWrite);
        let b6 = Self::contribution(members, FileNotifyChange::LastAccess);
        let b7 = Self::contribution(members, FileNotifyChange::Creation);
        let b8 = Self::contribution(members, FileNotifyChange::Security);
        let t = c.tag_spec();
        match c {
            FileNotifyChange::FileName => {
                assert((t | b2 | b3 | b4 | b5 | b6 | b7 | b8) == (b1 | b2 | b3 | b4 | b5 | b6 | b7
                    | b8) | t) by (bit_vector)
                    requires
                        b1 == 0 || b1 == t,
                ;
            },
            FileNotifyChange::DirName => {
                assert((b1 | t | b3 | b4 | b5 | b6 | b7 | b8) == (b1 | b2 | b3 | b4 | b5 | b6 | b7
                    | b8) | t) by (bit_vector)
                    requires
                        b2 == 0 || b2 == t,
                ;
            },
            FileNotifyChange::Attributes => {
                assert((b1 | b2 | t | b4 | b5 | b6 | b7 | b8) == (b1 | b2 | b3 | b4 | b5 | b6 | b7
                    | b8) | t) by (bit_vector)
                    requires
                        b3 == 0 || b3 == t,
                ;
            },
            FileNotifyChange::Size => {
                assert((b1 | b2 | b3 | t | b5 | b6 | b7 | b8) == (b1 | b2 | b3 | b4 | b5 | b6 | b7
                    | b8) | t) by (bit_vector)
                    requires
                        b4 == 0 || b4 == t,
                ;
            },
            FileNotifyChange::LastWrite => {
                assert((b1 | b2 | b3 | b4 | t | b6 | b7 | b8) == (b1 | b2 | b3 | b4 | b5 | b6 | b7
                    | b8) | t) by (bit_vector)
                    requires
                        b5 == 0 || b5 == t,
                ;
            },
            FileNotifyChange::LastAccess => {
                assert((b1 | b2 | b3 | b4 | b5 | t | b7 | b8) == (b1 | b2 | b3 | b4 | b5 | b6 | b7
                    | b8) | t) by (bit_vector)
                    requires
                        b6 == 0 || b6 == t,
                ;
            },
            FileNotifyChange::Creation => {
                assert((b1 | b2 | b3 | b4 | b5 | b6 | t | b8) == (b1 | b2 | b3 | b4 | b5 | b6 | b7
                    | b8) | t) by (bit_vector)
                    requires
                        b7 == 0 || b7 == t,
                ;
            },
            FileNotifyChange::Security => {
                assert((b1 | b2 | b3 | b4 | b5 | b6 | b7 | t) == (b1 | b2 | b3 | b4 | b5 | b6 | b7
                    | b8) | t) by (bit_vector)
                    requires
                        b8 == 0 || b8 == t,
                ;
            },
        }
    }

    /// The mask of the empty set has no bit set.
    pub proof fn lemma_mask_empty()
        ensures
            Self::mask_of(Set::<FileNotifyChange>::empty()) == 0,
    {
        assert((0u32 | 0u32 | 0u32 | 0u32 | 0u32 | 0u32 | 0u32 | 0u32) == 0u32) by (bit_vector);
    }

    /// A filter list yields the same mask as any other list with the same
    /// members, whatever their order and however often each one occurs.
    pub proof fn lemma_mask_ignores_order_and_duplicates(
        a: Seq<FileNotifyChange>,
        b: Seq<FileNotifyChange>,
    )
        requires
            forall|c: FileNotifyChange| a.contains(c) <==> b.contains(c),
        ensures
            Self::mask_of(a.to_set()) == Self::mask_of(b.to_set()),
    {
        assert(a.to_set() =~= b.to_set());
    }

    /// A category's bit is set in the mask of a set exactly when the category
    /// is a member, and no other bit is ever set.
    pub proof fn lemma_mask_bits(members: Set<FileNotifyChange>, c: FileNotifyChange)
        ensures
            Self::mask_of(members) & c.tag_spec() == (if members.contains(c) {
                c.tag_spec()
            } else {
                0u32
            }),
            Self::mask_of(members) & !0x0000_017Fu32 == 0,
    {
        let b1 = Self::contribution(members, FileNotifyChange::FileName);
        let b2 = Self::contribution(members, FileNotifyChange::DirName);
        let b3 = Self::contribution(members, FileNotifyChange::Attributes);
        let b4 = Self::contribution(members, FileNotifyChange::Size);
        let b5 = Self::contribution(members, FileNotifyChange::LastWrite);
        let b6 = Self::contribution(members, FileNotifyChange::LastAccess);
        let b7 = Self::contribution(members, FileNotifyChange::Creation);
        let b8 = Self::contribution(members, FileNotifyChange::Security);
        let m = b1 | b2 | b3 | b4 | b5 | b6 | b7 | b8;
        assert(m & 0x01u32 == b1 && m & 0x02u32 == b2 && m & 0x04u32 == b3 && m & 0x08u32 == b4 && m
            & 0x10u32 == b5 && m & 0x20u32 == b6 && m & 0x40u32 == b7 && m & 0x100u32 == b8 && m
            & !0x0000_017Fu32 == 0) by (bit_vector)
            requires
                m == b1 | b2 | b3 | b4 | b5 | b6 | b7 | b8,
                b1 == 0 || b1 == 0x01u32,
                b2 == 0 || b2 == 0x02u32,
                b3 == 0 || b3 == 0x04u32,
                b4 == 0 || b4 == 0x08u32,
                b5 == 0 || b5 == 0x10u32,
                b6 == 0 || b6 == 0x20u32,
                b7 == 0 || b7 == 0x40u32,
                b8 == 0 || b8 == 0x100u32,
        ;
    }

    /// Builds the filter mask of a list of categories.
    pub fn as_u32(filters: Box<Vec<FileNotifyChange>>) -> (r: u32)
        ensures
            r == Self::mask_of(filters@.to_set()),
    {
        let mut result: u32 = 0;
        let mut i: usize = 0;
        proof {
            Self::lemma_mask_empty();
            assert(filters@.take(0).to_set() =~= Set::<FileNotifyChange>::empty());
        }
        while i < filters.len()
            invariant
                i <= filters.len(),
                result == Self::mask_of(filters@.take(i as int).to_set()),
            decreases filters.len() - i,
        {
            let f: FileNotifyChange = filters[i];
            proof {
                let before = filters@.take(i as int);
                assert(filters@.take(i + 1) =~= before.push(f));
                before.lemma_push_to_set_commute(f);
                Self::lemma_mask_insert(before.to_set(), f);
            }
            result = result | f.tag();
            i = i + 1;
        }
        assert(filters@.take(i as int) =~= filters@);
        result
    }
}

/// What happened to the entry that a change record names.
#[derive(Debug, Copy, Clone, PartialEq, Eq, Structural)]
pub enum FileAction {
    FileAdded,
    FileRemoved,
    FileModified,
    FileRenamedOldName,
    FileRenamedNewName,
}

impl FileAction {
    /// The action that a raw code stands for, if it stands for one.
    pub open spec fn of_code(value: u32) -> Option<FileAction> {
        if value == 1 {
            Some(FileAction::FileAdded)
        } else if value == 2 {
            Some(FileAction::FileRemoved)
        } else if value == 3 {
            Some(FileAction::FileModified)
        } else if value == 4 {
            Some(FileAction::FileRenamedOldName)
        } else if value == 5 {
            Some(FileAction::FileRenamedNewName)
        } else {
            None
        }
    }

    /// The raw code that stands for this action.
    pub open spec fn code_spec(self) -> u32 {
        match self {
            FileAction::FileAdded => 1u32,
            FileAction::FileRemoved => 2u32,
            FileAction::FileModified => 3u32,
            FileAction::FileRenamedOldName => 4u32,
            FileAction::FileRenamedNewName => 5u32,
        }
    }

    /// The name of this action, as it is shown to a reader.
    pub open spec fn name(self) -> Seq<char> {
        match self {
            FileAction::FileAdded => "FileAdded"@,
            FileAction::FileRemoved => "FileRemoved"@,
            FileAction::FileModified => "FileModified"@,
            FileAction::FileRenamedOldName => "FileRenamedOldName"@,
            FileAction::FileRenamedNewName => "FileRenamedNewName"@,
        }
    }

    /// Maps a raw action code to its action. The codes 1 to 5 each stand for
    /// one action; every other value is refused.
    pub fn from_u32(value: u32) -> (r: Result<FileAction, DecodeError>)
        ensures
            r == match Self::of_code(value) {
                Some(action) => Ok::<FileAction, DecodeError>(action),
                None => Err::<FileAction, DecodeError>(DecodeError::UnknownActionCode),
            },
            r is Ok <==> 1 <= value <= 5,
    {
        match value {
            1 => Ok(FileAction::FileAdded),
            2 => Ok(FileAction::FileRemoved),
            3 => Ok(FileAction::FileModified),
            4 => Ok(FileAction::FileRenamedOldName),
            5 => Ok(FileAction::FileRenamedNewName),
            _ => Err(DecodeError::UnknownActionCode),
        }
    }

    /// The raw code that stands for this action.
    #[verifier::when_used_as_spec(code_spec)]
    pub fn code(self) -> (r: u32)
        ensures
            r == self.code_spec(),
    {
        match self {
            FileAction::FileAdded => 1,
            FileAction::FileRemoved => 2,
            FileAction::FileModified => 3,
            FileAction::FileRenamedOldName => 4,
            FileAction::FileRenamedNewName => 5,
        }
    }

    /// The name of this action as text.
    pub fn to_string(self) -> (s: String)
        ensures
            s@ == self.name(),
    {
        match self {
            FileAction::FileAdded => "FileAdded".to_owned(),
            FileAction::FileRemoved => "FileRemoved".to_owned(),
            FileAction::FileModified => "FileModified".to_owned(),
            FileAction::FileRenamedOldName => "FileRenamedOldName".to_owned(),
            FileAction::FileRenamedNewName => "FileRenamedNewName".to_owned(),
        }
    }

    /// Codes and actions correspond one to one: exactly the codes 1 to 5 stand
    /// for an action, each action has one of them, and mapping there and back
    /// changes nothing.
    pub proof fn lemma_codes_correspond(value: u32, action: FileAction)
        ensures
            Self::of_code(value) is Some <==> 1 <= value <= 5,
            Self::of_code(value) matches Some(a) ==> a.code_spec() == value,
            1 <= action.code_spec() <= 5,
            Self::of_code(action.code_spec()) == Some(action),
    {
    }
}

/// How one wait for a change signal ended.
#[derive(Debug, Clone, PartialEq, Eq)]
pub enum NotifyStatus {
    /// Something that the filter covers changed under the watched directory.
    Changed,
    /// The wait was abandoned.
    Abandoned,
    /// The time allowed for the wait ran out before anything changed.
    TimedOut,
    /// The wait itself failed; the text describes the failure.
    Failed(String),
}

/// What a [`NotifyStatus`] holds.
pub enum NotifyStatusView {
    Changed,
    Abandoned,
    TimedOut,
    Failed(Seq<char>),
}

impl View for NotifyStatus {
    type V = NotifyStatusView;

    open spec fn view(&self) -> NotifyStatusView {
        match self {
            NotifyStatus::Changed => NotifyStatusView::Changed,
            NotifyStatus::Abandoned => NotifyStatusView::Abandoned,
            NotifyStatus::TimedOut => NotifyStatusView::TimedOut,
            NotifyStatus::Failed(description) => NotifyStatusView::Failed(description@),
        }
    }
}

/// What the operating system reported at the end of one wait on a change
/// notification.
#[derive(Debug, Copy, Clone, PartialEq, Eq, Structural)]
pub enum WaitOutcome {
    /// The notification was signaled.
    Signaled,
    /// The wait was abandoned.
    Abandoned,
    /// The time allowed for the wait ran out.
    TimedOut,
    /// The wait failed and left the error code `error_code`.
    Failed { error_code: u32 },
}

/// The status of a wait that the system reports for a signaled notification.
pub const WAIT_OBJECT_0: u32 = 0x0000_0000;

/// The status of a wait that the system reports for an abandoned wait.
pub const WAIT_ABANDONED: u32 = 0x0000_0080;

/// The status of a wait that the system reports when the time ran out.
pub const WAIT_TIMEOUT: u32 = 0x0000_0102;

/// The status of a wait that the system reports for a wait that failed.
pub const WAIT_FAILED: u32 = 0xFFFF_FFFF;

/// The time in milliseconds that stands for a wait without limit.
pub const INFINITE: u32 = 0xFFFF_FFFF;

impl WaitOutcome {
    /// The outcome that the raw status of a wait stands for, if it stands for
    /// one; `last_error` is the system's error code right after the wait and
    /// counts only where the wait failed.
    pub open spec fn of_status(status: u32, last_error: u32) -> Option<WaitOutcome> {
        if status == WAIT_OBJECT_0 {
            Some(WaitOutcome::Signaled)
        } else if status == WAIT_ABANDONED {
            Some(WaitOutcome::Abandoned)
        } else if status == WAIT_TIMEOUT {
            Some(WaitOutcome::TimedOut)
        } else if status == WAIT_FAILED {
            Some(WaitOutcome::Failed { error_code: last_error })
        } else {
            None
        }
    }

    /// Reads the raw status of a wait. Returns `None` for a status that is
    /// none of the four that a wait on one object can end with.
    pub fn from_status(status: u32, last_error: u32) -> (r: Option<WaitOutcome>)
        ensures
            r == Self::of_status(status, last_error),
    {
        if status == WAIT_OBJECT_0 {
            Some(WaitOutcome::Signaled)
        } else if status == WAIT_ABANDONED {
            Some(WaitOutcome::Abandoned)
        } else if status == WAIT_TIMEOUT {
            Some(WaitOutcome::TimedOut)
        } else if status == WAIT_FAILED {
            Some(WaitOutcome::Failed { error_code: last_error })
        } else {
            None
        }
    }

    /// The status that a watcher reports for this outcome.
    pub open spec fn status_view(self) -> NotifyStatusView {
        match self {
            WaitOutcome::Signaled => NotifyStatusView::Changed,
            WaitOutcome::Abandoned => NotifyStatusView::Abandoned,
            WaitOutcome::TimedOut => NotifyStatusView::TimedOut,
            WaitOutcome::Failed { error_code } => NotifyStatusView::Failed(
                os_failure_text(error_code),
            ),
        }
    }

    /// The status that a watcher reports for this outcome. A failed wait is
    /// reported with a description that carries the system's error code.
    pub fn to_status(self) -> (status: NotifyStatus)
        ensures
            status@ == self.status_view(),
    {
        match self {
            WaitOutcome::Signaled => NotifyStatus::Changed,
            WaitOutcome::Abandoned => NotifyStatus::Abandoned,
            WaitOutcome::TimedOut => NotifyStatus::TimedOut,
            WaitOutcome::Failed { error_code } => NotifyStatus::Failed(
                os_failure_description(error_code),
            ),
        }
    }
}

} // verus!
