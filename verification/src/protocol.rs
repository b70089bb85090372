//! What a run asks of the program around it, and what that program answers.
//!
//! A run touches nothing itself. It names one operation at a time, an
//! [`Action`]; the program performs it and hands back what came of it, an
//! [`Event`].

use vstd::prelude::*;
use vstd::string::*;
use crate::failure::ErrorKind;

verus! {

/// One immediate child of the directory that is cleaned.
#[derive(Clone, Debug, PartialEq, Eq)]
pub struct Entry {
    /// The entry's file name, as the directory holds it.
    pub name: Vec<u8>,
    /// The entry's full path.
    pub path: Vec<u8>,
}

/// The mathematical value of an [`Entry`].
pub struct EntryView {
    pub name: Seq<u8>,
    pub path: Seq<u8>,
}

impl View for Entry {
    type V = EntryView;

    open spec fn view(&self) -> EntryView {
        EntryView { name: self.name@, path: self.path@ }
    }
}

/// The operation that a run waits for.
#[derive(Clone, Debug, PartialEq, Eq)]
pub enum Action {
    /// Look up the numeric identity of the account.
    ResolveIdentity { account: String },
    /// Switch the process to the identity, for good.
    DropPrivileges { uid: u32 },
    /// Resolve the path of the lock file.
    ResolveLockFile { template: String },
    /// Open the lock file, which must exist, and keep it open.
    OpenLockFile { path: Vec<u8> },
    /// Wait for the exclusive lock on the open lock file.
    AcquireLock { descriptor: i32 },
    /// Resolve the path of the repository.
    ResolveRepository { template: String },
    /// Make the directory the working directory.
    EnterDirectory { path: Vec<u8> },
    /// Run the enumeration of tracked files in the working directory.
    EnumerateTracked,
    /// Open the listing of the directory.
    ListDirectory { path: Vec<u8> },
    /// Read the next entry of the listing.
    NextEntry,
    /// Print the advisory for the entry and leave it alone.
    Report { entry: Entry },
    /// Print the advisory for the entry and start its recursive deletion.
    Delete { entry: Entry },
    /// Nothing more: the run has ended.
    Stop,
}

/// The mathematical value of an [`Action`].
pub enum ActionView {
    ResolveIdentity { account: Seq<char> },
    DropPrivileges { uid: u32 },
    ResolveLockFile { template: Seq<char> },
    OpenLockFile { path: Seq<u8> },
    AcquireLock { descriptor: i32 },
    ResolveRepository { template: Seq<char> },
    EnterDirectory { path: Seq<u8> },
    EnumerateTracked,
    ListDirectory { path: Seq<u8> },
    NextEntry,
    Report { entry: EntryView },
    Delete { entry: EntryView },
    Stop,
}

impl View for Action {
    type V = ActionView;

    open spec fn view(&self) -> ActionView {
        match *self {
            Action::ResolveIdentity { account } => ActionView::ResolveIdentity { account: account@ },
            Action::DropPrivileges { uid } => ActionView::DropPrivileges { uid },
            Action::ResolveLockFile { template } => ActionView::ResolveLockFile {
                template: template@,
            },
            Action::OpenLockFile { path } => ActionView::OpenLockFile { path: path@ },
            Action::AcquireLock { descriptor } => ActionView::AcquireLock { descriptor },
            Action::ResolveRepository { template } => ActionView::ResolveRepository {
                template: template@,
            },
            Action::EnterDirectory { path } => ActionView::EnterDirectory { path: path@ },
            Action::EnumerateTracked => ActionView::EnumerateTracked,
            Action::ListDirectory { path } => ActionView::ListDirectory { path: path@ },
            Action::NextEntry => ActionView::NextEntry,
            Action::Report { entry } => ActionView::Report { entry: entry@ },
            Action::Delete { entry } => ActionView::Delete { entry: entry@ },
            Action::Stop => ActionView::Stop,
        }
    }
}

/// What came of the operation that a run waited for.
#[derive(Clone, Debug, PartialEq, Eq)]
pub enum Event {
    /// The operation succeeded and has nothing to hand back.
    Done,
    /// The account has this numeric identity.
    Identity { uid: u32 },
    /// The path resolved to this.
    Path { path: Vec<u8> },
    /// The file is open under this descriptor.
    Opened { descriptor: i32 },
    /// The enumeration ran and ended: its exit status, unless a signal ended
    /// it, and what it wrote to its standard output and standard error.
    Output { status: Option<i32>, stdout: Vec<u8>, stderr: Vec<u8> },
    /// The listing yielded this entry.
    Entry { entry: Entry },
    /// The listing has no more entries.
    End,
    /// The operation failed, with the error number where the operating
    /// system gave one, and a message.
    Failed { code: Option<i32>, detail: Vec<u8> },
}

/// The mathematical value of an [`Event`].
pub enum EventView {
    Done,
    Identity { uid: u32 },
    Path { path: Seq<u8> },
    Opened { descriptor: i32 },
    Output { status: Option<i32>, stdout: Seq<u8>, stderr: Seq<u8> },
    Entry { entry: EntryView },
    End,
    Failed { code: Option<i32>, detail: Seq<u8> },
}

impl View for Event {
    type V = EventView;

    open spec fn view(&self) -> EventView {
        match *self {
            Event::Done => EventView::Done,
            Event::Identity { uid } => EventView::Identity { uid },
            Event::Path { path } => EventView::Path { path: path@ },
            Event::Opened { descriptor } => EventView::Opened { descriptor },
            Event::Output { status, stdout, stderr } => EventView::Output {
                status,
                stdout: stdout@,
                stderr: stderr@,
            },
            Event::Entry { entry } => EventView::Entry { entry: entry@ },
            Event::End => EventView::End,
            Event::Failed { code, detail } => EventView::Failed { code, detail: detail@ },
        }
    }
}

/// Whether `event` is an answer to `action`. Every operation can fail;
/// besides that each has its own answers. Nothing answers `Stop`.
pub open spec fn answers(action: ActionView, event: EventView) -> bool {
    match action {
        ActionView::Stop => false,
        ActionView::ResolveIdentity { .. } => event is Identity || event is Failed,
        ActionView::ResolveLockFile { .. } | ActionView::ResolveRepository { .. } => event is Path
            || event is Failed,
        ActionView::OpenLockFile { .. } => event is Opened || event is Failed,
        ActionView::EnumerateTracked => event is Output || event is Failed,
        ActionView::NextEntry => event is Entry || event is End || event is Failed,
        ActionView::DropPrivileges { .. }
        | ActionView::AcquireLock { .. }
        | ActionView::EnterDirectory { .. }
        | ActionView::ListDirectory { .. }
        | ActionView::Report { .. }
        | ActionView::Delete { .. } => event is Done || event is Failed,
    }
}

/// The kind of failure that a failed `action` is.
pub open spec fn failure_kind(action: ActionView) -> ErrorKind {
    match action {
        ActionView::ResolveIdentity { .. } => ErrorKind::Lookup,
        ActionView::DropPrivileges { .. } => ErrorKind::Privilege,
        ActionView::OpenLockFile { .. } | ActionView::AcquireLock { .. } => ErrorKind::Lock,
        ActionView::EnumerateTracked => ErrorKind::Subprocess,
        _ => ErrorKind::Io,
    }
}

/// How the advisory for an entry that is only reported starts.
pub const REPORT_PREFIX: &'static str = "Would rm -rf ";

/// How the advisory for an entry that is deleted starts.
pub const DELETE_PREFIX: &'static str = "rm -rf ";

/// The line that `action` has printed: for an entry that is reported or
/// deleted the prefix of the mode and the entry's full path, and none for
/// any other action.
pub open spec fn advisory(action: ActionView) -> Option<Seq<u8>> {
    match action {
        ActionView::Report { entry } => Some(REPORT_PREFIX.spec_bytes() + entry.path),
        ActionView::Delete { entry } => Some(DELETE_PREFIX.spec_bytes() + entry.path),
        _ => None,
    }
}

impl Action {
    /// Whether `event` is an answer to this action.
    pub fn answered_by(&self, event: &Event) -> (fits: bool)
        ensures
            fits == answers(self@, event@),
    {
        if let Action::Stop = self {
            return false;
        }
        if let Event::Failed { .. } = event {
            return true;
        }
        match self {
            Action::ResolveIdentity { .. } => matches!(event, Event::Identity { .. }),
            Action::ResolveLockFile { .. } | Action::ResolveRepository { .. } => matches!(
                event,
                Event::Path { .. }
            ),
            Action::OpenLockFile { .. } => matches!(event, Event::Opened { .. }),
            Action::EnumerateTracked => matches!(event, Event::Output { .. }),
            Action::NextEntry => matches!(event, Event::Entry { .. } | Event::End),
            _ => matches!(event, Event::Done),
        }
    }

    /// The kind of failure that this action is when it fails.
    pub fn failure_kind(&self) -> (kind: ErrorKind)
        ensures
            kind == failure_kind(self@),
    {
        match self {
            Action::ResolveIdentity { .. } => ErrorKind::Lookup,
            Action::DropPrivileges { .. } => ErrorKind::Privilege,
            Action::OpenLockFile { .. } | Action::AcquireLock { .. } => ErrorKind::Lock,
            Action::EnumerateTracked => ErrorKind::Subprocess,
            _ => ErrorKind::Io,
        }
    }

    /// The line to print for this action, without a line end.
    pub fn advisory(&self) -> (line: Option<Vec<u8>>)
        ensures
            match line {
                Some(bytes) => advisory(self@) == Some(bytes@),
                None => advisory(self@) is None,
            },
    {
        match self {
            Action::Report { entry } => {
                let mut line = REPORT_PREFIX.as_bytes_vec();
                line.extend_from_slice(entry.path.as_slice());
                Some(line)
            },
            Action::Delete { entry } => {
                let mut line = DELETE_PREFIX.as_bytes_vec();
                line.extend_from_slice(entry.path.as_slice());
                Some(line)
            },
            _ => None,
        }
    }
}

} // verus!
