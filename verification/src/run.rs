//! The run: which operation follows which, and what ends it.
//!
//! The order is fixed. The account's identity is resolved, privileges are
//! dropped, the lock file is opened and its lock taken, the package's
//! directory is entered, the tracked files are enumerated, and then the
//! directory's entries are read one by one, each untracked one reported or
//! deleted. The first failure ends the run.

use vstd::prelude::*;
use crate::config::{Config, ConfigView, RunMode};
use crate::failure::{ErrorKind, Failure, FailureView};
use crate::index::{succeeded, tracked_names, TrackedSet};
use crate::paths::{join, joined};
use crate::protocol::{answers, failure_kind, Action, ActionView, EntryView, Event, EventView};

verus! {

/// The mathematical value of a [`Run`].
#[verifier::ext_equal]
pub struct RunView {
    pub config: ConfigView,
    /// The name of the package whose directory is cleaned.
    pub package: Seq<u8>,
    pub mode: RunMode,
    /// The package's directory, once the repository's path is resolved;
    /// empty before.
    pub target: Seq<u8>,
    /// The names that the repository tracks, once they are enumerated;
    /// empty before.
    pub names: Set<Seq<u8>>,
    /// The operation that the run waits for.
    pub pending: ActionView,
    /// Why the run was aborted, if it was.
    pub failure: Option<FailureView>,
}

/// A run before anything has happened.
pub open spec fn initial(config: ConfigView, package: Seq<u8>, mode: RunMode) -> RunView {
    RunView {
        config,
        package,
        mode,
        target: Seq::empty(),
        names: Set::empty(),
        pending: ActionView::ResolveIdentity { account: config.account },
        failure: None,
    }
}

/// What is done about an untracked entry.
pub open spec fn treatment(mode: RunMode, entry: EntryView) -> ActionView {
    match mode {
        RunMode::DryRun => ActionView::Report { entry },
        RunMode::RealRun => ActionView::Delete { entry },
    }
}

/// The run `run` with `pending` as the operation that it waits for.
pub open spec fn proceed(run: RunView, pending: ActionView) -> RunView {
    RunView { pending, ..run }
}

/// The run `run` aborted.
pub open spec fn aborted(run: RunView, failure: FailureView) -> RunView {
    RunView { pending: ActionView::Stop, failure: Some(failure), ..run }
}

/// The run that `run` becomes when `event` arrives. An event that does not
/// answer the pending operation changes nothing, and a failure aborts the
/// run. Any other answer takes the run on: from stage to stage up to the
/// listing, and then from entry to entry until the listing ends.
pub open spec fn step_model(run: RunView, event: EventView) -> RunView {
    if !answers(run.pending, event) {
        run
    } else if event is Failed {
        aborted(
            run,
            FailureView {
                kind: failure_kind(run.pending),
                code: event->code,
                detail: event->detail,
            },
        )
    } else {
        match run.pending {
            ActionView::ResolveIdentity { .. } => proceed(
                run,
                ActionView::DropPrivileges { uid: event->uid },
            ),
            ActionView::DropPrivileges { .. } => proceed(
                run,
                ActionView::ResolveLockFile { template: run.config.lock_file },
            ),
            ActionView::ResolveLockFile { .. } => proceed(
                run,
                ActionView::OpenLockFile { path: event->path },
            ),
            ActionView::OpenLockFile { .. } => proceed(
                run,
                ActionView::AcquireLock { descriptor: event->descriptor },
            ),
            ActionView::AcquireLock { .. } => proceed(
                run,
                ActionView::ResolveRepository { template: run.config.repository },
            ),
            ActionView::ResolveRepository { .. } => RunView {
                target: joined(event->path, run.package),
                pending: ActionView::EnterDirectory { path: joined(event->path, run.package) },
                ..run
            },
            ActionView::EnterDirectory { .. } => proceed(run, ActionView::EnumerateTracked),
            ActionView::EnumerateTracked => if succeeded(event->status) {
                RunView {
                    names: tracked_names(event->stdout),
                    pending: ActionView::ListDirectory { path: run.target },
                    ..run
                }
            } else {
                aborted(
                    run,
                    FailureView {
                        kind: ErrorKind::Subprocess,
                        code: event->status,
                        detail: event->stderr,
                    },
                )
            },
            ActionView::ListDirectory { .. } => proceed(run, ActionView::NextEntry),
            ActionView::NextEntry => match event {
                EventView::Entry { entry } => if run.names.contains(entry.name) {
                    run
                } else {
                    proceed(run, treatment(run.mode, entry))
                },
                _ => proceed(run, ActionView::Stop),
            },
            ActionView::Report { .. } | ActionView::Delete { .. } => proceed(
                run,
                ActionView::NextEntry,
            ),
            ActionView::Stop => run,
        }
    }
}

/// One run of the cleanup, from start-up to its end.
pub struct Run {
    config: Config,
    package: Vec<u8>,
    mode: RunMode,
    target: Vec<u8>,
    names: TrackedSet,
    pending: Action,
    failure: Option<Failure>,
}

impl View for Run {
    type V = RunView;

    closed spec fn view(&self) -> RunView {
        RunView {
            config: self.config@,
            package: self.package@,
            mode: self.mode,
            target: self.target@,
            names: self.names@,
            pending: self.pending@,
            failure: match self.failure {
                Some(failure) => Some(failure@),
                None => None,
            },
        }
    }
}

impl Run {
    /// A run for the package `package` that has not started yet. It waits
    /// for the identity of the configured account.
    pub fn new(config: Config, package: Vec<u8>, mode: RunMode) -> (run: Run)
        ensures
            run@ == initial(config@, package@, mode),
    {
        let account = config.account.clone();
        Run {
            config,
            package,
            mode,
            target: Vec::new(),
            names: TrackedSet::empty(),
            pending: Action::ResolveIdentity { account },
            failure: None,
        }
    }

    /// The operation that the run waits for.
    pub fn pending(&self) -> (action: &Action)
        ensures
            action@ == self@.pending,
    {
        &self.pending
    }

    /// Whether `event` answers the operation that the run waits for.
    pub fn accepts(&self, event: &Event) -> (fits: bool)
        ensures
            fits == answers(self@.pending, event@),
    {
        self.pending.answered_by(event)
    }

    /// Takes in what came of the pending operation and moves on to the
    /// next. An event that is no answer to the pending operation is
    /// ignored.
    pub fn step(&mut self, event: Event)
        ensures
            final(self)@ == step_model(old(self)@, event@),
    {
        if !self.pending.answered_by(&event) {
            return;
        }
        match event {
            Event::Failed { code, detail } => {
                let kind = self.pending.failure_kind();
                self.failure = Some(Failure { kind, code, detail });
                self.pending = Action::Stop;
            },
            Event::Identity { uid } => {
                self.pending = Action::DropPrivileges { uid };
            },
            Event::Path { path } => {
                if let Action::ResolveLockFile { .. } = self.pending {
                    self.pending = Action::OpenLockFile { path };
                } else {
                    let directory = join(path.as_slice(), self.package.as_slice());
                    self.pending = Action::EnterDirectory { path: directory.clone() };
                    self.target = directory;
                }
            },
            Event::Opened { descriptor } => {
                self.pending = Action::AcquireLock { descriptor };
            },
            Event::Output { status, stdout, stderr } => {
                match TrackedSet::from_enumeration(status, stdout.as_slice(), stderr) {
                    Ok(names) => {
                        self.names = names;
                        self.pending = Action::ListDirectory { path: self.target.clone() };
                    },
                    Err(failure) => {
                        self.failure = Some(failure);
                        self.pending = Action::Stop;
                    },
                }
            },
            Event::Entry { entry } => {
                if !self.names.contains(entry.name.as_slice()) {
                    self.pending = match self.mode {
                        RunMode::DryRun => Action::Report { entry },
                        RunMode::RealRun => Action::Delete { entry },
                    };
                }
            },
            Event::End => {
                self.pending = Action::Stop;
            },
            Event::Done => {
                self.pending = match self.pending {
                    Action::DropPrivileges { .. } => Action::ResolveLockFile {
                        template: self.config.lock_file.clone(),
                    },
                    Action::AcquireLock { .. } => Action::ResolveRepository {
                        template: self.config.repository.clone(),
                    },
                    Action::EnterDirectory { .. } => Action::EnumerateTracked,
                    _ => Action::NextEntry,
                };
            },
        }
    }

    /// How the run ended: `None` while it has not, `Ok` when every entry
    /// was dealt with, and the failure that aborted it otherwise.
    pub fn outcome(self) -> (outcome: Option<Result<(), Failure>>)
        ensures
            match outcome {
                None => !(self@.pending is Stop),
                Some(Ok(_)) => self@.pending is Stop && self@.failure is None,
                Some(Err(failure)) => self@.pending is Stop && self@.failure == Some(failure@),
            },
    {
        match self.pending {
            Action::Stop => match self.failure {
                Some(failure) => Some(Err(failure)),
                None => Some(Ok(())),
            },
            _ => None,
        }
    }
}

} // verus!
