//! The order of a run: no stage is reached before the one before it has
//! succeeded, and the first failure ends everything.

use vstd::prelude::*;
use crate::config::{ConfigView, RunMode};
use crate::failure::{ErrorKind, FailureView};
use crate::index::{succeeded, tracked_names};
use crate::paths::joined;
use crate::protocol::{answers, failure_kind, ActionView, EventView};
use crate::run::{initial, step_model, RunView};
use crate::trace::{pending_at, state_after};

verus! {

/// How far a run that waits for `action` has come. Reading entries,
/// reporting and deleting are one stage.
pub open spec fn stage(action: ActionView) -> nat {
    match action {
        ActionView::ResolveIdentity { .. } => 0,
        ActionView::DropPrivileges { .. } => 1,
        ActionView::ResolveLockFile { .. } => 2,
        ActionView::OpenLockFile { .. } => 3,
        ActionView::AcquireLock { .. } => 4,
        ActionView::ResolveRepository { .. } => 5,
        ActionView::EnterDirectory { .. } => 6,
        ActionView::EnumerateTracked => 7,
        ActionView::ListDirectory { .. } => 8,
        ActionView::NextEntry => 9,
        ActionView::Report { .. } => 9,
        ActionView::Delete { .. } => 9,
        ActionView::Stop => 10,
    }
}

/// Whether `event` tells a run that waits for `action` that the operation
/// succeeded: it answers the action, is no failure, and, where it is the
/// output of the enumeration, comes with the exit status zero.
pub open spec fn succeeds(action: ActionView, event: EventView) -> bool {
    &&& answers(action, event)
    &&& !(event is Failed)
    &&& event matches EventView::Output { status, .. } ==> succeeded(status)
}

/// Whether `action` opens, enters, lists or changes anything in the file
/// system, or prepares to: every operation but the lookup of the account
/// and the switch of identity.
pub open spec fn touches_files(action: ActionView) -> bool {
    !(action is ResolveIdentity || action is DropPrivileges || action is Stop)
}

/// Whether `action` works on the package's directory, or prepares to:
/// every operation that follows the lock.
pub open spec fn works_on_directory(action: ActionView) -> bool {
    ||| action is ResolveRepository
    ||| action is EnterDirectory
    ||| action is EnumerateTracked
    ||| action is ListDirectory
    ||| action is NextEntry
    ||| action is Report
    ||| action is Delete
}

/// Whether, in the course of `events`, the run asked to drop privileges
/// and was told that it was done.
pub open spec fn privileges_dropped(start: RunView, events: Seq<EventView>) -> bool {
    exists|i: int|
        0 <= i < events.len() && #[trigger] pending_at(start, events, i) is DropPrivileges
            && events[i] is Done
}

/// Whether, in the course of `events`, the run asked for the lock and was
/// told that it was granted.
pub open spec fn lock_granted(start: RunView, events: Seq<EventView>) -> bool {
    exists|i: int|
        0 <= i < events.len() && #[trigger] pending_at(start, events, i) is AcquireLock
            && events[i] is Done
}

/// Whether, in the course of `events`, the run asked for the enumeration
/// and was handed the output `stdout` of a successful one.
pub open spec fn enumerated(start: RunView, events: Seq<EventView>, stdout: Seq<u8>) -> bool {
    exists|i: int|
        0 <= i < events.len() && #[trigger] pending_at(start, events, i) is EnumerateTracked
            && succeeds(ActionView::EnumerateTracked, events[i]) && events[i]->stdout == stdout
}

/// Whether, in the course of `events`, the run asked for the repository's
/// path and was handed `repository`.
pub open spec fn resolved(start: RunView, events: Seq<EventView>, repository: Seq<u8>) -> bool {
    exists|i: int|
        0 <= i < events.len() && #[trigger] pending_at(start, events, i) is ResolveRepository
            && events[i] == (EventView::Path { path: repository })
}

/// A step leaves a run at its stage, takes it to the next, or ends it. It
/// takes a run to the next stage exactly when the operation succeeded, and
/// a failure ends it.
proof fn lemma_step_advances(run: RunView, event: EventView)
    ensures
        ({
            let before = stage(run.pending);
            let after = stage(step_model(run, event).pending);
            &&& after == before || after == before + 1 || after == 10
            &&& before < 9 ==> (after == before + 1 <==> succeeds(run.pending, event))
            &&& before < 10 && event is Failed ==> after == 10
        }),
{
}

/// A run never goes back. Of two points in a course of events, the later
/// one finds the run at the same stage as the earlier one or beyond it: what
/// is done, the switch of identity above all, is not done again or undone.
pub proof fn lemma_stages_ascend(start: RunView, events: Seq<EventView>, i: int, j: int)
    requires
        0 <= i <= j <= events.len(),
    ensures
        stage(pending_at(start, events, i)) <= stage(pending_at(start, events, j)),
    decreases j - i,
{
    if i < j {
        lemma_stages_ascend(start, events, i, j - 1);
        assert(events.take(j).drop_last() == events.take(j - 1));
        lemma_step_advances(state_after(start, events.take(j - 1)), events.take(j).last());
    }
}

/// No stage is skipped, and each is left by success alone. A run that
/// has come beyond a stage, and has not stopped, was at that stage at some
/// point of the course, and the event that arrived there told it that the
/// operation had succeeded.
pub proof fn lemma_stages_in_turn(start: RunView, events: Seq<EventView>, passed: nat) -> (i: int)
    requires
        stage(start.pending) <= passed < stage(state_after(start, events).pending) < 10,
    ensures
        0 <= i < events.len(),
        stage(pending_at(start, events, i)) == passed,
        succeeds(pending_at(start, events, i), events[i]),
    decreases events.len(),
{
    let before = state_after(start, events.drop_last());
    lemma_step_advances(before, events.last());
    if passed < stage(before.pending) {
        let i = lemma_stages_in_turn(start, events.drop_last(), passed);
        assert(events.drop_last().take(i) == events.take(i));
        i
    } else {
        events.len() - 1
    }
}

/// The first failure ends the run. Where an operation is answered by a
/// failure, the run has stopped from then on, whatever arrives, and its
/// failure is of the kind of that operation, with the code and the message
/// of the answer.
pub proof fn lemma_failure_is_final(start: RunView, events: Seq<EventView>, i: int)
    requires
        0 <= i < events.len(),
        !(pending_at(start, events, i) is Stop),
        events[i] is Failed,
    ensures
        state_after(start, events).pending is Stop,
        state_after(start, events).failure == Some(
            FailureView {
                kind: failure_kind(pending_at(start, events, i)),
                code: events[i]->code,
                detail: events[i]->detail,
            },
        ),
        state_after(start, events) == state_after(start, events.take(i + 1)),
    decreases events.len(),
{
    if i + 1 == events.len() {
        assert(events.take(i + 1) == events);
    } else {
        assert(events.drop_last().take(i) == events.take(i));
        assert(events.drop_last().take(i + 1) == events.take(i + 1));
        lemma_failure_is_final(start, events.drop_last(), i);
    }
}

/// A failure keeps every later stage from being reached. Where an
/// operation is answered by a failure, the run is at no point of the course
/// at a later stage than that of the failed operation, unless stopped.
pub proof fn lemma_failure_bars_later_stages(
    start: RunView,
    events: Seq<EventView>,
    i: int,
    j: int,
)
    requires
        0 <= i < events.len(),
        0 <= j <= events.len(),
        !(pending_at(start, events, i) is Stop),
        events[i] is Failed,
    ensures
        stage(pending_at(start, events, j)) <= stage(pending_at(start, events, i)) || pending_at(
            start,
            events,
            j,
        ) is Stop,
{
    if j <= i {
        lemma_stages_ascend(start, events, j, i);
    } else {
        lemma_step_advances(state_after(start, events.take(i)), events[i]);
        lemma_stages_ascend(start, events, i + 1, j);
    }
}

/// No file is touched before privileges are dropped. A run from the start
/// asks for an operation on the file system only after it has asked to drop
/// privileges and has been told that it was done.
pub proof fn lemma_privileges_dropped_first(
    config: ConfigView,
    package: Seq<u8>,
    mode: RunMode,
    events: Seq<EventView>,
)
    ensures
        touches_files(state_after(initial(config, package, mode), events).pending)
            ==> privileges_dropped(initial(config, package, mode), events),
{
    let start = initial(config, package, mode);
    if touches_files(state_after(start, events).pending) {
        lemma_stages_in_turn(start, events, 1);
    }
}

/// A rejected switch of identity ends everything. Where the request to drop
/// privileges is answered by a failure, the run from the start asks for no
/// operation on the file system, neither before nor after, and ends with a
/// failure of the kind `Privilege`.
pub proof fn lemma_privilege_failure_is_fatal(
    config: ConfigView,
    package: Seq<u8>,
    mode: RunMode,
    events: Seq<EventView>,
    i: int,
)
    requires
        0 <= i < events.len(),
        pending_at(initial(config, package, mode), events, i) is DropPrivileges,
        events[i] is Failed,
    ensures
        forall|j: int|
            0 <= j <= events.len() ==> !touches_files(
                #[trigger] pending_at(initial(config, package, mode), events, j),
            ),
        state_after(initial(config, package, mode), events).pending is Stop,
        state_after(initial(config, package, mode), events).failure matches Some(failure)
            && failure.kind == ErrorKind::Privilege,
{
    let start = initial(config, package, mode);
    assert forall|j: int| 0 <= j <= events.len() implies !touches_files(
        #[trigger] pending_at(start, events, j),
    ) by {
        lemma_failure_bars_later_stages(start, events, i, j);
    }
    lemma_failure_is_final(start, events, i);
}

/// The directory is worked on only under the lock. A run from the start
/// asks for an operation on the package's directory (to enter or list it,
/// to enumerate what the repository tracks, to report or delete an entry)
/// only after it has asked for the lock and has been told that it was
/// granted.
pub proof fn lemma_lock_held_first(
    config: ConfigView,
    package: Seq<u8>,
    mode: RunMode,
    events: Seq<EventView>,
)
    ensures
        works_on_directory(state_after(initial(config, package, mode), events).pending)
            ==> lock_granted(initial(config, package, mode), events),
{
    let start = initial(config, package, mode);
    if works_on_directory(state_after(start, events).pending) {
        lemma_stages_in_turn(start, events, 4);
    }
}

/// Without the lock nothing happens to the directory. Where the lock file
/// cannot be opened, or the request for its lock is answered by a failure,
/// the run from the start asks for no operation on the package's directory,
/// neither before nor after, and ends with a failure of the kind `Lock`.
pub proof fn lemma_lock_failure_is_fatal(
    config: ConfigView,
    package: Seq<u8>,
    mode: RunMode,
    events: Seq<EventView>,
    i: int,
)
    requires
        0 <= i < events.len(),
        pending_at(initial(config, package, mode), events, i) is OpenLockFile || pending_at(
            initial(config, package, mode),
            events,
            i,
        ) is AcquireLock,
        events[i] is Failed,
    ensures
        forall|j: int|
            0 <= j <= events.len() ==> !works_on_directory(
                #[trigger] pending_at(initial(config, package, mode), events, j),
            ),
        state_after(initial(config, package, mode), events).pending is Stop,
        state_after(initial(config, package, mode), events).failure matches Some(failure)
            && failure.kind == ErrorKind::Lock,
{
    let start = initial(config, package, mode);
    assert forall|j: int| 0 <= j <= events.len() implies !works_on_directory(
        #[trigger] pending_at(start, events, j),
    ) by {
        lemma_failure_bars_later_stages(start, events, i, j);
    }
    lemma_failure_is_final(start, events, i);
}

/// The names are enumerated once, before the directory is listed. A run
/// from the start knows no name until the enumeration has succeeded; while
/// it lists the directory and deals with its entries, the names it goes by
/// are those that the one successful enumeration reported.
pub proof fn lemma_names_are_enumerated(
    config: ConfigView,
    package: Seq<u8>,
    mode: RunMode,
    events: Seq<EventView>,
) -> (stdout: Seq<u8>)
    ensures
        ({
            let run = state_after(initial(config, package, mode), events);
            &&& stage(run.pending) <= 7 ==> run.names == Set::<Seq<u8>>::empty()
            &&& 7 < stage(run.pending) < 10 ==> run.names == tracked_names(stdout) && enumerated(
                initial(config, package, mode),
                events,
                stdout,
            )
        }),
    decreases events.len(),
{
    let start = initial(config, package, mode);
    if events.len() == 0 {
        Seq::empty()
    } else {
        let before = state_after(start, events.drop_last());
        let earlier = lemma_names_are_enumerated(config, package, mode, events.drop_last());
        lemma_step_advances(before, events.last());
        if 7 < stage(before.pending) < 10 {
            let i = choose|i: int|
                0 <= i < events.drop_last().len() && #[trigger] pending_at(
                    start,
                    events.drop_last(),
                    i,
                ) is EnumerateTracked && succeeds(
                    ActionView::EnumerateTracked,
                    events.drop_last()[i],
                ) && events.drop_last()[i]->stdout == earlier;
            assert(events.drop_last().take(i) == events.take(i));
            assert(pending_at(start, events, i) is EnumerateTracked);
            earlier
        } else if stage(before.pending) == 7 && succeeds(before.pending, events.last()) {
            assert(pending_at(start, events, events.len() - 1) is EnumerateTracked);
            events.last()->stdout
        } else {
            earlier
        }
    }
}

/// The directory is settled once, before it is entered. A run from the
/// start has no directory until the repository's path is resolved; from
/// then on, until it stops, its directory is the package's name joined onto
/// that path.
pub proof fn lemma_directory_is_settled(
    config: ConfigView,
    package: Seq<u8>,
    mode: RunMode,
    events: Seq<EventView>,
) -> (repository: Seq<u8>)
    ensures
        ({
            let run = state_after(initial(config, package, mode), events);
            &&& stage(run.pending) <= 5 ==> run.target == Seq::<u8>::empty()
            &&& 5 < stage(run.pending) < 10 ==> run.target == joined(repository, package)
                && resolved(initial(config, package, mode), events, repository)
        }),
    decreases events.len(),
{
    let start = initial(config, package, mode);
    if events.len() == 0 {
        Seq::empty()
    } else {
        let before = state_after(start, events.drop_last());
        let earlier = lemma_directory_is_settled(config, package, mode, events.drop_last());
        lemma_step_advances(before, events.last());
        lemma_run_is_steady(config, package, mode, events.drop_last());
        if 5 < stage(before.pending) < 10 {
            let i = choose|i: int|
                0 <= i < events.drop_last().len() && #[trigger] pending_at(
                    start,
                    events.drop_last(),
                    i,
                ) is ResolveRepository && events.drop_last()[i] == (EventView::Path {
                    path: earlier,
                });
            assert(events.drop_last().take(i) == events.take(i));
            assert(pending_at(start, events, i) is ResolveRepository);
            earlier
        } else if stage(before.pending) == 5 && succeeds(before.pending, events.last()) {
            assert(pending_at(start, events, events.len() - 1) is ResolveRepository);
            events.last()->path
        } else {
            earlier
        }
    }
}

/// A run keeps to what it was told. At every point of a run from the start
/// the configuration, the package and the mode are those it began with; it
/// has a failure only when it has stopped; it reports only in a dry run and
/// deletes only in a real run; and the directory that it enters and lists
/// is its own.
pub proof fn lemma_run_is_steady(
    config: ConfigView,
    package: Seq<u8>,
    mode: RunMode,
    events: Seq<EventView>,
)
    ensures
        ({
            let run = state_after(initial(config, package, mode), events);
            &&& run.config == config
            &&& run.package == package
            &&& run.mode == mode
            &&& run.failure is Some ==> run.pending is Stop
            &&& run.pending is Report ==> mode == RunMode::DryRun
            &&& run.pending is Delete ==> mode == RunMode::RealRun
            &&& run.pending matches ActionView::EnterDirectory { path } ==> path == run.target
            &&& run.pending matches ActionView::ListDirectory { path } ==> path == run.target
        }),
    decreases events.len(),
{
    if events.len() > 0 {
        lemma_run_is_steady(config, package, mode, events.drop_last());
    }
}

} // verus!
