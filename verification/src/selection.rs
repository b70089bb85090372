//! Which entries a run acts upon: those that the repository does not
//! track, all of them and no others, in either mode.

use vstd::prelude::*;
use crate::config::{ConfigView, RunMode};
use crate::index::tracked_names;
use crate::paths::joined;
use crate::protocol::{ActionView, EntryView, EventView};
use crate::run::{initial, proceed, step_model, treatment, RunView};
use crate::trace::{acted_upon, candidate, state_after};

verus! {

/// The entries of `listing` whose names are not among `names`, in the
/// order of the listing.
pub open spec fn untracked(listing: Seq<EntryView>, names: Set<Seq<u8>>) -> Seq<EntryView> {
    listing.filter(|entry: EntryView| !names.contains(entry.name))
}

/// What the program hands to a run while a listing yields `listing` and
/// every operation succeeds: each entry in turn, and after an entry whose
/// name is not among `names` the word that it was dealt with.
pub open spec fn listing_events(listing: Seq<EntryView>, names: Set<Seq<u8>>) -> Seq<EventView>
    decreases listing.len(),
{
    if listing.len() == 0 {
        Seq::empty()
    } else {
        let earlier = listing_events(listing.drop_last(), names);
        let entry = listing.last();
        if names.contains(entry.name) {
            earlier.push(EventView::Entry { entry })
        } else {
            earlier.push(EventView::Entry { entry }).push(EventView::Done)
        }
    }
}

/// Exactly the untracked entries are acted upon. A run that is about to
/// read a listing, and is handed the entries of `listing` one by one,
/// reports or deletes the entries whose names the repository does not
/// track, each once and in the order of the listing, and no others. It is
/// then ready for the next entry, and the end of the listing ends the run
/// without a failure.
pub proof fn lemma_listing_acts_on_untracked(run: RunView, listing: Seq<EntryView>)
    requires
        run.pending is NextEntry,
    ensures
        acted_upon(run, listing_events(listing, run.names)) == untracked(listing, run.names),
        state_after(run, listing_events(listing, run.names)) == run,
        state_after(run, listing_events(listing, run.names).push(EventView::End)) == proceed(
            run,
            ActionView::Stop,
        ),
    decreases listing.len(),
{
    reveal(Seq::filter);
    let events = listing_events(listing, run.names);
    if listing.len() > 0 {
        lemma_listing_acts_on_untracked(run, listing.drop_last());
        let earlier = listing_events(listing.drop_last(), run.names);
        let entry = listing.last();
        let offered = earlier.push(EventView::Entry { entry });
        assert(offered.drop_last() == earlier);
        if !run.names.contains(entry.name) {
            assert(events.drop_last() == offered);
            assert(acted_upon(run, events) == acted_upon(run, offered));
        }
    }
    assert(events.push(EventView::End).drop_last() == events);
}

/// No tracked entry is ever acted upon. Whatever is handed to a run that
/// reads a listing, in whatever order, no entry that it reports or deletes
/// has a name that the repository tracks.
pub proof fn lemma_tracked_entries_are_spared(run: RunView, events: Seq<EventView>, k: int)
    requires
        run.pending is NextEntry,
        0 <= k < acted_upon(run, events).len(),
    ensures
        !run.names.contains(acted_upon(run, events)[k].name),
    decreases events.len(),
{
    if events.len() > 0 {
        lemma_listing_goes_on(run, events.drop_last());
        if k < acted_upon(run, events.drop_last()).len() {
            lemma_tracked_entries_are_spared(run, events.drop_last(), k);
        }
    }
}

/// A run that reads a listing goes on reading, reporting or deleting until
/// it stops, and goes by the same names all the while.
proof fn lemma_listing_goes_on(run: RunView, events: Seq<EventView>)
    requires
        run.pending is NextEntry,
    ensures
        ({
            let pending = state_after(run, events).pending;
            pending is NextEntry || pending is Report || pending is Delete || pending is Stop
        }),
        state_after(run, events).names == run.names,
    decreases events.len(),
{
    if events.len() > 0 {
        lemma_listing_goes_on(run, events.drop_last());
    }
}

/// What the program hands to a run, from its start to the first entry,
/// when every operation succeeds.
pub open spec fn preparation(
    uid: u32,
    lock_file: Seq<u8>,
    descriptor: i32,
    repository: Seq<u8>,
    stdout: Seq<u8>,
    stderr: Seq<u8>,
) -> Seq<EventView> {
    seq![
        EventView::Identity { uid },
        EventView::Done,
        EventView::Path { path: lock_file },
        EventView::Opened { descriptor },
        EventView::Done,
        EventView::Path { path: repository },
        EventView::Done,
        EventView::Output { status: Some(0i32), stdout, stderr },
        EventView::Done,
    ]
}

/// A course of events goes on where the one before it ended.
proof fn lemma_courses_follow(start: RunView, first: Seq<EventView>, second: Seq<EventView>)
    ensures
        state_after(start, first + second) == state_after(state_after(start, first), second),
        acted_upon(start, first + second) == acted_upon(start, first) + acted_upon(
            state_after(start, first),
            second,
        ),
    decreases second.len(),
{
    if second.len() > 0 {
        assert((first + second).drop_last() == first + second.drop_last());
        lemma_courses_follow(start, first, second.drop_last());
    }
}

/// One more event takes a course one step further.
proof fn lemma_one_more(start: RunView, events: Seq<EventView>, event: EventView)
    ensures
        state_after(start, events.push(event)) == step_model(state_after(start, events), event),
        candidate(step_model(state_after(start, events), event).pending) is None ==> acted_upon(
            start,
            events.push(event),
        ) == acted_upon(start, events),
{
    assert(events.push(event).drop_last() == events);
}

/// Where everything succeeds, a run comes to the first entry with the
/// directory and the names settled, and has acted on nothing yet.
proof fn lemma_preparation(
    config: ConfigView,
    package: Seq<u8>,
    mode: RunMode,
    uid: u32,
    lock_file: Seq<u8>,
    descriptor: i32,
    repository: Seq<u8>,
    stdout: Seq<u8>,
    stderr: Seq<u8>,
)
    ensures
        state_after(
            initial(config, package, mode),
            preparation(uid, lock_file, descriptor, repository, stdout, stderr),
        ) == (RunView {
            target: joined(repository, package),
            names: tracked_names(stdout),
            pending: ActionView::NextEntry,
            ..initial(config, package, mode)
        }),
        acted_upon(
            initial(config, package, mode),
            preparation(uid, lock_file, descriptor, repository, stdout, stderr),
        ) == Seq::<EntryView>::empty(),
{
    let start = initial(config, package, mode);
    let e1 = EventView::Identity { uid };
    let e3 = EventView::Path { path: lock_file };
    let e4 = EventView::Opened { descriptor };
    let e6 = EventView::Path { path: repository };
    let e8 = EventView::Output { status: Some(0i32), stdout, stderr };
    let c0 = Seq::<EventView>::empty();
    let c1 = c0.push(e1);
    let c2 = c1.push(EventView::Done);
    let c3 = c2.push(e3);
    let c4 = c3.push(e4);
    let c5 = c4.push(EventView::Done);
    let c6 = c5.push(e6);
    let c7 = c6.push(EventView::Done);
    let c8 = c7.push(e8);
    let c9 = c8.push(EventView::Done);
    lemma_one_more(start, c0, e1);
    lemma_one_more(start, c1, EventView::Done);
    assert(state_after(start, c2) == proceed(
        start,
        ActionView::ResolveLockFile { template: config.lock_file },
    ));
    lemma_one_more(start, c2, e3);
    lemma_one_more(start, c3, e4);
    lemma_one_more(start, c4, EventView::Done);
    assert(state_after(start, c5) == proceed(
        start,
        ActionView::ResolveRepository { template: config.repository },
    ));
    lemma_one_more(start, c5, e6);
    lemma_one_more(start, c6, EventView::Done);
    lemma_one_more(start, c7, e8);
    lemma_one_more(start, c8, EventView::Done);
    assert(c9 == preparation(uid, lock_file, descriptor, repository, stdout, stderr));
}

/// A run in which everything succeeds acts on exactly the untracked
/// entries. From its start, through the switch of identity, the lock and
/// the enumeration whose output is `stdout`, and over a directory that
/// holds `listing`, a run reports or deletes the entries whose names are no
/// line of `stdout`, each once and in the order of the listing, and ends
/// without a failure. Its directory is the package's name joined onto the
/// repository.
pub proof fn lemma_successful_run(
    config: ConfigView,
    package: Seq<u8>,
    mode: RunMode,
    uid: u32,
    lock_file: Seq<u8>,
    descriptor: i32,
    repository: Seq<u8>,
    stdout: Seq<u8>,
    stderr: Seq<u8>,
    listing: Seq<EntryView>,
)
    ensures
        ({
            let names = tracked_names(stdout);
            let events = preparation(uid, lock_file, descriptor, repository, stdout, stderr) + listing_events(
                listing,
                names,
            ).push(EventView::End);
            let end = state_after(initial(config, package, mode), events);
            &&& acted_upon(initial(config, package, mode), events) == untracked(listing, names)
            &&& end.pending is Stop
            &&& end.failure is None
            &&& end.names == names
            &&& end.target == joined(repository, package)
        }),
{
    let start = initial(config, package, mode);
    let names = tracked_names(stdout);
    let first = preparation(uid, lock_file, descriptor, repository, stdout, stderr);
    let second = listing_events(listing, names);
    let ready = RunView {
        target: joined(repository, package),
        names,
        pending: ActionView::NextEntry,
        ..start
    };
    lemma_preparation(
        config,
        package,
        mode,
        uid,
        lock_file,
        descriptor,
        repository,
        stdout,
        stderr,
    );
    lemma_listing_acts_on_untracked(ready, listing);
    lemma_courses_follow(ready, second, seq![EventView::End]);
    assert(second + seq![EventView::End] == second.push(EventView::End));
    assert(acted_upon(ready, seq![EventView::End]) == Seq::<EntryView>::empty()) by {
        reveal_with_fuel(acted_upon, 2);
    }
    lemma_courses_follow(start, first, second.push(EventView::End));
}

/// The run `run` as it would be in the mode `mode`: what it does about an
/// untracked entry is what that mode does, and nothing else differs.
pub open spec fn in_mode(run: RunView, mode: RunMode) -> RunView {
    RunView {
        mode,
        pending: match candidate(run.pending) {
            Some(entry) => treatment(mode, entry),
            None => run.pending,
        },
        ..run
    }
}

/// A step does in one mode what it does in the other.
proof fn lemma_step_in_mode(run: RunView, event: EventView, mode: RunMode)
    ensures
        step_model(in_mode(run, mode), event) == in_mode(step_model(run, event), mode),
{
}

/// Both modes pick the same entries. Given the same course of events, a
/// dry run and a real run are at every point the same but for what they do
/// about the entry at hand: the one reports the entry that the other
/// deletes. A dry run never asks for a deletion.
pub proof fn lemma_modes_pick_alike(
    config: ConfigView,
    package: Seq<u8>,
    events: Seq<EventView>,
)
    ensures
        state_after(initial(config, package, RunMode::RealRun), events) == in_mode(
            state_after(initial(config, package, RunMode::DryRun), events),
            RunMode::RealRun,
        ),
        state_after(initial(config, package, RunMode::DryRun), events) == in_mode(
            state_after(initial(config, package, RunMode::RealRun), events),
            RunMode::DryRun,
        ),
        acted_upon(initial(config, package, RunMode::RealRun), events) == acted_upon(
            initial(config, package, RunMode::DryRun),
            events,
        ),
        !(state_after(initial(config, package, RunMode::DryRun), events).pending is Delete),
    decreases events.len(),
{
    if events.len() > 0 {
        let dry = state_after(initial(config, package, RunMode::DryRun), events.drop_last());
        let wet = state_after(initial(config, package, RunMode::RealRun), events.drop_last());
        lemma_modes_pick_alike(config, package, events.drop_last());
        lemma_step_in_mode(dry, events.last(), RunMode::RealRun);
        lemma_step_in_mode(wet, events.last(), RunMode::DryRun);
    }
}

/// What a directory that held `listing` holds once the entries `removed`
/// are gone.
pub open spec fn remaining(listing: Seq<EntryView>, removed: Seq<EntryView>) -> Seq<EntryView> {
    listing.filter(|entry: EntryView| !removed.contains(entry))
}

/// A second run has nothing to do. Once the entries that a real run acted
/// upon are gone from the directory, a run over what remains, with the same
/// names tracked, reports and deletes nothing.
pub proof fn lemma_second_run_is_idle(first: RunView, second: RunView, listing: Seq<EntryView>)
    requires
        first.mode == RunMode::RealRun,
        first.pending is NextEntry,
        second.pending is NextEntry,
        second.names == first.names,
    ensures
        acted_upon(
            second,
            listing_events(
                remaining(listing, acted_upon(first, listing_events(listing, first.names))),
                second.names,
            ),
        ) == Seq::<EntryView>::empty(),
{
    let names = first.names;
    let removed = untracked(listing, names);
    let left = remaining(listing, removed);
    lemma_listing_acts_on_untracked(first, listing);
    lemma_listing_acts_on_untracked(second, left);
    let spared = |entry: EntryView| !names.contains(entry.name);
    let kept = |entry: EntryView| !removed.contains(entry);
    if untracked(left, names).len() > 0 {
        // an entry that is left and untracked would have been removed
        let entry = untracked(left, names)[0];
        left.lemma_filter_pred(spared, 0);
        lemma_filter_keeps_members(left, spared, entry);
        let k = choose|k: int| 0 <= k < left.len() && left[k] == entry;
        listing.lemma_filter_pred(kept, k);
        lemma_filter_keeps_members(listing, kept, entry);
        let l = choose|l: int| 0 <= l < listing.len() && listing[l] == entry;
        listing.lemma_filter_contains(spared, l);
    }
}

/// What a filter lets through was there before.
proof fn lemma_filter_keeps_members(
    entries: Seq<EntryView>,
    pred: spec_fn(EntryView) -> bool,
    entry: EntryView,
)
    requires
        entries.filter(pred).contains(entry),
    ensures
        entries.contains(entry),
    decreases entries.len(),
{
    reveal(Seq::filter);
    if entries.len() > 0 && !(pred(entries.last()) && entries.last() == entry) {
        lemma_filter_keeps_members(entries.drop_last(), pred, entry);
    }
}

} // verus!
