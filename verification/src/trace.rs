//! Courses of events: what a run becomes when a sequence of events is
//! handed to it, one after the other.

use vstd::prelude::*;
use crate::protocol::{ActionView, EntryView, EventView};
use crate::run::{step_model, RunView};

verus! {

/// The run that `start` becomes when `events` arrive in order.
pub open spec fn state_after(start: RunView, events: Seq<EventView>) -> RunView
    decreases events.len(),
{
    if events.len() == 0 {
        start
    } else {
        step_model(state_after(start, events.drop_last()), events.last())
    }
}

/// The operation that `start` waits for once the first `n` of `events` have
/// arrived.
pub open spec fn pending_at(start: RunView, events: Seq<EventView>, n: int) -> ActionView {
    state_after(start, events.take(n)).pending
}

/// The entry that `action` reports or deletes, if it does either.
pub open spec fn candidate(action: ActionView) -> Option<EntryView> {
    match action {
        ActionView::Report { entry } => Some(entry),
        ActionView::Delete { entry } => Some(entry),
        _ => None,
    }
}

/// The entries that the run came to report or delete in the course of
/// `events`, in that order.
pub open spec fn acted_upon(start: RunView, events: Seq<EventView>) -> Seq<EntryView>
    decreases events.len(),
{
    if events.len() == 0 {
        Seq::empty()
    } else {
        let earlier = acted_upon(start, events.drop_last());
        let before = state_after(start, events.drop_last());
        match candidate(step_model(before, events.last()).pending) {
            Some(entry) if candidate(before.pending) is None => earlier.push(entry),
            _ => earlier,
        }
    }
}

} // verus!
