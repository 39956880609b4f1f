//! Laws of the selection state machine, proved over the transition function
//! `step` that `App::handle` is verified to implement.

use vstd::prelude::*;

use crate::catalog::EntryView;
use crate::controller::AppView;
use crate::controller::InputEvent;
use crate::controller::step;

verus! {

/// A whole event sequence applied to a state, first event first.
pub open spec fn apply_events(v: AppView, events: Seq<InputEvent>) -> AppView
    decreases events.len(),
{
    if events.len() == 0 {
        v
    } else {
        apply_events(step(v, events[0]), events.skip(1))
    }
}

/// Exactly one entry carries the selected flag.
pub open spec fn exactly_one_selected(entries: Seq<EntryView>) -> bool {
    exists|i: int|
        0 <= i < entries.len() && (#[trigger] entries[i]).selected && (forall|j: int|
            0 <= j < entries.len() && (#[trigger] entries[j]).selected ==> j == i)
}

/// One transition preserves well-formedness and the number of entries.
pub proof fn lemma_step_preserves_well_formed(v: AppView, event: InputEvent)
    requires
        v.well_formed(),
    ensures
        step(v, event).well_formed(),
        step(v, event).entries.len() == v.entries.len(),
{
}

/// A well-formed non-empty state has exactly one selected entry: the one at
/// the index.
pub proof fn lemma_well_formed_selects_one(v: AppView)
    requires
        v.well_formed(),
        v.entries.len() > 0,
    ensures
        exactly_one_selected(v.entries),
{
    assert(0 <= v.index < v.entries.len() && v.entries[v.index].selected && (forall|j: int|
        0 <= j < v.entries.len() && (#[trigger] v.entries[j]).selected ==> j == v.index));
}

/// Single-selection invariant: any sequence of events applied to a
/// well-formed non-empty state leaves a well-formed state of the same size
/// with exactly one selected entry — and, since every prefix of the sequence
/// satisfies the same premises, the same holds after each event along the
/// way.
pub proof fn lemma_single_selection(v: AppView, events: Seq<InputEvent>)
    requires
        v.well_formed(),
        v.entries.len() > 0,
    ensures
        apply_events(v, events).well_formed(),
        apply_events(v, events).entries.len() == v.entries.len(),
        exactly_one_selected(apply_events(v, events).entries),
    decreases events.len(),
{
    if events.len() == 0 {
        lemma_well_formed_selects_one(v);
    } else {
        lemma_step_preserves_well_formed(v, events[0]);
        lemma_single_selection(step(v, events[0]), events.skip(1));
    }
}

/// Bounds saturation, upper end: from index 0, any number of `MoveUp`
/// events leaves the index at 0.
pub proof fn lemma_move_up_saturates(v: AppView, events: Seq<InputEvent>)
    requires
        v.well_formed(),
        v.index == 0,
        forall|i: int| 0 <= i < events.len() ==> events[i] is MoveUp,
    ensures
        apply_events(v, events).index == 0,
        apply_events(v, events).well_formed(),
    decreases events.len(),
{
    if events.len() > 0 {
        lemma_step_preserves_well_formed(v, events[0]);
        lemma_move_up_saturates(step(v, events[0]), events.skip(1));
    }
}

/// Bounds saturation, lower end: from the last index, any number of
/// `MoveDown` events leaves the index at the last entry.
pub proof fn lemma_move_down_saturates(v: AppView, events: Seq<InputEvent>)
    requires
        v.well_formed(),
        v.entries.len() > 0,
        v.index == v.entries.len() - 1,
        forall|i: int| 0 <= i < events.len() ==> events[i] is MoveDown,
    ensures
        apply_events(v, events).index == v.entries.len() - 1,
        apply_events(v, events).entries.len() == v.entries.len(),
        apply_events(v, events).well_formed(),
    decreases events.len(),
{
    if events.len() > 0 {
        lemma_step_preserves_well_formed(v, events[0]);
        lemma_move_down_saturates(step(v, events[0]), events.skip(1));
    }
}

/// Idempotence of `Ignored`: any number of `Ignored` events changes nothing
/// — neither index nor selection flags nor anything else of the state.
pub proof fn lemma_ignored_changes_nothing(v: AppView, events: Seq<InputEvent>)
    requires
        forall|i: int| 0 <= i < events.len() ==> events[i] is Ignored,
    ensures
        apply_events(v, events) == v,
    decreases events.len(),
{
    if events.len() > 0 {
        lemma_ignored_changes_nothing(step(v, events[0]), events.skip(1));
    }
}

/// Activation purity: `Activate` never changes the state — index and
/// selection flags included — whatever the catalog holds.
pub proof fn lemma_activate_pure(v: AppView)
    ensures
        step(v, InputEvent::Activate) == v,
{
}

} // verus!
