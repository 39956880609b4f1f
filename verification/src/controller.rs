//! The selection controller: a pure state machine over the catalog and the
//! selection index. One input event at a time moves the selection (saturating
//! at both ends), requests a session launch, requests an exit, or does
//! nothing; after every transition exactly one catalog entry is selected.

use vstd::prelude::*;

use crate::catalog::Catalog;
use crate::catalog::EntryView;

verus! {

/// One decoded input event. Key releases and unrecognized keys arrive as
/// `Ignored`.
#[derive(Clone, Copy, Debug, PartialEq, Eq, Structural)]
pub enum InputEvent {
    MoveUp,
    MoveDown,
    Activate,
    Quit,
    Ignored,
}

/// What the caller of `handle` must do next.
#[derive(Debug, PartialEq, Eq)]
pub enum ControllerOutcome {
    /// State updated; nothing further to do.
    Continue,
    /// State unchanged; start an external session against the given
    /// instance identifier with the given credential profile.
    LaunchSession(String, String),
    /// The interactive loop must terminate.
    Exit,
}

/// Recoverable controller errors; the loop continues unaffected.
#[derive(Clone, Copy, Debug, PartialEq, Eq, Structural)]
pub enum ControllerError {
    /// `Activate` on an empty catalog.
    EmptyCatalog,
    /// `Activate` on an entry whose group holds no instance.
    NoInstanceInGroup,
}

/// The whole interactive state: the catalog, the selection index, the exit
/// flag, and the credential profile used for launched sessions.
pub struct App {
    pub catalog: Catalog,
    pub exit: bool,
    pub selected_instance: usize,
    pub aws_profile_name: String,
}

/// Mathematical model of an [`App`].
#[verifier::ext_equal]
pub ghost struct AppView {
    pub entries: Seq<EntryView>,
    pub exit: bool,
    pub index: int,
    pub profile: Seq<char>,
}

impl View for App {
    type V = AppView;

    open spec fn view(&self) -> AppView {
        AppView {
            entries: self.catalog@,
            exit: self.exit,
            index: self.selected_instance as int,
            profile: self.aws_profile_name@,
        }
    }
}

impl AppView {
    /// Well-formedness: on a non-empty catalog the index is in range and the
    /// selected flags mark exactly the entry at the index; on an empty
    /// catalog the index rests at 0.
    pub open spec fn well_formed(self) -> bool {
        &&& self.entries.len() > 0 ==> {
            &&& 0 <= self.index < self.entries.len()
            &&& forall|i: int|
                0 <= i < self.entries.len() ==> ((#[trigger] self.entries[i]).selected <==> i
                    == self.index)
        }
        &&& self.entries.len() == 0 ==> self.index == 0
    }
}

/// The index after a movement event: up saturates at 0, down at the last
/// entry; other events leave it alone. `len` must be positive.
pub open spec fn next_index(len: int, index: int, event: InputEvent) -> int {
    match event {
        InputEvent::MoveUp => if index > 0 {
            index - 1
        } else {
            0
        },
        InputEvent::MoveDown => if index + 1 < len {
            index + 1
        } else {
            index
        },
        _ => index,
    }
}

/// The same groups with the selected flags marking exactly `index`.
pub open spec fn select_only(entries: Seq<EntryView>, index: int) -> Seq<EntryView> {
    Seq::new(entries.len(), |i: int| EntryView { selected: i == index, ..entries[i] })
}

/// The state transition of one input event, as the contracts state it.
pub open spec fn step(pre: AppView, event: InputEvent) -> AppView {
    match event {
        InputEvent::MoveUp | InputEvent::MoveDown => if pre.entries.len() == 0 {
            pre
        } else {
            let ni = next_index(pre.entries.len() as int, pre.index, event);
            AppView { entries: select_only(pre.entries, ni), index: ni, ..pre }
        },
        InputEvent::Activate => pre,
        InputEvent::Quit => AppView { exit: true, ..pre },
        InputEvent::Ignored => pre,
    }
}

impl App {
    /// Builds the interactive state over `catalog`: the selection starts at
    /// entry 0, whose flag is set (all others cleared), and the exit flag is
    /// down.
    pub fn new(catalog: Catalog, aws_profile_name: String) -> (app: App)
        ensures
            app@.entries =~= select_only(catalog@, 0),
            app@.index == 0,
            app@.exit == false,
            app@.profile == aws_profile_name@,
            app@.well_formed(),
    {
        let mut catalog = catalog;
        let ghost pre = catalog@;
        let n = catalog.entries.len();
        let mut i: usize = 0;
        while i < n
            invariant
                n == catalog@.len(),
                catalog@.len() == pre.len(),
                i <= n,
                forall|j: int| 0 <= j < i ==> (#[trigger] catalog@[j]) == select_only(pre, 0)[j],
                forall|j: int| i <= j < n ==> (#[trigger] catalog@[j]) == pre[j],
            decreases n - i,
        {
            let ghost prev = catalog@;
            catalog.entries[i].selected = i == 0;
            proof {
                assert(catalog@ =~= prev.update(
                    i as int,
                    EntryView { selected: i == 0, ..prev[i as int] },
                ));
            }
            i += 1;
        }
        let app = App { catalog, exit: false, selected_instance: 0, aws_profile_name };
        assert(app@.entries =~= select_only(pre, 0));
        app
    }

    /// Applies one input event. The new state is exactly
    /// `step(old state, event)`; in particular `Activate` and `Ignored`
    /// change nothing, `Quit` only raises the exit flag, and a movement
    /// event moves the index with saturation and re-marks the selected
    /// flags. The outcome says when a session launch is owed: exactly when
    /// `Activate` finds a non-empty catalog whose selected group holds an
    /// instance; the identifier is that of the group's first instance.
    pub fn handle(&mut self, event: InputEvent) -> (r: Result<ControllerOutcome, ControllerError>)
        requires
            old(self)@.well_formed(),
        ensures
            final(self)@ =~= step(old(self)@, event),
            final(self)@.well_formed(),
            event is MoveUp || event is MoveDown || event is Ignored ==> r == Ok::<
                ControllerOutcome,
                ControllerError,
            >(ControllerOutcome::Continue),
            event is Quit ==> r == Ok::<ControllerOutcome, ControllerError>(
                ControllerOutcome::Exit,
            ),
            event is Activate ==> final(self)@ == old(self)@,
            event is Activate && old(self)@.entries.len() == 0 ==> r == Err::<
                ControllerOutcome,
                ControllerError,
            >(ControllerError::EmptyCatalog),
            event is Activate && old(self)@.entries.len() > 0 && old(self)@.entries[old(
                self,
            )@.index].group.instances.len() == 0 ==> r == Err::<
                ControllerOutcome,
                ControllerError,
            >(ControllerError::NoInstanceInGroup),
            event is Activate && old(self)@.entries.len() > 0 && old(self)@.entries[old(
                self,
            )@.index].group.instances.len() > 0 ==> (r matches Ok(
                ControllerOutcome::LaunchSession(id, prof),
            ) && id@ == old(self)@.entries[old(self)@.index].group.instances[0].instance_id
                && prof@ == old(self)@.profile),
    {
        match event {
            InputEvent::MoveUp | InputEvent::MoveDown => {
                let len = self.catalog.entries.len();
                if len == 0 {
                    return Ok(ControllerOutcome::Continue);
                }
                let idx = self.selected_instance;
                // Unmark the selected entry before the index moves, so that
                // at most one entry is ever marked.
                self.catalog.entries[idx].selected = false;
                let new_idx: usize = match event {
                    InputEvent::MoveUp => if idx > 0 {
                        idx - 1
                    } else {
                        0
                    },
                    _ => if idx + 1 < len {
                        idx + 1
                    } else {
                        idx
                    },
                };
                self.selected_instance = new_idx;
                self.catalog.entries[new_idx].selected = true;
                proof {
                    assert(self@.entries =~= select_only(old(self)@.entries, new_idx as int));
                }
                Ok(ControllerOutcome::Continue)
            },
            InputEvent::Activate => {
                if self.catalog.entries.len() == 0 {
                    return Err(ControllerError::EmptyCatalog);
                }
                let entry = &self.catalog.entries[self.selected_instance];
                if entry.reservation.instances.len() == 0 {
                    return Err(ControllerError::NoInstanceInGroup);
                }
                let id = entry.reservation.instances[0].instance_id.clone();
                let profile = self.aws_profile_name.clone();
                Ok(ControllerOutcome::LaunchSession(id, profile))
            },
            InputEvent::Quit => {
                self.exit = true;
                Ok(ControllerOutcome::Exit)
            },
            InputEvent::Ignored => Ok(ControllerOutcome::Continue),
        }
    }
}

} // verus!
