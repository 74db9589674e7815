//! What holds of the engine whatever it is asked to do.
//!
//! The laws are stated over the mathematical values of the states, with the
//! same spec functions that the contracts of the executable functions use.

use vstd::prelude::*;
use crate::action::Action;
use crate::dir_entry::DirEntrySpec;
use crate::navigation_state::NavigationSpec;
use crate::settings_store::{loaded, validated, SettingsError};

verus! {

/// One thing that can happen to the state.
pub enum Step {
    /// An action is performed.
    Perform(Action),
    /// A pending activation is resolved.
    ResolveActivation,
    /// A listing of the active tab's directory comes in.
    AcceptListing(Seq<DirEntrySpec>),
}

/// The state after `step`.
pub open spec fn after(state: NavigationSpec, step: Step) -> NavigationSpec {
    match step {
        Step::Perform(action) => state.apply(action),
        Step::ResolveActivation => state.resolve_activation(),
        Step::AcceptListing(entries) => state.accept_listing(entries),
    }
}

/// The state after `steps`, taken in order.
pub open spec fn run(state: NavigationSpec, steps: Seq<Step>) -> NavigationSpec
    decreases steps.len(),
{
    if steps.len() == 0 {
        state
    } else {
        after(run(state, steps.drop_last()), steps.last())
    }
}

/// Whether `step` only moves the cursor.
pub open spec fn is_cursor_move(step: Step) -> bool {
    step == Step::Perform(Action::MoveDown) || step == Step::Perform(Action::MoveUp)
}

/// Whatever happens, a well-formed state stays well formed: there is
/// always at least one tab, the active index names one, and in every
/// listed directory the cursor is on a row.
pub proof fn law_steps_keep_the_state_well_formed(state: NavigationSpec, steps: Seq<Step>)
    requires
        state.wf(),
    ensures
        run(state, steps).wf(),
        run(state, steps).tabs.len() > 0,
    decreases steps.len(),
{
    if steps.len() > 0 {
        let earlier = run(state, steps.drop_last());
        law_steps_keep_the_state_well_formed(state, steps.drop_last());
        match steps.last() {
            Step::Perform(action) => earlier.lemma_apply_wf(action),
            Step::ResolveActivation => earlier.lemma_resolve_activation_wf(),
            Step::AcceptListing(entries) => earlier.lemma_accept_listing_wf(entries),
        }
    }
}

/// Every state that can be reached from the start, whatever was stored, is
/// well formed. No state without a tab can be reached.
pub proof fn law_reachable_states_are_well_formed(
    stored: Result<NavigationSpec, SettingsError>,
    steps: Seq<Step>,
)
    ensures
        run(loaded(stored), steps).wf(),
        run(loaded(stored), steps).tabs.len() > 0,
{
    law_steps_keep_the_state_well_formed(loaded(stored), steps);
}

/// Moving the cursor up and down, in any order and any number of times,
/// leaves everything but the cursor of the active tab's directory as it
/// was, and once that directory is listed the cursor stays on one of its
/// rows: it is never at or beyond the number of children.
pub proof fn law_cursor_stays_on_a_row(state: NavigationSpec, moves: Seq<Step>)
    requires
        state.wf(),
        forall|i: int| 0 <= i < moves.len() ==> is_cursor_move(#[trigger] moves[i]),
    ensures
        ({
            let end = run(state, moves);
            let before = state.active().cwd;
            let after = end.active().cwd;
            &&& end.wf()
            &&& end.active_tab == state.active_tab
            &&& end.tabs.len() == state.tabs.len()
            &&& after.path == before.path
            &&& after.children == before.children
            &&& after.children.len() > 0 ==> after.cursor < after.children.len()
        }),
    decreases moves.len(),
{
    law_steps_keep_the_state_well_formed(state, moves);
    if moves.len() > 0 {
        law_cursor_stays_on_a_row(state, moves.drop_last());
    }
}

/// Going back and then at once forward restores the whole state, and with
/// it the directory that was current, with its path, its cached listing
/// and its cursor, whenever there is something to go back to.
pub proof fn law_back_then_forward_restores(state: NavigationSpec)
    requires
        state.has_active(),
        state.active().history_backward.len() > 0,
    ensures
        state.apply(Action::NavigateBack).apply(Action::NavigateForward) == state,
        state.apply(Action::NavigateBack).apply(Action::NavigateForward).active().cwd
            == state.active().cwd,
{
    let tab = state.active();
    let again = tab.navigate_back().navigate_forward();
    assert(again.history_backward =~= tab.history_backward);
    assert(again.history_forward =~= tab.history_forward);
}

/// Closing the only tab changes nothing: one tab is left.
pub proof fn law_last_tab_is_never_closed(state: NavigationSpec)
    requires
        state.tabs.len() == 1,
    ensures
        state.apply(Action::TabClose) == state,
        state.apply(Action::TabClose).tabs.len() == 1,
{
}

/// A new tab is a copy of the active one, appended at the end; the active
/// index and the tabs that were there stay as they were.
pub proof fn law_new_tab_copies_the_active_one(state: NavigationSpec)
    requires
        state.has_active(),
    ensures
        ({
            let next = state.apply(Action::TabNew);
            &&& next.tabs.len() == state.tabs.len() + 1
            &&& next.tabs.last() == state.active()
            &&& next.active_tab == state.active_tab
            &&& next.tabs.drop_last() == state.tabs
        }),
{
}

/// A well-formed state that was stored is loaded as it is, whatever it
/// holds; the default state is used only where nothing sound was stored.
pub proof fn law_sound_state_loads_unchanged(state: NavigationSpec)
    requires
        state.wf(),
    ensures
        validated(Ok(state)) == Ok::<NavigationSpec, SettingsError>(state),
        loaded(Ok(state)) == state,
{
}

} // verus!
