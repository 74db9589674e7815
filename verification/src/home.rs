//! The browser component: the navigation state, the binding table, and the
//! outcome of the last attempt to list a directory.
//!
//! One frame of the surrounding program goes through it in this order:
//! `resolve_activation`, then `listing_request` and, where that names a
//! directory, `accept_listing` with what reading it gave, then
//! `view_model`. Key presses go through `handle_key_events` and the action
//! it gives through `update`.

use vstd::prelude::*;
use crate::action::{Action, Outcome};
use crate::dir_entry::{DirEntry, DirEntrySpec};
use crate::directory_cache::{found_view, list, listed, DirectoryError};
use crate::input_controller::{
    first_match, resolve, standard_action, Binding, KeyBindings, KeyInput,
};
use crate::navigation_state::{NavigationSpec, NavigationState};
use crate::seq_view::text_view;
use crate::settings_store::{load, loaded, stored_view, SettingsError};
use crate::view_projection::{project, render, ViewModel};

verus! {

/// The browser component.
#[derive(Debug, PartialEq, Eq)]
pub struct Home {
    pub state: NavigationState,
    pub bindings: KeyBindings,
    /// Why the active tab's directory could not be listed, if the last
    /// attempt failed and nothing has changed since.
    pub listing_error: Option<DirectoryError>,
}

/// The mathematical value of a [`Home`].
#[verifier::ext_equal]
pub struct HomeSpec {
    pub state: NavigationSpec,
    pub bindings: Seq<Binding>,
    pub listing_error: Option<DirectoryError>,
}

impl View for Home {
    type V = HomeSpec;

    open spec fn view(&self) -> HomeSpec {
        HomeSpec {
            state: self.state@,
            bindings: self.bindings.entries@,
            listing_error: self.listing_error,
        }
    }
}

impl HomeSpec {
    /// The component with `next` as its state. A recorded listing failure
    /// is forgotten as soon as the state changes.
    pub open spec fn step(self, next: NavigationSpec) -> HomeSpec {
        HomeSpec {
            state: next,
            listing_error: if next != self.state {
                None
            } else {
                self.listing_error
            },
            ..self
        }
    }

    /// The component after `action`.
    pub open spec fn update(self, action: Action) -> HomeSpec {
        self.step(self.state.apply(action))
    }

    /// The component after a pending activation is resolved.
    pub open spec fn resolve_activation(self) -> HomeSpec {
        self.step(self.state.resolve_activation())
    }

    /// The directory that has to be listed before the next frame, if any.
    pub open spec fn listing_request(self) -> Option<Seq<char>> {
        if self.state.needs_listing() {
            Some(self.state.active().cwd.path)
        } else {
            None
        }
    }

    /// The component after reading the requested directory gave `found`: a
    /// listing is installed, a failure is recorded.
    pub open spec fn accept_listing(
        self,
        found: Result<Seq<DirEntrySpec>, DirectoryError>,
    ) -> HomeSpec {
        match listed(found) {
            Ok(listing) => HomeSpec {
                state: self.state.accept_listing(listing),
                listing_error: None,
                ..self
            },
            Err(reason) => HomeSpec { listing_error: Some(reason), ..self },
        }
    }
}

impl Home {
    /// The component at start: the stored state where it is sound, the
    /// default state on any failure, and the standard bindings.
    pub fn new(stored: Result<NavigationState, SettingsError>) -> (home: Home)
        ensures
            home@.state == loaded(stored_view(stored)),
            home@.state.wf(),
            forall|key: KeyInput| #[trigger] first_match(home@.bindings, key) == standard_action(key),
            home@.listing_error.is_none(),
    {
        Home { state: load(stored), bindings: KeyBindings::standard(), listing_error: None }
    }

    /// The action bound to `key`, if any.
    pub fn handle_key_events(&self, key: KeyInput) -> (action: Option<Action>)
        ensures
            action == first_match(self@.bindings, key),
    {
        resolve(key, &self.bindings)
    }

    /// Performs `action`.
    pub fn update(&mut self, action: Action) -> (outcome: Outcome)
        ensures
            final(self)@ == old(self)@.update(action),
            outcome.effect@ == old(self)@.state.effect(action),
            outcome.persist == (final(self)@.state != old(self)@.state),
            old(self)@.state.wf() ==> final(self)@.state.wf(),
    {
        let outcome: Outcome = self.state.apply(action);
        if outcome.persist {
            self.listing_error = None;
        }
        outcome
    }

    /// Resolves a pending activation of the active tab.
    pub fn resolve_activation(&mut self) -> (outcome: Outcome)
        ensures
            final(self)@ == old(self)@.resolve_activation(),
            outcome.effect@ == old(self)@.state.activation_effect(),
            outcome.persist == (final(self)@.state != old(self)@.state),
            old(self)@.state.wf() ==> final(self)@.state.wf(),
    {
        let outcome: Outcome = self.state.resolve_activation();
        if outcome.persist {
            self.listing_error = None;
        }
        outcome
    }

    /// The path of the directory that has to be listed before the next
    /// frame, if any.
    pub fn listing_request(&self) -> (path: Option<String>)
        ensures
            text_view(path) == self@.listing_request(),
    {
        match self.state.active() {
            Some(tab) => if tab.cwd.needs_listing() {
                Some(tab.cwd.path.clone())
            } else {
                None
            },
            None => None,
        }
    }

    /// Takes what reading the requested directory gave. Returns whether the
    /// state changed, so that it has to be stored again.
    pub fn accept_listing(&mut self, found: Result<Vec<DirEntry>, DirectoryError>) -> (persist:
        bool)
        ensures
            final(self)@ == old(self)@.accept_listing(found_view(found)),
            persist == (final(self)@.state != old(self)@.state),
            old(self)@.state.wf() ==> final(self)@.state.wf(),
    {
        match list(found) {
            Ok(listing) => {
                self.listing_error = None;
                self.state.accept_listing(listing)
            },
            Err(reason) => {
                self.listing_error = Some(reason);
                false
            },
        }
    }

    /// The picture of the component for the renderer.
    pub fn view_model(&self) -> (picture: ViewModel)
        ensures
            picture@ == project(self@.state, self@.listing_error),
    {
        render(&self.state, self.listing_error)
    }
}

} // verus!
