//! What is done with the stored state once it has been read and parsed.
//!
//! Reading, parsing and writing the settings file is the caller's work. The
//! engine decides what to start from: the stored state where there is a
//! sound one, and the default state otherwise.

use vstd::prelude::*;
use vstd::string::*;
use crate::navigation_state::{NavigationSpec, NavigationState};

verus! {

/// Why the settings could not be read or written.
#[derive(Clone, Copy, Debug, PartialEq, Eq, Structural)]
pub enum SettingsError {
    /// There is no settings file.
    NotFound,
    /// The file does not hold a well-formed state.
    ParseFailure,
    /// The file could not be written.
    WriteFailure,
}

/// The path of the filesystem root.
pub open spec fn root_path() -> Seq<char> {
    seq!['/']
}

/// The state to start from where nothing sound is stored: a single tab at
/// the filesystem root, not yet listed, with empty histories.
pub open spec fn default_spec() -> NavigationSpec {
    NavigationSpec::rooted_at(root_path())
}

/// What a stored state is accepted as: itself where it is well formed; a
/// parse failure where it is not; the caller's own failure otherwise.
pub open spec fn validated(stored: Result<NavigationSpec, SettingsError>) -> Result<
    NavigationSpec,
    SettingsError,
> {
    match stored {
        Ok(state) => if state.wf() {
            Ok(state)
        } else {
            Err(SettingsError::ParseFailure)
        },
        Err(reason) => Err(reason),
    }
}

/// The state to start from, given what was stored.
pub open spec fn loaded(stored: Result<NavigationSpec, SettingsError>) -> NavigationSpec {
    match validated(stored) {
        Ok(state) => state,
        Err(_) => default_spec(),
    }
}

/// The view of what the caller read.
pub open spec fn stored_view(stored: Result<NavigationState, SettingsError>) -> Result<
    NavigationSpec,
    SettingsError,
> {
    match stored {
        Ok(state) => Ok(state@),
        Err(reason) => Err(reason),
    }
}

/// The default state.
pub fn default_state() -> (state: NavigationState)
    ensures
        state@ == default_spec(),
        state@.wf(),
{
    proof {
        reveal_strlit("/");
    }
    let root: String = String::from_str("/");
    assert(root@ =~= root_path());
    NavigationState::rooted_at(root)
}

/// Accepts a stored state only where it is well formed.
pub fn validate(stored: Result<NavigationState, SettingsError>) -> (outcome: Result<
    NavigationState,
    SettingsError,
>)
    ensures
        stored_view(outcome) == validated(stored_view(stored)),
        outcome matches Ok(state) ==> state@.wf(),
{
    match stored {
        Ok(state) => {
            if state.is_well_formed() {
                Ok(state)
            } else {
                Err(SettingsError::ParseFailure)
            }
        },
        Err(reason) => Err(reason),
    }
}

/// The state to start from: the stored one where it is sound, the default
/// state on any failure. Never fails.
pub fn load(stored: Result<NavigationState, SettingsError>) -> (state: NavigationState)
    ensures
        state@ == loaded(stored_view(stored)),
        state@.wf(),
{
    match validate(stored) {
        Ok(state) => state,
        Err(_) => default_state(),
    }
}

} // verus!
