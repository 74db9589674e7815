//! The logical actions the engine consumes and the requests it hands back.

use vstd::prelude::*;

verus! {

/// A logical action, resolved from a key press by the binding table.
#[derive(Clone, Copy, Debug, PartialEq, Eq, Structural)]
pub enum Action {
    /// A periodic tick. Changes nothing.
    Tick,
    /// A request for help. Changes nothing.
    Help,
    /// Move the cursor one row down.
    MoveDown,
    /// Move the cursor one row up.
    MoveUp,
    /// Open the entry under the cursor: descend into a directory, launch a
    /// file. The request is resolved before the next frame is drawn.
    Activate,
    /// Go one step back in the history of the active tab.
    NavigateBack,
    /// Go one step forward in the history of the active tab.
    NavigateForward,
    /// Go to the parent of the current directory.
    ParentDirectory,
    /// Make the tab to the left active.
    TabPrev,
    /// Make the tab to the right active.
    TabNext,
    /// Open a copy of the active tab.
    TabNew,
    /// Close the active tab.
    TabClose,
    /// Show the current directory in the system's file manager.
    OpenInSystemExplorer,
    /// Open a shell in the current directory.
    OpenShellHere,
}

/// What the caller is asked to do with the launcher after a step. The engine
/// never waits for the launcher and never learns how it fared.
#[derive(Debug, PartialEq, Eq)]
pub enum Effect {
    /// Nothing to launch.
    Nothing,
    /// Open the file at this path.
    LaunchPath(String),
    /// Show the directory at this path in the system's file manager.
    OpenContainingFolder(String),
    /// Open a shell in the directory at this path.
    OpenShellAt(String),
}

/// The mathematical value of an [`Effect`].
#[verifier::ext_equal]
pub enum EffectSpec {
    Nothing,
    LaunchPath(Seq<char>),
    OpenContainingFolder(Seq<char>),
    OpenShellAt(Seq<char>),
}

impl View for Effect {
    type V = EffectSpec;

    open spec fn view(&self) -> EffectSpec {
        match self {
            Effect::Nothing => EffectSpec::Nothing,
            Effect::LaunchPath(path) => EffectSpec::LaunchPath(path@),
            Effect::OpenContainingFolder(path) => EffectSpec::OpenContainingFolder(path@),
            Effect::OpenShellAt(path) => EffectSpec::OpenShellAt(path@),
        }
    }
}

/// The result of one step of the engine.
#[derive(Debug, PartialEq, Eq)]
pub struct Outcome {
    /// What to ask of the launcher.
    pub effect: Effect,
    /// Whether the step changed the state, so that it has to be stored again.
    pub persist: bool,
}

} // verus!
