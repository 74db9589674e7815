//! From key presses to logical actions.

use vstd::prelude::*;
use crate::action::Action;

verus! {

/// The key that was pressed.
#[derive(Clone, Copy, Debug, PartialEq, Eq, Structural)]
pub enum KeyCode {
    Char(char),
    Up,
    Down,
    Left,
    Right,
    Enter,
    /// Any key the engine has no name for.
    Other,
}

/// A key press: the key, and whether Alt was held.
#[derive(Clone, Copy, Debug, PartialEq, Eq, Structural)]
pub struct KeyInput {
    pub code: KeyCode,
    pub alt: bool,
}

/// One line of the binding table. A line with `alt` set applies only while
/// Alt is held; one without applies either way.
#[derive(Clone, Copy, Debug, PartialEq, Eq, Structural)]
pub struct Binding {
    pub code: KeyCode,
    pub alt: bool,
    pub action: Action,
}

/// The binding table. Earlier lines win over later ones.
#[derive(Debug, PartialEq, Eq)]
pub struct KeyBindings {
    pub entries: Vec<Binding>,
}

impl Binding {
    /// Whether this line applies to `key`.
    pub open spec fn matches(self, key: KeyInput) -> bool {
        self.code == key.code && (self.alt ==> key.alt)
    }
}

/// The action of the first line of `bindings`, from line `from` on, that
/// applies to `key`, if any does.
pub open spec fn first_match_from(bindings: Seq<Binding>, key: KeyInput, from: nat) -> Option<
    Action,
>
    decreases bindings.len() - from,
{
    if from >= bindings.len() {
        None
    } else if bindings[from as int].matches(key) {
        Some(bindings[from as int].action)
    } else {
        first_match_from(bindings, key, from + 1)
    }
}

/// The action of the first line of `bindings` that applies to `key`, if any
/// does.
pub open spec fn first_match(bindings: Seq<Binding>, key: KeyInput) -> Option<Action> {
    first_match_from(bindings, key, 0)
}

/// The action the standard bindings give to `key`. Arrow keys and their
/// letter twins (`h`, `j`, `k`, `l`) mean the same; Alt selects the history
/// and parent moves.
pub open spec fn standard_action(key: KeyInput) -> Option<Action> {
    match key.code {
        KeyCode::Char('j') | KeyCode::Down => Some(Action::MoveDown),
        KeyCode::Char('k') | KeyCode::Up => if key.alt {
            Some(Action::ParentDirectory)
        } else {
            Some(Action::MoveUp)
        },
        KeyCode::Enter => Some(Action::Activate),
        KeyCode::Left | KeyCode::Char('h') => if key.alt {
            Some(Action::NavigateBack)
        } else {
            Some(Action::TabPrev)
        },
        KeyCode::Right | KeyCode::Char('l') => if key.alt {
            Some(Action::NavigateForward)
        } else {
            Some(Action::TabNext)
        },
        KeyCode::Char('e') => Some(Action::OpenInSystemExplorer),
        KeyCode::Char('s') => Some(Action::OpenShellHere),
        KeyCode::Char('t') => Some(Action::TabNew),
        KeyCode::Char('x') => Some(Action::TabClose),
        _ => None,
    }
}

/// The action that `bindings` give to `key`; `None` for a key that is not
/// bound.
pub fn resolve(key: KeyInput, bindings: &KeyBindings) -> (action: Option<Action>)
    ensures
        action == first_match(bindings.entries@, key),
{
    let mut i: usize = 0;
    while i < bindings.entries.len()
        invariant
            i <= bindings.entries.len(),
            first_match(bindings.entries@, key) == first_match_from(
                bindings.entries@,
                key,
                i as nat,
            ),
        decreases bindings.entries.len() - i,
    {
        let line: Binding = bindings.entries[i];
        if line.code == key.code && (!line.alt || key.alt) {
            return Some(line.action);
        }
        i += 1;
    }
    None
}

impl KeyBindings {
    /// The standard bindings.
    pub fn standard() -> (bindings: KeyBindings)
        ensures
            forall|key: KeyInput|
                #[trigger] first_match(bindings.entries@, key) == standard_action(key),
    {
        let mut entries: Vec<Binding> = Vec::new();
        entries.push(Binding { code: KeyCode::Char('j'), alt: false, action: Action::MoveDown });
        entries.push(Binding { code: KeyCode::Down, alt: false, action: Action::MoveDown });
        entries.push(
            Binding { code: KeyCode::Char('k'), alt: true, action: Action::ParentDirectory },
        );
        entries.push(Binding { code: KeyCode::Up, alt: true, action: Action::ParentDirectory });
        entries.push(Binding { code: KeyCode::Char('k'), alt: false, action: Action::MoveUp });
        entries.push(Binding { code: KeyCode::Up, alt: false, action: Action::MoveUp });
        entries.push(Binding { code: KeyCode::Enter, alt: false, action: Action::Activate });
        entries.push(Binding { code: KeyCode::Left, alt: true, action: Action::NavigateBack });
        entries.push(Binding { code: KeyCode::Char('h'), alt: true, action: Action::NavigateBack });
        entries.push(Binding { code: KeyCode::Left, alt: false, action: Action::TabPrev });
        entries.push(Binding { code: KeyCode::Char('h'), alt: false, action: Action::TabPrev });
        entries.push(
            Binding { code: KeyCode::Right, alt: true, action: Action::NavigateForward },
        );
        entries.push(
            Binding { code: KeyCode::Char('l'), alt: true, action: Action::NavigateForward },
        );
        entries.push(Binding { code: KeyCode::Right, alt: false, action: Action::TabNext });
        entries.push(Binding { code: KeyCode::Char('l'), alt: false, action: Action::TabNext });
        entries.push(
            Binding { code: KeyCode::Char('e'), alt: false, action: Action::OpenInSystemExplorer },
        );
        entries.push(
            Binding { code: KeyCode::Char('s'), alt: false, action: Action::OpenShellHere },
        );
        entries.push(Binding { code: KeyCode::Char('t'), alt: false, action: Action::TabNew });
        entries.push(Binding { code: KeyCode::Char('x'), alt: false, action: Action::TabClose });
        proof {
            let table = entries@;
            assert forall|key: KeyInput| #[trigger]
                first_match(table, key) == standard_action(key) by {
                reveal_with_fuel(first_match_from, 20);
            }
        }
        KeyBindings { entries }
    }
}

} // verus!
