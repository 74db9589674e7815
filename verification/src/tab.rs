//! One browsing context: a working directory and its two history stacks.

use vstd::prelude::*;
use crate::action::{Effect, EffectSpec, Outcome};
use crate::dir_entry::{DirEntry, DirEntrySpec};
use crate::paths::{parent_of, path_parent};
use crate::seq_view::{text_view, views};
use crate::working_directory::{
    all_wf, all_well_formed, clone_directories, WorkingDirectory, WorkingDirectorySpec,
};

verus! {

/// An independent browsing context. Both histories are stacks that grow and
/// shrink at the end.
#[derive(Debug, PartialEq, Eq)]
pub struct Tab {
    pub cwd: WorkingDirectory,
    pub history_backward: Vec<WorkingDirectory>,
    pub history_forward: Vec<WorkingDirectory>,
    /// Set by `Activate`, cleared when the activation is resolved.
    pub activation_pending: bool,
}

/// The mathematical value of a [`Tab`].
#[verifier::ext_equal]
pub struct TabSpec {
    pub cwd: WorkingDirectorySpec,
    pub history_backward: Seq<WorkingDirectorySpec>,
    pub history_forward: Seq<WorkingDirectorySpec>,
    pub activation_pending: bool,
}

impl View for Tab {
    type V = TabSpec;

    open spec fn view(&self) -> TabSpec {
        TabSpec {
            cwd: self.cwd@,
            history_backward: views(self.history_backward@),
            history_forward: views(self.history_forward@),
            activation_pending: self.activation_pending,
        }
    }
}

impl TabSpec {
    /// The current directory and every directory in the histories is well
    /// formed.
    pub open spec fn wf(self) -> bool {
        &&& self.cwd.wf()
        &&& all_wf(self.history_backward)
        &&& all_wf(self.history_forward)
    }

    /// A tab at `cwd` with empty histories.
    pub open spec fn at(cwd: WorkingDirectorySpec) -> TabSpec {
        TabSpec {
            cwd,
            history_backward: Seq::empty(),
            history_forward: Seq::empty(),
            activation_pending: false,
        }
    }

    /// The tab after its cursor moved one row down.
    pub open spec fn move_down(self) -> TabSpec {
        TabSpec { cwd: self.cwd.move_down(), ..self }
    }

    /// The tab after its cursor moved one row up.
    pub open spec fn move_up(self) -> TabSpec {
        TabSpec { cwd: self.cwd.move_up(), ..self }
    }

    /// The tab with an activation waiting to be resolved.
    pub open spec fn request_activation(self) -> TabSpec {
        TabSpec { activation_pending: true, ..self }
    }

    /// The tab after leaving the current directory for a fresh, unlisted one
    /// at `path` with the cursor at `cursor`. The directory left is pushed
    /// onto the backward history; the forward history stays as it is.
    pub open spec fn visit(self, path: Seq<char>, cursor: nat) -> TabSpec {
        TabSpec {
            cwd: WorkingDirectorySpec::unlisted(path, cursor),
            history_backward: self.history_backward.push(self.cwd),
            ..self
        }
    }

    /// The tab after moving to `parent`, if there is one: the cursor starts
    /// at the top.
    pub open spec fn ascend(self, parent: Option<Seq<char>>) -> TabSpec {
        match parent {
            Some(path) => self.visit(path, 0),
            None => self,
        }
    }

    /// The tab after moving to the parent of the current directory.
    pub open spec fn parent_directory(self) -> TabSpec {
        self.ascend(parent_of(self.cwd.path))
    }

    /// The tab after going one step back in history: the top of the backward
    /// history becomes current, and the directory left is pushed onto the
    /// forward history. With an empty backward history nothing changes.
    pub open spec fn navigate_back(self) -> TabSpec {
        if self.history_backward.len() > 0 {
            TabSpec {
                cwd: self.history_backward.last(),
                history_backward: self.history_backward.drop_last(),
                history_forward: self.history_forward.push(self.cwd),
                ..self
            }
        } else {
            self
        }
    }

    /// The mirror image of `navigate_back`.
    pub open spec fn navigate_forward(self) -> TabSpec {
        if self.history_forward.len() > 0 {
            TabSpec {
                cwd: self.history_forward.last(),
                history_backward: self.history_backward.push(self.cwd),
                history_forward: self.history_forward.drop_last(),
                ..self
            }
        } else {
            self
        }
    }

    /// The tab with `entries` as the listing of its current directory.
    pub open spec fn populate(self, entries: Seq<DirEntrySpec>) -> TabSpec {
        TabSpec { cwd: self.cwd.populate(entries), ..self }
    }

    /// The tab after a pending activation is resolved. On a directory the
    /// tab descends into it and keeps the cursor's position; on a file, or
    /// with no entry under the cursor, only the flag is cleared.
    pub open spec fn resolve_activation(self) -> TabSpec {
        if !self.activation_pending {
            self
        } else {
            match self.cwd.selected() {
                Some(entry) if entry.is_dir => TabSpec {
                    activation_pending: false,
                    ..self.visit(entry.path, self.cwd.cursor)
                },
                _ => TabSpec { activation_pending: false, ..self },
            }
        }
    }

    /// What resolving a pending activation asks of the launcher: to open the
    /// file under the cursor, if a file is there.
    pub open spec fn activation_effect(self) -> EffectSpec {
        if !self.activation_pending {
            EffectSpec::Nothing
        } else {
            match self.cwd.selected() {
                Some(entry) if !entry.is_dir => EffectSpec::LaunchPath(entry.path),
                _ => EffectSpec::Nothing,
            }
        }
    }

    /// Every step of a tab keeps it well formed.
    pub proof fn lemma_steps_wf(self)
        requires
            self.wf(),
        ensures
            self.move_down().wf(),
            self.move_up().wf(),
            self.request_activation().wf(),
            self.navigate_back().wf(),
            self.navigate_forward().wf(),
            self.parent_directory().wf(),
            self.resolve_activation().wf(),
            forall|path: Seq<char>, cursor: nat| (#[trigger] self.visit(path, cursor)).wf(),
            forall|parent: Option<Seq<char>>| (#[trigger] self.ascend(parent)).wf(),
            forall|entries: Seq<DirEntrySpec>| (#[trigger] self.populate(entries)).wf(),
    {
    }
}

impl Tab {
    /// A tab at `cwd` with empty histories.
    pub fn at(cwd: WorkingDirectory) -> (tab: Tab)
        ensures
            tab@ == TabSpec::at(cwd@),
    {
        Tab {
            cwd,
            history_backward: Vec::new(),
            history_forward: Vec::new(),
            activation_pending: false,
        }
    }

    /// Whether the current directory and both histories are well formed.
    pub fn is_well_formed(&self) -> (ok: bool)
        ensures
            ok == self@.wf(),
    {
        self.cwd.is_well_formed() && all_well_formed(&self.history_backward) && all_well_formed(
            &self.history_forward,
        )
    }

    /// Moves the cursor one row down. Returns whether the tab changed.
    pub fn move_down(&mut self) -> (changed: bool)
        ensures
            final(self)@ == old(self)@.move_down(),
            changed == (final(self)@ != old(self)@),
    {
        self.cwd.move_down()
    }

    /// Moves the cursor one row up. Returns whether the tab changed.
    pub fn move_up(&mut self) -> (changed: bool)
        ensures
            final(self)@ == old(self)@.move_up(),
            changed == (final(self)@ != old(self)@),
    {
        self.cwd.move_up()
    }

    /// Marks an activation as pending. Returns whether the tab changed.
    pub fn request_activation(&mut self) -> (changed: bool)
        ensures
            final(self)@ == old(self)@.request_activation(),
            changed == (final(self)@ != old(self)@),
    {
        if self.activation_pending {
            false
        } else {
            self.activation_pending = true;
            true
        }
    }

    /// Leaves the current directory for a fresh one at `path`.
    pub fn visit(&mut self, path: String, cursor: usize)
        ensures
            final(self)@ == old(self)@.visit(path@, cursor as nat),
            final(self)@ != old(self)@,
    {
        let mut left: WorkingDirectory = WorkingDirectory::unlisted(path, cursor);
        std::mem::swap(&mut self.cwd, &mut left);
        self.history_backward.push(left);
        assert(self@.history_backward.len() == old(self)@.history_backward.len() + 1);
    }

    /// Moves to `parent`, if there is one. Returns whether the tab changed.
    pub fn ascend(&mut self, parent: Option<String>) -> (changed: bool)
        ensures
            final(self)@ == old(self)@.ascend(text_view(parent)),
            changed == (final(self)@ != old(self)@),
            changed == parent.is_some(),
    {
        match parent {
            Some(path) => {
                self.visit(path, 0);
                true
            },
            None => false,
        }
    }

    /// Moves to the parent of the current directory, if it has one. Returns
    /// whether the tab changed.
    pub fn parent_directory(&mut self) -> (changed: bool)
        ensures
            final(self)@ == old(self)@.parent_directory(),
            changed == (final(self)@ != old(self)@),
    {
        let parent: Option<String> = path_parent(self.cwd.path.as_str());
        self.ascend(parent)
    }

    /// Goes one step back in history. Returns whether the tab changed.
    pub fn navigate_back(&mut self) -> (changed: bool)
        ensures
            final(self)@ == old(self)@.navigate_back(),
            changed == (final(self)@ != old(self)@),
    {
        match self.history_backward.pop() {
            Some(dir) => {
                let mut left: WorkingDirectory = dir;
                std::mem::swap(&mut self.cwd, &mut left);
                self.history_forward.push(left);
                true
            },
            None => false,
        }
    }

    /// Goes one step forward in history. Returns whether the tab changed.
    pub fn navigate_forward(&mut self) -> (changed: bool)
        ensures
            final(self)@ == old(self)@.navigate_forward(),
            changed == (final(self)@ != old(self)@),
    {
        match self.history_forward.pop() {
            Some(dir) => {
                let mut left: WorkingDirectory = dir;
                std::mem::swap(&mut self.cwd, &mut left);
                self.history_backward.push(left);
                true
            },
            None => false,
        }
    }

    /// Installs `entries` as the listing of the current directory.
    pub fn populate(&mut self, entries: Vec<DirEntry>)
        ensures
            final(self)@ == old(self)@.populate(views(entries@)),
    {
        self.cwd.populate(entries);
    }

    /// Resolves a pending activation: descends into the directory under the
    /// cursor, or asks for the file under it to be opened.
    pub fn resolve_activation(&mut self) -> (outcome: Outcome)
        ensures
            final(self)@ == old(self)@.resolve_activation(),
            outcome.effect@ == old(self)@.activation_effect(),
            outcome.persist == (final(self)@ != old(self)@),
    {
        if !self.activation_pending {
            return Outcome { effect: Effect::Nothing, persist: false };
        }
        self.activation_pending = false;
        let target: Option<(String, bool)> = match self.cwd.selected() {
            Some(entry) => Some((entry.path.clone(), entry.is_dir)),
            None => None,
        };
        match target {
            Some((path, true)) => {
                let cursor: usize = self.cwd.cursor;
                self.visit(path, cursor);
                Outcome { effect: Effect::Nothing, persist: true }
            },
            Some((path, false)) => Outcome { effect: Effect::LaunchPath(path), persist: true },
            None => Outcome { effect: Effect::Nothing, persist: true },
        }
    }
}

impl Clone for Tab {
    fn clone(&self) -> (copy: Tab)
        ensures
            copy@ == self@,
    {
        Tab {
            cwd: self.cwd.clone(),
            history_backward: clone_directories(&self.history_backward),
            history_forward: clone_directories(&self.history_forward),
            activation_pending: self.activation_pending,
        }
    }
}

} // verus!
