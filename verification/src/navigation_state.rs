//! The tabs, the active tab, and every rule that changes them.

use vstd::prelude::*;
use crate::action::{Action, Effect, EffectSpec, Outcome};
use crate::dir_entry::{DirEntry, DirEntrySpec};
use crate::seq_view::{text_view, views};
use crate::tab::{Tab, TabSpec};
use crate::working_directory::{WorkingDirectory, WorkingDirectorySpec};

verus! {

/// The whole navigation state, and the unit that is stored on disk.
#[derive(Debug, PartialEq, Eq)]
pub struct NavigationState {
    pub tabs: Vec<Tab>,
    pub active_tab: usize,
}

/// The mathematical value of a [`NavigationState`].
#[verifier::ext_equal]
pub struct NavigationSpec {
    pub tabs: Seq<TabSpec>,
    pub active_tab: nat,
}

impl View for NavigationState {
    type V = NavigationSpec;

    open spec fn view(&self) -> NavigationSpec {
        NavigationSpec { tabs: views(self.tabs@), active_tab: self.active_tab as nat }
    }
}

impl NavigationSpec {
    /// There is at least one tab, the active index names one of them, and
    /// every tab is well formed.
    pub open spec fn wf(self) -> bool {
        &&& self.tabs.len() > 0
        &&& self.active_tab < self.tabs.len()
        &&& forall|i: int| 0 <= i < self.tabs.len() ==> (#[trigger] self.tabs[i]).wf()
    }

    /// A single tab at `path`, not yet listed, with empty histories.
    pub open spec fn rooted_at(path: Seq<char>) -> NavigationSpec {
        NavigationSpec {
            tabs: seq![TabSpec::at(WorkingDirectorySpec::unlisted(path, 0))],
            active_tab: 0,
        }
    }

    /// Whether the active index names a tab.
    pub open spec fn has_active(self) -> bool {
        self.active_tab < self.tabs.len()
    }

    /// The active tab.
    pub open spec fn active(self) -> TabSpec
        recommends
            self.has_active(),
    {
        self.tabs[self.active_tab as int]
    }

    /// The state with `tab` in the place of the active tab. A state without
    /// an active tab is left as it is.
    pub open spec fn with_active(self, tab: TabSpec) -> NavigationSpec {
        if self.has_active() {
            NavigationSpec { tabs: self.tabs.update(self.active_tab as int, tab), ..self }
        } else {
            self
        }
    }

    /// The state after the cursor of the active tab moved one row down.
    pub open spec fn move_down(self) -> NavigationSpec {
        self.with_active(self.active().move_down())
    }

    /// The state after the cursor of the active tab moved one row up.
    pub open spec fn move_up(self) -> NavigationSpec {
        self.with_active(self.active().move_up())
    }

    /// The state with an activation of the active tab waiting to be
    /// resolved.
    pub open spec fn request_activation(self) -> NavigationSpec {
        self.with_active(self.active().request_activation())
    }

    /// The state after the active tab went one step back in its history.
    pub open spec fn navigate_back(self) -> NavigationSpec {
        self.with_active(self.active().navigate_back())
    }

    /// The state after the active tab went one step forward in its history.
    pub open spec fn navigate_forward(self) -> NavigationSpec {
        self.with_active(self.active().navigate_forward())
    }

    /// The state after the active tab moved to `parent`, if there is one.
    pub open spec fn ascend(self, parent: Option<Seq<char>>) -> NavigationSpec {
        self.with_active(self.active().ascend(parent))
    }

    /// The state after the active tab moved to the parent of its directory.
    pub open spec fn parent_directory(self) -> NavigationSpec {
        self.with_active(self.active().parent_directory())
    }

    /// The tab to the left becomes active. At the first tab nothing changes.
    pub open spec fn tab_prev(self) -> NavigationSpec {
        if 0 < self.active_tab <= self.tabs.len() {
            NavigationSpec { active_tab: (self.active_tab - 1) as nat, ..self }
        } else {
            self
        }
    }

    /// The tab to the right becomes active. At the last tab nothing changes.
    pub open spec fn tab_next(self) -> NavigationSpec {
        if self.active_tab + 1 < self.tabs.len() {
            NavigationSpec { active_tab: self.active_tab + 1, ..self }
        } else {
            self
        }
    }

    /// A copy of the active tab is appended. The active index stays.
    pub open spec fn tab_new(self) -> NavigationSpec {
        if self.has_active() {
            NavigationSpec { tabs: self.tabs.push(self.active()), ..self }
        } else {
            self
        }
    }

    /// The active tab is removed, and the active index steps back if it
    /// would otherwise point past the end. The last remaining tab is never
    /// removed: closing it changes nothing.
    pub open spec fn tab_close(self) -> NavigationSpec {
        if self.has_active() && self.tabs.len() > 1 {
            NavigationSpec {
                tabs: self.tabs.remove(self.active_tab as int),
                active_tab: if self.active_tab + 1 < self.tabs.len() {
                    self.active_tab
                } else {
                    (self.active_tab - 1) as nat
                },
            }
        } else {
            self
        }
    }

    /// The state after `action`.
    pub open spec fn apply(self, action: Action) -> NavigationSpec {
        match action {
            Action::Tick => self,
            Action::Help => self,
            Action::MoveDown => self.move_down(),
            Action::MoveUp => self.move_up(),
            Action::Activate => self.request_activation(),
            Action::NavigateBack => self.navigate_back(),
            Action::NavigateForward => self.navigate_forward(),
            Action::ParentDirectory => self.parent_directory(),
            Action::TabPrev => self.tab_prev(),
            Action::TabNext => self.tab_next(),
            Action::TabNew => self.tab_new(),
            Action::TabClose => self.tab_close(),
            Action::OpenInSystemExplorer => self,
            Action::OpenShellHere => self,
        }
    }

    /// What `action` asks of the launcher.
    pub open spec fn effect(self, action: Action) -> EffectSpec {
        if !self.has_active() {
            EffectSpec::Nothing
        } else {
            match action {
                Action::OpenInSystemExplorer => EffectSpec::OpenContainingFolder(
                    self.active().cwd.path,
                ),
                Action::OpenShellHere => EffectSpec::OpenShellAt(self.active().cwd.path),
                _ => EffectSpec::Nothing,
            }
        }
    }

    /// The state after a pending activation of the active tab is resolved.
    pub open spec fn resolve_activation(self) -> NavigationSpec {
        self.with_active(self.active().resolve_activation())
    }

    /// What resolving the pending activation asks of the launcher.
    pub open spec fn activation_effect(self) -> EffectSpec {
        if self.has_active() {
            self.active().activation_effect()
        } else {
            EffectSpec::Nothing
        }
    }

    /// Whether the active tab's directory has to be listed.
    pub open spec fn needs_listing(self) -> bool {
        self.has_active() && self.active().cwd.needs_listing()
    }

    /// The state after a listing came in. It is installed only where one is
    /// needed.
    pub open spec fn accept_listing(self, entries: Seq<DirEntrySpec>) -> NavigationSpec {
        if self.needs_listing() {
            self.with_active(self.active().populate(entries))
        } else {
            self
        }
    }
}

impl NavigationSpec {
    /// Putting `tab` in the place of the active tab changes the state
    /// exactly when `tab` differs from the active tab.
    pub proof fn lemma_with_active(self, tab: TabSpec)
        requires
            self.has_active(),
        ensures
            self.with_active(tab).tabs[self.active_tab as int] == tab,
            (self.with_active(tab) != self) == (tab != self.active()),
    {
        if tab == self.active() {
            assert(self.with_active(tab) =~= self);
        }
    }

    /// Every action keeps a well-formed state well formed. In particular no
    /// action leaves the state without a tab.
    pub proof fn lemma_apply_wf(self, action: Action)
        requires
            self.wf(),
        ensures
            self.apply(action).wf(),
    {
        self.active().lemma_steps_wf();
    }

    /// Resolving an activation keeps a well-formed state well formed.
    pub proof fn lemma_resolve_activation_wf(self)
        requires
            self.wf(),
        ensures
            self.resolve_activation().wf(),
    {
        self.active().lemma_steps_wf();
    }

    /// Taking a listing keeps a well-formed state well formed.
    pub proof fn lemma_accept_listing_wf(self, entries: Seq<DirEntrySpec>)
        requires
            self.wf(),
        ensures
            self.accept_listing(entries).wf(),
    {
        self.active().lemma_steps_wf();
    }
}

impl NavigationState {
    /// A single tab at `path`, not yet listed, with empty histories.
    pub fn rooted_at(path: String) -> (state: NavigationState)
        ensures
            state@ == NavigationSpec::rooted_at(path@),
            state@.wf(),
    {
        let mut tabs: Vec<Tab> = Vec::new();
        tabs.push(Tab::at(WorkingDirectory::unlisted(path, 0)));
        NavigationState { tabs, active_tab: 0 }
    }

    /// Whether the state is well formed.
    pub fn is_well_formed(&self) -> (ok: bool)
        ensures
            ok == self@.wf(),
    {
        if self.tabs.len() == 0 || self.active_tab >= self.tabs.len() {
            return false;
        }
        let mut i: usize = 0;
        while i < self.tabs.len()
            invariant
                i <= self.tabs.len(),
                forall|j: int| 0 <= j < i ==> (#[trigger] self@.tabs[j]).wf(),
            decreases self.tabs.len() - i,
        {
            if !self.tabs[i].is_well_formed() {
                assert(!self@.tabs[i as int].wf());
                return false;
            }
            i += 1;
        }
        true
    }

    /// The active tab, if the active index names one.
    pub fn active(&self) -> (tab: Option<&Tab>)
        ensures
            tab.is_some() == self@.has_active(),
            tab matches Some(t) ==> t@ == self@.active(),
    {
        if self.active_tab < self.tabs.len() {
            Some(&self.tabs[self.active_tab])
        } else {
            None
        }
    }

    /// Moves the cursor of the active tab one row down. Returns whether the
    /// state changed.
    pub fn move_down(&mut self) -> (changed: bool)
        ensures
            final(self)@ == old(self)@.move_down(),
            changed == (final(self)@ != old(self)@),
    {
        let i: usize = self.active_tab;
        if i < self.tabs.len() {
            let changed: bool = self.tabs[i].move_down();
            proof {
                old(self)@.lemma_with_active(self.tabs@[i as int]@);
            }
            changed
        } else {
            false
        }
    }

    /// Moves the cursor of the active tab one row up. Returns whether the
    /// state changed.
    pub fn move_up(&mut self) -> (changed: bool)
        ensures
            final(self)@ == old(self)@.move_up(),
            changed == (final(self)@ != old(self)@),
    {
        let i: usize = self.active_tab;
        if i < self.tabs.len() {
            let changed: bool = self.tabs[i].move_up();
            proof {
                old(self)@.lemma_with_active(self.tabs@[i as int]@);
            }
            changed
        } else {
            false
        }
    }

    /// Marks an activation of the active tab as pending. Returns whether
    /// the state changed.
    pub fn request_activation(&mut self) -> (changed: bool)
        ensures
            final(self)@ == old(self)@.request_activation(),
            changed == (final(self)@ != old(self)@),
    {
        let i: usize = self.active_tab;
        if i < self.tabs.len() {
            let changed: bool = self.tabs[i].request_activation();
            proof {
                old(self)@.lemma_with_active(self.tabs@[i as int]@);
            }
            changed
        } else {
            false
        }
    }

    /// Takes the active tab one step back in its history. Returns whether
    /// the state changed.
    pub fn navigate_back(&mut self) -> (changed: bool)
        ensures
            final(self)@ == old(self)@.navigate_back(),
            changed == (final(self)@ != old(self)@),
    {
        let i: usize = self.active_tab;
        if i < self.tabs.len() {
            let changed: bool = self.tabs[i].navigate_back();
            proof {
                old(self)@.lemma_with_active(self.tabs@[i as int]@);
            }
            changed
        } else {
            false
        }
    }

    /// Takes the active tab one step forward in its history. Returns
    /// whether the state changed.
    pub fn navigate_forward(&mut self) -> (changed: bool)
        ensures
            final(self)@ == old(self)@.navigate_forward(),
            changed == (final(self)@ != old(self)@),
    {
        let i: usize = self.active_tab;
        if i < self.tabs.len() {
            let changed: bool = self.tabs[i].navigate_forward();
            proof {
                old(self)@.lemma_with_active(self.tabs@[i as int]@);
            }
            changed
        } else {
            false
        }
    }

    /// Moves the active tab to `parent`, if there is one. Returns whether
    /// the state changed.
    pub fn ascend(&mut self, parent: Option<String>) -> (changed: bool)
        ensures
            final(self)@ == old(self)@.ascend(text_view(parent)),
            changed == (final(self)@ != old(self)@),
    {
        let i: usize = self.active_tab;
        if i < self.tabs.len() {
            let changed: bool = self.tabs[i].ascend(parent);
            proof {
                old(self)@.lemma_with_active(self.tabs@[i as int]@);
            }
            changed
        } else {
            false
        }
    }

    /// Moves the active tab to the parent of its directory, if it has one.
    /// Returns whether the state changed.
    pub fn parent_directory(&mut self) -> (changed: bool)
        ensures
            final(self)@ == old(self)@.parent_directory(),
            changed == (final(self)@ != old(self)@),
    {
        let i: usize = self.active_tab;
        if i < self.tabs.len() {
            let changed: bool = self.tabs[i].parent_directory();
            proof {
                old(self)@.lemma_with_active(self.tabs@[i as int]@);
            }
            changed
        } else {
            false
        }
    }

    /// Makes the tab to the left active. Returns whether the state changed.
    pub fn tab_prev(&mut self) -> (changed: bool)
        ensures
            final(self)@ == old(self)@.tab_prev(),
            changed == (final(self)@ != old(self)@),
    {
        if 0 < self.active_tab && self.active_tab <= self.tabs.len() {
            self.active_tab -= 1;
            true
        } else {
            false
        }
    }

    /// Makes the tab to the right active. Returns whether the state changed.
    pub fn tab_next(&mut self) -> (changed: bool)
        ensures
            final(self)@ == old(self)@.tab_next(),
            changed == (final(self)@ != old(self)@),
    {
        if self.active_tab < self.tabs.len() && self.active_tab + 1 < self.tabs.len() {
            self.active_tab += 1;
            true
        } else {
            false
        }
    }

    /// Appends a copy of the active tab. Returns whether the state changed.
    pub fn tab_new(&mut self) -> (changed: bool)
        ensures
            final(self)@ == old(self)@.tab_new(),
            changed == (final(self)@ != old(self)@),
    {
        let i: usize = self.active_tab;
        if i < self.tabs.len() {
            let copy: Tab = self.tabs[i].clone();
            self.tabs.push(copy);
            true
        } else {
            false
        }
    }

    /// Closes the active tab, unless it is the only one. Returns whether
    /// the state changed.
    pub fn tab_close(&mut self) -> (changed: bool)
        ensures
            final(self)@ == old(self)@.tab_close(),
            changed == (final(self)@ != old(self)@),
    {
        let i: usize = self.active_tab;
        if i < self.tabs.len() && self.tabs.len() > 1 {
            self.tabs.remove(i);
            if i >= self.tabs.len() {
                self.active_tab = i - 1;
            }
            true
        } else {
            false
        }
    }

    /// What `action` asks of the launcher.
    pub fn effect(&self, action: Action) -> (effect: Effect)
        ensures
            effect@ == self@.effect(action),
    {
        if self.active_tab >= self.tabs.len() {
            return Effect::Nothing;
        }
        match action {
            Action::OpenInSystemExplorer => Effect::OpenContainingFolder(
                self.tabs[self.active_tab].cwd.path.clone(),
            ),
            Action::OpenShellHere => Effect::OpenShellAt(
                self.tabs[self.active_tab].cwd.path.clone(),
            ),
            _ => Effect::Nothing,
        }
    }

    /// Performs `action`.
    pub fn apply(&mut self, action: Action) -> (outcome: Outcome)
        ensures
            final(self)@ == old(self)@.apply(action),
            outcome.effect@ == old(self)@.effect(action),
            outcome.persist == (final(self)@ != old(self)@),
            old(self)@.wf() ==> final(self)@.wf(),
    {
        proof {
            if old(self)@.wf() {
                old(self)@.lemma_apply_wf(action);
            }
        }
        let effect: Effect = self.effect(action);
        let persist: bool = match action {
            Action::Tick => false,
            Action::Help => false,
            Action::MoveDown => self.move_down(),
            Action::MoveUp => self.move_up(),
            Action::Activate => self.request_activation(),
            Action::NavigateBack => self.navigate_back(),
            Action::NavigateForward => self.navigate_forward(),
            Action::ParentDirectory => self.parent_directory(),
            Action::TabPrev => self.tab_prev(),
            Action::TabNext => self.tab_next(),
            Action::TabNew => self.tab_new(),
            Action::TabClose => self.tab_close(),
            Action::OpenInSystemExplorer => false,
            Action::OpenShellHere => false,
        };
        Outcome { effect, persist }
    }

    /// Resolves a pending activation of the active tab.
    pub fn resolve_activation(&mut self) -> (outcome: Outcome)
        ensures
            final(self)@ == old(self)@.resolve_activation(),
            outcome.effect@ == old(self)@.activation_effect(),
            outcome.persist == (final(self)@ != old(self)@),
            old(self)@.wf() ==> final(self)@.wf(),
    {
        proof {
            if old(self)@.wf() {
                old(self)@.lemma_resolve_activation_wf();
            }
        }
        let i: usize = self.active_tab;
        if i < self.tabs.len() {
            let outcome: Outcome = self.tabs[i].resolve_activation();
            proof {
                let after = self.tabs@[i as int]@;
                old(self)@.lemma_with_active(after);
                assert(self@ == old(self)@.with_active(after));
            }
            outcome
        } else {
            Outcome { effect: Effect::Nothing, persist: false }
        }
    }

    /// Whether the active tab's directory has to be listed.
    pub fn needs_listing(&self) -> (needed: bool)
        ensures
            needed == self@.needs_listing(),
    {
        self.active_tab < self.tabs.len() && self.tabs[self.active_tab].cwd.needs_listing()
    }

    /// Takes a listing of the active tab's directory. Returns whether the
    /// state changed.
    pub fn accept_listing(&mut self, entries: Vec<DirEntry>) -> (changed: bool)
        ensures
            final(self)@ == old(self)@.accept_listing(views(entries@)),
            changed == (final(self)@ != old(self)@),
            old(self)@.wf() ==> final(self)@.wf(),
    {
        let ghost listing = views(entries@);
        proof {
            if old(self)@.wf() {
                old(self)@.lemma_accept_listing_wf(listing);
            }
        }
        if !self.needs_listing() {
            return false;
        }
        let i: usize = self.active_tab;
        let changed: bool = entries.len() > 0;
        self.tabs[i].populate(entries);
        proof {
            let before = old(self)@.active();
            let after = self.tabs@[i as int]@;
            old(self)@.lemma_with_active(after);
            if !changed {
                assert(after =~= before);
            }
            assert(self@ == old(self)@.accept_listing(listing));
        }
        changed
    }
}

} // verus!
