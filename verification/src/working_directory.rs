//! A directory being browsed: its path, its listing and the selected row.

use vstd::prelude::*;
use crate::dir_entry::{clone_entries, DirEntry, DirEntrySpec};
use crate::seq_view::views;

verus! {

/// A directory path with its listing and cursor. An empty `children` means
/// that the directory has not been listed yet.
#[derive(Debug, PartialEq, Eq)]
pub struct WorkingDirectory {
    pub path: String,
    pub children: Vec<DirEntry>,
    pub cursor: usize,
}

/// The mathematical value of a [`WorkingDirectory`].
#[verifier::ext_equal]
pub struct WorkingDirectorySpec {
    pub path: Seq<char>,
    pub children: Seq<DirEntrySpec>,
    pub cursor: nat,
}

impl View for WorkingDirectory {
    type V = WorkingDirectorySpec;

    open spec fn view(&self) -> WorkingDirectorySpec {
        WorkingDirectorySpec {
            path: self.path@,
            children: views(self.children@),
            cursor: self.cursor as nat,
        }
    }
}

impl WorkingDirectorySpec {
    /// Once the directory is listed, the cursor is on one of its rows.
    pub open spec fn wf(self) -> bool {
        self.children.len() > 0 ==> self.cursor < self.children.len()
    }

    /// A directory that still has to be listed.
    pub open spec fn unlisted(path: Seq<char>, cursor: nat) -> WorkingDirectorySpec {
        WorkingDirectorySpec { path, children: Seq::empty(), cursor }
    }

    /// Whether the listing has to be fetched.
    pub open spec fn needs_listing(self) -> bool {
        self.children.len() == 0
    }

    /// The largest cursor the listing admits; 0 for an empty listing.
    pub open spec fn last_row(self) -> nat {
        if self.children.len() == 0 {
            0
        } else {
            (self.children.len() - 1) as nat
        }
    }

    /// The cursor one row further down, never past the last row. Nothing
    /// moves while the directory is not listed.
    pub open spec fn move_down(self) -> WorkingDirectorySpec {
        if self.children.len() == 0 {
            self
        } else if self.cursor + 1 < self.children.len() {
            WorkingDirectorySpec { cursor: self.cursor + 1, ..self }
        } else {
            WorkingDirectorySpec { cursor: self.last_row(), ..self }
        }
    }

    /// The cursor one row further up, never above the first row.
    pub open spec fn move_up(self) -> WorkingDirectorySpec {
        if self.cursor > 0 {
            WorkingDirectorySpec { cursor: (self.cursor - 1) as nat, ..self }
        } else {
            self
        }
    }

    /// The directory with `entries` as its listing. The cursor is pulled back
    /// onto the last row if it lies beyond it; against an empty listing it is
    /// left alone.
    pub open spec fn populate(self, entries: Seq<DirEntrySpec>) -> WorkingDirectorySpec {
        WorkingDirectorySpec {
            path: self.path,
            children: entries,
            cursor: if entries.len() == 0 || self.cursor < entries.len() {
                self.cursor
            } else {
                (entries.len() - 1) as nat
            },
        }
    }

    /// The entry under the cursor, if there is one.
    pub open spec fn selected(self) -> Option<DirEntrySpec> {
        if self.cursor < self.children.len() {
            Some(self.children[self.cursor as int])
        } else {
            None
        }
    }
}

/// Whether every directory of `dirs` is well formed.
pub open spec fn all_wf(dirs: Seq<WorkingDirectorySpec>) -> bool {
    forall|i: int| 0 <= i < dirs.len() ==> (#[trigger] dirs[i]).wf()
}

impl WorkingDirectory {
    /// A directory at `path` that still has to be listed, with the cursor at
    /// `cursor`.
    pub fn unlisted(path: String, cursor: usize) -> (dir: WorkingDirectory)
        ensures
            dir@ == WorkingDirectorySpec::unlisted(path@, cursor as nat),
            dir@.wf(),
    {
        WorkingDirectory { path, children: Vec::new(), cursor }
    }

    /// Whether the cursor is on a row of the listing, or the listing is empty.
    pub fn is_well_formed(&self) -> (ok: bool)
        ensures
            ok == self@.wf(),
    {
        self.children.len() == 0 || self.cursor < self.children.len()
    }

    /// Whether the listing has to be fetched.
    pub fn needs_listing(&self) -> (needed: bool)
        ensures
            needed == self@.needs_listing(),
    {
        self.children.len() == 0
    }

    /// Moves the cursor one row down. Returns whether it moved.
    pub fn move_down(&mut self) -> (moved: bool)
        ensures
            final(self)@ == old(self)@.move_down(),
            moved == (final(self)@ != old(self)@),
    {
        let len: usize = self.children.len();
        if len == 0 {
            return false;
        }
        let target: usize = if self.cursor < len - 1 {
            self.cursor + 1
        } else {
            len - 1
        };
        let moved: bool = target != self.cursor;
        self.cursor = target;
        moved
    }

    /// Moves the cursor one row up. Returns whether it moved.
    pub fn move_up(&mut self) -> (moved: bool)
        ensures
            final(self)@ == old(self)@.move_up(),
            moved == (final(self)@ != old(self)@),
    {
        if self.cursor > 0 {
            self.cursor -= 1;
            true
        } else {
            false
        }
    }

    /// Installs `entries` as the listing and pulls the cursor back onto it.
    pub fn populate(&mut self, entries: Vec<DirEntry>)
        ensures
            final(self)@ == old(self)@.populate(views(entries@)),
            final(self)@.wf(),
    {
        let len: usize = entries.len();
        if len > 0 && self.cursor >= len {
            self.cursor = len - 1;
        }
        self.children = entries;
    }

    /// The entry under the cursor, if there is one.
    pub fn selected(&self) -> (entry: Option<&DirEntry>)
        ensures
            match entry {
                Some(e) => self@.selected() == Some(e@),
                None => self@.selected().is_none(),
            },
    {
        if self.cursor < self.children.len() {
            Some(&self.children[self.cursor])
        } else {
            None
        }
    }
}

impl Clone for WorkingDirectory {
    fn clone(&self) -> (copy: WorkingDirectory)
        ensures
            copy@ == self@,
    {
        WorkingDirectory {
            path: self.path.clone(),
            children: clone_entries(&self.children),
            cursor: self.cursor,
        }
    }
}

/// A copy of `dirs`, element by element.
pub fn clone_directories(dirs: &Vec<WorkingDirectory>) -> (copy: Vec<WorkingDirectory>)
    ensures
        views(copy@) == views(dirs@),
{
    let mut copy: Vec<WorkingDirectory> = Vec::new();
    let mut i: usize = 0;
    while i < dirs.len()
        invariant
            i <= dirs.len(),
            copy.len() == i,
            forall|j: int| 0 <= j < i ==> copy@[j]@ == dirs@[j]@,
        decreases dirs.len() - i,
    {
        copy.push(dirs[i].clone());
        i += 1;
    }
    copy
}

/// Whether every directory of `dirs` is well formed.
pub fn all_well_formed(dirs: &Vec<WorkingDirectory>) -> (ok: bool)
    ensures
        ok == all_wf(views(dirs@)),
{
    let mut i: usize = 0;
    while i < dirs.len()
        invariant
            i <= dirs.len(),
            forall|j: int| 0 <= j < i ==> (#[trigger] views(dirs@)[j]).wf(),
            views(dirs@).len() == dirs.len(),
        decreases dirs.len() - i,
    {
        if !dirs[i].is_well_formed() {
            assert(!views(dirs@)[i as int].wf());
            return false;
        }
        i += 1;
    }
    true
}

} // verus!
