//! One entry of a directory listing.

use vstd::prelude::*;
use crate::seq_view::views;

verus! {

/// An immediate child of a directory. Its identity is `path`.
#[derive(Debug, PartialEq, Eq)]
pub struct DirEntry {
    pub path: String,
    pub is_dir: bool,
    pub size: Option<usize>,
}

/// The mathematical value of a [`DirEntry`].
#[verifier::ext_equal]
pub struct DirEntrySpec {
    pub path: Seq<char>,
    pub is_dir: bool,
    pub size: Option<usize>,
}

impl View for DirEntry {
    type V = DirEntrySpec;

    open spec fn view(&self) -> DirEntrySpec {
        DirEntrySpec { path: self.path@, is_dir: self.is_dir, size: self.size }
    }
}

impl DirEntry {
    /// An entry whose size is not known.
    pub fn new(path: String, is_dir: bool) -> (entry: DirEntry)
        ensures
            entry@ == (DirEntrySpec { path: path@, is_dir, size: None }),
    {
        DirEntry { path, is_dir, size: None }
    }
}

impl Clone for DirEntry {
    fn clone(&self) -> (copy: DirEntry)
        ensures
            copy@ == self@,
    {
        DirEntry { path: self.path.clone(), is_dir: self.is_dir, size: self.size }
    }
}

/// A copy of `entries`, element by element.
pub fn clone_entries(entries: &Vec<DirEntry>) -> (copy: Vec<DirEntry>)
    ensures
        views(copy@) == views(entries@),
{
    let mut copy: Vec<DirEntry> = Vec::new();
    let mut i: usize = 0;
    while i < entries.len()
        invariant
            i <= entries.len(),
            copy.len() == i,
            forall|j: int| 0 <= j < i ==> copy@[j]@ == entries@[j]@,
        decreases entries.len() - i,
    {
        copy.push(entries[i].clone());
        i += 1;
    }
    copy
}

} // verus!
