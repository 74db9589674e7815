//! Directory listings: what becomes of the children the filesystem reports.
//!
//! Reading a directory is the caller's work. It hands over the children it
//! found, in the order in which the filesystem reported them, or the reason
//! why the directory could not be read.

use vstd::prelude::*;
use crate::dir_entry::{DirEntry, DirEntrySpec};
use crate::seq_view::views;

verus! {

/// Why a directory could not be listed.
#[derive(Clone, Copy, Debug, PartialEq, Eq, Structural)]
pub enum DirectoryError {
    NotFound,
    PermissionDenied,
    Other,
}

/// Whether a reported child is kept: one without a path is dropped.
pub open spec fn has_path(found: DirEntrySpec) -> bool {
    found.path.len() > 0
}

/// The listing made of the reported children `found`: those with a path, in
/// the order in which they were reported.
pub open spec fn listing_of(found: Seq<DirEntrySpec>) -> Seq<DirEntrySpec> {
    found.filter(|child: DirEntrySpec| has_path(child))
}

/// The outcome of reading a directory, as the engine sees it.
pub open spec fn found_view(found: Result<Vec<DirEntry>, DirectoryError>) -> Result<
    Seq<DirEntrySpec>,
    DirectoryError,
> {
    match found {
        Ok(children) => Ok(views(children@)),
        Err(reason) => Err(reason),
    }
}

/// What listing a directory gives, from the outcome of reading it: the
/// listing made of its children, or the reason why it could not be read.
pub open spec fn listed(found: Result<Seq<DirEntrySpec>, DirectoryError>) -> Result<
    Seq<DirEntrySpec>,
    DirectoryError,
> {
    match found {
        Ok(children) => Ok(listing_of(children)),
        Err(reason) => Err(reason),
    }
}

/// The entries of a directory whose children were reported as `found`.
pub fn entries(found: Vec<DirEntry>) -> (listing: Vec<DirEntry>)
    ensures
        views(listing@) == listing_of(views(found@)),
{
    let ghost keep = |child: DirEntrySpec| has_path(child);
    let ghost all = views(found@);
    let ghost reported = found@;
    let mut listing: Vec<DirEntry> = Vec::new();
    assert(all.take(0).filter(keep) =~= Seq::empty()) by {
        reveal(Seq::filter);
    }
    for child in it: found
        invariant
            it.seq() == reported,
            all == views(reported),
            keep == (|child: DirEntrySpec| has_path(child)),
            views(listing@) == all.take(it.index() as int).filter(keep),
    {
        proof {
            let i = it.index() as int;
            assert(all.take(i + 1) =~= all.take(i).push(all[i]));
            all.take(i).lemma_filter_push(all[i], keep);
        }
        if !child.path.as_str().is_empty() {
            listing.push(child);
        }
    }
    assert(all.take(all.len() as int) =~= all);
    listing
}

/// The outcome of listing a directory: its entries, or the reason why it
/// could not be read. A failure is never turned into an empty listing.
pub fn list(found: Result<Vec<DirEntry>, DirectoryError>) -> (listing: Result<
    Vec<DirEntry>,
    DirectoryError,
>)
    ensures
        found_view(listing) == listed(found_view(found)),
{
    match found {
        Ok(children) => Ok(entries(children)),
        Err(reason) => Err(reason),
    }
}

} // verus!
