//! Path syntax, taken from the standard library.
//!
//! The engine stores paths as text and never looks inside them itself. The
//! two questions it has to ask of a path, what its parent is and what its
//! last component is called, are answered by `std::path::Path`, by the
//! rules of the platform the program is built for. Verus does not see that
//! code: the contracts of the two functions at the end of this file are
//! believed, not proved.

use vstd::prelude::*;
use crate::seq_view::text_view;

verus! {

/// The parent of the path written `path`, as `std::path::Path::parent`
/// gives it: the path without its last component, or `None` where there is
/// no such component because the path ends in a root or is empty.
pub uninterp spec fn parent_of(path: Seq<char>) -> Option<Seq<char>>;

/// The last component of the path written `path`, as
/// `std::path::Path::file_name` gives it: the name of the file or directory,
/// or `None` where the path ends in a root or in `..`.
pub uninterp spec fn file_name_of(path: Seq<char>) -> Option<Seq<char>>;

/// Calls `std::path::Path::parent` on the path written `path` and hands
/// the parent back as text.
///
/// Believed, not proved: what comes back depends on the text of `path`
/// alone. The contract gives that dependence the name `parent_of` and
/// claims nothing of what it is.
#[verifier::external_body]
pub(crate) fn path_parent(path: &str) -> (parent: Option<String>)
    ensures
        text_view(parent) == parent_of(path@),
{
    match std::path::Path::new(path).parent() {
        Some(p) => match p.to_str() {
            Some(text) => Some(text.to_string()),
            None => None,
        },
        None => None,
    }
}

/// Calls `std::path::Path::file_name` on the path written `path` and hands
/// the name back as text.
///
/// Believed, not proved: what comes back depends on the text of `path`
/// alone. The contract gives that dependence the name `file_name_of` and
/// claims nothing of what it is.
#[verifier::external_body]
pub(crate) fn path_file_name(path: &str) -> (name: Option<String>)
    ensures
        text_view(name) == file_name_of(path@),
{
    match std::path::Path::new(path).file_name() {
        Some(n) => match n.to_str() {
            Some(text) => Some(text.to_string()),
            None => None,
        },
        None => None,
    }
}

} // verus!
