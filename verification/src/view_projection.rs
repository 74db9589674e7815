//! The picture of the state that a renderer draws.
//!
//! Nothing here changes the state. The one thing taken from outside is the
//! last component of a path, which the standard library names (see
//! `paths`).

use vstd::prelude::*;
use vstd::string::*;
use crate::dir_entry::{DirEntry, DirEntrySpec};
use crate::directory_cache::DirectoryError;
use crate::navigation_state::{NavigationSpec, NavigationState};
use crate::paths::{file_name_of, path_file_name};
use crate::seq_view::{text_view, views};
use crate::tab::{Tab, TabSpec};

verus! {

/// The label of one tab.
#[derive(Debug, PartialEq, Eq)]
pub struct TabLabel {
    pub label: String,
    /// Whether this is the active tab.
    pub active: bool,
}

/// One row of the directory listing.
#[derive(Debug, PartialEq, Eq)]
pub struct Row {
    pub text: String,
    /// Whether the cursor is on this row.
    pub highlighted: bool,
}

/// Everything a renderer needs to draw one frame.
#[derive(Debug, PartialEq, Eq)]
pub struct ViewModel {
    /// One label for each tab, in order.
    pub tabs: Vec<TabLabel>,
    /// The path of the active tab's directory.
    pub path: String,
    /// The rows of the active tab's directory, in order.
    pub rows: Vec<Row>,
    /// Why the directory could not be listed, if it could not. A renderer
    /// shows this in place of the rows.
    pub error: Option<DirectoryError>,
}

/// The mathematical value of a [`TabLabel`].
#[verifier::ext_equal]
pub struct TabLabelSpec {
    pub label: Seq<char>,
    pub active: bool,
}

/// The mathematical value of a [`Row`].
#[verifier::ext_equal]
pub struct RowSpec {
    pub text: Seq<char>,
    pub highlighted: bool,
}

/// The mathematical value of a [`ViewModel`].
#[verifier::ext_equal]
pub struct ViewModelSpec {
    pub tabs: Seq<TabLabelSpec>,
    pub path: Seq<char>,
    pub rows: Seq<RowSpec>,
    pub error: Option<DirectoryError>,
}

impl View for TabLabel {
    type V = TabLabelSpec;

    open spec fn view(&self) -> TabLabelSpec {
        TabLabelSpec { label: self.label@, active: self.active }
    }
}

impl View for Row {
    type V = RowSpec;

    open spec fn view(&self) -> RowSpec {
        RowSpec { text: self.text@, highlighted: self.highlighted }
    }
}

impl View for ViewModel {
    type V = ViewModelSpec;

    open spec fn view(&self) -> ViewModelSpec {
        ViewModelSpec {
            tabs: views(self.tabs@),
            path: self.path@,
            rows: views(self.rows@),
            error: self.error,
        }
    }
}

/// Whether `text` ends with `suffix`.
pub open spec fn ends_with(text: Seq<char>, suffix: Seq<char>) -> bool {
    suffix.len() <= text.len() && text.subrange(text.len() - suffix.len(), text.len() as int)
        == suffix
}

/// Whether `text` starts with `prefix`.
pub open spec fn starts_with(text: Seq<char>, prefix: Seq<char>) -> bool {
    prefix.len() <= text.len() && text.subrange(0, prefix.len() as int) == prefix
}

/// The icon shown before the name of a directory.
pub open spec fn folder_icon() -> Seq<char> {
    "\u{1F4C2} "@
}

/// The icon shown before the file name `name`. The first rule that applies
/// decides: sound files, hidden files, programs, archives, pictures, and a
/// sheet of paper for everything else.
pub open spec fn icon_of(name: Seq<char>) -> Seq<char> {
    if ends_with(name, ".mp3"@) {
        "\u{1F3B9} "@
    } else if starts_with(name, "."@) {
        "\u{2699} "@
    } else if ends_with(name, ".exe"@) {
        "\u{1F4BE} "@
    } else if ends_with(name, ".zip"@) {
        "\u{1F5DC} "@
    } else if ends_with(name, ".png"@) || ends_with(name, ".jpg"@) || ends_with(name, ".jpeg"@)
        || ends_with(name, ".bmp"@) {
        "\u{1F5BC} "@
    } else {
        "\u{1F4C3} "@
    }
}

/// The text of the row of an entry called `name`: its icon, then its name.
pub open spec fn row_text(name: Seq<char>, is_dir: bool) -> Seq<char> {
    if is_dir {
        folder_icon() + name
    } else {
        icon_of(name) + name
    }
}

/// The row of an entry whose path has the last component `name`. An entry
/// whose path has none gets no row.
pub open spec fn row_from(name: Option<Seq<char>>, is_dir: bool, highlighted: bool) -> Option<
    RowSpec,
> {
    match name {
        Some(n) => Some(RowSpec { text: row_text(n, is_dir), highlighted }),
        None => None,
    }
}

/// The row of `entry`.
pub open spec fn row_of(entry: DirEntrySpec, highlighted: bool) -> Option<RowSpec> {
    row_from(file_name_of(entry.path), entry.is_dir, highlighted)
}

/// The rows of the first `n` of `children`, in order, with the row under
/// `cursor` highlighted.
pub open spec fn rows_upto(children: Seq<DirEntrySpec>, cursor: nat, n: nat) -> Seq<RowSpec>
    decreases n,
{
    if n == 0 || n > children.len() {
        Seq::empty()
    } else {
        let before = rows_upto(children, cursor, (n - 1) as nat);
        match row_of(children[n - 1], cursor == n - 1) {
            Some(row) => before.push(row),
            None => before,
        }
    }
}

/// The rows of `children`.
pub open spec fn rows_of(children: Seq<DirEntrySpec>, cursor: nat) -> Seq<RowSpec> {
    rows_upto(children, cursor, children.len())
}

/// The label of a tab at `path`, given the last component `name` of the
/// path: that component, or the whole path where it has none.
pub open spec fn label_from(name: Option<Seq<char>>, path: Seq<char>) -> Seq<char> {
    match name {
        Some(n) => n,
        None => path,
    }
}

/// The label of a tab at `path`.
pub open spec fn label_of(path: Seq<char>) -> Seq<char> {
    label_from(file_name_of(path), path)
}

/// The labels of `tabs`, the one at `active` marked.
pub open spec fn labels_of(tabs: Seq<TabSpec>, active: nat) -> Seq<TabLabelSpec> {
    Seq::new(
        tabs.len(),
        |i: int| TabLabelSpec { label: label_of(tabs[i].cwd.path), active: i == active },
    )
}

/// The text of the row that is shown in place of the listing when the
/// directory could not be read.
pub open spec fn error_message(error: DirectoryError) -> Seq<char> {
    match error {
        DirectoryError::NotFound => "This directory does not exist."@,
        DirectoryError::PermissionDenied => "This directory may not be read."@,
        DirectoryError::Other => "This directory could not be read."@,
    }
}

/// The picture of `state`. A listing failure is shown only while the
/// directory is still waiting for its listing.
pub open spec fn project(state: NavigationSpec, error: Option<DirectoryError>) -> ViewModelSpec {
    ViewModelSpec {
        tabs: labels_of(state.tabs, state.active_tab),
        path: if state.has_active() {
            state.active().cwd.path
        } else {
            Seq::empty()
        },
        rows: if state.has_active() {
            rows_of(state.active().cwd.children, state.active().cwd.cursor)
        } else {
            Seq::empty()
        },
        error: if state.needs_listing() {
            error
        } else {
            None
        },
    }
}

/// Whether `text` ends with `suffix`.
pub fn text_ends_with(text: &str, suffix: &str) -> (found: bool)
    ensures
        found == ends_with(text@, suffix@),
{
    let n: usize = text.unicode_len();
    let m: usize = suffix.unicode_len();
    if n < m {
        return false;
    }
    let mut i: usize = 0;
    while i < m
        invariant
            n == text@.len(),
            m == suffix@.len(),
            m <= n,
            i <= m,
            forall|j: int| 0 <= j < i ==> text@[n - m + j] == suffix@[j],
        decreases m - i,
    {
        if text.get_char(n - m + i) != suffix.get_char(i) {
            return false;
        }
        i += 1;
    }
    assert(text@.subrange(n - m, n as int) =~= suffix@);
    true
}

/// Whether `text` starts with `prefix`.
pub fn text_starts_with(text: &str, prefix: &str) -> (found: bool)
    ensures
        found == starts_with(text@, prefix@),
{
    let n: usize = text.unicode_len();
    let m: usize = prefix.unicode_len();
    if n < m {
        return false;
    }
    let mut i: usize = 0;
    while i < m
        invariant
            n == text@.len(),
            m == prefix@.len(),
            m <= n,
            i <= m,
            forall|j: int| 0 <= j < i ==> text@[j] == prefix@[j],
        decreases m - i,
    {
        if text.get_char(i) != prefix.get_char(i) {
            return false;
        }
        i += 1;
    }
    assert(text@.subrange(0, m as int) =~= prefix@);
    true
}

/// The icon shown before the file name `dir_entry_text`.
pub fn get_dir_entry_icon(dir_entry_text: &str) -> (icon: String)
    ensures
        icon@ == icon_of(dir_entry_text@),
{
    if text_ends_with(dir_entry_text, ".mp3") {
        String::from_str("\u{1F3B9} ")
    } else if text_starts_with(dir_entry_text, ".") {
        String::from_str("\u{2699} ")
    } else if text_ends_with(dir_entry_text, ".exe") {
        String::from_str("\u{1F4BE} ")
    } else if text_ends_with(dir_entry_text, ".zip") {
        String::from_str("\u{1F5DC} ")
    } else if text_ends_with(dir_entry_text, ".png") || text_ends_with(dir_entry_text, ".jpg")
        || text_ends_with(dir_entry_text, ".jpeg") || text_ends_with(dir_entry_text, ".bmp") {
        String::from_str("\u{1F5BC} ")
    } else {
        String::from_str("\u{1F4C3} ")
    }
}

/// The text of the row of an entry called `name`.
pub fn entry_text(name: &str, is_dir: bool) -> (text: String)
    ensures
        text@ == row_text(name@, is_dir),
{
    let icon: String = if is_dir {
        String::from_str("\u{1F4C2} ")
    } else {
        get_dir_entry_icon(name)
    };
    icon.concat(name)
}

/// The row of an entry whose path has the last component `name`.
pub fn make_row(name: Option<String>, is_dir: bool, highlighted: bool) -> (row: Option<Row>)
    ensures
        match row {
            Some(r) => row_from(text_view(name), is_dir, highlighted) == Some(r@),
            None => row_from(text_view(name), is_dir, highlighted).is_none(),
        },
{
    match name {
        Some(n) => Some(Row { text: entry_text(n.as_str(), is_dir), highlighted }),
        None => None,
    }
}

/// The row of `entry`.
pub fn entry_row(entry: &DirEntry, highlighted: bool) -> (row: Option<Row>)
    ensures
        match row {
            Some(r) => row_of(entry@, highlighted) == Some(r@),
            None => row_of(entry@, highlighted).is_none(),
        },
{
    make_row(path_file_name(entry.path.as_str()), entry.is_dir, highlighted)
}

/// The rows of `children`, with the row under `cursor` highlighted.
pub fn rows(children: &Vec<DirEntry>, cursor: usize) -> (listing: Vec<Row>)
    ensures
        views(listing@) == rows_of(views(children@), cursor as nat),
{
    let mut listing: Vec<Row> = Vec::new();
    let mut i: usize = 0;
    while i < children.len()
        invariant
            i <= children.len(),
            views(children@).len() == children.len(),
            views(listing@) == rows_upto(views(children@), cursor as nat, i as nat),
        decreases children.len() - i,
    {
        match entry_row(&children[i], i == cursor) {
            Some(row) => {
                listing.push(row);
            },
            None => {},
        }
        i += 1;
    }
    listing
}

/// The text of the row that is shown in place of the listing when the
/// directory could not be read.
pub fn error_text(error: DirectoryError) -> (text: String)
    ensures
        text@ == error_message(error),
{
    match error {
        DirectoryError::NotFound => String::from_str("This directory does not exist."),
        DirectoryError::PermissionDenied => String::from_str("This directory may not be read."),
        DirectoryError::Other => String::from_str("This directory could not be read."),
    }
}

/// The label of a tab at `path`, given the last component `name` of the
/// path.
pub fn make_label(name: Option<String>, path: &str) -> (label: String)
    ensures
        label@ == label_from(text_view(name), path@),
{
    match name {
        Some(n) => n,
        None => String::from_str(path),
    }
}

/// The label of a tab at `path`.
pub fn tab_label(path: &str) -> (label: String)
    ensures
        label@ == label_of(path@),
{
    make_label(path_file_name(path), path)
}

/// The labels of `tabs`, the one at `active` marked.
pub fn labels(tabs: &Vec<Tab>, active: usize) -> (all: Vec<TabLabel>)
    ensures
        views(all@) == labels_of(views(tabs@), active as nat),
{
    let mut all: Vec<TabLabel> = Vec::new();
    let mut i: usize = 0;
    while i < tabs.len()
        invariant
            i <= tabs.len(),
            all.len() == i,
            forall|j: int|
                0 <= j < i ==> (#[trigger] all@[j])@ == (TabLabelSpec {
                    label: label_of(tabs@[j]@.cwd.path),
                    active: j == active,
                }),
        decreases tabs.len() - i,
    {
        all.push(TabLabel { label: tab_label(tabs[i].cwd.path.as_str()), active: i == active });
        i += 1;
    }
    all
}

/// The picture of `state`, with `error` as the outcome of the last attempt
/// to list the active tab's directory.
pub fn render(state: &NavigationState, error: Option<DirectoryError>) -> (picture: ViewModel)
    ensures
        picture@ == project(state@, error),
{
    let tabs: Vec<TabLabel> = labels(&state.tabs, state.active_tab);
    match state.active() {
        Some(tab) => ViewModel {
            tabs,
            path: tab.cwd.path.clone(),
            rows: rows(&tab.cwd.children, tab.cwd.cursor),
            error: if tab.cwd.needs_listing() {
                error
            } else {
                None
            },
        },
        None => ViewModel { tabs, path: String::new(), rows: Vec::new(), error: None },
    }
}

} // verus!
