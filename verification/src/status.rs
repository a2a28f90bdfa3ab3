//! The changes of the working tree, as they are shown.
use vstd::prelude::*;
use vstd::string::*;

verus! {

/// What the engine tells of the state of one file in the working tree.
#[derive(Clone, Copy, Debug, PartialEq, Eq, Structural)]
pub struct StatusFlags {
    /// The file is new in the working tree.
    pub wt_new: bool,
    /// The file is gone from the working tree.
    pub wt_deleted: bool,
    /// The file differs in the working tree.
    pub wt_modified: bool,
}

/// What the engine tells of one file.
#[derive(Clone, Debug, PartialEq, Eq)]
pub struct StatusEntry {
    /// The path, or nothing where it is not valid text.
    pub path: Option<String>,
    /// The state of the file.
    pub flags: StatusFlags,
}

/// The mathematical value of a [`StatusEntry`].
pub struct StatusEntryView {
    pub path: Option<Seq<char>>,
    pub flags: StatusFlags,
}

impl DeepView for StatusEntry {
    type V = StatusEntryView;

    open spec fn deep_view(&self) -> StatusEntryView {
        StatusEntryView { path: self.path.deep_view(), flags: self.flags }
    }
}

/// One change, as it is shown.
#[derive(Clone, Debug, PartialEq, Eq)]
pub struct FileChange {
    /// The path of the file; empty where the engine gave none.
    pub path: String,
    /// `New`, `Deleted` or `Modified`.
    pub status: String,
}

/// The mathematical value of a [`FileChange`].
pub struct FileChangeView {
    pub path: Seq<char>,
    pub status: Seq<char>,
}

impl DeepView for FileChange {
    type V = FileChangeView;

    open spec fn deep_view(&self) -> FileChangeView {
        FileChangeView { path: self.path@, status: self.status@ }
    }
}

/// The name of the change that the flags stand for, if any. A new file
/// comes before a deleted one, and that before a modified one.
pub open spec fn status_name(flags: StatusFlags) -> Option<Seq<char>> {
    if flags.wt_new {
        Some("New"@)
    } else if flags.wt_deleted {
        Some("Deleted"@)
    } else if flags.wt_modified {
        Some("Modified"@)
    } else {
        None
    }
}

/// How the state of a file is shown, or nothing where there is no change in
/// the working tree.
pub open spec fn change_of(entry: StatusEntryView) -> Option<FileChangeView> {
    match status_name(entry.flags) {
        Some(status) => Some(
            FileChangeView {
                path: match entry.path {
                    Some(path) => path,
                    None => Seq::empty(),
                },
                status,
            },
        ),
        None => None,
    }
}

/// The changes that are shown of `entries`, in the same order.
pub open spec fn changes_among(entries: Seq<StatusEntryView>) -> Seq<FileChangeView>
    decreases entries.len(),
{
    if entries.len() == 0 {
        Seq::empty()
    } else {
        match change_of(entries.last()) {
            Some(change) => changes_among(entries.drop_last()).push(change),
            None => changes_among(entries.drop_last()),
        }
    }
}

/// How the state of one file is shown, if it is.
pub fn file_change(entry: &StatusEntry) -> (r: Option<FileChange>)
    ensures
        r.deep_view() == change_of(entry.deep_view()),
{
    let status = if entry.flags.wt_new {
        String::from_str("New")
    } else if entry.flags.wt_deleted {
        String::from_str("Deleted")
    } else if entry.flags.wt_modified {
        String::from_str("Modified")
    } else {
        return None;
    };
    let path = match &entry.path {
        Some(path) => path.clone(),
        None => String::new(),
    };
    Some(FileChange { path, status })
}

/// The changes of the working tree to show, from what the engine tells of
/// each file.
pub fn get_repo_changes(entries: &Vec<StatusEntry>) -> (r: Vec<FileChange>)
    ensures
        r.deep_view() == changes_among(entries.deep_view()),
{
    let mut changes: Vec<FileChange> = Vec::new();
    let mut i: usize = 0;
    while i < entries.len()
        invariant
            i <= entries.len(),
            changes.deep_view() == changes_among(entries.deep_view().take(i as int)),
        decreases entries.len() - i,
    {
        assert(entries.deep_view().take(i as int + 1).drop_last() =~= entries.deep_view().take(
            i as int,
        ));
        if let Some(change) = file_change(&entries[i]) {
            changes.push(change);
        }
        i = i + 1;
    }
    assert(entries.deep_view().take(i as int) =~= entries.deep_view());
    changes
}

} // verus!
