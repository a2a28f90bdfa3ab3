//! The failures that the library reports, and the text of each.
use vstd::prelude::*;
use vstd::string::*;

verus! {

/// A failure of an operation of the workspace.
#[derive(Clone, Debug, PartialEq, Eq)]
pub enum Error {
    /// Neither an explicit nor a remembered repository path was given.
    NoRepositoryAvailable,
    /// No repository could be opened at `path`, nor at `fallback` where one
    /// was tried after it.
    RepositoryOpenFailed { path: String, fallback: Option<String> },
    /// The branch has no tip.
    BranchNotFound { branch: String },
    /// The target branch is not an ancestor of the source branch.
    FastForwardNotPossible { source: String, target: String },
    /// One of the two branches already contains the other.
    NormalMergeNotRequired,
    /// The merge left conflicts in the index; nothing was committed.
    MergeConflict,
    /// HEAD does not point to a branch, so there is nothing to push.
    DetachedHeadPush,
    /// HEAD points to a branch whose name cannot be read.
    BranchNameUnavailable,
    /// The repository has no working directory.
    WorkingDirectoryUnavailable,
    /// The settings store failed, or was given an unusable value.
    StoreError(String),
    /// A failure of the version-control engine, by its message.
    Engine(String),
}

/// The mathematical value of an [`Error`].
pub enum ErrorView {
    NoRepositoryAvailable,
    RepositoryOpenFailed { path: Seq<char>, fallback: Option<Seq<char>> },
    BranchNotFound { branch: Seq<char> },
    FastForwardNotPossible { source: Seq<char>, target: Seq<char> },
    NormalMergeNotRequired,
    MergeConflict,
    DetachedHeadPush,
    BranchNameUnavailable,
    WorkingDirectoryUnavailable,
    StoreError(Seq<char>),
    Engine(Seq<char>),
}

impl View for Error {
    type V = ErrorView;

    open spec fn view(&self) -> ErrorView {
        match *self {
            Error::NoRepositoryAvailable => ErrorView::NoRepositoryAvailable,
            Error::RepositoryOpenFailed { path, fallback } => ErrorView::RepositoryOpenFailed {
                path: path@,
                fallback: fallback.deep_view(),
            },
            Error::BranchNotFound { branch } => ErrorView::BranchNotFound { branch: branch@ },
            Error::FastForwardNotPossible { source, target } => ErrorView::FastForwardNotPossible {
                source: source@,
                target: target@,
            },
            Error::NormalMergeNotRequired => ErrorView::NormalMergeNotRequired,
            Error::MergeConflict => ErrorView::MergeConflict,
            Error::DetachedHeadPush => ErrorView::DetachedHeadPush,
            Error::BranchNameUnavailable => ErrorView::BranchNameUnavailable,
            Error::WorkingDirectoryUnavailable => ErrorView::WorkingDirectoryUnavailable,
            Error::StoreError(text) => ErrorView::StoreError(text@),
            Error::Engine(text) => ErrorView::Engine(text@),
        }
    }
}

impl ErrorView {
    /// The text that describes the failure to a person.
    pub open spec fn text(self) -> Seq<char> {
        match self {
            ErrorView::NoRepositoryAvailable => "No repository path available"@,
            ErrorView::RepositoryOpenFailed { path, fallback: None } => {
                "Failed to open repository at "@ + path
            },
            ErrorView::RepositoryOpenFailed { path, fallback: Some(other) } => {
                "Failed to open repository at "@ + path + " or "@ + other
            },
            ErrorView::BranchNotFound { branch } => "Unable to resolve branch tip for "@ + branch,
            ErrorView::FastForwardNotPossible { source, target } => {
                "Fast-forward is not possible from "@ + source + " into "@ + target
            },
            ErrorView::NormalMergeNotRequired => {
                "Normal merge is not required for this branch pair"@
            },
            ErrorView::MergeConflict => "Merge resulted in conflicts. Resolve manually."@,
            ErrorView::DetachedHeadPush => "Cannot push while HEAD is detached"@,
            ErrorView::BranchNameUnavailable => "Unable to resolve current branch name"@,
            ErrorView::WorkingDirectoryUnavailable => "Repository working directory unavailable"@,
            ErrorView::StoreError(text) => text,
            ErrorView::Engine(text) => text,
        }
    }
}

impl Error {
    /// The text that describes the failure to a person.
    pub fn message(&self) -> (r: String)
        ensures
            r@ == self@.text(),
    {
        match self {
            Error::NoRepositoryAvailable => String::from_str("No repository path available"),
            Error::RepositoryOpenFailed { path, fallback: None } => {
                String::from_str("Failed to open repository at ").concat(path.as_str())
            },
            Error::RepositoryOpenFailed { path, fallback: Some(other) } => {
                String::from_str("Failed to open repository at ").concat(path.as_str()).concat(
                    " or ",
                ).concat(other.as_str())
            },
            Error::BranchNotFound { branch } => {
                String::from_str("Unable to resolve branch tip for ").concat(branch.as_str())
            },
            Error::FastForwardNotPossible { source, target } => {
                String::from_str("Fast-forward is not possible from ").concat(
                    source.as_str(),
                ).concat(" into ").concat(target.as_str())
            },
            Error::NormalMergeNotRequired => {
                String::from_str("Normal merge is not required for this branch pair")
            },
            Error::MergeConflict => {
                String::from_str("Merge resulted in conflicts. Resolve manually.")
            },
            Error::DetachedHeadPush => String::from_str("Cannot push while HEAD is detached"),
            Error::BranchNameUnavailable => {
                String::from_str("Unable to resolve current branch name")
            },
            Error::WorkingDirectoryUnavailable => {
                String::from_str("Repository working directory unavailable")
            },
            Error::StoreError(text) => text.clone(),
            Error::Engine(text) => text.clone(),
        }
    }
}

} // verus!
