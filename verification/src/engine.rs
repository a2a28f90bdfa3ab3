//! The boundary to the version-control engine.
//!
//! An operation on a repository alternates between deciding and asking the
//! engine to do something. The library decides: each operation is a machine
//! that takes the engine's last answer and says what to do next. Whoever
//! holds the repository performs each [`EngineAction`] and hands back the
//! [`EngineEvent`] that answers it, until the machine finishes or aborts.
use crate::error::{Error, ErrorView};
use crate::text::join;
use vstd::prelude::*;
use vstd::string::*;

verus! {

/// Something for the engine to do.
#[derive(Clone, Debug, PartialEq, Eq)]
pub enum EngineAction {
    /// Read the commit that the reference points to. Answered by `Tip`.
    ReadTip { ref_name: String },
    /// Compute the merge base of two commits. Answered by `MergeBase`.
    ReadMergeBase { one: String, two: String },
    /// Point the reference at the commit, with `reflog` as the reason.
    /// Answered by `Done`.
    SetBranchTarget { ref_name: String, tip: String, reflog: String },
    /// Read what HEAD points to. Answered by `Head`.
    ReadHead,
    /// Make HEAD point to the reference. Answered by `Done`.
    SetHead { ref_name: String },
    /// Make the working tree match HEAD, overwriting what differs. Answered
    /// by `Done`.
    CheckoutHead,
    /// Merge the branch behind the reference into the index and the working
    /// tree, overwriting what differs. Answered by `Done`.
    Merge { ref_name: String },
    /// Ask whether the index holds conflicts. Answered by `Conflicts`.
    ReadConflicts,
    /// Clear the state of a merge in progress. Answered by `Done`.
    CleanupState,
    /// Write the index as a tree. Answered by `Tree`.
    WriteTree,
    /// Create a commit of the tree with the two parents, in this order, signed
    /// by the repository's default signature as author and committer, and
    /// point the reference at it. Answered by `Committed`.
    Commit {
        update_ref: String,
        message: String,
        tree: String,
        first_parent: String,
        second_parent: String,
    },
    /// Create a local branch at the commit of HEAD, unless there is one of
    /// that name. Answered by `Done`.
    CreateBranch { name: String },
    /// Make index and working tree match the tree of the revision, keeping
    /// what was changed locally. Answered by `Done`.
    CheckoutTree { revision: String },
    /// Add what matches the pattern to the index, and write the index.
    /// Answered by `Done`.
    StagePaths { pathspec: String },
    /// Read the commit that HEAD leads to. Answered by `HeadCommit`, or by
    /// `HeadUnavailable` where HEAD cannot be read.
    ReadHeadCommit,
    /// Set the entries of the index that match the pattern to what they are
    /// in the commit, or take them out of the index where no commit is
    /// given. Answered by `Done`.
    ResetIndex { commit: Option<String>, pathspec: String },
    /// Clone the repository at the address into the folder. Answered by
    /// `Done`.
    Clone { url: String, path: String },
    /// Ask whether the local branch has an upstream. Answered by `Upstream`.
    ReadUpstream { branch: String },
    /// Set the upstream of the local branch. Answered by `Done`.
    SetUpstream { branch: String, upstream: String },
    /// Fetch from the remote what its configuration names. Answered by
    /// `Done`.
    Fetch { remote: String },
    /// Push the refspec to the remote. Answered by `Done`.
    Push { remote: String, refspec: String },
    /// Announce a step of progress under the name `event`. Answered by
    /// `Done`.
    Announce { event: String, phase: String, value: usize },
}

/// The mathematical value of an [`EngineAction`].
pub enum EngineActionView {
    ReadTip { ref_name: Seq<char> },
    ReadMergeBase { one: Seq<char>, two: Seq<char> },
    SetBranchTarget { ref_name: Seq<char>, tip: Seq<char>, reflog: Seq<char> },
    ReadHead,
    SetHead { ref_name: Seq<char> },
    CheckoutHead,
    Merge { ref_name: Seq<char> },
    ReadConflicts,
    CleanupState,
    WriteTree,
    Commit {
        update_ref: Seq<char>,
        message: Seq<char>,
        tree: Seq<char>,
        first_parent: Seq<char>,
        second_parent: Seq<char>,
    },
    CreateBranch { name: Seq<char> },
    CheckoutTree { revision: Seq<char> },
    StagePaths { pathspec: Seq<char> },
    ReadHeadCommit,
    ResetIndex { commit: Option<Seq<char>>, pathspec: Seq<char> },
    Clone { url: Seq<char>, path: Seq<char> },
    ReadUpstream { branch: Seq<char> },
    SetUpstream { branch: Seq<char>, upstream: Seq<char> },
    Fetch { remote: Seq<char> },
    Push { remote: Seq<char>, refspec: Seq<char> },
    Announce { event: Seq<char>, phase: Seq<char>, value: nat },
}

impl View for EngineAction {
    type V = EngineActionView;

    open spec fn view(&self) -> EngineActionView {
        match *self {
            EngineAction::ReadTip { ref_name } => EngineActionView::ReadTip { ref_name: ref_name@ },
            EngineAction::ReadMergeBase { one, two } => EngineActionView::ReadMergeBase {
                one: one@,
                two: two@,
            },
            EngineAction::SetBranchTarget { ref_name, tip, reflog } => {
                EngineActionView::SetBranchTarget {
                    ref_name: ref_name@,
                    tip: tip@,
                    reflog: reflog@,
                }
            },
            EngineAction::ReadHead => EngineActionView::ReadHead,
            EngineAction::SetHead { ref_name } => EngineActionView::SetHead { ref_name: ref_name@ },
            EngineAction::CheckoutHead => EngineActionView::CheckoutHead,
            EngineAction::Merge { ref_name } => EngineActionView::Merge { ref_name: ref_name@ },
            EngineAction::ReadConflicts => EngineActionView::ReadConflicts,
            EngineAction::CleanupState => EngineActionView::CleanupState,
            EngineAction::WriteTree => EngineActionView::WriteTree,
            EngineAction::Commit { update_ref, message, tree, first_parent, second_parent } => {
                EngineActionView::Commit {
                    update_ref: update_ref@,
                    message: message@,
                    tree: tree@,
                    first_parent: first_parent@,
                    second_parent: second_parent@,
                }
            },
            EngineAction::CreateBranch { name } => EngineActionView::CreateBranch { name: name@ },
            EngineAction::CheckoutTree { revision } => EngineActionView::CheckoutTree {
                revision: revision@,
            },
            EngineAction::StagePaths { pathspec } => EngineActionView::StagePaths {
                pathspec: pathspec@,
            },
            EngineAction::ReadHeadCommit => EngineActionView::ReadHeadCommit,
            EngineAction::ResetIndex { commit, pathspec } => EngineActionView::ResetIndex {
                commit: commit.deep_view(),
                pathspec: pathspec@,
            },
            EngineAction::Clone { url, path } => EngineActionView::Clone { url: url@, path: path@ },
            EngineAction::ReadUpstream { branch } => EngineActionView::ReadUpstream {
                branch: branch@,
            },
            EngineAction::SetUpstream { branch, upstream } => EngineActionView::SetUpstream {
                branch: branch@,
                upstream: upstream@,
            },
            EngineAction::Fetch { remote } => EngineActionView::Fetch { remote: remote@ },
            EngineAction::Push { remote, refspec } => EngineActionView::Push {
                remote: remote@,
                refspec: refspec@,
            },
            EngineAction::Announce { event, phase, value } => EngineActionView::Announce {
                event: event@,
                phase: phase@,
                value: value as nat,
            },
        }
    }
}

impl DeepView for EngineAction {
    type V = EngineActionView;

    open spec fn deep_view(&self) -> EngineActionView {
        self@
    }
}

impl EngineActionView {
    /// Whether the action only reads from the repository.
    pub open spec fn reads_only(self) -> bool {
        self is ReadTip || self is ReadMergeBase || self is ReadHead || self is ReadConflicts
            || self is ReadUpstream || self is ReadHeadCommit
    }
}

/// Why HEAD could not be read.
#[derive(Clone, Copy, Debug, PartialEq, Eq, Structural)]
pub enum HeadFailure {
    /// HEAD points to a branch that has no commit yet.
    UnbornBranch,
    /// HEAD points to nothing that exists.
    NotFound,
    /// Anything else.
    Other,
}

/// What the engine answered.
#[derive(Clone, Debug, PartialEq, Eq)]
pub enum EngineEvent {
    /// Nothing yet: the operation starts.
    Begin,
    /// The commit that the reference points to, or nothing where the
    /// reference does not exist or does not point to a commit directly.
    Tip(Option<String>),
    /// The merge base that was asked for.
    MergeBase(String),
    /// Whether HEAD points to a branch, and its short name where it has one.
    Head { is_branch: bool, shorthand: Option<String> },
    /// The commit that HEAD leads to.
    HeadCommit(String),
    /// HEAD could not be read, with the kind of the failure and its
    /// message.
    HeadUnavailable { failure: HeadFailure, message: String },
    /// Whether the local branch has an upstream.
    Upstream(bool),
    /// Whether the index holds conflicts.
    Conflicts(bool),
    /// The tree that was written.
    Tree(String),
    /// The commit that was created.
    Committed(String),
    /// The action was performed.
    Done,
    /// The engine failed, with its message.
    Failed(String),
}

/// The mathematical value of an [`EngineEvent`].
pub enum EngineEventView {
    Begin,
    Tip(Option<Seq<char>>),
    MergeBase(Seq<char>),
    Head { is_branch: bool, shorthand: Option<Seq<char>> },
    HeadCommit(Seq<char>),
    HeadUnavailable { failure: HeadFailure, message: Seq<char> },
    Upstream(bool),
    Conflicts(bool),
    Tree(Seq<char>),
    Committed(Seq<char>),
    Done,
    Failed(Seq<char>),
}

impl View for EngineEvent {
    type V = EngineEventView;

    open spec fn view(&self) -> EngineEventView {
        match *self {
            EngineEvent::Begin => EngineEventView::Begin,
            EngineEvent::Tip(tip) => EngineEventView::Tip(tip.deep_view()),
            EngineEvent::MergeBase(base) => EngineEventView::MergeBase(base@),
            EngineEvent::Head { is_branch, shorthand } => EngineEventView::Head {
                is_branch,
                shorthand: shorthand.deep_view(),
            },
            EngineEvent::HeadCommit(commit) => EngineEventView::HeadCommit(commit@),
            EngineEvent::HeadUnavailable { failure, message } => EngineEventView::HeadUnavailable {
                failure,
                message: message@,
            },
            EngineEvent::Upstream(present) => EngineEventView::Upstream(present),
            EngineEvent::Conflicts(present) => EngineEventView::Conflicts(present),
            EngineEvent::Tree(tree) => EngineEventView::Tree(tree@),
            EngineEvent::Committed(commit) => EngineEventView::Committed(commit@),
            EngineEvent::Done => EngineEventView::Done,
            EngineEvent::Failed(message) => EngineEventView::Failed(message@),
        }
    }
}

/// What an operation says after an answer of the engine.
#[derive(Clone, Debug, PartialEq, Eq)]
pub enum Step<R> {
    /// Perform the action, and come back with its answer.
    Perform(EngineAction),
    /// The operation has succeeded, with this result.
    Finish(R),
    /// The operation has failed.
    Abort(Error),
}

/// The mathematical value of a [`Step`].
pub enum StepView<V> {
    Perform(EngineActionView),
    Finish(V),
    Abort(ErrorView),
}

impl<R: View> View for Step<R> {
    type V = StepView<R::V>;

    open spec fn view(&self) -> StepView<R::V> {
        match *self {
            Step::Perform(action) => StepView::Perform(action@),
            Step::Finish(result) => StepView::Finish(result@),
            Step::Abort(error) => StepView::Abort(error@),
        }
    }
}

/// The message with which an operation aborts on an answer that does not
/// fit what it asked.
pub open spec fn out_of_turn() -> Seq<char> {
    "Unexpected answer from the repository engine"@
}

/// The failure with which an operation aborts on an answer that does not
/// fit what it asked.
pub fn out_of_turn_error() -> (r: Error)
    ensures
        r@ == ErrorView::Engine(out_of_turn()),
{
    Error::Engine(String::from_str("Unexpected answer from the repository engine"))
}

/// The full name of the reference of a local branch.
pub open spec fn branch_ref(branch: Seq<char>) -> Seq<char> {
    "refs/heads/"@ + branch
}

/// The full name of the reference of the local branch `branch`.
pub fn branch_ref_name(branch: &str) -> (r: String)
    ensures
        r@ == branch_ref(branch@),
{
    join("refs/heads/", branch)
}

} // verus!
