//! Normal merge: joining two branches that have diverged in a commit with
//! two parents.
//!
//! The source is merged into the index and the working tree. Where that
//! leaves conflicts, the merge state is cleared and nothing is committed:
//! resolving them is left to the user. Otherwise the index is written as a
//! tree and committed on the target with the target's and the source's tip
//! as parents.
use crate::classify::{relationship_of, Relationship};
use crate::engine::{
    branch_ref, branch_ref_name, out_of_turn, out_of_turn_error, EngineAction, EngineActionView,
    EngineEvent, EngineEventView, Step, StepView,
};
use crate::error::{Error, ErrorView};
use crate::text::same_text;
use vstd::prelude::*;
use vstd::string::*;

verus! {

/// What a normal merge did.
#[derive(Clone, Debug, PartialEq, Eq)]
pub struct NormalMergeResult {
    /// The branch that was merged.
    pub source_branch: String,
    /// The branch that received the merge.
    pub target_branch: String,
    /// The merge commit.
    pub commit_oid: String,
}

/// The mathematical value of a [`NormalMergeResult`].
pub struct NormalMergeResultView {
    pub source_branch: Seq<char>,
    pub target_branch: Seq<char>,
    pub commit_oid: Seq<char>,
}

impl View for NormalMergeResult {
    type V = NormalMergeResultView;

    open spec fn view(&self) -> NormalMergeResultView {
        NormalMergeResultView {
            source_branch: self.source_branch@,
            target_branch: self.target_branch@,
            commit_oid: self.commit_oid@,
        }
    }
}

/// What a normal merge is waiting for.
#[derive(Clone, Copy, Debug, PartialEq, Eq, Structural)]
pub enum NormalMergeStage {
    /// Nothing was asked yet.
    Start,
    /// The tip of the source.
    SourceTip,
    /// The tip of the target.
    TargetTip,
    /// The merge base of the two tips.
    MergeBase,
    /// The merge into index and working tree.
    Merge,
    /// Whether the index holds conflicts.
    Conflicts,
    /// The merge state to be cleared after conflicts.
    ConflictCleanup,
    /// The tree of the merged index.
    Tree,
    /// The merge commit.
    Commit,
    /// The merge state to be cleared after the commit.
    Cleanup,
    /// What HEAD points to.
    Head,
    /// The working tree to be refreshed.
    Checkout,
    /// Nothing: the operation is over.
    Finished,
}

impl NormalMergeStage {
    /// How far the operation has come: the number of answers that it has
    /// taken on its longest way.
    pub open spec fn rank(self) -> nat {
        match self {
            NormalMergeStage::Start => 0,
            NormalMergeStage::SourceTip => 1,
            NormalMergeStage::TargetTip => 2,
            NormalMergeStage::MergeBase => 3,
            NormalMergeStage::Merge => 4,
            NormalMergeStage::Conflicts => 5,
            NormalMergeStage::ConflictCleanup => 6,
            NormalMergeStage::Tree => 7,
            NormalMergeStage::Commit => 8,
            NormalMergeStage::Cleanup => 9,
            NormalMergeStage::Head => 10,
            NormalMergeStage::Checkout => 11,
            NormalMergeStage::Finished => 12,
        }
    }
}

/// The message of the commit that merges `source_branch` into
/// `target_branch`.
pub open spec fn merge_message(source_branch: Seq<char>, target_branch: Seq<char>) -> Seq<char> {
    "merge branch '"@ + source_branch + "' into '"@ + target_branch + "'"@
}

/// The message of the commit that merges `source_branch` into
/// `target_branch`.
pub fn merge_commit_message(source_branch: &str, target_branch: &str) -> (r: String)
    ensures
        r@ == merge_message(source_branch@, target_branch@),
{
    String::from_str("merge branch '").concat(source_branch).concat("' into '").concat(
        target_branch,
    ).concat("'")
}

/// A merge of `source_branch` into `target_branch`, in progress.
#[derive(Debug)]
pub struct NormalMerge {
    source_branch: String,
    target_branch: String,
    source_tip: String,
    target_tip: String,
    commit: String,
    stage: NormalMergeStage,
}

/// The mathematical value of a [`NormalMerge`]. The tips and the commit are
/// empty until the engine has given them.
pub struct NormalMergeView {
    pub source_branch: Seq<char>,
    pub target_branch: Seq<char>,
    pub source_tip: Seq<char>,
    pub target_tip: Seq<char>,
    pub commit: Seq<char>,
    pub stage: NormalMergeStage,
}

impl View for NormalMerge {
    type V = NormalMergeView;

    closed spec fn view(&self) -> NormalMergeView {
        NormalMergeView {
            source_branch: self.source_branch@,
            target_branch: self.target_branch@,
            source_tip: self.source_tip@,
            target_tip: self.target_tip@,
            commit: self.commit@,
            stage: self.stage,
        }
    }
}

impl NormalMergeView {
    /// A merge that has not asked anything yet.
    pub open spec fn start(source_branch: Seq<char>, target_branch: Seq<char>) -> NormalMergeView {
        NormalMergeView {
            source_branch,
            target_branch,
            source_tip: Seq::empty(),
            target_tip: Seq::empty(),
            commit: Seq::empty(),
            stage: NormalMergeStage::Start,
        }
    }

    /// The same operation, waiting for something else.
    pub open spec fn at(self, stage: NormalMergeStage) -> NormalMergeView {
        NormalMergeView { stage, ..self }
    }

    /// What the operation reports when it succeeds.
    pub open spec fn result(self) -> NormalMergeResultView {
        NormalMergeResultView {
            source_branch: self.source_branch,
            target_branch: self.target_branch,
            commit_oid: self.commit,
        }
    }

    /// Where the operation stops without a result.
    pub open spec fn abort(self, error: ErrorView) -> (
        NormalMergeView,
        StepView<NormalMergeResultView>,
    ) {
        (self.at(NormalMergeStage::Finished), StepView::Abort(error))
    }

    /// Where the operation goes on with an action of the engine.
    pub open spec fn perform(self, stage: NormalMergeStage, action: EngineActionView) -> (
        NormalMergeView,
        StepView<NormalMergeResultView>,
    ) {
        (self.at(stage), StepView::Perform(action))
    }

    /// The operation after an answer of the engine, and what it says next.
    ///
    /// It reads the two tips and their merge base, and goes on only where the
    /// merge base is neither tip. It merges the source into index and working
    /// tree and asks for conflicts. With conflicts it clears the merge state
    /// and fails. Without, it writes the tree, commits it on the target with
    /// the target's tip as first and the source's tip as second parent,
    /// clears the merge state, reads HEAD, and, where HEAD is the target,
    /// refreshes the working tree. A failure to read HEAD counts as HEAD
    /// being elsewhere; any other failure of the engine aborts with its
    /// message.
    pub open spec fn step(self, event: EngineEventView) -> (
        NormalMergeView,
        StepView<NormalMergeResultView>,
    ) {
        match (self.stage, event) {
            (NormalMergeStage::Start, EngineEventView::Begin) => self.perform(
                NormalMergeStage::SourceTip,
                EngineActionView::ReadTip { ref_name: branch_ref(self.source_branch) },
            ),
            (NormalMergeStage::SourceTip, EngineEventView::Tip(Some(tip))) => NormalMergeView {
                source_tip: tip,
                ..self
            }.perform(
                NormalMergeStage::TargetTip,
                EngineActionView::ReadTip { ref_name: branch_ref(self.target_branch) },
            ),
            (NormalMergeStage::SourceTip, EngineEventView::Tip(None)) => self.abort(
                ErrorView::BranchNotFound { branch: self.source_branch },
            ),
            (NormalMergeStage::TargetTip, EngineEventView::Tip(Some(tip))) => NormalMergeView {
                target_tip: tip,
                ..self
            }.perform(
                NormalMergeStage::MergeBase,
                EngineActionView::ReadMergeBase { one: self.source_tip, two: tip },
            ),
            (NormalMergeStage::TargetTip, EngineEventView::Tip(None)) => self.abort(
                ErrorView::BranchNotFound { branch: self.target_branch },
            ),
            (NormalMergeStage::MergeBase, EngineEventView::MergeBase(base)) => {
                if base == self.source_tip || base == self.target_tip {
                    self.abort(ErrorView::NormalMergeNotRequired)
                } else {
                    self.perform(
                        NormalMergeStage::Merge,
                        EngineActionView::Merge { ref_name: branch_ref(self.source_branch) },
                    )
                }
            },
            (NormalMergeStage::Merge, EngineEventView::Done) => self.perform(
                NormalMergeStage::Conflicts,
                EngineActionView::ReadConflicts,
            ),
            (NormalMergeStage::Conflicts, EngineEventView::Conflicts(present)) => {
                if present {
                    self.perform(NormalMergeStage::ConflictCleanup, EngineActionView::CleanupState)
                } else {
                    self.perform(NormalMergeStage::Tree, EngineActionView::WriteTree)
                }
            },
            (NormalMergeStage::ConflictCleanup, EngineEventView::Done) => self.abort(
                ErrorView::MergeConflict,
            ),
            (NormalMergeStage::Tree, EngineEventView::Tree(tree)) => self.perform(
                NormalMergeStage::Commit,
                EngineActionView::Commit {
                    update_ref: branch_ref(self.target_branch),
                    message: merge_message(self.source_branch, self.target_branch),
                    tree,
                    first_parent: self.target_tip,
                    second_parent: self.source_tip,
                },
            ),
            (NormalMergeStage::Commit, EngineEventView::Committed(commit)) => NormalMergeView {
                commit,
                ..self
            }.perform(NormalMergeStage::Cleanup, EngineActionView::CleanupState),
            (NormalMergeStage::Cleanup, EngineEventView::Done) => self.perform(
                NormalMergeStage::Head,
                EngineActionView::ReadHead,
            ),
            (NormalMergeStage::Head, EngineEventView::Head { is_branch, shorthand }) => {
                if shorthand == Some(self.target_branch) {
                    self.perform(NormalMergeStage::Checkout, EngineActionView::CheckoutHead)
                } else {
                    (self.at(NormalMergeStage::Finished), StepView::Finish(self.result()))
                }
            },
            (NormalMergeStage::Head, EngineEventView::Failed(message)) => (
                self.at(NormalMergeStage::Finished),
                StepView::Finish(self.result()),
            ),
            (NormalMergeStage::Checkout, EngineEventView::Done) => (
                self.at(NormalMergeStage::Finished),
                StepView::Finish(self.result()),
            ),
            (NormalMergeStage::Start, _) => self.abort(ErrorView::Engine(out_of_turn())),
            (NormalMergeStage::Finished, _) => self.abort(ErrorView::Engine(out_of_turn())),
            (_, EngineEventView::Failed(message)) => self.abort(ErrorView::Engine(message)),
            _ => self.abort(ErrorView::Engine(out_of_turn())),
        }
    }

    /// What the operation says to each of `events` in turn, from this state
    /// on.
    pub open spec fn run(self, events: Seq<EngineEventView>) -> Seq<
        StepView<NormalMergeResultView>,
    >
        decreases events.len(),
    {
        if events.len() == 0 {
            Seq::empty()
        } else {
            seq![self.step(events.first()).1] + self.step(events.first()).0.run(
                events.drop_first(),
            )
        }
    }

    /// The operation after it has taken each of `events` in turn.
    pub open spec fn after(self, events: Seq<EngineEventView>) -> NormalMergeView
        decreases events.len(),
    {
        if events.len() == 0 {
            self
        } else {
            self.step(events.first()).0.after(events.drop_first())
        }
    }
}

impl NormalMerge {
    /// What the operation is waiting for.
    pub fn stage(&self) -> (r: NormalMergeStage)
        ensures
            r == self@.stage,
    {
        self.stage
    }

    fn finish(self) -> (r: (NormalMerge, Step<NormalMergeResult>))
        ensures
            r.0@ == self@.at(NormalMergeStage::Finished),
            r.1@ == StepView::Finish(self@.result()),
    {
        let result = NormalMergeResult {
            source_branch: self.source_branch.clone(),
            target_branch: self.target_branch.clone(),
            commit_oid: self.commit.clone(),
        };
        (NormalMerge { stage: NormalMergeStage::Finished, ..self }, Step::Finish(result))
    }

    fn abort(self, error: Error) -> (r: (NormalMerge, Step<NormalMergeResult>))
        ensures
            (r.0@, r.1@) == self@.abort(error@),
    {
        (NormalMerge { stage: NormalMergeStage::Finished, ..self }, Step::Abort(error))
    }

    fn perform(self, stage: NormalMergeStage, action: EngineAction) -> (r: (
        NormalMerge,
        Step<NormalMergeResult>,
    ))
        ensures
            (r.0@, r.1@) == self@.perform(stage, action@),
    {
        (NormalMerge { stage, ..self }, Step::Perform(action))
    }

    /// Takes the engine's answer to what was asked last, `Begin` at first,
    /// and says what to do next.
    pub fn step(self, event: EngineEvent) -> (r: (NormalMerge, Step<NormalMergeResult>))
        ensures
            (r.0@, r.1@) == self@.step(event@),
    {
        match (self.stage, event) {
            (NormalMergeStage::Start, EngineEvent::Begin) => {
                let ref_name = branch_ref_name(self.source_branch.as_str());
                self.perform(NormalMergeStage::SourceTip, EngineAction::ReadTip { ref_name })
            },
            (NormalMergeStage::SourceTip, EngineEvent::Tip(Some(tip))) => {
                let ref_name = branch_ref_name(self.target_branch.as_str());
                NormalMerge { source_tip: tip, ..self }.perform(
                    NormalMergeStage::TargetTip,
                    EngineAction::ReadTip { ref_name },
                )
            },
            (NormalMergeStage::SourceTip, EngineEvent::Tip(None)) => {
                let branch = self.source_branch.clone();
                self.abort(Error::BranchNotFound { branch })
            },
            (NormalMergeStage::TargetTip, EngineEvent::Tip(Some(tip))) => {
                let action = EngineAction::ReadMergeBase {
                    one: self.source_tip.clone(),
                    two: tip.clone(),
                };
                NormalMerge { target_tip: tip, ..self }.perform(NormalMergeStage::MergeBase, action)
            },
            (NormalMergeStage::TargetTip, EngineEvent::Tip(None)) => {
                let branch = self.target_branch.clone();
                self.abort(Error::BranchNotFound { branch })
            },
            (NormalMergeStage::MergeBase, EngineEvent::MergeBase(base)) => {
                if same_text(base.as_str(), self.source_tip.as_str()) || same_text(
                    base.as_str(),
                    self.target_tip.as_str(),
                ) {
                    self.abort(Error::NormalMergeNotRequired)
                } else {
                    let ref_name = branch_ref_name(self.source_branch.as_str());
                    self.perform(NormalMergeStage::Merge, EngineAction::Merge { ref_name })
                }
            },
            (NormalMergeStage::Merge, EngineEvent::Done) => self.perform(
                NormalMergeStage::Conflicts,
                EngineAction::ReadConflicts,
            ),
            (NormalMergeStage::Conflicts, EngineEvent::Conflicts(present)) => {
                if present {
                    self.perform(NormalMergeStage::ConflictCleanup, EngineAction::CleanupState)
                } else {
                    self.perform(NormalMergeStage::Tree, EngineAction::WriteTree)
                }
            },
            (NormalMergeStage::ConflictCleanup, EngineEvent::Done) => self.abort(
                Error::MergeConflict,
            ),
            (NormalMergeStage::Tree, EngineEvent::Tree(tree)) => {
                let action = EngineAction::Commit {
                    update_ref: branch_ref_name(self.target_branch.as_str()),
                    message: merge_commit_message(
                        self.source_branch.as_str(),
                        self.target_branch.as_str(),
                    ),
                    tree,
                    first_parent: self.target_tip.clone(),
                    second_parent: self.source_tip.clone(),
                };
                self.perform(NormalMergeStage::Commit, action)
            },
            (NormalMergeStage::Commit, EngineEvent::Committed(commit)) => NormalMerge {
                commit,
                ..self
            }.perform(NormalMergeStage::Cleanup, EngineAction::CleanupState),
            (NormalMergeStage::Cleanup, EngineEvent::Done) => self.perform(
                NormalMergeStage::Head,
                EngineAction::ReadHead,
            ),
            (NormalMergeStage::Head, EngineEvent::Head { is_branch, shorthand }) => {
                let on_target = match &shorthand {
                    Some(name) => same_text(name.as_str(), self.target_branch.as_str()),
                    None => false,
                };
                if on_target {
                    self.perform(NormalMergeStage::Checkout, EngineAction::CheckoutHead)
                } else {
                    self.finish()
                }
            },
            (NormalMergeStage::Head, EngineEvent::Failed(message)) => self.finish(),
            (NormalMergeStage::Checkout, EngineEvent::Done) => self.finish(),
            (NormalMergeStage::Start, _) => self.abort(out_of_turn_error()),
            (NormalMergeStage::Finished, _) => self.abort(out_of_turn_error()),
            (_, EngineEvent::Failed(message)) => self.abort(Error::Engine(message)),
            _ => self.abort(out_of_turn_error()),
        }
    }
}

/// Starts a merge of `source_branch` into `target_branch`. Nothing is asked
/// of the engine yet.
pub fn normal_merge(source_branch: String, target_branch: String) -> (r: NormalMerge)
    ensures
        r@ == NormalMergeView::start(source_branch@, target_branch@),
{
    NormalMerge {
        source_branch,
        target_branch,
        source_tip: String::new(),
        target_tip: String::new(),
        commit: String::new(),
        stage: NormalMergeStage::Start,
    }
}

/// The answers of an engine to a merge that goes through without conflicts.
pub open spec fn clean_merge_answers(
    target_branch: Seq<char>,
    source_tip: Seq<char>,
    target_tip: Seq<char>,
    merge_base: Seq<char>,
    tree: Seq<char>,
    commit: Seq<char>,
    head_is_branch: bool,
    head: Option<Seq<char>>,
) -> Seq<EngineEventView> {
    let first = seq![
        EngineEventView::Begin,
        EngineEventView::Tip(Some(source_tip)),
        EngineEventView::Tip(Some(target_tip)),
        EngineEventView::MergeBase(merge_base),
        EngineEventView::Done,
        EngineEventView::Conflicts(false),
        EngineEventView::Tree(tree),
        EngineEventView::Committed(commit),
        EngineEventView::Done,
        EngineEventView::Head { is_branch: head_is_branch, shorthand: head },
    ];
    if head == Some(target_branch) {
        first + seq![EngineEventView::Done]
    } else {
        first
    }
}

/// What a merge without conflicts asks of the engine, up to reading HEAD.
pub open spec fn clean_merge_requests(
    source_branch: Seq<char>,
    target_branch: Seq<char>,
    source_tip: Seq<char>,
    target_tip: Seq<char>,
    tree: Seq<char>,
) -> Seq<StepView<NormalMergeResultView>> {
    seq![
        StepView::Perform(EngineActionView::ReadTip { ref_name: branch_ref(source_branch) }),
        StepView::Perform(EngineActionView::ReadTip { ref_name: branch_ref(target_branch) }),
        StepView::Perform(EngineActionView::ReadMergeBase { one: source_tip, two: target_tip }),
        StepView::Perform(EngineActionView::Merge { ref_name: branch_ref(source_branch) }),
        StepView::Perform(EngineActionView::ReadConflicts),
        StepView::Perform(EngineActionView::WriteTree),
        StepView::Perform(
            EngineActionView::Commit {
                update_ref: branch_ref(target_branch),
                message: merge_message(source_branch, target_branch),
                tree,
                first_parent: target_tip,
                second_parent: source_tip,
            },
        ),
        StepView::Perform(EngineActionView::CleanupState),
        StepView::Perform(EngineActionView::ReadHead),
    ]
}

/// A merge of branches that classify as `NormalMerge`, and that leaves no
/// conflicts, asks the engine for exactly this: to read the two tips and the
/// merge base, to merge, to look for conflicts, to write the tree, to commit
/// it once, on the target, with the target's tip as first parent and the
/// source's tip as second, to clear the merge state, to read HEAD, and, where
/// HEAD is the target, to refresh the working tree. It then reports the
/// commit that the engine created.
pub proof fn law_clean_merge_commits_once_with_both_tips(
    source_branch: Seq<char>,
    target_branch: Seq<char>,
    source_tip: Seq<char>,
    target_tip: Seq<char>,
    merge_base: Seq<char>,
    tree: Seq<char>,
    commit: Seq<char>,
    head_is_branch: bool,
    head: Option<Seq<char>>,
)
    requires
        relationship_of(source_tip, target_tip, merge_base) == Relationship::NormalMerge,
    ensures
        ({
            let said = NormalMergeView::start(source_branch, target_branch).run(
                clean_merge_answers(
                    target_branch,
                    source_tip,
                    target_tip,
                    merge_base,
                    tree,
                    commit,
                    head_is_branch,
                    head,
                ),
            );
            let requests = clean_merge_requests(
                source_branch,
                target_branch,
                source_tip,
                target_tip,
                tree,
            );
            let refresh: Seq<StepView<NormalMergeResultView>> = seq![
                StepView::Perform(EngineActionView::CheckoutHead),
            ];
            let end = seq![
                StepView::Finish(
                    NormalMergeResultView { source_branch, target_branch, commit_oid: commit },
                ),
            ];
            said == if head == Some(target_branch) {
                requests + refresh + end
            } else {
                requests + end
            }
        }),
{
    reveal_with_fuel(NormalMergeView::run, 12);
}

/// What a merge says when the index holds conflicts afterwards.
pub open spec fn conflicted_merge_trace(
    source_branch: Seq<char>,
    target_branch: Seq<char>,
    source_tip: Seq<char>,
    target_tip: Seq<char>,
) -> Seq<StepView<NormalMergeResultView>> {
    seq![
        StepView::Perform(EngineActionView::ReadTip { ref_name: branch_ref(source_branch) }),
        StepView::Perform(EngineActionView::ReadTip { ref_name: branch_ref(target_branch) }),
        StepView::Perform(EngineActionView::ReadMergeBase { one: source_tip, two: target_tip }),
        StepView::Perform(EngineActionView::Merge { ref_name: branch_ref(source_branch) }),
        StepView::Perform(EngineActionView::ReadConflicts),
        StepView::Perform(EngineActionView::CleanupState),
        StepView::Abort(ErrorView::MergeConflict),
    ]
}

/// A merge that leaves conflicts clears the merge state and fails with
/// `MergeConflict`. It writes no tree and creates no commit.
pub proof fn law_conflicts_abort_the_merge(
    source_branch: Seq<char>,
    target_branch: Seq<char>,
    source_tip: Seq<char>,
    target_tip: Seq<char>,
    merge_base: Seq<char>,
)
    requires
        relationship_of(source_tip, target_tip, merge_base) == Relationship::NormalMerge,
    ensures
        ({
            let start = NormalMergeView::start(source_branch, target_branch);
            let events = seq![
                EngineEventView::Begin,
                EngineEventView::Tip(Some(source_tip)),
                EngineEventView::Tip(Some(target_tip)),
                EngineEventView::MergeBase(merge_base),
                EngineEventView::Done,
                EngineEventView::Conflicts(true),
                EngineEventView::Done,
            ];
            &&& start.run(events) == conflicted_merge_trace(
                source_branch,
                target_branch,
                source_tip,
                target_tip,
            )
            &&& start.after(events).stage == NormalMergeStage::Finished
        }),
{
    reveal_with_fuel(NormalMergeView::run, 8);
    reveal_with_fuel(NormalMergeView::after, 8);
}

/// What a merge says when it is refused: three reads, and the failure.
pub open spec fn normal_merge_refusal(
    source_branch: Seq<char>,
    target_branch: Seq<char>,
    source_tip: Seq<char>,
    target_tip: Seq<char>,
) -> Seq<StepView<NormalMergeResultView>> {
    seq![
        StepView::Perform(EngineActionView::ReadTip { ref_name: branch_ref(source_branch) }),
        StepView::Perform(EngineActionView::ReadTip { ref_name: branch_ref(target_branch) }),
        StepView::Perform(EngineActionView::ReadMergeBase { one: source_tip, two: target_tip }),
        StepView::Abort(ErrorView::NormalMergeNotRequired),
    ]
}

/// A merge is refused with `NormalMergeNotRequired` where the merge base is
/// one of the two tips: one branch then holds the other already. Until then
/// it has only read from the repository.
pub proof fn law_normal_merge_refused_when_not_diverged(
    source_branch: Seq<char>,
    target_branch: Seq<char>,
    source_tip: Seq<char>,
    target_tip: Seq<char>,
    merge_base: Seq<char>,
)
    requires
        merge_base == source_tip || merge_base == target_tip,
    ensures
        ({
            let start = NormalMergeView::start(source_branch, target_branch);
            let events = seq![
                EngineEventView::Begin,
                EngineEventView::Tip(Some(source_tip)),
                EngineEventView::Tip(Some(target_tip)),
                EngineEventView::MergeBase(merge_base),
            ];
            &&& start.run(events) == normal_merge_refusal(
                source_branch,
                target_branch,
                source_tip,
                target_tip,
            )
            &&& start.after(events).stage == NormalMergeStage::Finished
        }),
{
    reveal_with_fuel(NormalMergeView::run, 5);
    reveal_with_fuel(NormalMergeView::after, 5);
}

/// A merge is refused for every pair of branches that does not classify as
/// `NormalMerge`, given that the merge base of a commit with itself is that
/// commit.
pub proof fn law_normal_merge_needs_divergence(
    source_branch: Seq<char>,
    target_branch: Seq<char>,
    source_tip: Seq<char>,
    target_tip: Seq<char>,
    merge_base: Seq<char>,
)
    requires
        relationship_of(source_tip, target_tip, merge_base) != Relationship::NormalMerge,
        source_tip == target_tip ==> merge_base == source_tip,
    ensures
        NormalMergeView::start(source_branch, target_branch).run(
            seq![
                EngineEventView::Begin,
                EngineEventView::Tip(Some(source_tip)),
                EngineEventView::Tip(Some(target_tip)),
                EngineEventView::MergeBase(merge_base),
            ],
        ) == normal_merge_refusal(source_branch, target_branch, source_tip, target_tip),
{
    law_normal_merge_refused_when_not_diverged(
        source_branch,
        target_branch,
        source_tip,
        target_tip,
        merge_base,
    );
}

/// Whatever the engine answers, a merge asks for a commit only on the answer
/// that gives the tree, which it asks for only on the answer that there are
/// no conflicts; and the commit it asks for is on the target, with the
/// target's tip as first parent and the source's tip as second.
pub proof fn law_merge_commits_only_a_clean_tree(state: NormalMergeView, event: EngineEventView)
    ensures
        state.step(event).1 matches StepView::Perform(action) ==> (action is Commit ==> state.stage
            == NormalMergeStage::Tree && event is Tree && action == (EngineActionView::Commit {
            update_ref: branch_ref(state.target_branch),
            message: merge_message(state.source_branch, state.target_branch),
            tree: event->Tree_0,
            first_parent: state.target_tip,
            second_parent: state.source_tip,
        })),
        state.step(event).0.stage == NormalMergeStage::Tree ==> state.stage
            == NormalMergeStage::Conflicts && event == EngineEventView::Conflicts(false),
        state.step(event).1 matches StepView::Perform(action) ==> action.reads_only()
            || state.stage.rank() >= NormalMergeStage::MergeBase.rank(),
        state.stage == NormalMergeStage::MergeBase && state.step(event).1 is Perform ==> event
            is MergeBase && event->MergeBase_0 != state.source_tip && event->MergeBase_0
            != state.target_tip,
{
}

/// Each answer takes a merge further or ends it, so it is over after twelve
/// answers at most; it is over exactly when it has said its result or its
/// failure; and once over it stays so.
pub proof fn law_normal_merge_advances(state: NormalMergeView, event: EngineEventView)
    ensures
        state.step(event).0.stage.rank() > state.stage.rank() || state.step(event).0.stage
            == NormalMergeStage::Finished,
        state.step(event).1 is Perform <==> state.step(event).0.stage
            != NormalMergeStage::Finished,
        state.stage == NormalMergeStage::Finished ==> state.step(event).1 is Abort,
{
}

} // verus!
