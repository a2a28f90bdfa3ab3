//! Fast-forward: moving a branch forward to another that is ahead of it.
//!
//! The target's reference is pointed at the source's tip; no commit is
//! created. Where the target is the branch that is checked out, HEAD is set
//! to it again and the working tree is made to match.
use crate::engine::{
    branch_ref, branch_ref_name, out_of_turn, out_of_turn_error, EngineAction, EngineActionView,
    EngineEvent, EngineEventView, Step, StepView,
};
use crate::error::{Error, ErrorView};
use crate::classify::{relationship_of, Relationship};
use crate::text::same_text;
use vstd::prelude::*;
use vstd::string::*;

verus! {

/// What a fast-forward did.
#[derive(Clone, Debug, PartialEq, Eq)]
pub struct FastForwardResult {
    /// The branch that was merged.
    pub source_branch: String,
    /// The branch that was moved.
    pub target_branch: String,
    /// The commit that the target points to now.
    pub target_oid: String,
}

/// The mathematical value of a [`FastForwardResult`].
pub struct FastForwardResultView {
    pub source_branch: Seq<char>,
    pub target_branch: Seq<char>,
    pub target_oid: Seq<char>,
}

impl View for FastForwardResult {
    type V = FastForwardResultView;

    open spec fn view(&self) -> FastForwardResultView {
        FastForwardResultView {
            source_branch: self.source_branch@,
            target_branch: self.target_branch@,
            target_oid: self.target_oid@,
        }
    }
}

/// What a fast-forward is waiting for.
#[derive(Clone, Copy, Debug, PartialEq, Eq, Structural)]
pub enum FastForwardStage {
    /// Nothing was asked yet.
    Start,
    /// The tip of the source.
    SourceTip,
    /// The tip of the target.
    TargetTip,
    /// The merge base of the two tips.
    MergeBase,
    /// The target's reference to be moved.
    RefUpdate,
    /// What HEAD points to.
    Head,
    /// HEAD to be set to the target.
    SetHead,
    /// The working tree to be refreshed.
    Checkout,
    /// Nothing: the operation is over.
    Finished,
}

/// The reason that is logged with the move of the target's reference.
pub open spec fn fast_forward_reflog() -> Seq<char> {
    "fast-forward"@
}

/// A fast-forward of `target_branch` to `source_branch`, in progress.
#[derive(Debug)]
pub struct FastForward {
    source_branch: String,
    target_branch: String,
    source_tip: String,
    target_tip: String,
    stage: FastForwardStage,
}

/// The mathematical value of a [`FastForward`]. The tips are empty until
/// they have been read.
pub struct FastForwardView {
    pub source_branch: Seq<char>,
    pub target_branch: Seq<char>,
    pub source_tip: Seq<char>,
    pub target_tip: Seq<char>,
    pub stage: FastForwardStage,
}

impl View for FastForward {
    type V = FastForwardView;

    closed spec fn view(&self) -> FastForwardView {
        FastForwardView {
            source_branch: self.source_branch@,
            target_branch: self.target_branch@,
            source_tip: self.source_tip@,
            target_tip: self.target_tip@,
            stage: self.stage,
        }
    }
}

impl FastForwardView {
    /// A fast-forward that has not asked anything yet.
    pub open spec fn start(source_branch: Seq<char>, target_branch: Seq<char>) -> FastForwardView {
        FastForwardView {
            source_branch,
            target_branch,
            source_tip: Seq::empty(),
            target_tip: Seq::empty(),
            stage: FastForwardStage::Start,
        }
    }

    /// The same operation, waiting for something else.
    pub open spec fn at(self, stage: FastForwardStage) -> FastForwardView {
        FastForwardView { stage, ..self }
    }

    /// What the operation reports when it succeeds: the target now points to
    /// the source's tip.
    pub open spec fn result(self) -> FastForwardResultView {
        FastForwardResultView {
            source_branch: self.source_branch,
            target_branch: self.target_branch,
            target_oid: self.source_tip,
        }
    }

    /// The operation after an answer of the engine, and what it says next.
    ///
    /// It reads the two tips and their merge base, and goes on only where the
    /// merge base is the target's tip. Then it moves the target's reference to
    /// the source's tip, reads HEAD, and, where HEAD is the target, sets HEAD
    /// and refreshes the working tree. A failure to read HEAD counts as HEAD
    /// being elsewhere; any other failure of the engine aborts with its
    /// message.
    pub open spec fn step(self, event: EngineEventView) -> (
        FastForwardView,
        StepView<FastForwardResultView>,
    ) {
        let over = self.at(FastForwardStage::Finished);
        match (self.stage, event) {
            (FastForwardStage::Start, EngineEventView::Begin) => (
                self.at(FastForwardStage::SourceTip),
                StepView::Perform(
                    EngineActionView::ReadTip { ref_name: branch_ref(self.source_branch) },
                ),
            ),
            (FastForwardStage::SourceTip, EngineEventView::Tip(Some(tip))) => (
                FastForwardView { source_tip: tip, stage: FastForwardStage::TargetTip, ..self },
                StepView::Perform(
                    EngineActionView::ReadTip { ref_name: branch_ref(self.target_branch) },
                ),
            ),
            (FastForwardStage::SourceTip, EngineEventView::Tip(None)) => (
                over,
                StepView::Abort(ErrorView::BranchNotFound { branch: self.source_branch }),
            ),
            (FastForwardStage::TargetTip, EngineEventView::Tip(Some(tip))) => (
                FastForwardView { target_tip: tip, stage: FastForwardStage::MergeBase, ..self },
                StepView::Perform(
                    EngineActionView::ReadMergeBase { one: self.source_tip, two: tip },
                ),
            ),
            (FastForwardStage::TargetTip, EngineEventView::Tip(None)) => (
                over,
                StepView::Abort(ErrorView::BranchNotFound { branch: self.target_branch }),
            ),
            (FastForwardStage::MergeBase, EngineEventView::MergeBase(base)) => {
                if base == self.target_tip {
                    (
                        self.at(FastForwardStage::RefUpdate),
                        StepView::Perform(
                            EngineActionView::SetBranchTarget {
                                ref_name: branch_ref(self.target_branch),
                                tip: self.source_tip,
                                reflog: fast_forward_reflog(),
                            },
                        ),
                    )
                } else {
                    (
                        over,
                        StepView::Abort(
                            ErrorView::FastForwardNotPossible {
                                source: self.source_branch,
                                target: self.target_branch,
                            },
                        ),
                    )
                }
            },
            (FastForwardStage::RefUpdate, EngineEventView::Done) => (
                self.at(FastForwardStage::Head),
                StepView::Perform(EngineActionView::ReadHead),
            ),
            (FastForwardStage::Head, EngineEventView::Head { is_branch, shorthand }) => {
                if shorthand == Some(self.target_branch) {
                    (
                        self.at(FastForwardStage::SetHead),
                        StepView::Perform(
                            EngineActionView::SetHead { ref_name: branch_ref(self.target_branch) },
                        ),
                    )
                } else {
                    (over, StepView::Finish(self.result()))
                }
            },
            (FastForwardStage::Head, EngineEventView::Failed(message)) => (
                over,
                StepView::Finish(self.result()),
            ),
            (FastForwardStage::SetHead, EngineEventView::Done) => (
                self.at(FastForwardStage::Checkout),
                StepView::Perform(EngineActionView::CheckoutHead),
            ),
            (FastForwardStage::Checkout, EngineEventView::Done) => (
                over,
                StepView::Finish(self.result()),
            ),
            (FastForwardStage::Start, _) => (
                over,
                StepView::Abort(ErrorView::Engine(out_of_turn())),
            ),
            (FastForwardStage::Finished, _) => (
                over,
                StepView::Abort(ErrorView::Engine(out_of_turn())),
            ),
            (_, EngineEventView::Failed(message)) => (
                over,
                StepView::Abort(ErrorView::Engine(message)),
            ),
            _ => (over, StepView::Abort(ErrorView::Engine(out_of_turn()))),
        }
    }
}

impl FastForwardView {
    /// What the operation says to each of `events` in turn, from this state
    /// on.
    pub open spec fn run(self, events: Seq<EngineEventView>) -> Seq<
        StepView<FastForwardResultView>,
    >
        decreases events.len(),
    {
        if events.len() == 0 {
            Seq::empty()
        } else {
            seq![self.step(events.first()).1] + self.step(events.first()).0.run(
                events.drop_first(),
            )
        }
    }
}

impl FastForwardView {
    /// The operation after it has taken each of `events` in turn.
    pub open spec fn after(self, events: Seq<EngineEventView>) -> FastForwardView
        decreases events.len(),
    {
        if events.len() == 0 {
            self
        } else {
            self.step(events.first()).0.after(events.drop_first())
        }
    }
}

impl FastForwardStage {
    /// How far the operation has come: the number of answers that it has
    /// taken on its longest way.
    pub open spec fn rank(self) -> nat {
        match self {
            FastForwardStage::Start => 0,
            FastForwardStage::SourceTip => 1,
            FastForwardStage::TargetTip => 2,
            FastForwardStage::MergeBase => 3,
            FastForwardStage::RefUpdate => 4,
            FastForwardStage::Head => 5,
            FastForwardStage::SetHead => 6,
            FastForwardStage::Checkout => 7,
            FastForwardStage::Finished => 8,
        }
    }
}

impl FastForward {
    /// What the operation is waiting for.
    pub fn stage(&self) -> (r: FastForwardStage)
        ensures
            r == self@.stage,
    {
        self.stage
    }

    fn result(&self) -> (r: FastForwardResult)
        ensures
            r@ == self@.result(),
    {
        FastForwardResult {
            source_branch: self.source_branch.clone(),
            target_branch: self.target_branch.clone(),
            target_oid: self.source_tip.clone(),
        }
    }

    fn over(self) -> (r: FastForward)
        ensures
            r@ == self@.at(FastForwardStage::Finished),
    {
        FastForward { stage: FastForwardStage::Finished, ..self }
    }

    /// Takes the engine's answer to what was asked last, `Begin` at first,
    /// and says what to do next.
    pub fn step(self, event: EngineEvent) -> (r: (FastForward, Step<FastForwardResult>))
        ensures
            (r.0@, r.1@) == self@.step(event@),
    {
        match (self.stage, event) {
            (FastForwardStage::Start, EngineEvent::Begin) => {
                let ref_name = branch_ref_name(self.source_branch.as_str());
                (
                    FastForward { stage: FastForwardStage::SourceTip, ..self },
                    Step::Perform(EngineAction::ReadTip { ref_name }),
                )
            },
            (FastForwardStage::SourceTip, EngineEvent::Tip(Some(tip))) => {
                let ref_name = branch_ref_name(self.target_branch.as_str());
                (
                    FastForward { source_tip: tip, stage: FastForwardStage::TargetTip, ..self },
                    Step::Perform(EngineAction::ReadTip { ref_name }),
                )
            },
            (FastForwardStage::SourceTip, EngineEvent::Tip(None)) => {
                let branch = self.source_branch.clone();
                (self.over(), Step::Abort(Error::BranchNotFound { branch }))
            },
            (FastForwardStage::TargetTip, EngineEvent::Tip(Some(tip))) => {
                let action = EngineAction::ReadMergeBase {
                    one: self.source_tip.clone(),
                    two: tip.clone(),
                };
                (
                    FastForward { target_tip: tip, stage: FastForwardStage::MergeBase, ..self },
                    Step::Perform(action),
                )
            },
            (FastForwardStage::TargetTip, EngineEvent::Tip(None)) => {
                let branch = self.target_branch.clone();
                (self.over(), Step::Abort(Error::BranchNotFound { branch }))
            },
            (FastForwardStage::MergeBase, EngineEvent::MergeBase(base)) => {
                if same_text(base.as_str(), self.target_tip.as_str()) {
                    let action = EngineAction::SetBranchTarget {
                        ref_name: branch_ref_name(self.target_branch.as_str()),
                        tip: self.source_tip.clone(),
                        reflog: String::from_str("fast-forward"),
                    };
                    (
                        FastForward { stage: FastForwardStage::RefUpdate, ..self },
                        Step::Perform(action),
                    )
                } else {
                    let error = Error::FastForwardNotPossible {
                        source: self.source_branch.clone(),
                        target: self.target_branch.clone(),
                    };
                    (self.over(), Step::Abort(error))
                }
            },
            (FastForwardStage::RefUpdate, EngineEvent::Done) => (
                FastForward { stage: FastForwardStage::Head, ..self },
                Step::Perform(EngineAction::ReadHead),
            ),
            (FastForwardStage::Head, EngineEvent::Head { is_branch, shorthand }) => {
                let on_target = match &shorthand {
                    Some(name) => same_text(name.as_str(), self.target_branch.as_str()),
                    None => false,
                };
                if on_target {
                    let ref_name = branch_ref_name(self.target_branch.as_str());
                    (
                        FastForward { stage: FastForwardStage::SetHead, ..self },
                        Step::Perform(EngineAction::SetHead { ref_name }),
                    )
                } else {
                    let result = self.result();
                    (self.over(), Step::Finish(result))
                }
            },
            (FastForwardStage::Head, EngineEvent::Failed(message)) => {
                let result = self.result();
                (self.over(), Step::Finish(result))
            },
            (FastForwardStage::SetHead, EngineEvent::Done) => (
                FastForward { stage: FastForwardStage::Checkout, ..self },
                Step::Perform(EngineAction::CheckoutHead),
            ),
            (FastForwardStage::Checkout, EngineEvent::Done) => {
                let result = self.result();
                (self.over(), Step::Finish(result))
            },
            (FastForwardStage::Start, _) => (self.over(), Step::Abort(out_of_turn_error())),
            (FastForwardStage::Finished, _) => (self.over(), Step::Abort(out_of_turn_error())),
            (_, EngineEvent::Failed(message)) => (self.over(), Step::Abort(Error::Engine(message))),
            _ => (self.over(), Step::Abort(out_of_turn_error())),
        }
    }
}

/// Starts a fast-forward of `target_branch` to `source_branch`. Nothing is
/// asked of the engine yet.
pub fn fast_forward(source_branch: String, target_branch: String) -> (r: FastForward)
    ensures
        r@ == FastForwardView::start(source_branch@, target_branch@),
{
    FastForward {
        source_branch,
        target_branch,
        source_tip: String::new(),
        target_tip: String::new(),
        stage: FastForwardStage::Start,
    }
}

/// The answers of an engine to a fast-forward that goes through: the two
/// tips, the merge base, the reference moved, what HEAD points to, and,
/// where that is the target, HEAD set and the working tree refreshed.
pub open spec fn fast_forward_answers(
    target_branch: Seq<char>,
    source_tip: Seq<char>,
    target_tip: Seq<char>,
    merge_base: Seq<char>,
    head_is_branch: bool,
    head: Option<Seq<char>>,
) -> Seq<EngineEventView> {
    let first = seq![
        EngineEventView::Begin,
        EngineEventView::Tip(Some(source_tip)),
        EngineEventView::Tip(Some(target_tip)),
        EngineEventView::MergeBase(merge_base),
        EngineEventView::Done,
        EngineEventView::Head { is_branch: head_is_branch, shorthand: head },
    ];
    if head == Some(target_branch) {
        first + seq![EngineEventView::Done, EngineEventView::Done]
    } else {
        first
    }
}

/// A fast-forward of branches that classify as `FastForward` asks the engine
/// for exactly this: to read the two tips and the merge base, to point the
/// target's reference at the source's tip, to read HEAD, and, where HEAD is
/// the target, to set HEAD to it and to refresh the working tree. It then
/// reports the source's tip as the target's. No commit is created.
pub proof fn law_fast_forward_moves_target_to_source_tip(
    source_branch: Seq<char>,
    target_branch: Seq<char>,
    source_tip: Seq<char>,
    target_tip: Seq<char>,
    merge_base: Seq<char>,
    head_is_branch: bool,
    head: Option<Seq<char>>,
)
    requires
        relationship_of(source_tip, target_tip, merge_base) == Relationship::FastForward,
    ensures
        ({
            let start = FastForwardView::start(source_branch, target_branch);
            let said = start.run(
                fast_forward_answers(
                    target_branch,
                    source_tip,
                    target_tip,
                    merge_base,
                    head_is_branch,
                    head,
                ),
            );
            let reads = seq![
                StepView::Perform(
                    EngineActionView::ReadTip { ref_name: branch_ref(source_branch) },
                ),
                StepView::Perform(
                    EngineActionView::ReadTip { ref_name: branch_ref(target_branch) },
                ),
                StepView::Perform(
                    EngineActionView::ReadMergeBase { one: source_tip, two: target_tip },
                ),
                StepView::Perform(
                    EngineActionView::SetBranchTarget {
                        ref_name: branch_ref(target_branch),
                        tip: source_tip,
                        reflog: fast_forward_reflog(),
                    },
                ),
                StepView::Perform(EngineActionView::ReadHead),
            ];
            let refresh = seq![
                StepView::Perform(
                    EngineActionView::SetHead { ref_name: branch_ref(target_branch) },
                ),
                StepView::Perform(EngineActionView::CheckoutHead),
            ];
            let end = seq![
                StepView::Finish(
                    FastForwardResultView { source_branch, target_branch, target_oid: source_tip },
                ),
            ];
            said == if head == Some(target_branch) {
                reads + refresh + end
            } else {
                reads + end
            }
        }),
{
    reveal_with_fuel(FastForwardView::run, 9);
}

/// What a fast-forward says when it is refused: three reads, and the
/// failure.
pub open spec fn fast_forward_refusal(
    source_branch: Seq<char>,
    target_branch: Seq<char>,
    source_tip: Seq<char>,
    target_tip: Seq<char>,
) -> Seq<StepView<FastForwardResultView>> {
    seq![
        StepView::Perform(EngineActionView::ReadTip { ref_name: branch_ref(source_branch) }),
        StepView::Perform(EngineActionView::ReadTip { ref_name: branch_ref(target_branch) }),
        StepView::Perform(EngineActionView::ReadMergeBase { one: source_tip, two: target_tip }),
        StepView::Abort(
            ErrorView::FastForwardNotPossible { source: source_branch, target: target_branch },
        ),
    ]
}

/// A fast-forward of branches that have diverged is refused once the merge
/// base is known. Until then it has only read from the repository, so the
/// target's reference is where it was; and it is over.
pub proof fn law_fast_forward_refused_when_diverged(
    source_branch: Seq<char>,
    target_branch: Seq<char>,
    source_tip: Seq<char>,
    target_tip: Seq<char>,
    merge_base: Seq<char>,
)
    requires
        relationship_of(source_tip, target_tip, merge_base) == Relationship::NormalMerge,
    ensures
        ({
            let start = FastForwardView::start(source_branch, target_branch);
            let events = seq![
                EngineEventView::Begin,
                EngineEventView::Tip(Some(source_tip)),
                EngineEventView::Tip(Some(target_tip)),
                EngineEventView::MergeBase(merge_base),
            ];
            &&& start.run(events) == fast_forward_refusal(
                source_branch,
                target_branch,
                source_tip,
                target_tip,
            )
            &&& start.after(events).stage == FastForwardStage::Finished
        }),
{
    law_fast_forward_needs_base_at_target(
        source_branch,
        target_branch,
        source_tip,
        target_tip,
        merge_base,
    );
}

/// The same holds wherever the merge base is not the target's tip, also where
/// the target is ahead of the source.
pub proof fn law_fast_forward_needs_base_at_target(
    source_branch: Seq<char>,
    target_branch: Seq<char>,
    source_tip: Seq<char>,
    target_tip: Seq<char>,
    merge_base: Seq<char>,
)
    requires
        merge_base != target_tip,
    ensures
        ({
            let start = FastForwardView::start(source_branch, target_branch);
            let events = seq![
                EngineEventView::Begin,
                EngineEventView::Tip(Some(source_tip)),
                EngineEventView::Tip(Some(target_tip)),
                EngineEventView::MergeBase(merge_base),
            ];
            &&& start.run(events) == fast_forward_refusal(
                source_branch,
                target_branch,
                source_tip,
                target_tip,
            )
            &&& start.after(events).stage == FastForwardStage::Finished
        }),
{
    reveal_with_fuel(FastForwardView::run, 5);
    reveal_with_fuel(FastForwardView::after, 5);
}

/// Whatever the engine answers, a fast-forward asks for nothing but these:
/// to read a tip, the merge base or HEAD, to move a reference, to set HEAD,
/// and to refresh the working tree. It never merges and never commits.
pub proof fn law_fast_forward_creates_no_commit(state: FastForwardView, event: EngineEventView)
    ensures
        state.step(event).1 matches StepView::Perform(action) ==> action is ReadTip
            || action is ReadMergeBase || action is SetBranchTarget || action is ReadHead
            || action is SetHead || action is CheckoutHead,
{
}

/// A fast-forward writes nothing before it has seen the merge base at the
/// target's tip, and what it then writes first is the target's reference,
/// set to the source's tip.
pub proof fn law_fast_forward_checks_before_it_writes(
    state: FastForwardView,
    event: EngineEventView,
)
    ensures
        state.step(event).1 matches StepView::Perform(action) ==> action.reads_only()
            || state.stage.rank() >= FastForwardStage::MergeBase.rank(),
        state.stage == FastForwardStage::MergeBase && state.step(event).1 is Perform ==> event
            == EngineEventView::MergeBase(state.target_tip) && state.step(event).1 == StepView::<
            FastForwardResultView,
        >::Perform(
            EngineActionView::SetBranchTarget {
                ref_name: branch_ref(state.target_branch),
                tip: state.source_tip,
                reflog: fast_forward_reflog(),
            },
        ),
{
}

/// Each answer takes a fast-forward further or ends it, so it is over after
/// eight answers at most; it is over exactly when it has said its result or
/// its failure; and once over it stays so.
pub proof fn law_fast_forward_advances(state: FastForwardView, event: EngineEventView)
    ensures
        state.step(event).0.stage.rank() > state.stage.rank() || state.step(event).0.stage
            == FastForwardStage::Finished,
        state.step(event).1 is Perform <==> state.step(event).0.stage
            != FastForwardStage::Finished,
        state.stage == FastForwardStage::Finished ==> state.step(event).1 is Abort,
{
}

} // verus!
