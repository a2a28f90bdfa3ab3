//! Merge analysis: telling how a source branch relates to a target before
//! anything is merged. It reads from the repository and writes nothing.
use crate::classify::{analysis_name, classify, relationship_of, Relationship};
use crate::engine::{
    branch_ref, branch_ref_name, out_of_turn, out_of_turn_error, EngineAction, EngineActionView,
    EngineEvent, EngineEventView, Step, StepView,
};
use crate::error::{Error, ErrorView};
use crate::text::same_text;
use vstd::prelude::*;
use vstd::string::*;

verus! {

/// The verdict on two branches, with the names that it was asked for.
#[derive(Clone, Debug, PartialEq, Eq)]
pub struct MergeAnalysisResult {
    /// The relationship, by name: `up_to_date`, `fast_forward` or
    /// `normal_merge`.
    pub analysis: String,
    /// The branch that would be merged.
    pub source_branch: String,
    /// The branch that would receive the merge.
    pub target_branch: String,
}

/// The mathematical value of a [`MergeAnalysisResult`].
pub struct MergeAnalysisResultView {
    pub analysis: Seq<char>,
    pub source_branch: Seq<char>,
    pub target_branch: Seq<char>,
}

impl View for MergeAnalysisResult {
    type V = MergeAnalysisResultView;

    open spec fn view(&self) -> MergeAnalysisResultView {
        MergeAnalysisResultView {
            analysis: self.analysis@,
            source_branch: self.source_branch@,
            target_branch: self.target_branch@,
        }
    }
}

/// The verdict `relationship` on `source_branch` and `target_branch`.
pub open spec fn analysis_of(
    source_branch: Seq<char>,
    target_branch: Seq<char>,
    relationship: Relationship,
) -> MergeAnalysisResultView {
    MergeAnalysisResultView {
        analysis: analysis_name(relationship),
        source_branch,
        target_branch,
    }
}

/// Reports the verdict `relationship` on `source_branch` and `target_branch`.
pub fn analysis_result(
    source_branch: String,
    target_branch: String,
    relationship: Relationship,
) -> (r: MergeAnalysisResult)
    ensures
        r@ == analysis_of(source_branch@, target_branch@, relationship),
{
    MergeAnalysisResult { analysis: relationship.name(), source_branch, target_branch }
}

/// What a merge analysis is waiting for.
#[derive(Clone, Copy, Debug, PartialEq, Eq, Structural)]
pub enum MergeAnalysisStage {
    /// Nothing was asked yet.
    Start,
    /// The tip of the source.
    SourceTip,
    /// The tip of the target.
    TargetTip,
    /// The merge base of the two tips.
    MergeBase,
    /// Nothing: the operation is over.
    Finished,
}

impl MergeAnalysisStage {
    /// How far the operation has come: the number of answers that it has
    /// taken on its longest way.
    pub open spec fn rank(self) -> nat {
        match self {
            MergeAnalysisStage::Start => 0,
            MergeAnalysisStage::SourceTip => 1,
            MergeAnalysisStage::TargetTip => 2,
            MergeAnalysisStage::MergeBase => 3,
            MergeAnalysisStage::Finished => 4,
        }
    }
}

/// A merge analysis of `source_branch` against `target_branch`, in progress.
#[derive(Debug)]
pub struct MergeAnalysis {
    source_branch: String,
    target_branch: String,
    source_tip: String,
    target_tip: String,
    stage: MergeAnalysisStage,
}

/// The mathematical value of a [`MergeAnalysis`]. The tips are empty until
/// they have been read.
pub struct MergeAnalysisView {
    pub source_branch: Seq<char>,
    pub target_branch: Seq<char>,
    pub source_tip: Seq<char>,
    pub target_tip: Seq<char>,
    pub stage: MergeAnalysisStage,
}

impl View for MergeAnalysis {
    type V = MergeAnalysisView;

    closed spec fn view(&self) -> MergeAnalysisView {
        MergeAnalysisView {
            source_branch: self.source_branch@,
            target_branch: self.target_branch@,
            source_tip: self.source_tip@,
            target_tip: self.target_tip@,
            stage: self.stage,
        }
    }
}

impl MergeAnalysisView {
    /// An analysis that has not asked anything yet.
    pub open spec fn start(
        source_branch: Seq<char>,
        target_branch: Seq<char>,
    ) -> MergeAnalysisView {
        MergeAnalysisView {
            source_branch,
            target_branch,
            source_tip: Seq::empty(),
            target_tip: Seq::empty(),
            stage: MergeAnalysisStage::Start,
        }
    }

    /// The same operation, waiting for something else.
    pub open spec fn at(self, stage: MergeAnalysisStage) -> MergeAnalysisView {
        MergeAnalysisView { stage, ..self }
    }

    /// Where the operation stops without a result.
    pub open spec fn abort(self, error: ErrorView) -> (
        MergeAnalysisView,
        StepView<MergeAnalysisResultView>,
    ) {
        (self.at(MergeAnalysisStage::Finished), StepView::Abort(error))
    }

    /// Where the operation stops with a verdict.
    pub open spec fn finish(self, relationship: Relationship) -> (
        MergeAnalysisView,
        StepView<MergeAnalysisResultView>,
    ) {
        (
            self.at(MergeAnalysisStage::Finished),
            StepView::Finish(analysis_of(self.source_branch, self.target_branch, relationship)),
        )
    }

    /// Where the operation goes on with an action of the engine.
    pub open spec fn perform(self, stage: MergeAnalysisStage, action: EngineActionView) -> (
        MergeAnalysisView,
        StepView<MergeAnalysisResultView>,
    ) {
        (self.at(stage), StepView::Perform(action))
    }

    /// The operation after an answer of the engine, and what it says next.
    ///
    /// It reads the two tips. Equal tips are up to date, and the merge base
    /// is not asked for. Otherwise it reads the merge base and classifies.
    /// Any failure of the engine aborts with its message.
    pub open spec fn step(self, event: EngineEventView) -> (
        MergeAnalysisView,
        StepView<MergeAnalysisResultView>,
    ) {
        match (self.stage, event) {
            (MergeAnalysisStage::Start, EngineEventView::Begin) => self.perform(
                MergeAnalysisStage::SourceTip,
                EngineActionView::ReadTip { ref_name: branch_ref(self.source_branch) },
            ),
            (MergeAnalysisStage::SourceTip, EngineEventView::Tip(Some(tip))) => MergeAnalysisView {
                source_tip: tip,
                ..self
            }.perform(
                MergeAnalysisStage::TargetTip,
                EngineActionView::ReadTip { ref_name: branch_ref(self.target_branch) },
            ),
            (MergeAnalysisStage::SourceTip, EngineEventView::Tip(None)) => self.abort(
                ErrorView::BranchNotFound { branch: self.source_branch },
            ),
            (MergeAnalysisStage::TargetTip, EngineEventView::Tip(Some(tip))) => {
                let known = MergeAnalysisView { target_tip: tip, ..self };
                if tip == self.source_tip {
                    known.finish(Relationship::UpToDate)
                } else {
                    known.perform(
                        MergeAnalysisStage::MergeBase,
                        EngineActionView::ReadMergeBase { one: self.source_tip, two: tip },
                    )
                }
            },
            (MergeAnalysisStage::TargetTip, EngineEventView::Tip(None)) => self.abort(
                ErrorView::BranchNotFound { branch: self.target_branch },
            ),
            (MergeAnalysisStage::MergeBase, EngineEventView::MergeBase(base)) => self.finish(
                relationship_of(self.source_tip, self.target_tip, base),
            ),
            (MergeAnalysisStage::Start, _) => self.abort(ErrorView::Engine(out_of_turn())),
            (MergeAnalysisStage::Finished, _) => self.abort(ErrorView::Engine(out_of_turn())),
            (_, EngineEventView::Failed(message)) => self.abort(ErrorView::Engine(message)),
            _ => self.abort(ErrorView::Engine(out_of_turn())),
        }
    }

    /// What the operation says to each of `events` in turn, from this state
    /// on.
    pub open spec fn run(self, events: Seq<EngineEventView>) -> Seq<
        StepView<MergeAnalysisResultView>,
    >
        decreases events.len(),
    {
        if events.len() == 0 {
            Seq::empty()
        } else {
            seq![self.step(events.first()).1] + self.step(events.first()).0.run(
                events.drop_first(),
            )
        }
    }
}

impl MergeAnalysis {
    /// What the operation is waiting for.
    pub fn stage(&self) -> (r: MergeAnalysisStage)
        ensures
            r == self@.stage,
    {
        self.stage
    }

    fn finish(self, relationship: Relationship) -> (r: (MergeAnalysis, Step<MergeAnalysisResult>))
        ensures
            (r.0@, r.1@) == self@.finish(relationship),
    {
        let result = analysis_result(
            self.source_branch.clone(),
            self.target_branch.clone(),
            relationship,
        );
        (MergeAnalysis { stage: MergeAnalysisStage::Finished, ..self }, Step::Finish(result))
    }

    fn abort(self, error: Error) -> (r: (MergeAnalysis, Step<MergeAnalysisResult>))
        ensures
            (r.0@, r.1@) == self@.abort(error@),
    {
        (MergeAnalysis { stage: MergeAnalysisStage::Finished, ..self }, Step::Abort(error))
    }

    fn perform(self, stage: MergeAnalysisStage, action: EngineAction) -> (r: (
        MergeAnalysis,
        Step<MergeAnalysisResult>,
    ))
        ensures
            (r.0@, r.1@) == self@.perform(stage, action@),
    {
        (MergeAnalysis { stage, ..self }, Step::Perform(action))
    }

    /// Takes the engine's answer to what was asked last, `Begin` at first,
    /// and says what to do next.
    pub fn step(self, event: EngineEvent) -> (r: (MergeAnalysis, Step<MergeAnalysisResult>))
        ensures
            (r.0@, r.1@) == self@.step(event@),
    {
        match (self.stage, event) {
            (MergeAnalysisStage::Start, EngineEvent::Begin) => {
                let ref_name = branch_ref_name(self.source_branch.as_str());
                self.perform(MergeAnalysisStage::SourceTip, EngineAction::ReadTip { ref_name })
            },
            (MergeAnalysisStage::SourceTip, EngineEvent::Tip(Some(tip))) => {
                let ref_name = branch_ref_name(self.target_branch.as_str());
                MergeAnalysis { source_tip: tip, ..self }.perform(
                    MergeAnalysisStage::TargetTip,
                    EngineAction::ReadTip { ref_name },
                )
            },
            (MergeAnalysisStage::SourceTip, EngineEvent::Tip(None)) => {
                let branch = self.source_branch.clone();
                self.abort(Error::BranchNotFound { branch })
            },
            (MergeAnalysisStage::TargetTip, EngineEvent::Tip(Some(tip))) => {
                if same_text(tip.as_str(), self.source_tip.as_str()) {
                    MergeAnalysis { target_tip: tip, ..self }.finish(Relationship::UpToDate)
                } else {
                    let action = EngineAction::ReadMergeBase {
                        one: self.source_tip.clone(),
                        two: tip.clone(),
                    };
                    MergeAnalysis { target_tip: tip, ..self }.perform(
                        MergeAnalysisStage::MergeBase,
                        action,
                    )
                }
            },
            (MergeAnalysisStage::TargetTip, EngineEvent::Tip(None)) => {
                let branch = self.target_branch.clone();
                self.abort(Error::BranchNotFound { branch })
            },
            (MergeAnalysisStage::MergeBase, EngineEvent::MergeBase(base)) => {
                let relationship = classify(
                    self.source_tip.as_str(),
                    self.target_tip.as_str(),
                    base.as_str(),
                );
                self.finish(relationship)
            },
            (MergeAnalysisStage::Start, _) => self.abort(out_of_turn_error()),
            (MergeAnalysisStage::Finished, _) => self.abort(out_of_turn_error()),
            (_, EngineEvent::Failed(message)) => self.abort(Error::Engine(message)),
            _ => self.abort(out_of_turn_error()),
        }
    }
}

/// Starts an analysis of `source_branch` against `target_branch`. Nothing is
/// asked of the engine yet.
pub fn merge_analysis(source_branch: String, target_branch: String) -> (r: MergeAnalysis)
    ensures
        r@ == MergeAnalysisView::start(source_branch@, target_branch@),
{
    MergeAnalysis {
        source_branch,
        target_branch,
        source_tip: String::new(),
        target_tip: String::new(),
        stage: MergeAnalysisStage::Start,
    }
}

/// An analysis of branches with different tips reads the two tips and the
/// merge base, and reports the relationship of the three under the names of
/// the branches.
pub proof fn law_analysis_reports_the_relationship(
    source_branch: Seq<char>,
    target_branch: Seq<char>,
    source_tip: Seq<char>,
    target_tip: Seq<char>,
    merge_base: Seq<char>,
)
    requires
        source_tip != target_tip,
    ensures
        ({
            let said = MergeAnalysisView::start(source_branch, target_branch).run(
                seq![
                    EngineEventView::Begin,
                    EngineEventView::Tip(Some(source_tip)),
                    EngineEventView::Tip(Some(target_tip)),
                    EngineEventView::MergeBase(merge_base),
                ],
            );
            let expected: Seq<StepView<MergeAnalysisResultView>> = seq![
                StepView::Perform(
                    EngineActionView::ReadTip { ref_name: branch_ref(source_branch) },
                ),
                StepView::Perform(
                    EngineActionView::ReadTip { ref_name: branch_ref(target_branch) },
                ),
                StepView::Perform(
                    EngineActionView::ReadMergeBase { one: source_tip, two: target_tip },
                ),
                StepView::Finish(
                    analysis_of(
                        source_branch,
                        target_branch,
                        relationship_of(source_tip, target_tip, merge_base),
                    ),
                ),
            ];
            said == expected
        }),
{
    reveal_with_fuel(MergeAnalysisView::run, 5);
}

/// An analysis of branches with the same tip reads the two tips and reports
/// `up_to_date` without asking for the merge base: whatever the merge base
/// is, that is the relationship.
pub proof fn law_analysis_of_equal_tips(
    source_branch: Seq<char>,
    target_branch: Seq<char>,
    tip: Seq<char>,
    merge_base: Seq<char>,
)
    ensures
        ({
            let said = MergeAnalysisView::start(source_branch, target_branch).run(
                seq![
                    EngineEventView::Begin,
                    EngineEventView::Tip(Some(tip)),
                    EngineEventView::Tip(Some(tip)),
                ],
            );
            let expected: Seq<StepView<MergeAnalysisResultView>> = seq![
                StepView::Perform(
                    EngineActionView::ReadTip { ref_name: branch_ref(source_branch) },
                ),
                StepView::Perform(
                    EngineActionView::ReadTip { ref_name: branch_ref(target_branch) },
                ),
                StepView::Finish(
                    analysis_of(
                        source_branch,
                        target_branch,
                        relationship_of(tip, tip, merge_base),
                    ),
                ),
            ];
            said == expected
        }),
{
    reveal_with_fuel(MergeAnalysisView::run, 4);
}

/// Whatever the engine answers, an analysis only reads; each answer takes it
/// further or ends it; and once over it stays so.
pub proof fn law_analysis_only_reads(state: MergeAnalysisView, event: EngineEventView)
    ensures
        state.step(event).1 matches StepView::Perform(action) ==> action.reads_only(),
        state.step(event).0.stage.rank() > state.stage.rank() || state.step(event).0.stage
            == MergeAnalysisStage::Finished,
        state.step(event).1 is Perform <==> state.step(event).0.stage
            != MergeAnalysisStage::Finished,
        state.stage == MergeAnalysisStage::Finished ==> state.step(event).1 is Abort,
{
}

} // verus!
