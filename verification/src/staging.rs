//! Staging and unstaging: what is asked of the engine's index.
use crate::engine::{
    out_of_turn, out_of_turn_error, EngineAction, EngineActionView, EngineEvent, EngineEventView,
    HeadFailure, Step, StepView,
};
use crate::error::{Error, ErrorView};
use crate::script::{Script, ScriptView};
use vstd::prelude::*;
use vstd::string::*;

verus! {

/// The pattern that stands for every file of the working tree.
pub open spec fn every_file() -> Seq<char> {
    "."@
}

/// The pattern that stands for every entry of the index.
pub open spec fn every_entry() -> Seq<char> {
    "*"@
}

/// The pattern that stages every file of the working tree: the folder of the
/// repository itself.
pub fn all_files() -> (r: &'static str)
    ensures
        r@ == every_file(),
{
    "."
}

/// The pattern that unstages every entry of the index. The engine matches
/// the entries of the index against the pattern as it stands, so the folder
/// of the repository would match none of them.
pub fn all_entries() -> (r: &'static str)
    ensures
        r@ == every_entry(),
{
    "*"
}

/// What staging asks of the engine.
pub open spec fn stage_actions(pathspec: Seq<char>) -> Seq<EngineActionView> {
    seq![EngineActionView::StagePaths { pathspec }]
}

/// Starts the staging of the file `file_path`. Nothing is asked of the engine
/// yet.
pub fn stage_file(file_path: String) -> (r: Script)
    ensures
        r@ == ScriptView::start(stage_actions(file_path@)),
{
    let actions = vec![EngineAction::StagePaths { pathspec: file_path }];
    assert(actions.deep_view() =~= stage_actions(file_path@));
    Script::new(actions)
}

/// Starts the staging of every file. Nothing is asked of the engine yet.
pub fn stage_all_files() -> (r: Script)
    ensures
        r@ == ScriptView::start(stage_actions(every_file())),
{
    stage_file(String::from_str(all_files()))
}

/// Whether a failure to read HEAD only means that there is no commit yet.
/// Unstaging then takes the files out of the index rather than setting them
/// back to a commit.
pub open spec fn means_no_commit(failure: HeadFailure) -> bool {
    failure == HeadFailure::UnbornBranch || failure == HeadFailure::NotFound
}

/// Tells whether a failure to read HEAD only means that there is no commit
/// yet; any other failure is one of the operation.
pub fn head_is_absent(failure: HeadFailure) -> (r: bool)
    ensures
        r == means_no_commit(failure),
{
    match failure {
        HeadFailure::UnbornBranch => true,
        HeadFailure::NotFound => true,
        HeadFailure::Other => false,
    }
}

/// What an unstaging is waiting for.
#[derive(Clone, Copy, Debug, PartialEq, Eq, Structural)]
pub enum UnstageStage {
    /// Nothing was asked yet.
    Start,
    /// The commit of HEAD.
    HeadCommit,
    /// The index to be reset.
    Reset,
    /// Nothing: the operation is over.
    Finished,
}

impl UnstageStage {
    /// How far the operation has come: the number of answers that it has
    /// taken.
    pub open spec fn rank(self) -> nat {
        match self {
            UnstageStage::Start => 0,
            UnstageStage::HeadCommit => 1,
            UnstageStage::Reset => 2,
            UnstageStage::Finished => 3,
        }
    }
}

/// An unstaging of what matches a pattern, in progress.
#[derive(Debug)]
pub struct Unstage {
    pathspec: String,
    stage: UnstageStage,
}

/// The mathematical value of an [`Unstage`].
pub struct UnstageView {
    pub pathspec: Seq<char>,
    pub stage: UnstageStage,
}

impl View for Unstage {
    type V = UnstageView;

    closed spec fn view(&self) -> UnstageView {
        UnstageView { pathspec: self.pathspec@, stage: self.stage }
    }
}

impl UnstageView {
    /// An unstaging that has not asked anything yet.
    pub open spec fn start(pathspec: Seq<char>) -> UnstageView {
        UnstageView { pathspec, stage: UnstageStage::Start }
    }

    /// The same operation, waiting for something else.
    pub open spec fn at(self, stage: UnstageStage) -> UnstageView {
        UnstageView { stage, ..self }
    }

    /// Where the operation stops.
    pub open spec fn stop(self, step: StepView<()>) -> (UnstageView, StepView<()>) {
        (self.at(UnstageStage::Finished), step)
    }

    /// The reset that the operation asks for.
    pub open spec fn reset(self, commit: Option<Seq<char>>) -> (UnstageView, StepView<()>) {
        (
            self.at(UnstageStage::Reset),
            StepView::Perform(EngineActionView::ResetIndex { commit, pathspec: self.pathspec }),
        )
    }

    /// The operation after an answer of the engine, and what it says next.
    ///
    /// It reads the commit of HEAD and sets the matching entries of the
    /// index back to it. Where HEAD cannot be read because there is no commit
    /// yet, it takes the entries out of the index. Any other failure of the
    /// engine aborts with its message.
    pub open spec fn step(self, event: EngineEventView) -> (UnstageView, StepView<()>) {
        match (self.stage, event) {
            (UnstageStage::Start, EngineEventView::Begin) => (
                self.at(UnstageStage::HeadCommit),
                StepView::Perform(EngineActionView::ReadHeadCommit),
            ),
            (UnstageStage::HeadCommit, EngineEventView::HeadCommit(commit)) => self.reset(
                Some(commit),
            ),
            (UnstageStage::HeadCommit, EngineEventView::HeadUnavailable { failure, message }) => {
                if means_no_commit(failure) {
                    self.reset(None)
                } else {
                    self.stop(StepView::Abort(ErrorView::Engine(message)))
                }
            },
            (UnstageStage::Reset, EngineEventView::Done) => self.stop(StepView::Finish(())),
            (UnstageStage::Start, _) => self.stop(
                StepView::Abort(ErrorView::Engine(out_of_turn())),
            ),
            (UnstageStage::Finished, _) => self.stop(
                StepView::Abort(ErrorView::Engine(out_of_turn())),
            ),
            (_, EngineEventView::Failed(message)) => self.stop(
                StepView::Abort(ErrorView::Engine(message)),
            ),
            _ => self.stop(StepView::Abort(ErrorView::Engine(out_of_turn()))),
        }
    }
}

impl Unstage {
    /// What the operation is waiting for.
    pub fn stage(&self) -> (r: UnstageStage)
        ensures
            r == self@.stage,
    {
        self.stage
    }

    fn stop(self, step: Step<()>) -> (r: (Unstage, Step<()>))
        ensures
            (r.0@, r.1@) == self@.stop(step@),
    {
        (Unstage { stage: UnstageStage::Finished, ..self }, step)
    }

    fn reset(self, commit: Option<String>) -> (r: (Unstage, Step<()>))
        ensures
            (r.0@, r.1@) == self@.reset(commit.deep_view()),
    {
        let action = EngineAction::ResetIndex { commit, pathspec: self.pathspec.clone() };
        (Unstage { stage: UnstageStage::Reset, ..self }, Step::Perform(action))
    }

    /// Takes the engine's answer to what was asked last, `Begin` at first,
    /// and says what to do next.
    pub fn step(self, event: EngineEvent) -> (r: (Unstage, Step<()>))
        ensures
            (r.0@, r.1@) == self@.step(event@),
    {
        match (self.stage, event) {
            (UnstageStage::Start, EngineEvent::Begin) => (
                Unstage { stage: UnstageStage::HeadCommit, ..self },
                Step::Perform(EngineAction::ReadHeadCommit),
            ),
            (UnstageStage::HeadCommit, EngineEvent::HeadCommit(commit)) => self.reset(Some(commit)),
            (UnstageStage::HeadCommit, EngineEvent::HeadUnavailable { failure, message }) => {
                if head_is_absent(failure) {
                    self.reset(None)
                } else {
                    self.stop(Step::Abort(Error::Engine(message)))
                }
            },
            (UnstageStage::Reset, EngineEvent::Done) => self.stop(Step::Finish(())),
            (UnstageStage::Start, _) => self.stop(Step::Abort(out_of_turn_error())),
            (UnstageStage::Finished, _) => self.stop(Step::Abort(out_of_turn_error())),
            (_, EngineEvent::Failed(message)) => self.stop(Step::Abort(Error::Engine(message))),
            _ => self.stop(Step::Abort(out_of_turn_error())),
        }
    }
}

/// Starts the unstaging of the file `file_path`. Nothing is asked of the
/// engine yet.
pub fn unstage_file(file_path: String) -> (r: Unstage)
    ensures
        r@ == UnstageView::start(file_path@),
{
    Unstage { pathspec: file_path, stage: UnstageStage::Start }
}

/// Starts the unstaging of every file. Nothing is asked of the engine yet.
pub fn unstage_all_files() -> (r: Unstage)
    ensures
        r@ == UnstageView::start(every_entry()),
{
    unstage_file(String::from_str(all_entries()))
}

/// Unstaging resets the index to the commit of HEAD, or to nothing exactly
/// where HEAD is unborn or missing; it asks for one reset at most, and only
/// after HEAD was read. Each answer takes it further or ends it, and once
/// over it stays so.
pub proof fn law_unstage_resets_to_head(state: UnstageView, event: EngineEventView)
    ensures
        state.step(event).1 matches StepView::Perform(action) ==> (action is ResetIndex ==> {
            &&& state.stage == UnstageStage::HeadCommit
            &&& action->ResetIndex_pathspec == state.pathspec
            &&& match event {
                EngineEventView::HeadCommit(commit) => action->ResetIndex_commit == Some(commit),
                EngineEventView::HeadUnavailable { failure, .. } => means_no_commit(failure)
                    && action->ResetIndex_commit is None,
                _ => false,
            }
        }),
        state.step(event).0.stage.rank() > state.stage.rank() || state.step(event).0.stage
            == UnstageStage::Finished,
        state.step(event).1 is Perform <==> state.step(event).0.stage != UnstageStage::Finished,
        state.stage == UnstageStage::Finished ==> state.step(event).1 is Abort,
{
}

} // verus!
