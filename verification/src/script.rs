//! Operations without decisions: a list of actions for the engine, performed
//! in order until one fails.
use crate::engine::{
    out_of_turn, out_of_turn_error, EngineAction, EngineActionView, EngineEvent, EngineEventView,
    Step, StepView,
};
use crate::error::{Error, ErrorView};
use vstd::prelude::*;
use vstd::string::*;

verus! {

/// How far a script is.
#[derive(Clone, Copy, Debug, PartialEq, Eq, Structural)]
pub enum ScriptStage {
    /// Nothing was asked yet.
    Start,
    /// An action is being performed.
    Running,
    /// The script is over.
    Finished,
}

/// A list of actions for the engine, in progress.
#[derive(Debug)]
pub struct Script {
    remaining: Vec<EngineAction>,
    stage: ScriptStage,
}

/// The mathematical value of a [`Script`]: the actions that are still to be
/// handed out, in order, and how far the script is.
pub struct ScriptView {
    pub remaining: Seq<EngineActionView>,
    pub stage: ScriptStage,
}

impl View for Script {
    type V = ScriptView;

    closed spec fn view(&self) -> ScriptView {
        ScriptView { remaining: self.remaining.deep_view(), stage: self.stage }
    }
}

impl ScriptView {
    /// A script of `actions` that has not asked anything yet.
    pub open spec fn start(actions: Seq<EngineActionView>) -> ScriptView {
        ScriptView { remaining: actions, stage: ScriptStage::Start }
    }

    /// Where the script stops.
    pub open spec fn stop(self, step: StepView<()>) -> (ScriptView, StepView<()>) {
        (ScriptView { stage: ScriptStage::Finished, ..self }, step)
    }

    /// The next action of the script, or its end where none is left.
    pub open spec fn next(self) -> (ScriptView, StepView<()>) {
        if self.remaining.len() == 0 {
            self.stop(StepView::Finish(()))
        } else {
            (
                ScriptView { remaining: self.remaining.drop_first(), stage: ScriptStage::Running },
                StepView::Perform(self.remaining.first()),
            )
        }
    }

    /// The script after an answer of the engine, and what it says next: the
    /// next action after `Begin` and after each `Done`, the end after the
    /// last, and the failure after the first that fails.
    pub open spec fn step(self, event: EngineEventView) -> (ScriptView, StepView<()>) {
        match (self.stage, event) {
            (ScriptStage::Start, EngineEventView::Begin) => self.next(),
            (ScriptStage::Running, EngineEventView::Done) => self.next(),
            (ScriptStage::Running, EngineEventView::Failed(message)) => self.stop(
                StepView::Abort(ErrorView::Engine(message)),
            ),
            _ => self.stop(StepView::Abort(ErrorView::Engine(out_of_turn()))),
        }
    }

    /// What the script says to each of `events` in turn, from this state on.
    pub open spec fn run(self, events: Seq<EngineEventView>) -> Seq<StepView<()>>
        decreases events.len(),
    {
        if events.len() == 0 {
            Seq::empty()
        } else {
            seq![self.step(events.first()).1] + self.step(events.first()).0.run(
                events.drop_first(),
            )
        }
    }
}

impl Script {
    /// A script of `actions` that has not asked anything yet.
    pub fn new(actions: Vec<EngineAction>) -> (r: Script)
        ensures
            r@ == ScriptView::start(actions.deep_view()),
    {
        Script { remaining: actions, stage: ScriptStage::Start }
    }

    /// How far the script is.
    pub fn stage(&self) -> (r: ScriptStage)
        ensures
            r == self@.stage,
    {
        self.stage
    }

    fn stop(self, step: Step<()>) -> (r: (Script, Step<()>))
        ensures
            (r.0@, r.1@) == self@.stop(step@),
    {
        (Script { stage: ScriptStage::Finished, ..self }, step)
    }

    fn next(self) -> (r: (Script, Step<()>))
        ensures
            (r.0@, r.1@) == self@.next(),
    {
        if self.remaining.len() == 0 {
            self.stop(Step::Finish(()))
        } else {
            let mut remaining = self.remaining;
            let ghost before = remaining.deep_view();
            let action = remaining.remove(0);
            assert(remaining.deep_view() =~= before.drop_first());
            (Script { remaining, stage: ScriptStage::Running }, Step::Perform(action))
        }
    }

    /// Takes the engine's answer to what was asked last, `Begin` at first,
    /// and says what to do next.
    pub fn step(self, event: EngineEvent) -> (r: (Script, Step<()>))
        ensures
            (r.0@, r.1@) == self@.step(event@),
    {
        match (self.stage, event) {
            (ScriptStage::Start, EngineEvent::Begin) => self.next(),
            (ScriptStage::Running, EngineEvent::Done) => self.next(),
            (ScriptStage::Running, EngineEvent::Failed(message)) => self.stop(
                Step::Abort(Error::Engine(message)),
            ),
            _ => self.stop(Step::Abort(out_of_turn_error())),
        }
    }
}

/// The answers of an engine that performs `count` actions.
pub open spec fn all_done(count: nat) -> Seq<EngineEventView> {
    seq![EngineEventView::Begin] + Seq::new(count, |i: int| EngineEventView::Done)
}

/// The steps that ask for each of `actions` in turn.
pub open spec fn each_of(actions: Seq<EngineActionView>) -> Seq<StepView<()>> {
    Seq::new(actions.len(), |i: int| StepView::Perform(actions[i]))
}

/// What a running script says while the engine performs each action: the
/// actions that are left, in order, and then the end.
proof fn lemma_script_runs_on(state: ScriptView)
    requires
        state.stage == ScriptStage::Running,
    ensures
        state.run(Seq::new(state.remaining.len() + 1, |i: int| EngineEventView::Done)) == each_of(
            state.remaining,
        ).push(StepView::Finish(())),
    decreases state.remaining.len(),
{
    let events = Seq::new(state.remaining.len() + 1, |i: int| EngineEventView::Done);
    let next = state.step(EngineEventView::Done);
    if state.remaining.len() == 0 {
        assert(next.0.run(events.drop_first()) =~= Seq::empty());
    } else {
        let rest = Seq::new(next.0.remaining.len() + 1, |i: int| EngineEventView::Done);
        assert(events.drop_first() =~= rest);
        lemma_script_runs_on(next.0);
    }
}

/// A script whose actions the engine all performs asks for exactly these
/// actions, in order, and then ends.
pub proof fn law_script_performs_each_action(actions: Seq<EngineActionView>)
    ensures
        ScriptView::start(actions).run(all_done(actions.len())) == each_of(actions).push(
            StepView::Finish(()),
        ),
{
    let state = ScriptView::start(actions);
    let events = all_done(actions.len());
    let next = state.step(EngineEventView::Begin);
    if actions.len() == 0 {
        assert(next.0.run(events.drop_first()) =~= Seq::empty());
    } else {
        let rest = Seq::new(next.0.remaining.len() + 1, |i: int| EngineEventView::Done);
        assert(events.drop_first() =~= rest);
        lemma_script_runs_on(next.0);
    }
}

/// A script stops at the first action that fails, with the failure of the
/// engine, and asks for nothing after it.
pub proof fn law_script_stops_at_a_failure(
    state: ScriptView,
    event: EngineEventView,
    message: Seq<char>,
)
    ensures
        state.stage == ScriptStage::Running ==> state.step(EngineEventView::Failed(message))
            == state.stop(StepView::Abort(ErrorView::Engine(message))),
        state.stage == ScriptStage::Finished ==> state.step(event).1 is Abort,
        state.step(event).1 is Perform <==> state.step(event).0.stage != ScriptStage::Finished,
        state.step(event).1 is Perform ==> state.step(event).0.remaining.len()
            < state.remaining.len(),
{
}

} // verus!
