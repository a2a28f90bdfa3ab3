//! Talking to the remote: what a fetch asks for, and how a push proceeds.
//!
//! A push sends the branch that is checked out to the remote `origin`, and
//! gives the branch an upstream there where it has none. The transport asks
//! for credentials and reports progress while it runs; those answers come
//! from `credentials` and `progress`.
use crate::engine::{
    branch_ref, out_of_turn, out_of_turn_error, EngineAction, EngineActionView, EngineEvent,
    EngineEventView, Step, StepView,
};
use crate::error::{Error, ErrorView};
use crate::progress::PUSH_PROGRESS_EVENT;
use crate::script::{Script, ScriptView};
use crate::text::join;
use vstd::prelude::*;
use vstd::string::*;

verus! {

/// The remote that fetch and push talk to.
pub open spec fn default_remote() -> Seq<char> {
    "origin"@
}

/// The name under which the end of a push is announced.
pub open spec fn push_event() -> Seq<char> {
    PUSH_PROGRESS_EVENT@
}

/// The phase that the end of a push is announced with.
pub open spec fn push_completed_phase() -> Seq<char> {
    "Push completed"@
}

/// The upstream that a branch is given on the default remote.
pub open spec fn upstream_of(branch: Seq<char>) -> Seq<char> {
    default_remote() + "/"@ + branch
}

/// The refspec that pushes a local branch to the branch of the same name.
pub open spec fn refspec_of(branch: Seq<char>) -> Seq<char> {
    branch_ref(branch) + ":"@ + branch_ref(branch)
}

/// The text with which a push fails when the remote rejects a reference.
pub open spec fn rejection_text(reference: Seq<char>, reason: Seq<char>) -> Seq<char> {
    "Push rejected for "@ + reference + ": "@ + reason
}

/// What the remote said of one reference of a push: nothing where it took
/// the reference, and the failure to report where it gave a reason against
/// it.
pub fn push_rejection(reference: &str, status: Option<&str>) -> (r: Option<String>)
    ensures
        match status {
            Some(reason) => r is Some && r->0@ == rejection_text(reference@, reason@),
            None => r is None,
        },
{
    match status {
        Some(reason) => Some(
            String::from_str("Push rejected for ").concat(reference).concat(": ").concat(reason),
        ),
        None => None,
    }
}

/// What a fetch asks of the engine: to fetch from the default remote.
pub open spec fn fetch_actions() -> Seq<EngineActionView> {
    seq![EngineActionView::Fetch { remote: default_remote() }]
}

/// Starts a fetch from the default remote. Nothing is asked of the engine
/// yet.
pub fn fetch_repo() -> (r: Script)
    ensures
        r@ == ScriptView::start(fetch_actions()),
{
    let actions = vec![EngineAction::Fetch { remote: String::from_str("origin") }];
    assert(actions.deep_view() =~= fetch_actions());
    Script::new(actions)
}

/// What a clone asks of the engine.
pub open spec fn clone_actions(url: Seq<char>, path: Seq<char>) -> Seq<EngineActionView> {
    seq![EngineActionView::Clone { url, path }]
}

/// Starts a clone of the repository at `url` into the folder `file_path`.
/// Nothing is asked of the engine yet.
pub fn clone_repo(url: String, file_path: String) -> (r: Script)
    ensures
        r@ == ScriptView::start(clone_actions(url@, file_path@)),
{
    let actions = vec![EngineAction::Clone { url, path: file_path }];
    assert(actions.deep_view() =~= clone_actions(url@, file_path@));
    Script::new(actions)
}

/// What a push did.
#[derive(Clone, Debug, PartialEq, Eq)]
pub struct PushRepoResult {
    /// The branch that was pushed.
    pub branch_name: String,
    /// The remote that it was pushed to.
    pub remote_name: String,
    /// Whether the branch was given an upstream on the way.
    pub set_upstream: bool,
}

/// The mathematical value of a [`PushRepoResult`].
pub struct PushRepoResultView {
    pub branch_name: Seq<char>,
    pub remote_name: Seq<char>,
    pub set_upstream: bool,
}

impl View for PushRepoResult {
    type V = PushRepoResultView;

    open spec fn view(&self) -> PushRepoResultView {
        PushRepoResultView {
            branch_name: self.branch_name@,
            remote_name: self.remote_name@,
            set_upstream: self.set_upstream,
        }
    }
}

/// What a push is waiting for.
#[derive(Clone, Copy, Debug, PartialEq, Eq, Structural)]
pub enum PushStage {
    /// Nothing was asked yet.
    Start,
    /// What HEAD points to.
    Head,
    /// Whether the branch has an upstream.
    Upstream,
    /// The upstream to be set.
    SetUpstream,
    /// The transfer.
    Push,
    /// The end of the transfer to be announced.
    Announce,
    /// Nothing: the operation is over.
    Finished,
}

impl PushStage {
    /// How far the operation has come: the number of answers that it has
    /// taken on its longest way.
    pub open spec fn rank(self) -> nat {
        match self {
            PushStage::Start => 0,
            PushStage::Head => 1,
            PushStage::Upstream => 2,
            PushStage::SetUpstream => 3,
            PushStage::Push => 4,
            PushStage::Announce => 5,
            PushStage::Finished => 6,
        }
    }
}

/// A push of the branch that is checked out, in progress.
#[derive(Debug)]
pub struct Push {
    branch: String,
    set_upstream: bool,
    stage: PushStage,
}

/// The mathematical value of a [`Push`]. The branch is empty until HEAD has
/// been read.
pub struct PushView {
    pub branch: Seq<char>,
    pub set_upstream: bool,
    pub stage: PushStage,
}

impl View for Push {
    type V = PushView;

    closed spec fn view(&self) -> PushView {
        PushView { branch: self.branch@, set_upstream: self.set_upstream, stage: self.stage }
    }
}

impl PushView {
    /// A push that has not asked anything yet.
    pub open spec fn start() -> PushView {
        PushView { branch: Seq::empty(), set_upstream: false, stage: PushStage::Start }
    }

    /// The same operation, waiting for something else.
    pub open spec fn at(self, stage: PushStage) -> PushView {
        PushView { stage, ..self }
    }

    /// What the operation reports when it succeeds.
    pub open spec fn result(self) -> PushRepoResultView {
        PushRepoResultView {
            branch_name: self.branch,
            remote_name: default_remote(),
            set_upstream: self.set_upstream,
        }
    }

    /// Where the operation stops without a result.
    pub open spec fn abort(self, error: ErrorView) -> (PushView, StepView<PushRepoResultView>) {
        (self.at(PushStage::Finished), StepView::Abort(error))
    }

    /// Where the operation goes on with an action of the engine.
    pub open spec fn perform(self, stage: PushStage, action: EngineActionView) -> (
        PushView,
        StepView<PushRepoResultView>,
    ) {
        (self.at(stage), StepView::Perform(action))
    }

    /// The transfer that the operation asks for.
    pub open spec fn transfer(self) -> EngineActionView {
        EngineActionView::Push { remote: default_remote(), refspec: refspec_of(self.branch) }
    }

    /// The operation after an answer of the engine, and what it says next.
    ///
    /// It reads HEAD, and fails where HEAD is detached or its branch has no
    /// name. It asks whether the branch has an upstream and sets one on the
    /// default remote where it has none. It pushes the branch, announces the
    /// end of the transfer with 100 and reports. A failure to announce is
    /// overlooked; any other failure of the engine aborts with its message.
    pub open spec fn step(self, event: EngineEventView) -> (
        PushView,
        StepView<PushRepoResultView>,
    ) {
        match (self.stage, event) {
            (PushStage::Start, EngineEventView::Begin) => self.perform(
                PushStage::Head,
                EngineActionView::ReadHead,
            ),
            (PushStage::Head, EngineEventView::Head { is_branch, shorthand }) => {
                if !is_branch {
                    self.abort(ErrorView::DetachedHeadPush)
                } else if shorthand is None {
                    self.abort(ErrorView::BranchNameUnavailable)
                } else {
                    PushView { branch: shorthand->0, ..self }.perform(
                        PushStage::Upstream,
                        EngineActionView::ReadUpstream { branch: shorthand->0 },
                    )
                }
            },
            (PushStage::Upstream, EngineEventView::Upstream(present)) => {
                if present {
                    self.perform(PushStage::Push, self.transfer())
                } else {
                    PushView { set_upstream: true, ..self }.perform(
                        PushStage::SetUpstream,
                        EngineActionView::SetUpstream {
                            branch: self.branch,
                            upstream: upstream_of(self.branch),
                        },
                    )
                }
            },
            (PushStage::SetUpstream, EngineEventView::Done) => self.perform(
                PushStage::Push,
                self.transfer(),
            ),
            (PushStage::Push, EngineEventView::Done) => self.perform(
                PushStage::Announce,
                EngineActionView::Announce {
                    event: push_event(),
                    phase: push_completed_phase(),
                    value: 100,
                },
            ),
            (PushStage::Announce, EngineEventView::Done) => (
                self.at(PushStage::Finished),
                StepView::Finish(self.result()),
            ),
            (PushStage::Announce, EngineEventView::Failed(message)) => (
                self.at(PushStage::Finished),
                StepView::Finish(self.result()),
            ),
            (PushStage::Start, _) => self.abort(ErrorView::Engine(out_of_turn())),
            (PushStage::Finished, _) => self.abort(ErrorView::Engine(out_of_turn())),
            (_, EngineEventView::Failed(message)) => self.abort(ErrorView::Engine(message)),
            _ => self.abort(ErrorView::Engine(out_of_turn())),
        }
    }

    /// What the operation says to each of `events` in turn, from this state
    /// on.
    pub open spec fn run(self, events: Seq<EngineEventView>) -> Seq<StepView<PushRepoResultView>>
        decreases events.len(),
    {
        if events.len() == 0 {
            Seq::empty()
        } else {
            seq![self.step(events.first()).1] + self.step(events.first()).0.run(
                events.drop_first(),
            )
        }
    }
}

impl Push {
    /// What the operation is waiting for.
    pub fn stage(&self) -> (r: PushStage)
        ensures
            r == self@.stage,
    {
        self.stage
    }

    fn finish(self) -> (r: (Push, Step<PushRepoResult>))
        ensures
            r.0@ == self@.at(PushStage::Finished),
            r.1@ == StepView::Finish(self@.result()),
    {
        let result = PushRepoResult {
            branch_name: self.branch.clone(),
            remote_name: String::from_str("origin"),
            set_upstream: self.set_upstream,
        };
        (Push { stage: PushStage::Finished, ..self }, Step::Finish(result))
    }

    fn abort(self, error: Error) -> (r: (Push, Step<PushRepoResult>))
        ensures
            (r.0@, r.1@) == self@.abort(error@),
    {
        (Push { stage: PushStage::Finished, ..self }, Step::Abort(error))
    }

    fn perform(self, stage: PushStage, action: EngineAction) -> (r: (Push, Step<PushRepoResult>))
        ensures
            (r.0@, r.1@) == self@.perform(stage, action@),
    {
        (Push { stage, ..self }, Step::Perform(action))
    }

    fn transfer(&self) -> (r: EngineAction)
        ensures
            r@ == self@.transfer(),
    {
        let local = join("refs/heads/", self.branch.as_str());
        let refspec = join(local.as_str(), ":").concat(local.as_str());
        EngineAction::Push { remote: String::from_str("origin"), refspec }
    }

    /// Takes the engine's answer to what was asked last, `Begin` at first,
    /// and says what to do next.
    pub fn step(self, event: EngineEvent) -> (r: (Push, Step<PushRepoResult>))
        ensures
            (r.0@, r.1@) == self@.step(event@),
    {
        match (self.stage, event) {
            (PushStage::Start, EngineEvent::Begin) => self.perform(
                PushStage::Head,
                EngineAction::ReadHead,
            ),
            (PushStage::Head, EngineEvent::Head { is_branch, shorthand }) => {
                if !is_branch {
                    self.abort(Error::DetachedHeadPush)
                } else {
                    match shorthand {
                        None => self.abort(Error::BranchNameUnavailable),
                        Some(name) => {
                            let action = EngineAction::ReadUpstream { branch: name.clone() };
                            Push { branch: name, ..self }.perform(PushStage::Upstream, action)
                        },
                    }
                }
            },
            (PushStage::Upstream, EngineEvent::Upstream(present)) => {
                if present {
                    let action = self.transfer();
                    self.perform(PushStage::Push, action)
                } else {
                    let action = EngineAction::SetUpstream {
                        branch: self.branch.clone(),
                        upstream: join("origin", "/").concat(self.branch.as_str()),
                    };
                    Push { set_upstream: true, ..self }.perform(PushStage::SetUpstream, action)
                }
            },
            (PushStage::SetUpstream, EngineEvent::Done) => {
                let action = self.transfer();
                self.perform(PushStage::Push, action)
            },
            (PushStage::Push, EngineEvent::Done) => {
                let action = EngineAction::Announce {
                    event: String::from_str(PUSH_PROGRESS_EVENT),
                    phase: String::from_str("Push completed"),
                    value: 100,
                };
                self.perform(PushStage::Announce, action)
            },
            (PushStage::Announce, EngineEvent::Done) => self.finish(),
            (PushStage::Announce, EngineEvent::Failed(message)) => self.finish(),
            (PushStage::Start, _) => self.abort(out_of_turn_error()),
            (PushStage::Finished, _) => self.abort(out_of_turn_error()),
            (_, EngineEvent::Failed(message)) => self.abort(Error::Engine(message)),
            _ => self.abort(out_of_turn_error()),
        }
    }
}

/// Starts a push of the branch that is checked out. Nothing is asked of the
/// engine yet.
pub fn push_repo() -> (r: Push)
    ensures
        r@ == PushView::start(),
{
    Push { branch: String::new(), set_upstream: false, stage: PushStage::Start }
}

/// A push with HEAD on a branch asks the engine for exactly this: to read
/// HEAD, to say whether the branch has an upstream, to set one on the default
/// remote where it has none, to push the branch to the branch of the same
/// name, and to announce 100 at the end. It then reports the branch, the
/// remote and whether it set the upstream.
pub proof fn law_push_of_a_branch(branch: Seq<char>, has_upstream: bool)
    ensures
        ({
            let first = seq![
                EngineEventView::Begin,
                EngineEventView::Head { is_branch: true, shorthand: Some(branch) },
                EngineEventView::Upstream(has_upstream),
            ];
            let rest = seq![EngineEventView::Done, EngineEventView::Done];
            let events = if has_upstream {
                first + rest
            } else {
                first + seq![EngineEventView::Done] + rest
            };
            let asked: Seq<StepView<PushRepoResultView>> = seq![
                StepView::Perform(EngineActionView::ReadHead),
                StepView::Perform(EngineActionView::ReadUpstream { branch }),
            ];
            let upstream: Seq<StepView<PushRepoResultView>> = seq![
                StepView::Perform(
                    EngineActionView::SetUpstream { branch, upstream: upstream_of(branch) },
                ),
            ];
            let sent: Seq<StepView<PushRepoResultView>> = seq![
                StepView::Perform(
                    EngineActionView::Push {
                        remote: default_remote(),
                        refspec: refspec_of(branch),
                    },
                ),
                StepView::Perform(
                    EngineActionView::Announce {
                        event: push_event(),
                        phase: push_completed_phase(),
                        value: 100,
                    },
                ),
                StepView::Finish(
                    PushRepoResultView {
                        branch_name: branch,
                        remote_name: default_remote(),
                        set_upstream: !has_upstream,
                    },
                ),
            ];
            PushView::start().run(events) == if has_upstream {
                asked + sent
            } else {
                asked + upstream + sent
            }
        }),
{
    reveal_with_fuel(PushView::run, 7);
}

/// A push with HEAD detached fails with `DetachedHeadPush`, and one whose
/// branch has no name with `BranchNameUnavailable`, before anything is sent
/// or changed.
pub proof fn law_push_needs_a_branch(is_branch: bool, shorthand: Option<Seq<char>>)
    requires
        !is_branch || shorthand is None,
    ensures
        ({
            let said = PushView::start().run(
                seq![EngineEventView::Begin, EngineEventView::Head { is_branch, shorthand }],
            );
            let expected: Seq<StepView<PushRepoResultView>> = seq![
                StepView::Perform(EngineActionView::ReadHead),
                StepView::Abort(
                    if is_branch {
                        ErrorView::BranchNameUnavailable
                    } else {
                        ErrorView::DetachedHeadPush
                    },
                ),
            ];
            said == expected
        }),
{
    reveal_with_fuel(PushView::run, 3);
}

/// Each answer takes a push further or ends it; it is over exactly when it
/// has said its result or its failure; once over it stays so; and it is only
/// after the transfer that it announces anything.
pub proof fn law_push_advances(state: PushView, event: EngineEventView)
    ensures
        state.step(event).0.stage.rank() > state.stage.rank() || state.step(event).0.stage
            == PushStage::Finished,
        state.step(event).1 is Perform <==> state.step(event).0.stage != PushStage::Finished,
        state.stage == PushStage::Finished ==> state.step(event).1 is Abort,
        state.step(event).1 matches StepView::Perform(action) ==> (action is Announce
            ==> state.stage == PushStage::Push && event is Done),
{
}

} // verus!
