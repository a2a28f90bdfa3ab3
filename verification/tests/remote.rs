use workspace_core::engine::{EngineAction, EngineEvent, Step};
use workspace_core::error::Error;
use workspace_core::remote::{
    clone_repo, fetch_repo, push_rejection, push_repo, PushRepoResult, PushStage,
};

fn push(events: Vec<EngineEvent>) -> Vec<Step<PushRepoResult>> {
    let mut machine = push_repo();
    let mut said = Vec::new();
    for event in events {
        let (next, step) = machine.step(event);
        machine = next;
        said.push(step);
    }
    said
}

fn on_branch(name: &str) -> EngineEvent {
    EngineEvent::Head { is_branch: true, shorthand: Some(name.to_string()) }
}

fn pushed(set_upstream: bool) -> Step<PushRepoResult> {
    Step::Finish(PushRepoResult {
        branch_name: "main".to_string(),
        remote_name: "origin".to_string(),
        set_upstream,
    })
}

fn transfer() -> Step<PushRepoResult> {
    Step::Perform(EngineAction::Push {
        remote: "origin".to_string(),
        refspec: "refs/heads/main:refs/heads/main".to_string(),
    })
}

fn announce() -> Step<PushRepoResult> {
    Step::Perform(EngineAction::Announce {
        event: "push-progress".to_string(),
        phase: "Push completed".to_string(),
        value: 100,
    })
}

#[test]
fn fetch_asks_for_the_default_remote() {
    let (script, step) = fetch_repo().step(EngineEvent::Begin);
    assert_eq!(step, Step::Perform(EngineAction::Fetch { remote: "origin".to_string() }));
    let (_, step) = script.step(EngineEvent::Done);
    assert_eq!(step, Step::Finish(()));
}

#[test]
fn clone_asks_for_the_address_and_the_folder() {
    let script = clone_repo("https://example.com/r.git".to_string(), "/tmp/r".to_string());
    let (script, step) = script.step(EngineEvent::Begin);
    assert_eq!(
        step,
        Step::Perform(EngineAction::Clone {
            url: "https://example.com/r.git".to_string(),
            path: "/tmp/r".to_string()
        })
    );
    let (_, step) = script.step(EngineEvent::Failed("no network".to_string()));
    assert_eq!(step, Step::Abort(Error::Engine("no network".to_string())));
}

#[test]
fn rejection_of_a_reference_gives_its_message() {
    assert_eq!(push_rejection("refs/heads/main", None), None);
    assert_eq!(
        push_rejection("refs/heads/main", Some("non-fast-forward")),
        Some("Push rejected for refs/heads/main: non-fast-forward".to_string())
    );
    assert_eq!(push_rejection("", Some("")), Some("Push rejected for : ".to_string()));
}

#[test]
fn push_of_a_branch_with_an_upstream() {
    let said = push(vec![
        EngineEvent::Begin,
        on_branch("main"),
        EngineEvent::Upstream(true),
        EngineEvent::Done,
        EngineEvent::Done,
    ]);
    assert_eq!(
        said,
        vec![
            Step::Perform(EngineAction::ReadHead),
            Step::Perform(EngineAction::ReadUpstream { branch: "main".to_string() }),
            transfer(),
            announce(),
            pushed(false),
        ]
    );
}

#[test]
fn push_of_a_branch_without_an_upstream_sets_one() {
    let said = push(vec![
        EngineEvent::Begin,
        on_branch("main"),
        EngineEvent::Upstream(false),
        EngineEvent::Done,
        EngineEvent::Done,
        EngineEvent::Done,
    ]);
    assert_eq!(
        said,
        vec![
            Step::Perform(EngineAction::ReadHead),
            Step::Perform(EngineAction::ReadUpstream { branch: "main".to_string() }),
            Step::Perform(EngineAction::SetUpstream {
                branch: "main".to_string(),
                upstream: "origin/main".to_string()
            }),
            transfer(),
            announce(),
            pushed(true),
        ]
    );
}

#[test]
fn push_with_a_detached_head_fails() {
    let said =
        push(vec![EngineEvent::Begin, EngineEvent::Head { is_branch: false, shorthand: None }]);
    assert_eq!(said[1], Step::Abort(Error::DetachedHeadPush));
    let said = push(vec![
        EngineEvent::Begin,
        EngineEvent::Head { is_branch: false, shorthand: Some("HEAD".to_string()) },
    ]);
    assert_eq!(said[1], Step::Abort(Error::DetachedHeadPush));
}

#[test]
fn push_of_a_branch_without_a_name_fails() {
    let said =
        push(vec![EngineEvent::Begin, EngineEvent::Head { is_branch: true, shorthand: None }]);
    assert_eq!(said[1], Step::Abort(Error::BranchNameUnavailable));
}

#[test]
fn push_passes_engine_failures_on() {
    let said = push(vec![EngineEvent::Begin, EngineEvent::Failed("no head".to_string())]);
    assert_eq!(said[1], Step::Abort(Error::Engine("no head".to_string())));
    let said = push(vec![
        EngineEvent::Begin,
        on_branch("main"),
        EngineEvent::Upstream(true),
        EngineEvent::Failed("Push rejected for refs/heads/main: stale".to_string()),
    ]);
    assert_eq!(
        said[3],
        Step::Abort(Error::Engine("Push rejected for refs/heads/main: stale".to_string()))
    );
    let said = push(vec![
        EngineEvent::Begin,
        on_branch("main"),
        EngineEvent::Upstream(false),
        EngineEvent::Failed("config locked".to_string()),
    ]);
    assert_eq!(said[3], Step::Abort(Error::Engine("config locked".to_string())));
}

#[test]
fn push_overlooks_a_failed_announcement() {
    let said = push(vec![
        EngineEvent::Begin,
        on_branch("main"),
        EngineEvent::Upstream(true),
        EngineEvent::Done,
        EngineEvent::Failed("no window".to_string()),
    ]);
    assert_eq!(said[4], pushed(false));
}

#[test]
fn push_stages_follow_the_answers() {
    let machine = push_repo();
    assert_eq!(machine.stage(), PushStage::Start);
    let (machine, _) = machine.step(EngineEvent::Begin);
    assert_eq!(machine.stage(), PushStage::Head);
    let (machine, _) = machine.step(on_branch("main"));
    assert_eq!(machine.stage(), PushStage::Upstream);
    let (machine, _) = machine.step(EngineEvent::Upstream(false));
    assert_eq!(machine.stage(), PushStage::SetUpstream);
    let (machine, _) = machine.step(EngineEvent::Done);
    assert_eq!(machine.stage(), PushStage::Push);
    let (machine, _) = machine.step(EngineEvent::Done);
    assert_eq!(machine.stage(), PushStage::Announce);
    let (machine, _) = machine.step(EngineEvent::Done);
    assert_eq!(machine.stage(), PushStage::Finished);
    let (_, step) = machine.step(EngineEvent::Done);
    assert!(matches!(step, Step::Abort(Error::Engine(_))));
}
