use workspace_core::engine::{EngineAction, EngineEvent, Step};
use workspace_core::error::Error;
use workspace_core::fast_forward::{fast_forward, FastForwardResult, FastForwardStage};

fn run(source: &str, target: &str, events: Vec<EngineEvent>) -> Vec<Step<FastForwardResult>> {
    let mut machine = fast_forward(source.to_string(), target.to_string());
    let mut said = Vec::new();
    for event in events {
        let (next, step) = machine.step(event);
        machine = next;
        said.push(step);
    }
    said
}

fn tip(id: &str) -> EngineEvent {
    EngineEvent::Tip(Some(id.to_string()))
}

fn head(name: &str) -> EngineEvent {
    EngineEvent::Head { is_branch: true, shorthand: Some(name.to_string()) }
}

fn read_tip(name: &str) -> Step<FastForwardResult> {
    Step::Perform(EngineAction::ReadTip { ref_name: name.to_string() })
}

fn result(source: &str, target: &str, oid: &str) -> Step<FastForwardResult> {
    Step::Finish(FastForwardResult {
        source_branch: source.to_string(),
        target_branch: target.to_string(),
        target_oid: oid.to_string(),
    })
}

#[test]
fn fast_forward_of_a_branch_that_is_not_checked_out() {
    let said = run(
        "topic",
        "main",
        vec![
            EngineEvent::Begin,
            tip("bbb"),
            tip("aaa"),
            EngineEvent::MergeBase("aaa".to_string()),
            EngineEvent::Done,
            head("topic"),
        ],
    );
    assert_eq!(
        said,
        vec![
            read_tip("refs/heads/topic"),
            read_tip("refs/heads/main"),
            Step::Perform(EngineAction::ReadMergeBase {
                one: "bbb".to_string(),
                two: "aaa".to_string()
            }),
            Step::Perform(EngineAction::SetBranchTarget {
                ref_name: "refs/heads/main".to_string(),
                tip: "bbb".to_string(),
                reflog: "fast-forward".to_string(),
            }),
            Step::Perform(EngineAction::ReadHead),
            result("topic", "main", "bbb"),
        ]
    );
}

#[test]
fn fast_forward_of_the_branch_that_is_checked_out() {
    let said = run(
        "topic",
        "main",
        vec![
            EngineEvent::Begin,
            tip("bbb"),
            tip("aaa"),
            EngineEvent::MergeBase("aaa".to_string()),
            EngineEvent::Done,
            head("main"),
            EngineEvent::Done,
            EngineEvent::Done,
        ],
    );
    assert_eq!(said.len(), 8);
    assert_eq!(
        said[5],
        Step::Perform(EngineAction::SetHead { ref_name: "refs/heads/main".to_string() })
    );
    assert_eq!(said[6], Step::Perform(EngineAction::CheckoutHead));
    assert_eq!(said[7], result("topic", "main", "bbb"));
}

#[test]
fn fast_forward_is_refused_when_branches_diverged() {
    let said = run(
        "topic",
        "main",
        vec![EngineEvent::Begin, tip("bbb"), tip("ccc"), EngineEvent::MergeBase("aaa".to_string())],
    );
    assert_eq!(
        said,
        vec![
            read_tip("refs/heads/topic"),
            read_tip("refs/heads/main"),
            Step::Perform(EngineAction::ReadMergeBase {
                one: "bbb".to_string(),
                two: "ccc".to_string()
            }),
            Step::Abort(Error::FastForwardNotPossible {
                source: "topic".to_string(),
                target: "main".to_string()
            }),
        ]
    );
}

#[test]
fn fast_forward_is_refused_when_the_target_is_ahead() {
    let said = run(
        "topic",
        "main",
        vec![EngineEvent::Begin, tip("aaa"), tip("bbb"), EngineEvent::MergeBase("aaa".to_string())],
    );
    assert_eq!(
        said[3],
        Step::Abort(Error::FastForwardNotPossible {
            source: "topic".to_string(),
            target: "main".to_string()
        })
    );
}

#[test]
fn fast_forward_of_equal_tips_moves_nothing_but_goes_through() {
    let said = run(
        "topic",
        "main",
        vec![
            EngineEvent::Begin,
            tip("aaa"),
            tip("aaa"),
            EngineEvent::MergeBase("aaa".to_string()),
            EngineEvent::Done,
            head("other"),
        ],
    );
    assert_eq!(
        said[3],
        Step::Perform(EngineAction::SetBranchTarget {
            ref_name: "refs/heads/main".to_string(),
            tip: "aaa".to_string(),
            reflog: "fast-forward".to_string(),
        })
    );
    assert_eq!(said[5], result("topic", "main", "aaa"));
}

#[test]
fn fast_forward_needs_both_branches() {
    let said = run("topic", "main", vec![EngineEvent::Begin, EngineEvent::Tip(None)]);
    assert_eq!(said[1], Step::Abort(Error::BranchNotFound { branch: "topic".to_string() }));
    let said = run("topic", "main", vec![EngineEvent::Begin, tip("bbb"), EngineEvent::Tip(None)]);
    assert_eq!(said[2], Step::Abort(Error::BranchNotFound { branch: "main".to_string() }));
}

#[test]
fn fast_forward_passes_engine_failures_on() {
    let said = run(
        "topic",
        "main",
        vec![EngineEvent::Begin, tip("bbb"), tip("aaa"), EngineEvent::Failed("no base".to_string())],
    );
    assert_eq!(said[3], Step::Abort(Error::Engine("no base".to_string())));
    let said = run(
        "topic",
        "main",
        vec![
            EngineEvent::Begin,
            tip("bbb"),
            tip("aaa"),
            EngineEvent::MergeBase("aaa".to_string()),
            EngineEvent::Failed("locked".to_string()),
        ],
    );
    assert_eq!(said[4], Step::Abort(Error::Engine("locked".to_string())));
}

#[test]
fn fast_forward_takes_an_unreadable_head_for_another_branch() {
    let said = run(
        "topic",
        "main",
        vec![
            EngineEvent::Begin,
            tip("bbb"),
            tip("aaa"),
            EngineEvent::MergeBase("aaa".to_string()),
            EngineEvent::Done,
            EngineEvent::Failed("unborn".to_string()),
        ],
    );
    assert_eq!(said[5], result("topic", "main", "bbb"));
    let said = run(
        "topic",
        "main",
        vec![
            EngineEvent::Begin,
            tip("bbb"),
            tip("aaa"),
            EngineEvent::MergeBase("aaa".to_string()),
            EngineEvent::Done,
            EngineEvent::Head { is_branch: false, shorthand: None },
        ],
    );
    assert_eq!(said[5], result("topic", "main", "bbb"));
}

#[test]
fn fast_forward_rejects_answers_out_of_turn() {
    let said = run("topic", "main", vec![EngineEvent::Done]);
    assert_eq!(
        said[0],
        Step::Abort(Error::Engine("Unexpected answer from the repository engine".to_string()))
    );
    let said = run("topic", "main", vec![EngineEvent::Begin, EngineEvent::Done]);
    assert!(matches!(said[1], Step::Abort(Error::Engine(_))));
    let said = run(
        "topic",
        "main",
        vec![EngineEvent::Begin, EngineEvent::Tip(None), EngineEvent::Begin, tip("x")],
    );
    assert!(matches!(said[2], Step::Abort(Error::Engine(_))));
    assert!(matches!(said[3], Step::Abort(Error::Engine(_))));
}

#[test]
fn fast_forward_stages_follow_the_answers() {
    let machine = fast_forward("topic".to_string(), "main".to_string());
    assert_eq!(machine.stage(), FastForwardStage::Start);
    let (machine, _) = machine.step(EngineEvent::Begin);
    assert_eq!(machine.stage(), FastForwardStage::SourceTip);
    let (machine, _) = machine.step(tip("bbb"));
    assert_eq!(machine.stage(), FastForwardStage::TargetTip);
    let (machine, _) = machine.step(tip("aaa"));
    assert_eq!(machine.stage(), FastForwardStage::MergeBase);
    let (machine, _) = machine.step(EngineEvent::MergeBase("zzz".to_string()));
    assert_eq!(machine.stage(), FastForwardStage::Finished);
}
