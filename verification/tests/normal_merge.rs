use workspace_core::engine::{EngineAction, EngineEvent, Step};
use workspace_core::error::Error;
use workspace_core::normal_merge::{
    merge_commit_message, normal_merge, NormalMergeResult, NormalMergeStage,
};

fn run_merge(source: &str, target: &str, events: Vec<EngineEvent>) -> Vec<Step<NormalMergeResult>> {
    let mut machine = normal_merge(source.to_string(), target.to_string());
    let mut said = Vec::new();
    for event in events {
        let (next, step) = machine.step(event);
        machine = next;
        said.push(step);
    }
    said
}

fn merge_tip(id: &str) -> EngineEvent {
    EngineEvent::Tip(Some(id.to_string()))
}

fn diverged() -> Vec<EngineEvent> {
    vec![
        EngineEvent::Begin,
        merge_tip("sss"),
        merge_tip("ttt"),
        EngineEvent::MergeBase("bbb".to_string()),
    ]
}

fn merged(oid: &str) -> Step<NormalMergeResult> {
    Step::Finish(NormalMergeResult {
        source_branch: "topic".to_string(),
        target_branch: "main".to_string(),
        commit_oid: oid.to_string(),
    })
}

#[test]
fn merge_message_names_both_branches() {
    assert_eq!(merge_commit_message("topic", "main"), "merge branch 'topic' into 'main'");
    assert_eq!(merge_commit_message("", ""), "merge branch '' into ''");
}

#[test]
fn clean_merge_commits_with_both_tips_as_parents() {
    let mut events = diverged();
    events.extend(vec![
        EngineEvent::Done,
        EngineEvent::Conflicts(false),
        EngineEvent::Tree("tree1".to_string()),
        EngineEvent::Committed("mmm".to_string()),
        EngineEvent::Done,
        EngineEvent::Head { is_branch: true, shorthand: Some("topic".to_string()) },
    ]);
    let said = run_merge("topic", "main", events);
    assert_eq!(
        said,
        vec![
            Step::Perform(EngineAction::ReadTip { ref_name: "refs/heads/topic".to_string() }),
            Step::Perform(EngineAction::ReadTip { ref_name: "refs/heads/main".to_string() }),
            Step::Perform(EngineAction::ReadMergeBase {
                one: "sss".to_string(),
                two: "ttt".to_string()
            }),
            Step::Perform(EngineAction::Merge { ref_name: "refs/heads/topic".to_string() }),
            Step::Perform(EngineAction::ReadConflicts),
            Step::Perform(EngineAction::WriteTree),
            Step::Perform(EngineAction::Commit {
                update_ref: "refs/heads/main".to_string(),
                message: "merge branch 'topic' into 'main'".to_string(),
                tree: "tree1".to_string(),
                first_parent: "ttt".to_string(),
                second_parent: "sss".to_string(),
            }),
            Step::Perform(EngineAction::CleanupState),
            Step::Perform(EngineAction::ReadHead),
            merged("mmm"),
        ]
    );
    let commits = said
        .iter()
        .filter(|step| matches!(step, Step::Perform(EngineAction::Commit { .. })))
        .count();
    assert_eq!(commits, 1);
}

#[test]
fn clean_merge_refreshes_the_working_tree_of_the_target() {
    let mut events = diverged();
    events.extend(vec![
        EngineEvent::Done,
        EngineEvent::Conflicts(false),
        EngineEvent::Tree("tree1".to_string()),
        EngineEvent::Committed("mmm".to_string()),
        EngineEvent::Done,
        EngineEvent::Head { is_branch: true, shorthand: Some("main".to_string()) },
        EngineEvent::Done,
    ]);
    let said = run_merge("topic", "main", events);
    assert_eq!(said.len(), 11);
    assert_eq!(said[9], Step::Perform(EngineAction::CheckoutHead));
    assert_eq!(said[10], merged("mmm"));
}

#[test]
fn conflicts_clear_the_merge_state_and_fail() {
    let mut events = diverged();
    events.extend(vec![EngineEvent::Done, EngineEvent::Conflicts(true), EngineEvent::Done]);
    let said = run_merge("topic", "main", events);
    assert_eq!(said.len(), 7);
    assert_eq!(said[5], Step::Perform(EngineAction::CleanupState));
    assert_eq!(said[6], Step::Abort(Error::MergeConflict));
    for step in &said {
        assert!(!matches!(step, Step::Perform(EngineAction::Commit { .. })));
        assert!(!matches!(step, Step::Perform(EngineAction::WriteTree)));
    }
}

#[test]
fn a_failed_cleanup_after_conflicts_is_the_failure() {
    let mut events = diverged();
    events.extend(vec![
        EngineEvent::Done,
        EngineEvent::Conflicts(true),
        EngineEvent::Failed("cannot remove".to_string()),
    ]);
    let said = run_merge("topic", "main", events);
    assert_eq!(said[6], Step::Abort(Error::Engine("cannot remove".to_string())));
}

#[test]
fn merge_is_refused_when_one_branch_holds_the_other() {
    for base in ["sss", "ttt"] {
        let said = run_merge(
            "topic",
            "main",
            vec![
                EngineEvent::Begin,
                merge_tip("sss"),
                merge_tip("ttt"),
                EngineEvent::MergeBase(base.to_string()),
            ],
        );
        assert_eq!(said[3], Step::Abort(Error::NormalMergeNotRequired));
    }
    let said = run_merge(
        "topic",
        "main",
        vec![
            EngineEvent::Begin,
            merge_tip("sss"),
            merge_tip("sss"),
            EngineEvent::MergeBase("sss".to_string()),
        ],
    );
    assert_eq!(said[3], Step::Abort(Error::NormalMergeNotRequired));
}

#[test]
fn merge_needs_both_branches() {
    let said = run_merge("topic", "main", vec![EngineEvent::Begin, EngineEvent::Tip(None)]);
    assert_eq!(said[1], Step::Abort(Error::BranchNotFound { branch: "topic".to_string() }));
    let said =
        run_merge("topic", "main", vec![EngineEvent::Begin, merge_tip("s"), EngineEvent::Tip(None)]);
    assert_eq!(said[2], Step::Abort(Error::BranchNotFound { branch: "main".to_string() }));
}

#[test]
fn merge_passes_engine_failures_on() {
    let mut events = diverged();
    events.push(EngineEvent::Failed("checkout conflict".to_string()));
    let said = run_merge("topic", "main", events);
    assert_eq!(said[4], Step::Abort(Error::Engine("checkout conflict".to_string())));
    let mut events = diverged();
    events.extend(vec![
        EngineEvent::Done,
        EngineEvent::Conflicts(false),
        EngineEvent::Tree("tree1".to_string()),
        EngineEvent::Failed("no signature".to_string()),
    ]);
    let said = run_merge("topic", "main", events);
    assert_eq!(said[7], Step::Abort(Error::Engine("no signature".to_string())));
}

#[test]
fn merge_takes_an_unreadable_head_for_another_branch() {
    let mut events = diverged();
    events.extend(vec![
        EngineEvent::Done,
        EngineEvent::Conflicts(false),
        EngineEvent::Tree("tree1".to_string()),
        EngineEvent::Committed("mmm".to_string()),
        EngineEvent::Done,
        EngineEvent::Failed("no head".to_string()),
    ]);
    let said = run_merge("topic", "main", events);
    assert_eq!(said[9], merged("mmm"));
}

#[test]
fn merge_rejects_answers_out_of_turn() {
    let said = run_merge("topic", "main", vec![EngineEvent::Conflicts(false)]);
    assert_eq!(
        said[0],
        Step::Abort(Error::Engine("Unexpected answer from the repository engine".to_string()))
    );
    let mut events = diverged();
    events.push(EngineEvent::Conflicts(false));
    let said = run_merge("topic", "main", events);
    assert!(matches!(said[4], Step::Abort(Error::Engine(_))));
}

#[test]
fn merge_stages_follow_the_answers() {
    let machine = normal_merge("topic".to_string(), "main".to_string());
    assert_eq!(machine.stage(), NormalMergeStage::Start);
    let (machine, _) = machine.step(EngineEvent::Begin);
    let (machine, _) = machine.step(merge_tip("sss"));
    let (machine, _) = machine.step(merge_tip("ttt"));
    assert_eq!(machine.stage(), NormalMergeStage::MergeBase);
    let (machine, _) = machine.step(EngineEvent::MergeBase("bbb".to_string()));
    assert_eq!(machine.stage(), NormalMergeStage::Merge);
    let (machine, _) = machine.step(EngineEvent::Done);
    assert_eq!(machine.stage(), NormalMergeStage::Conflicts);
    let (machine, _) = machine.step(EngineEvent::Conflicts(true));
    assert_eq!(machine.stage(), NormalMergeStage::ConflictCleanup);
    let (machine, _) = machine.step(EngineEvent::Done);
    assert_eq!(machine.stage(), NormalMergeStage::Finished);
}
