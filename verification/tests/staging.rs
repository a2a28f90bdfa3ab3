use workspace_core::engine::{EngineAction, EngineEvent, HeadFailure, Step};
use workspace_core::error::Error;
use workspace_core::staging::{
    all_entries, all_files, head_is_absent, stage_all_files, stage_file, unstage_all_files,
    unstage_file, UnstageStage,
};

#[test]
fn an_unborn_or_missing_head_means_no_commit() {
    assert!(head_is_absent(HeadFailure::UnbornBranch));
    assert!(head_is_absent(HeadFailure::NotFound));
    assert!(!head_is_absent(HeadFailure::Other));
}

#[test]
fn patterns_for_everything() {
    assert_eq!(all_files(), ".");
    assert_eq!(all_entries(), "*");
}

#[test]
fn staging_a_file_is_one_action() {
    let (script, step) = stage_file("src/a.rs".to_string()).step(EngineEvent::Begin);
    assert_eq!(step, Step::Perform(EngineAction::StagePaths { pathspec: "src/a.rs".to_string() }));
    let (_, step) = script.step(EngineEvent::Done);
    assert_eq!(step, Step::Finish(()));
}

#[test]
fn staging_everything_uses_the_pattern_for_all_files() {
    let (script, step) = stage_all_files().step(EngineEvent::Begin);
    assert_eq!(step, Step::Perform(EngineAction::StagePaths { pathspec: ".".to_string() }));
    let (_, step) = script.step(EngineEvent::Failed("index locked".to_string()));
    assert_eq!(step, Step::Abort(Error::Engine("index locked".to_string())));
}

#[test]
fn unstaging_resets_to_the_commit_of_head() {
    let machine = unstage_file("a.txt".to_string());
    assert_eq!(machine.stage(), UnstageStage::Start);
    let (machine, step) = machine.step(EngineEvent::Begin);
    assert_eq!(step, Step::Perform(EngineAction::ReadHeadCommit));
    let (machine, step) = machine.step(EngineEvent::HeadCommit("abc".to_string()));
    assert_eq!(
        step,
        Step::Perform(EngineAction::ResetIndex {
            commit: Some("abc".to_string()),
            pathspec: "a.txt".to_string()
        })
    );
    let (machine, step) = machine.step(EngineEvent::Done);
    assert_eq!(step, Step::Finish(()));
    assert_eq!(machine.stage(), UnstageStage::Finished);
}

#[test]
fn unstaging_without_a_commit_empties_the_index() {
    for failure in [HeadFailure::UnbornBranch, HeadFailure::NotFound] {
        let (machine, _) = unstage_all_files().step(EngineEvent::Begin);
        let (_, step) = machine
            .step(EngineEvent::HeadUnavailable { failure, message: "no commit".to_string() });
        assert_eq!(
            step,
            Step::Perform(EngineAction::ResetIndex { commit: None, pathspec: "*".to_string() })
        );
    }
}

#[test]
fn unstaging_fails_where_head_is_broken() {
    let (machine, _) = unstage_all_files().step(EngineEvent::Begin);
    let (_, step) = machine.step(EngineEvent::HeadUnavailable {
        failure: HeadFailure::Other,
        message: "corrupt".to_string(),
    });
    assert_eq!(step, Step::Abort(Error::Engine("corrupt".to_string())));
    let (machine, _) = unstage_all_files().step(EngineEvent::Begin);
    let (_, step) = machine.step(EngineEvent::Failed("cannot peel".to_string()));
    assert_eq!(step, Step::Abort(Error::Engine("cannot peel".to_string())));
    let (machine, _) = unstage_all_files().step(EngineEvent::Begin);
    let (machine, _) = machine.step(EngineEvent::HeadCommit("abc".to_string()));
    let (_, step) = machine.step(EngineEvent::Failed("index locked".to_string()));
    assert_eq!(step, Step::Abort(Error::Engine("index locked".to_string())));
}
