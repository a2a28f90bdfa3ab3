use workspace_core::classify::Relationship;
use workspace_core::engine::{EngineAction, EngineEvent, Step};
use workspace_core::error::Error;
use workspace_core::merge_analysis::{
    analysis_result, merge_analysis, MergeAnalysisResult, MergeAnalysisStage,
};

fn analyse(events: Vec<EngineEvent>) -> Vec<Step<MergeAnalysisResult>> {
    let mut machine = merge_analysis("topic".to_string(), "main".to_string());
    let mut said = Vec::new();
    for event in events {
        let (next, step) = machine.step(event);
        machine = next;
        said.push(step);
    }
    said
}

fn verdict(name: &str) -> Step<MergeAnalysisResult> {
    Step::Finish(MergeAnalysisResult {
        analysis: name.to_string(),
        source_branch: "topic".to_string(),
        target_branch: "main".to_string(),
    })
}

fn analysed_tip(id: &str) -> EngineEvent {
    EngineEvent::Tip(Some(id.to_string()))
}

#[test]
fn analysis_result_carries_the_names() {
    let got = analysis_result("topic".to_string(), "main".to_string(), Relationship::FastForward);
    assert_eq!(
        got,
        MergeAnalysisResult {
            analysis: "fast_forward".to_string(),
            source_branch: "topic".to_string(),
            target_branch: "main".to_string(),
        }
    );
}

#[test]
fn analysis_of_equal_tips_does_not_ask_for_the_base() {
    let said = analyse(vec![EngineEvent::Begin, analysed_tip("aaa"), analysed_tip("aaa")]);
    assert_eq!(
        said,
        vec![
            Step::Perform(EngineAction::ReadTip { ref_name: "refs/heads/topic".to_string() }),
            Step::Perform(EngineAction::ReadTip { ref_name: "refs/heads/main".to_string() }),
            verdict("up_to_date"),
        ]
    );
}

#[test]
fn analysis_of_a_source_that_is_ahead() {
    let said = analyse(vec![
        EngineEvent::Begin,
        analysed_tip("bbb"),
        analysed_tip("aaa"),
        EngineEvent::MergeBase("aaa".to_string()),
    ]);
    assert_eq!(
        said[2],
        Step::Perform(EngineAction::ReadMergeBase { one: "bbb".to_string(), two: "aaa".to_string() })
    );
    assert_eq!(said[3], verdict("fast_forward"));
}

#[test]
fn analysis_of_a_target_that_is_ahead() {
    let said = analyse(vec![
        EngineEvent::Begin,
        analysed_tip("aaa"),
        analysed_tip("bbb"),
        EngineEvent::MergeBase("aaa".to_string()),
    ]);
    assert_eq!(said[3], verdict("up_to_date"));
}

#[test]
fn analysis_of_diverged_branches() {
    let said = analyse(vec![
        EngineEvent::Begin,
        analysed_tip("bbb"),
        analysed_tip("ccc"),
        EngineEvent::MergeBase("aaa".to_string()),
    ]);
    assert_eq!(said[3], verdict("normal_merge"));
}

#[test]
fn analysis_needs_both_branches_and_passes_failures_on() {
    let said = analyse(vec![EngineEvent::Begin, EngineEvent::Tip(None)]);
    assert_eq!(said[1], Step::Abort(Error::BranchNotFound { branch: "topic".to_string() }));
    let said = analyse(vec![EngineEvent::Begin, analysed_tip("a"), EngineEvent::Tip(None)]);
    assert_eq!(said[2], Step::Abort(Error::BranchNotFound { branch: "main".to_string() }));
    let said = analyse(vec![
        EngineEvent::Begin,
        analysed_tip("a"),
        analysed_tip("b"),
        EngineEvent::Failed("no merge base found".to_string()),
    ]);
    assert_eq!(said[3], Step::Abort(Error::Engine("no merge base found".to_string())));
    let said = analyse(vec![EngineEvent::Begin, EngineEvent::Failed("bad ref".to_string())]);
    assert_eq!(said[1], Step::Abort(Error::Engine("bad ref".to_string())));
}

#[test]
fn analysis_twice_gives_one_answer() {
    let events = || {
        vec![
            EngineEvent::Begin,
            analysed_tip("bbb"),
            analysed_tip("ccc"),
            EngineEvent::MergeBase("aaa".to_string()),
        ]
    };
    assert_eq!(analyse(events()), analyse(events()));
}

#[test]
fn analysis_stages_follow_the_answers() {
    let machine = merge_analysis("topic".to_string(), "main".to_string());
    assert_eq!(machine.stage(), MergeAnalysisStage::Start);
    let (machine, _) = machine.step(EngineEvent::Begin);
    assert_eq!(machine.stage(), MergeAnalysisStage::SourceTip);
    let (machine, _) = machine.step(analysed_tip("a"));
    assert_eq!(machine.stage(), MergeAnalysisStage::TargetTip);
    let (machine, _) = machine.step(analysed_tip("b"));
    assert_eq!(machine.stage(), MergeAnalysisStage::MergeBase);
    let (machine, _) = machine.step(EngineEvent::MergeBase("a".to_string()));
    assert_eq!(machine.stage(), MergeAnalysisStage::Finished);
    let (_, step) = machine.step(EngineEvent::Begin);
    assert!(matches!(step, Step::Abort(Error::Engine(_))));
}
