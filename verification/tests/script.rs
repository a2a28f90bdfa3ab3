use workspace_core::engine::{EngineAction, EngineEvent, Step};
use workspace_core::error::Error;
use workspace_core::script::{Script, ScriptStage};

fn three() -> Vec<EngineAction> {
    vec![
        EngineAction::ReadHead,
        EngineAction::CleanupState,
        EngineAction::SetHead { ref_name: "refs/heads/main".to_string() },
    ]
}

#[test]
fn a_script_performs_its_actions_in_order() {
    let mut script = Script::new(three());
    assert_eq!(script.stage(), ScriptStage::Start);
    let mut said = Vec::new();
    for event in [EngineEvent::Begin, EngineEvent::Done, EngineEvent::Done, EngineEvent::Done] {
        let (next, step) = script.step(event);
        script = next;
        said.push(step);
    }
    let mut expected: Vec<Step<()>> = three().into_iter().map(Step::Perform).collect();
    expected.push(Step::Finish(()));
    assert_eq!(said, expected);
    assert_eq!(script.stage(), ScriptStage::Finished);
}

#[test]
fn an_empty_script_ends_at_once() {
    let (script, step) = Script::new(Vec::new()).step(EngineEvent::Begin);
    assert_eq!(step, Step::Finish(()));
    assert_eq!(script.stage(), ScriptStage::Finished);
}

#[test]
fn a_script_stops_at_the_first_failure() {
    let (script, _) = Script::new(three()).step(EngineEvent::Begin);
    assert_eq!(script.stage(), ScriptStage::Running);
    let (script, _) = script.step(EngineEvent::Done);
    let (script, step) = script.step(EngineEvent::Failed("locked".to_string()));
    assert_eq!(step, Step::Abort(Error::Engine("locked".to_string())));
    assert_eq!(script.stage(), ScriptStage::Finished);
    let (_, step) = script.step(EngineEvent::Done);
    assert_eq!(
        step,
        Step::Abort(Error::Engine("Unexpected answer from the repository engine".to_string()))
    );
}

#[test]
fn a_script_rejects_answers_out_of_turn() {
    let (_, step) = Script::new(three()).step(EngineEvent::Done);
    assert!(matches!(step, Step::Abort(Error::Engine(_))));
    let (script, _) = Script::new(three()).step(EngineEvent::Begin);
    let (_, step) = script.step(EngineEvent::Conflicts(false));
    assert!(matches!(step, Step::Abort(Error::Engine(_))));
}
