use workspace_core::error::Error;
use workspace_core::resolver::{open_repo, OpenEvent, OpenStage, OpenStep};
use workspace_core::store::StoredValue;

fn remembered(path: &str) -> Option<StoredValue> {
    Some(StoredValue::Text(path.to_string()))
}

fn resolve(
    explicit: Option<&str>,
    stored: Option<StoredValue>,
    opens: &[&str],
) -> (Vec<String>, Result<String, Error>) {
    let mut resolver = open_repo(explicit.map(|p| p.to_string()), &stored);
    let mut attempts = Vec::new();
    let mut event = OpenEvent::Begin;
    loop {
        let (next, step) = resolver.step(event);
        resolver = next;
        match step {
            OpenStep::Attempt(path) => {
                event = if opens.contains(&path.as_str()) {
                    OpenEvent::Opened
                } else {
                    OpenEvent::Refused
                };
                attempts.push(path);
            }
            OpenStep::Use(path) => return (attempts, Ok(path)),
            OpenStep::Reject(error) => return (attempts, Err(error)),
        }
    }
}

#[test]
fn explicit_path_that_opens_is_used() {
    let (attempts, found) = resolve(Some("/a"), remembered("/b"), &["/a", "/b"]);
    assert_eq!(attempts, vec!["/a"]);
    assert_eq!(found, Ok("/a".to_string()));
}

#[test]
fn explicit_path_is_trimmed() {
    let (attempts, found) = resolve(Some("  /a \n"), None, &["/a"]);
    assert_eq!(attempts, vec!["/a"]);
    assert_eq!(found, Ok("/a".to_string()));
}

#[test]
fn failed_explicit_path_falls_back_to_the_remembered_one() {
    let (attempts, found) = resolve(Some("/a"), remembered(" /b "), &["/b"]);
    assert_eq!(attempts, vec!["/a", "/b"]);
    assert_eq!(found, Ok("/b".to_string()));
}

#[test]
fn failed_explicit_path_does_not_fall_back_to_itself() {
    let (attempts, found) = resolve(Some("/a"), remembered("/a"), &[]);
    assert_eq!(attempts, vec!["/a"]);
    assert_eq!(found, Err(Error::RepositoryOpenFailed { path: "/a".to_string(), fallback: None }));
    let (attempts, found) = resolve(Some(" /a"), remembered("/a  "), &[]);
    assert_eq!(attempts, vec!["/a"]);
    assert_eq!(found, Err(Error::RepositoryOpenFailed { path: "/a".to_string(), fallback: None }));
}

#[test]
fn failed_explicit_path_without_a_remembered_one_fails() {
    for stored in [None, remembered(""), remembered("   "), Some(StoredValue::Other)] {
        let (attempts, found) = resolve(Some("/a"), stored, &[]);
        assert_eq!(attempts, vec!["/a"]);
        assert_eq!(
            found,
            Err(Error::RepositoryOpenFailed { path: "/a".to_string(), fallback: None })
        );
    }
}

#[test]
fn both_paths_failing_names_both() {
    let (attempts, found) = resolve(Some("/a"), remembered("/b"), &[]);
    assert_eq!(attempts, vec!["/a", "/b"]);
    let error = found.unwrap_err();
    assert_eq!(
        error,
        Error::RepositoryOpenFailed { path: "/a".to_string(), fallback: Some("/b".to_string()) }
    );
    assert_eq!(error.message(), "Failed to open repository at /a or /b");
}

#[test]
fn without_an_explicit_path_the_remembered_one_is_used() {
    for explicit in [None, Some(""), Some("   ")] {
        let (attempts, found) = resolve(explicit, remembered("/b"), &["/b"]);
        assert_eq!(attempts, vec!["/b"]);
        assert_eq!(found, Ok("/b".to_string()));
    }
}

#[test]
fn remembered_path_that_fails_is_the_failure() {
    let (attempts, found) = resolve(None, remembered("/b"), &[]);
    assert_eq!(attempts, vec!["/b"]);
    let error = found.unwrap_err();
    assert_eq!(error, Error::RepositoryOpenFailed { path: "/b".to_string(), fallback: None });
    assert_eq!(error.message(), "Failed to open repository at /b");
}

#[test]
fn without_any_path_nothing_is_tried() {
    for stored in [None, remembered(""), remembered(" "), Some(StoredValue::List(vec![]))] {
        let (attempts, found) = resolve(None, stored, &["/a"]);
        assert!(attempts.is_empty());
        assert_eq!(found, Err(Error::NoRepositoryAvailable));
    }
}

#[test]
fn resolver_rejects_answers_out_of_turn() {
    let resolver = open_repo(Some("/a".to_string()), &None);
    assert_eq!(resolver.stage(), OpenStage::Start);
    let (resolver, step) = resolver.step(OpenEvent::Opened);
    assert!(matches!(step, OpenStep::Reject(Error::Engine(_))));
    assert_eq!(resolver.stage(), OpenStage::Finished);
    let (_, step) = resolver.step(OpenEvent::Begin);
    assert!(matches!(step, OpenStep::Reject(Error::Engine(_))));
}

#[test]
fn resolver_stages_follow_the_answers() {
    let resolver = open_repo(Some("/a".to_string()), &remembered("/b"));
    let (resolver, _) = resolver.step(OpenEvent::Begin);
    assert_eq!(resolver.stage(), OpenStage::Explicit);
    let (resolver, _) = resolver.step(OpenEvent::Refused);
    assert_eq!(resolver.stage(), OpenStage::Fallback);
    let (resolver, step) = resolver.step(OpenEvent::Opened);
    assert_eq!(step, OpenStep::Use("/b".to_string()));
    assert_eq!(resolver.stage(), OpenStage::Finished);
    let resolver = open_repo(None, &remembered("/b"));
    let (resolver, _) = resolver.step(OpenEvent::Begin);
    assert_eq!(resolver.stage(), OpenStage::Persisted);
}
