use workspace_core::error::Error;

#[test]
fn messages_of_failures_without_arguments() {
    assert_eq!(Error::NoRepositoryAvailable.message(), "No repository path available");
    assert_eq!(
        Error::NormalMergeNotRequired.message(),
        "Normal merge is not required for this branch pair"
    );
    assert_eq!(Error::MergeConflict.message(), "Merge resulted in conflicts. Resolve manually.");
    assert_eq!(Error::DetachedHeadPush.message(), "Cannot push while HEAD is detached");
    assert_eq!(Error::BranchNameUnavailable.message(), "Unable to resolve current branch name");
    assert_eq!(
        Error::WorkingDirectoryUnavailable.message(),
        "Repository working directory unavailable"
    );
}

#[test]
fn message_of_a_failed_open() {
    let one = Error::RepositoryOpenFailed { path: "/a".to_string(), fallback: None };
    assert_eq!(one.message(), "Failed to open repository at /a");
    let two =
        Error::RepositoryOpenFailed { path: "/a".to_string(), fallback: Some("/b".to_string()) };
    assert_eq!(two.message(), "Failed to open repository at /a or /b");
}

#[test]
fn messages_that_name_branches() {
    let missing = Error::BranchNotFound { branch: "topic".to_string() };
    assert_eq!(missing.message(), "Unable to resolve branch tip for topic");
    let refused =
        Error::FastForwardNotPossible { source: "topic".to_string(), target: "main".to_string() };
    assert_eq!(refused.message(), "Fast-forward is not possible from topic into main");
}

#[test]
fn messages_that_pass_a_text_on() {
    assert_eq!(Error::StoreError("disk full".to_string()).message(), "disk full");
    assert_eq!(Error::Engine("reference not found".to_string()).message(), "reference not found");
    assert_eq!(Error::Engine(String::new()).message(), "");
}
