use workspace_core::classify::{classify, Relationship};

#[test]
fn equal_tips_are_up_to_date() {
    assert_eq!(classify("a1", "a1", "a1"), Relationship::UpToDate);
    assert_eq!(classify("a1", "a1", "zz"), Relationship::UpToDate);
}

#[test]
fn base_at_the_target_is_a_fast_forward() {
    assert_eq!(classify("b2", "a1", "a1"), Relationship::FastForward);
}

#[test]
fn base_at_the_source_is_up_to_date() {
    assert_eq!(classify("a1", "b2", "a1"), Relationship::UpToDate);
}

#[test]
fn another_base_is_a_normal_merge() {
    assert_eq!(classify("b2", "c3", "a1"), Relationship::NormalMerge);
}

#[test]
fn classifying_twice_gives_one_answer() {
    for (s, t, b) in [("b2", "a1", "a1"), ("a1", "b2", "a1"), ("b2", "c3", "a1"), ("x", "x", "x")] {
        assert_eq!(classify(s, t, b), classify(s, t, b));
    }
}

#[test]
fn relationships_have_their_names() {
    assert_eq!(Relationship::UpToDate.name(), "up_to_date");
    assert_eq!(Relationship::FastForward.name(), "fast_forward");
    assert_eq!(Relationship::NormalMerge.name(), "normal_merge");
}
