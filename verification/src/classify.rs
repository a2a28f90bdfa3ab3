//! How two branches relate, told from their tips and the merge base of the
//! two.
use vstd::prelude::*;
use vstd::string::*;
use crate::text::same_text;

verus! {

/// The relationship of a source branch to the target branch that it is to be
/// merged into.
#[derive(Clone, Copy, Debug, PartialEq, Eq, Structural)]
pub enum Relationship {
    /// The target already holds everything of the source.
    UpToDate,
    /// The source is strictly ahead of the target: the target can be moved
    /// forward to it.
    FastForward,
    /// The two have diverged: a merge commit is needed.
    NormalMerge,
}

/// The relationship of a source to a target, from the commits at their tips
/// and the merge base of the two.
///
/// Equal tips are up to date. A merge base at the target's tip means that the
/// source is ahead. A merge base at the source's tip means that the target is
/// ahead, which counts as up to date: merging backwards is not offered.
/// Anything else has diverged.
pub open spec fn relationship_of(
    source_tip: Seq<char>,
    target_tip: Seq<char>,
    merge_base: Seq<char>,
) -> Relationship {
    if source_tip == target_tip {
        Relationship::UpToDate
    } else if merge_base == target_tip {
        Relationship::FastForward
    } else if merge_base == source_tip {
        Relationship::UpToDate
    } else {
        Relationship::NormalMerge
    }
}

/// The name under which a relationship is reported.
pub open spec fn analysis_name(relationship: Relationship) -> Seq<char> {
    match relationship {
        Relationship::UpToDate => "up_to_date"@,
        Relationship::FastForward => "fast_forward"@,
        Relationship::NormalMerge => "normal_merge"@,
    }
}

/// Classifies a source against a target from the commits at their tips and
/// the merge base of the two. The verdict holds for these three commits
/// only, and is stale as soon as either branch moves.
pub fn classify(source_tip: &str, target_tip: &str, merge_base: &str) -> (r: Relationship)
    ensures
        r == relationship_of(source_tip@, target_tip@, merge_base@),
{
    if same_text(source_tip, target_tip) {
        Relationship::UpToDate
    } else if same_text(merge_base, target_tip) {
        Relationship::FastForward
    } else if same_text(merge_base, source_tip) {
        Relationship::UpToDate
    } else {
        Relationship::NormalMerge
    }
}

impl Relationship {
    /// The name under which the relationship is reported.
    pub fn name(&self) -> (r: String)
        ensures
            r@ == analysis_name(*self),
    {
        match self {
            Relationship::UpToDate => String::from_str("up_to_date"),
            Relationship::FastForward => String::from_str("fast_forward"),
            Relationship::NormalMerge => String::from_str("normal_merge"),
        }
    }
}

/// The verdict on two branches is decided by which of the three commits are
/// the same, and by nothing else: the four cases, in the order in which they
/// are tried.
pub proof fn law_relationship_cases(
    source_tip: Seq<char>,
    target_tip: Seq<char>,
    merge_base: Seq<char>,
)
    ensures
        source_tip == target_tip ==> relationship_of(source_tip, target_tip, merge_base)
            == Relationship::UpToDate,
        source_tip != target_tip && merge_base == target_tip ==> relationship_of(
            source_tip,
            target_tip,
            merge_base,
        ) == Relationship::FastForward,
        source_tip != target_tip && merge_base != target_tip && merge_base == source_tip
            ==> relationship_of(source_tip, target_tip, merge_base) == Relationship::UpToDate,
        source_tip != target_tip && merge_base != target_tip && merge_base != source_tip
            ==> relationship_of(source_tip, target_tip, merge_base) == Relationship::NormalMerge,
{
}

/// The relationship depends on nothing but which of the three commits are
/// equal. So two readings of a repository that agree on that are classified
/// alike, and classifying twice while no branch moves gives one answer.
pub proof fn law_relationship_is_stable(
    source_tip: Seq<char>,
    target_tip: Seq<char>,
    merge_base: Seq<char>,
    source_again: Seq<char>,
    target_again: Seq<char>,
    base_again: Seq<char>,
)
    requires
        (source_tip == target_tip) == (source_again == target_again),
        (merge_base == target_tip) == (base_again == target_again),
        (merge_base == source_tip) == (base_again == source_again),
    ensures
        relationship_of(source_tip, target_tip, merge_base) == relationship_of(
            source_again,
            target_again,
            base_again,
        ),
{
}

/// Swapping source and target turns a fast-forward into up to date, and
/// leaves diverged branches diverged.
pub proof fn law_relationship_swapped(
    source_tip: Seq<char>,
    target_tip: Seq<char>,
    merge_base: Seq<char>,
)
    ensures
        relationship_of(source_tip, target_tip, merge_base) == Relationship::FastForward
            ==> relationship_of(target_tip, source_tip, merge_base) == Relationship::UpToDate,
        relationship_of(source_tip, target_tip, merge_base) == Relationship::NormalMerge
            <==> relationship_of(target_tip, source_tip, merge_base) == Relationship::NormalMerge,
{
}

} // verus!
