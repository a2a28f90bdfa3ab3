//! The list of branches, as it is shown.
use crate::engine::{branch_ref, branch_ref_name, EngineAction, EngineActionView};
use crate::script::{Script, ScriptView};
use crate::text::{ends_with, has_suffix};
use vstd::prelude::*;
use vstd::string::*;

verus! {

/// Where a branch lives.
#[derive(Clone, Copy, Debug, PartialEq, Eq, Structural)]
pub enum BranchKind {
    /// In this repository.
    Local,
    /// On a remote, as this repository last saw it.
    Remote,
}

/// What the engine tells of one branch.
#[derive(Clone, Debug, PartialEq, Eq)]
pub struct BranchRecord {
    /// The name, or nothing where it is not valid text.
    pub name: Option<String>,
    /// Where the branch lives.
    pub kind: BranchKind,
    /// Whether HEAD points to the branch.
    pub is_head: bool,
}

/// The mathematical value of a [`BranchRecord`].
pub struct BranchRecordView {
    pub name: Option<Seq<char>>,
    pub kind: BranchKind,
    pub is_head: bool,
}

impl DeepView for BranchRecord {
    type V = BranchRecordView;

    open spec fn deep_view(&self) -> BranchRecordView {
        BranchRecordView { name: self.name.deep_view(), kind: self.kind, is_head: self.is_head }
    }
}

/// One branch, as it is shown.
#[derive(Clone, Debug, PartialEq, Eq)]
pub struct BranchInfo {
    /// The name of the branch.
    pub name: String,
    /// `Local` or `Remote`.
    pub type_of: String,
    /// Whether the branch is checked out. Never so for a remote branch.
    pub is_head: bool,
}

/// The mathematical value of a [`BranchInfo`].
pub struct BranchInfoView {
    pub name: Seq<char>,
    pub type_of: Seq<char>,
    pub is_head: bool,
}

impl DeepView for BranchInfo {
    type V = BranchInfoView;

    open spec fn deep_view(&self) -> BranchInfoView {
        BranchInfoView { name: self.name@, type_of: self.type_of@, is_head: self.is_head }
    }
}

/// The name under which a kind of branch is shown.
pub open spec fn kind_name(kind: BranchKind) -> Seq<char> {
    match kind {
        BranchKind::Local => "Local"@,
        BranchKind::Remote => "Remote"@,
    }
}

/// How a branch is shown, or nothing where it is left out: a branch without
/// a name, and the `HEAD` of a remote, which only points to another branch.
pub open spec fn shown(record: BranchRecordView) -> Option<BranchInfoView> {
    match record.name {
        Some(name) => {
            if has_suffix(name, "/HEAD"@) {
                None
            } else {
                Some(
                    BranchInfoView {
                        name,
                        type_of: kind_name(record.kind),
                        is_head: record.kind == BranchKind::Local && record.is_head,
                    },
                )
            }
        },
        None => None,
    }
}

/// The branches that are shown of `records`, in the same order.
pub open spec fn shown_among(records: Seq<BranchRecordView>) -> Seq<BranchInfoView>
    decreases records.len(),
{
    if records.len() == 0 {
        Seq::empty()
    } else {
        match shown(records.last()) {
            Some(info) => shown_among(records.drop_last()).push(info),
            None => shown_among(records.drop_last()),
        }
    }
}

/// The names among `names` that are there, in the same order.
pub open spec fn names_among(names: Seq<Option<Seq<char>>>) -> Seq<Seq<char>>
    decreases names.len(),
{
    if names.len() == 0 {
        Seq::empty()
    } else {
        match names.last() {
            Some(name) => names_among(names.drop_last()).push(name),
            None => names_among(names.drop_last()),
        }
    }
}

/// How one branch is shown, if it is.
pub fn branch_info(record: &BranchRecord) -> (r: Option<BranchInfo>)
    ensures
        r.deep_view() == shown(record.deep_view()),
{
    match &record.name {
        Some(name) => {
            if ends_with(name.as_str(), "/HEAD") {
                None
            } else {
                let (type_of, is_head) = match record.kind {
                    BranchKind::Local => (String::from_str("Local"), record.is_head),
                    BranchKind::Remote => (String::from_str("Remote"), false),
                };
                Some(BranchInfo { name: name.clone(), type_of, is_head })
            }
        },
        None => None,
    }
}

/// The branches to show, from what the engine tells of each branch of the
/// repository.
pub fn list_branches(records: &Vec<BranchRecord>) -> (r: Vec<BranchInfo>)
    ensures
        r.deep_view() == shown_among(records.deep_view()),
{
    let mut all_branches: Vec<BranchInfo> = Vec::new();
    let mut i: usize = 0;
    while i < records.len()
        invariant
            i <= records.len(),
            all_branches.deep_view() == shown_among(records.deep_view().take(i as int)),
        decreases records.len() - i,
    {
        assert(records.deep_view().take(i as int + 1).drop_last() =~= records.deep_view().take(
            i as int,
        ));
        if let Some(info) = branch_info(&records[i]) {
            all_branches.push(info);
        }
        i = i + 1;
    }
    assert(records.deep_view().take(i as int) =~= records.deep_view());
    all_branches
}

/// The names of the remote branches, from the name that the engine gives for
/// each: those that are valid text.
pub fn list_remote_branches(names: &Vec<Option<String>>) -> (r: Vec<String>)
    ensures
        r.deep_view() == names_among(names.deep_view()),
{
    let mut branch_names: Vec<String> = Vec::new();
    let mut i: usize = 0;
    while i < names.len()
        invariant
            i <= names.len(),
            branch_names.deep_view() == names_among(names.deep_view().take(i as int)),
        decreases names.len() - i,
    {
        assert(names.deep_view().take(i as int + 1).drop_last() =~= names.deep_view().take(
            i as int,
        ));
        if let Some(name) = &names[i] {
            branch_names.push(name.clone());
        }
        i = i + 1;
    }
    assert(names.deep_view().take(i as int) =~= names.deep_view());
    branch_names
}

/// What the creation of a branch asks of the engine.
pub open spec fn create_branch_actions(branch: Seq<char>) -> Seq<EngineActionView> {
    seq![EngineActionView::CreateBranch { name: branch }]
}

/// Starts the creation of the branch `branch_name` at the commit of HEAD.
/// Nothing is asked of the engine yet.
pub fn create_branch(branch_name: String) -> (r: Script)
    ensures
        r@ == ScriptView::start(create_branch_actions(branch_name@)),
{
    let actions = vec![EngineAction::CreateBranch { name: branch_name }];
    assert(actions.deep_view() =~= create_branch_actions(branch_name@));
    Script::new(actions)
}

/// What the checkout of a branch asks of the engine: to make index and
/// working tree match the branch, and then to point HEAD to it.
pub open spec fn checkout_branch_actions(branch: Seq<char>) -> Seq<EngineActionView> {
    seq![
        EngineActionView::CheckoutTree { revision: branch_ref(branch) },
        EngineActionView::SetHead { ref_name: branch_ref(branch) },
    ]
}

/// Starts the checkout of the branch `branch_name`. Nothing is asked of the
/// engine yet.
pub fn checkout_branch(branch_name: String) -> (r: Script)
    ensures
        r@ == ScriptView::start(checkout_branch_actions(branch_name@)),
{
    let actions = vec![
        EngineAction::CheckoutTree { revision: branch_ref_name(branch_name.as_str()) },
        EngineAction::SetHead { ref_name: branch_ref_name(branch_name.as_str()) },
    ];
    assert(actions.deep_view() =~= checkout_branch_actions(branch_name@));
    Script::new(actions)
}

} // verus!
