//! The workspace registry: the repositories that are known, in the order in
//! which they were added, and the one among them that is active.
//!
//! The registry lives in the settings store. Each operation here takes what
//! the store holds and gives the state to write back; reading and writing
//! the store is the caller's part. Nothing guards against two writers: the
//! one that writes last wins.
use crate::error::{Error, ErrorView};
use crate::store::{
    active_in, get_active_path, get_repo_paths, items_of, paths_among, stored_view, StoredValue,
    StoredValueView,
};
use crate::text::{
    contains_text, is_clean, lemma_clean_is_kept, lemma_trimmed_is_clean, normalize, normalized,
    same_text,
};
use vstd::prelude::*;
use vstd::string::*;

verus! {

/// The known repositories and the active one.
#[derive(Clone, Debug, PartialEq, Eq)]
pub struct RepoState {
    /// The paths of the known repositories, in the order in which they were
    /// added.
    pub repos: Vec<String>,
    /// The path of the active repository, if any.
    pub active_repo: Option<String>,
}

/// The mathematical value of a [`RepoState`].
pub struct RepoStateView {
    pub repos: Seq<Seq<char>>,
    pub active_repo: Option<Seq<char>>,
}

impl View for RepoState {
    type V = RepoStateView;

    open spec fn view(&self) -> RepoStateView {
        RepoStateView { repos: self.repos.deep_view(), active_repo: self.active_repo.deep_view() }
    }
}

impl RepoStateView {
    /// The invariant of the registry: the active repository, if there is
    /// one, is among the known ones.
    pub open spec fn active_is_known(self) -> bool {
        self.active_repo matches Some(path) ==> self.repos.contains(path)
    }

    /// Whether every path of the state is clean: not empty, and without
    /// white space around it.
    pub open spec fn is_clean(self) -> bool {
        &&& forall|i: int| 0 <= i < self.repos.len() ==> is_clean(#[trigger] self.repos[i])
        &&& self.active_repo matches Some(path) ==> is_clean(path)
    }

    /// What is written to the store for the list of repositories.
    pub open spec fn stored_repos(self) -> StoredValueView {
        StoredValueView::List(self.repos.map_values(|path: Seq<char>| Some(path)))
    }

    /// What is written to the store for the path that was opened last: the
    /// active path, or an empty text where there is none.
    pub open spec fn stored_last_opened(self) -> StoredValueView {
        StoredValueView::Text(
            match self.active_repo {
                Some(path) => path,
                None => Seq::empty(),
            },
        )
    }
}

/// The list with `path` at its end, unless the list holds it already.
pub open spec fn with_path(repos: Seq<Seq<char>>, path: Seq<char>) -> Seq<Seq<char>> {
    if repos.contains(path) {
        repos
    } else {
        repos.push(path)
    }
}

/// The list without `path`, in the same order.
pub open spec fn without_path(repos: Seq<Seq<char>>, path: Seq<char>) -> Seq<Seq<char>>
    decreases repos.len(),
{
    if repos.len() == 0 {
        Seq::empty()
    } else if repos.last() == path {
        without_path(repos.drop_last(), path)
    } else {
        without_path(repos.drop_last(), path).push(repos.last())
    }
}

/// The last entry of a list, if it has one.
pub open spec fn last_of(repos: Seq<Seq<char>>) -> Option<Seq<char>> {
    if repos.len() == 0 {
        None
    } else {
        Some(repos.last())
    }
}

/// The active repository after `removed` has left the list and `remaining`
/// is what is left. Where the active one was removed, the last that remains
/// takes its place. Another active one stays if it is still known. Otherwise
/// the last that remains becomes active. An empty list leaves none.
pub open spec fn active_after_removal(
    remaining: Seq<Seq<char>>,
    current: Option<Seq<char>>,
    removed: Seq<char>,
) -> Option<Seq<char>> {
    match current {
        Some(active) => {
            if active == removed {
                last_of(remaining)
            } else if remaining.contains(active) {
                Some(active)
            } else {
                last_of(remaining)
            }
        },
        None => last_of(remaining),
    }
}

/// The state that the store holds: the paths of its list, with the active
/// path added at the end where the list does not hold it.
pub open spec fn state_in_store(
    repos_value: Option<StoredValueView>,
    last_opened: Option<StoredValueView>,
) -> RepoStateView {
    let paths = paths_among(items_of(repos_value));
    let active = active_in(last_opened);
    RepoStateView {
        repos: match active {
            Some(path) => with_path(paths, path),
            None => paths,
        },
        active_repo: active,
    }
}

/// The state after `path` was made active on top of the stored list.
pub open spec fn state_with_active(
    repos_value: Option<StoredValueView>,
    path: Seq<char>,
) -> RepoStateView {
    RepoStateView {
        repos: with_path(paths_among(items_of(repos_value)), path),
        active_repo: Some(path),
    }
}

/// The state after `path` was removed from what the store holds.
pub open spec fn state_without(
    repos_value: Option<StoredValueView>,
    last_opened: Option<StoredValueView>,
    path: Seq<char>,
) -> RepoStateView {
    let remaining = without_path(paths_among(items_of(repos_value)), path);
    RepoStateView {
        repos: remaining,
        active_repo: active_after_removal(remaining, active_in(last_opened), path),
    }
}

/// The failure of making a path active that is empty or all white space.
pub open spec fn path_required_to_activate() -> ErrorView {
    ErrorView::StoreError("Repository path is required to set active repo"@)
}

/// The failure of removing a path that is empty or all white space.
pub open spec fn path_required_to_remove() -> ErrorView {
    ErrorView::StoreError("Repository path is required to remove repo"@)
}

/// The path of a repository as the registry keeps it: trimmed, and nothing
/// where that leaves nothing.
pub fn normalize_repo_path(path: String) -> (r: Option<String>)
    ensures
        r.deep_view() == normalized(path@),
{
    normalize(path.as_str())
}

/// The state of the registry that the store holds, from the stored list of
/// repositories and the stored path that was opened last.
pub fn get_repo_state_from_store(
    repos_value: &Option<StoredValue>,
    last_opened: &Option<StoredValue>,
) -> (r: RepoState)
    ensures
        r@ == state_in_store(stored_view(*repos_value), stored_view(*last_opened)),
        r@.active_is_known(),
{
    let mut repos = get_repo_paths(repos_value);
    let active_repo = get_active_path(last_opened);
    let ghost paths = repos.deep_view();
    if let Some(active) = &active_repo {
        if !contains_text(&repos, active.as_str()) {
            repos.push(active.clone());
            assert(repos.deep_view() =~= paths.push(active@));
            assert(repos.deep_view().last() == active@);
        }
    }
    RepoState { repos, active_repo }
}

/// The state of the registry that the store holds.
pub fn get_repo_state(repos_value: &Option<StoredValue>, last_opened: &Option<StoredValue>) -> (r:
    RepoState)
    ensures
        r@ == state_in_store(stored_view(*repos_value), stored_view(*last_opened)),
        r@.active_is_known(),
{
    get_repo_state_from_store(repos_value, last_opened)
}

/// What the store is to hold as the path that was opened last: the active
/// path of the state, or an empty text.
pub fn last_opened_text(state: &RepoState) -> (r: String)
    ensures
        StoredValueView::Text(r@) == state@.stored_last_opened(),
{
    match &state.active_repo {
        Some(path) => path.clone(),
        None => String::new(),
    }
}

/// Makes `repo_path` the active repository, adding it to the stored list at
/// the end where the list does not hold it. Returns the state to write back,
/// or `StoreError` where nothing is left of the path after trimming.
pub fn set_active_repo(repos_value: &Option<StoredValue>, repo_path: String) -> (r: Result<
    RepoState,
    Error,
>)
    ensures
        match normalized(repo_path@) {
            Some(path) => r is Ok && r->Ok_0@ == state_with_active(
                stored_view(*repos_value),
                path,
            ) && r->Ok_0@.active_is_known(),
            None => r is Err && r->Err_0@ == path_required_to_activate(),
        },
{
    let target = match normalize_repo_path(repo_path) {
        Some(path) => path,
        None => {
            return Err(
                Error::StoreError(
                    String::from_str("Repository path is required to set active repo"),
                ),
            );
        },
    };
    let mut repos = get_repo_paths(repos_value);
    let ghost paths = repos.deep_view();
    if !contains_text(&repos, target.as_str()) {
        repos.push(target.clone());
        assert(repos.deep_view() =~= paths.push(target@));
        assert(repos.deep_view().last() == target@);
    }
    Ok(RepoState { repos, active_repo: Some(target) })
}

/// The paths of `repos` other than `path`, in the same order.
fn remove_path(repos: &Vec<String>, path: &str) -> (r: Vec<String>)
    ensures
        r.deep_view() == without_path(repos.deep_view(), path@),
{
    let mut kept: Vec<String> = Vec::new();
    let mut i: usize = 0;
    while i < repos.len()
        invariant
            i <= repos.len(),
            kept.deep_view() == without_path(repos.deep_view().take(i as int), path@),
        decreases repos.len() - i,
    {
        assert(repos.deep_view().take(i as int + 1).drop_last() =~= repos.deep_view().take(
            i as int,
        ));
        if !same_text(repos[i].as_str(), path) {
            kept.push(repos[i].clone());
        }
        i = i + 1;
    }
    assert(repos.deep_view().take(i as int) =~= repos.deep_view());
    kept
}

/// The last path of `repos`, if it has one.
fn last_path(repos: &Vec<String>) -> (r: Option<String>)
    ensures
        r.deep_view() == last_of(repos.deep_view()),
{
    if repos.len() == 0 {
        None
    } else {
        Some(repos[repos.len() - 1].clone())
    }
}

/// Removes `repo_path` from the stored list and chooses the active
/// repository anew. Returns the state to write back, or `StoreError` where
/// nothing is left of the path after trimming.
pub fn remove_repo_from_view(
    repos_value: &Option<StoredValue>,
    last_opened: &Option<StoredValue>,
    repo_path: String,
) -> (r: Result<RepoState, Error>)
    ensures
        match normalized(repo_path@) {
            Some(path) => r is Ok && r->Ok_0@ == state_without(
                stored_view(*repos_value),
                stored_view(*last_opened),
                path,
            ) && r->Ok_0@.active_is_known(),
            None => r is Err && r->Err_0@ == path_required_to_remove(),
        },
{
    let target = match normalize_repo_path(repo_path) {
        Some(path) => path,
        None => {
            return Err(
                Error::StoreError(String::from_str("Repository path is required to remove repo")),
            );
        },
    };
    let repos = remove_path(&get_repo_paths(repos_value), target.as_str());
    let active_repo = match get_active_path(last_opened) {
        Some(active) => {
            if same_text(active.as_str(), target.as_str()) {
                last_path(&repos)
            } else if contains_text(&repos, active.as_str()) {
                Some(active)
            } else {
                last_path(&repos)
            }
        },
        None => last_path(&repos),
    };
    Ok(RepoState { repos, active_repo })
}

/// What a store is asked to remember of a folder that holds a repository.
#[derive(Clone, Debug, PartialEq, Eq)]
pub struct FolderRecord {
    /// Whether the folder is to be added at the end of the stored list.
    pub append: bool,
    /// The path to store as the one that was opened last.
    pub last_opened: String,
}

/// Whether a folder is added to the stored list: where the list does not
/// hold its path as it is, or where there is no list yet. A stored value
/// that is no list is left alone.
pub open spec fn folder_is_new(repos_value: Option<StoredValueView>, folder: Seq<char>) -> bool {
    match repos_value {
        None => true,
        Some(StoredValueView::List(items)) => !items.contains(Some(folder)),
        Some(_) => false,
    }
}

/// Whether `items` holds the text `folder`.
fn holds_folder(items: &Vec<Option<String>>, folder: &str) -> (r: bool)
    ensures
        r == items.deep_view().contains(Some(folder@)),
{
    let mut i: usize = 0;
    while i < items.len()
        invariant
            i <= items.len(),
            forall|k: int| 0 <= k < i ==> items.deep_view()[k] != Some(folder@),
        decreases items.len() - i,
    {
        if let Some(text) = &items[i] {
            if same_text(text.as_str(), folder) {
                assert(items.deep_view()[i as int] == Some(folder@));
                return true;
            }
        }
        i = i + 1;
    }
    false
}

/// Says what to remember of a folder that was found to hold a repository:
/// its path, as it was given, becomes the one that was opened last, and it
/// joins the stored list unless it is there.
pub fn save_repos_in_store(repos_value: &Option<StoredValue>, folder_path: String) -> (r:
    FolderRecord)
    ensures
        r.last_opened@ == folder_path@,
        r.append == folder_is_new(stored_view(*repos_value), folder_path@),
{
    let append = match repos_value {
        None => true,
        Some(StoredValue::List(items)) => !holds_folder(items, folder_path.as_str()),
        Some(_) => false,
    };
    FolderRecord { append, last_opened: folder_path }
}

/// Every path that is read from a stored list is clean.
pub proof fn lemma_stored_paths_are_clean(items: Seq<Option<Seq<char>>>)
    ensures
        forall|i: int|
            0 <= i < paths_among(items).len() ==> is_clean(#[trigger] paths_among(items)[i]),
    decreases items.len(),
{
    if items.len() > 0 {
        let before = paths_among(items.drop_last());
        lemma_stored_paths_are_clean(items.drop_last());
        if let Some(text) = items.last() {
            lemma_trimmed_is_clean(text);
        }
        assert forall|i: int| 0 <= i < paths_among(items).len() implies is_clean(
            #[trigger] paths_among(items)[i],
        ) by {
            if i < before.len() {
                assert(paths_among(items)[i] == before[i]);
            }
        }
    }
}

/// A list of clean paths that is written to the store is read back as it
/// was.
pub proof fn lemma_clean_paths_read_back(repos: Seq<Seq<char>>)
    requires
        forall|i: int| 0 <= i < repos.len() ==> is_clean(#[trigger] repos[i]),
    ensures
        paths_among(repos.map_values(|path: Seq<char>| Some(path))) == repos,
    decreases repos.len(),
{
    if repos.len() > 0 {
        let items = repos.map_values(|path: Seq<char>| Some(path));
        assert(items.drop_last() =~= repos.drop_last().map_values(|path: Seq<char>| Some(path)));
        lemma_clean_paths_read_back(repos.drop_last());
        lemma_clean_is_kept(repos.last());
    }
}

/// The list without a path does not hold it, and holds every other path
/// that the list held, and nothing else.
pub proof fn lemma_without_path_members(repos: Seq<Seq<char>>, path: Seq<char>)
    ensures
        !without_path(repos, path).contains(path),
        forall|other: Seq<char>|
            #![trigger without_path(repos, path).contains(other)]
            without_path(repos, path).contains(other) <==> other != path && repos.contains(
                other,
            ),
        without_path(repos, path).len() <= repos.len(),
        (!repos.contains(path)) ==> without_path(repos, path) == repos,
    decreases repos.len(),
{
    if repos.len() > 0 {
        let before = repos.drop_last();
        let kept = without_path(before, path);
        lemma_without_path_members(before, path);
        assert forall|other: Seq<char>|
            #![trigger without_path(repos, path).contains(other)]
            without_path(repos, path).contains(other) <==> other != path && repos.contains(
                other,
            ) by {
            if repos.contains(other) {
                let i = choose|i: int| 0 <= i < repos.len() && repos[i] == other;
                if i < before.len() {
                    assert(before[i] == other);
                }
            }
            if repos.last() != path {
                assert(kept.push(repos.last()).last() == repos.last());
                if kept.contains(other) {
                    let i = choose|i: int| 0 <= i < kept.len() && kept[i] == other;
                    assert(kept.push(repos.last())[i] == other);
                }
            }
        }
    }
}

/// Removing a path from two lists in a row is removing it from each: what
/// stays keeps its order.
pub proof fn law_removal_keeps_order(
    front: Seq<Seq<char>>,
    back: Seq<Seq<char>>,
    path: Seq<char>,
)
    ensures
        without_path(front + back, path) == without_path(front, path) + without_path(back, path),
    decreases back.len(),
{
    if back.len() > 0 {
        assert((front + back).drop_last() =~= front + back.drop_last());
        law_removal_keeps_order(front, back.drop_last(), path);
        if back.last() != path {
            assert(without_path(front, path) + without_path(back.drop_last(), path).push(
                back.last(),
            ) =~= (without_path(front, path) + without_path(back.drop_last(), path)).push(
                back.last(),
            ));
        }
    }
}

/// A list in which no path occurs twice stays so when a path is made active
/// and when a path is removed.
pub proof fn law_registry_keeps_paths_unique(repos: Seq<Seq<char>>, path: Seq<char>)
    requires
        repos.no_duplicates(),
    ensures
        with_path(repos, path).no_duplicates(),
        without_path(repos, path).no_duplicates(),
    decreases repos.len(),
{
    if repos.len() > 0 {
        let before = repos.drop_last();
        let kept = without_path(before, path);
        assert(before.no_duplicates()) by {
            assert forall|i: int, j: int|
                0 <= i < before.len() && 0 <= j < before.len() && i != j implies before[i]
                != before[j] by {
                assert(repos[i] != repos[j]);
            }
        }
        law_registry_keeps_paths_unique(before, path);
        lemma_without_path_members(before, path);
        if before.contains(repos.last()) {
            let i = choose|i: int| 0 <= i < before.len() && before[i] == repos.last();
            assert(repos[i] == repos[repos.len() - 1]);
        }
        lemma_push_stays_unique(kept, repos.last());
    }
    lemma_push_stays_unique(repos, path);
}

/// A list in which nothing occurs twice stays so when something new is put
/// at its end.
proof fn lemma_push_stays_unique(repos: Seq<Seq<char>>, path: Seq<char>)
    requires
        repos.no_duplicates(),
    ensures
        !repos.contains(path) ==> repos.push(path).no_duplicates(),
{
    if !repos.contains(path) {
        let grown = repos.push(path);
        assert forall|i: int, j: int|
            0 <= i < grown.len() && 0 <= j < grown.len() && i != j implies grown[i]
            != grown[j] by {
            if i < repos.len() && j < repos.len() {
                assert(repos[i] != repos[j]);
            } else if i < repos.len() {
                assert(repos.contains(repos[i]));
            } else {
                assert(repos.contains(repos[j]));
            }
        }
    }
}

/// The invariant of the registry, for every state that an operation gives:
/// the active repository is among the known ones, and every path is clean.
pub proof fn law_registry_states_are_sound(
    repos_value: Option<StoredValueView>,
    last_opened: Option<StoredValueView>,
    path: Seq<char>,
)
    requires
        is_clean(path),
    ensures
        state_in_store(repos_value, last_opened).active_is_known(),
        state_in_store(repos_value, last_opened).is_clean(),
        state_with_active(repos_value, path).active_is_known(),
        state_with_active(repos_value, path).is_clean(),
        state_without(repos_value, last_opened, path).active_is_known(),
        state_without(repos_value, last_opened, path).is_clean(),
{
    let paths = paths_among(items_of(repos_value));
    let left = without_path(paths, path);
    lemma_stored_paths_are_clean(items_of(repos_value));
    lemma_without_path_members(paths, path);
    if let Some(StoredValueView::Text(text)) = last_opened {
        lemma_trimmed_is_clean(text);
    }
    if let Some(active) = active_in(last_opened) {
        assert(paths.push(active).last() == active);
    }
    assert(paths.push(path).last() == path);
    assert forall|i: int| 0 <= i < left.len() implies is_clean(#[trigger] left[i]) by {
        assert(left.contains(left[i]));
    }
}

/// A state with clean paths whose active repository is known is read back
/// from the store exactly as it was written.
pub proof fn law_written_state_reads_back(state: RepoStateView)
    requires
        state.is_clean(),
        state.active_is_known(),
    ensures
        state_in_store(Some(state.stored_repos()), Some(state.stored_last_opened())) == state,
{
    lemma_clean_paths_read_back(state.repos);
    if let Some(active) = state.active_repo {
        lemma_clean_is_kept(active);
    }
}

/// Making a path active adds it to the list at most once and makes it the
/// active one; and making it active again, on what was written the first
/// time, changes nothing.
pub proof fn law_set_active_twice(repos_value: Option<StoredValueView>, repo_path: Seq<char>)
    requires
        normalized(repo_path) is Some,
    ensures
        ({
            let path = normalized(repo_path)->0;
            let paths = paths_among(items_of(repos_value));
            let once = state_with_active(repos_value, path);
            let twice = state_with_active(Some(once.stored_repos()), path);
            &&& once.active_repo == Some(path)
            &&& once.repos == if paths.contains(path) {
                paths
            } else {
                paths.push(path)
            }
            &&& twice == once
        }),
{
    let path = normalized(repo_path)->0;
    let paths = paths_among(items_of(repos_value));
    lemma_trimmed_is_clean(repo_path);
    law_registry_states_are_sound(repos_value, None, path);
    lemma_clean_paths_read_back(state_with_active(repos_value, path).repos);
    assert(paths.push(path).last() == path);
}

/// Removing the active repository makes the last of the remaining ones
/// active, or none where none remains; the removed path is gone, and every
/// other path stays.
pub proof fn law_removing_the_active_repo(
    repos_value: Option<StoredValueView>,
    last_opened: Option<StoredValueView>,
    path: Seq<char>,
)
    requires
        active_in(last_opened) == Some(path),
    ensures
        ({
            let paths = paths_among(items_of(repos_value));
            let state = state_without(repos_value, last_opened, path);
            &&& state.active_repo == last_of(state.repos)
            &&& !state.repos.contains(path)
            &&& forall|other: Seq<char>|
                other != path ==> (#[trigger] state.repos.contains(other) <==> paths.contains(
                    other,
                ))
        }),
{
    lemma_without_path_members(paths_among(items_of(repos_value)), path);
}

} // verus!
