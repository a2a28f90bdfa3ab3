//! What the settings store holds, as far as the library reads it.
//!
//! The store keeps two values for the workspace: the list of known
//! repository paths and the path that was opened last. Both come back as
//! whatever was written there, so every reader allows for a value of another
//! shape.
use crate::text::{normalize, normalized};
use vstd::prelude::*;
use vstd::string::*;

verus! {

/// A value of the settings store.
#[derive(Clone, Debug, PartialEq, Eq)]
pub enum StoredValue {
    /// A text.
    Text(String),
    /// A list. Each item is its text, or nothing where it is not a text.
    List(Vec<Option<String>>),
    /// Anything else.
    Other,
}

/// The mathematical value of a [`StoredValue`].
pub enum StoredValueView {
    Text(Seq<char>),
    List(Seq<Option<Seq<char>>>),
    Other,
}

impl View for StoredValue {
    type V = StoredValueView;

    open spec fn view(&self) -> StoredValueView {
        match *self {
            StoredValue::Text(text) => StoredValueView::Text(text@),
            StoredValue::List(items) => StoredValueView::List(items.deep_view()),
            StoredValue::Other => StoredValueView::Other,
        }
    }
}

/// The mathematical value of what the store gave for a key: nothing where
/// the key is not there.
pub open spec fn stored_view(stored: Option<StoredValue>) -> Option<StoredValueView> {
    match stored {
        Some(value) => Some(value@),
        None => None,
    }
}

/// The text of a stored value: empty where there is none or it is no text.
pub open spec fn text_of(stored: Option<StoredValueView>) -> Seq<char> {
    match stored {
        Some(StoredValueView::Text(text)) => text,
        _ => Seq::empty(),
    }
}

/// The items of a stored value: none where there is no value or it is no
/// list.
pub open spec fn items_of(stored: Option<StoredValueView>) -> Seq<Option<Seq<char>>> {
    match stored {
        Some(StoredValueView::List(items)) => items,
        _ => Seq::empty(),
    }
}

/// The repository paths among the items of a list, in order: each item that
/// is a text, trimmed, unless nothing is left of it.
pub open spec fn paths_among(items: Seq<Option<Seq<char>>>) -> Seq<Seq<char>>
    decreases items.len(),
{
    if items.len() == 0 {
        Seq::empty()
    } else {
        let before = paths_among(items.drop_last());
        match items.last() {
            Some(text) => match normalized(text) {
                Some(path) => before.push(path),
                None => before,
            },
            None => before,
        }
    }
}

/// The path that a stored value makes active: its text, trimmed, unless
/// nothing is left of it.
pub open spec fn active_in(stored: Option<StoredValueView>) -> Option<Seq<char>> {
    match stored {
        Some(StoredValueView::Text(text)) => normalized(text),
        _ => None,
    }
}

/// What stands for the path that was opened last: the stored value, or an
/// empty text where the store has none.
pub fn get_last_opened_repo_path(stored: Option<StoredValue>) -> (r: StoredValue)
    ensures
        r@ == match stored_view(stored) {
            Some(value) => value,
            None => StoredValueView::Text(Seq::empty()),
        },
{
    match stored {
        Some(value) => value,
        None => StoredValue::Text(String::new()),
    }
}

/// The path that was opened last, as it was stored: empty where there is
/// none or the stored value is no text.
pub fn get_last_opened_repo(stored: &Option<StoredValue>) -> (r: String)
    ensures
        r@ == text_of(stored_view(*stored)),
{
    match stored {
        Some(StoredValue::Text(text)) => text.clone(),
        _ => String::new(),
    }
}

/// The active path that the stored value gives.
pub fn get_active_path(stored: &Option<StoredValue>) -> (r: Option<String>)
    ensures
        r.deep_view() == active_in(stored_view(*stored)),
{
    match stored {
        Some(StoredValue::Text(text)) => normalize(text.as_str()),
        _ => None,
    }
}

/// The known repository paths that the stored value gives, in order.
pub fn get_repo_paths(stored: &Option<StoredValue>) -> (r: Vec<String>)
    ensures
        r.deep_view() == paths_among(items_of(stored_view(*stored))),
{
    let mut paths: Vec<String> = Vec::new();
    match stored {
        Some(StoredValue::List(items)) => {
            let mut i: usize = 0;
            while i < items.len()
                invariant
                    i <= items.len(),
                    paths.deep_view() == paths_among(items.deep_view().take(i as int)),
                decreases items.len() - i,
            {
                assert(items.deep_view().take(i as int + 1).drop_last() =~= items.deep_view().take(
                    i as int,
                ));
                if let Some(text) = &items[i] {
                    if let Some(path) = normalize(text.as_str()) {
                        paths.push(path);
                    }
                }
                i = i + 1;
            }
            assert(items.deep_view().take(i as int) =~= items.deep_view());
        },
        _ => {},
    }
    paths
}

} // verus!
