//! The two sides of the difference of one file, as they are shown.
use crate::error::{Error, ErrorView};
use vstd::prelude::*;
use vstd::string::*;
use vstd::utf8::{decode_utf8, valid_utf8};

verus! {

/// The text that stands for bytes which need not be text: each stretch that
/// is not UTF-8 gives way to the replacement character. It stands for what
/// `String::from_utf8_lossy` returns.
pub uninterp spec fn lossy_text(bytes: Seq<u8>) -> Seq<char>;

/// Calls `String::from_utf8_lossy` and returns its text. The contract names
/// that text, and says that bytes which are UTF-8 give the text that they
/// encode.
#[verifier::external_body]
fn decode_lossy(bytes: &[u8]) -> (r: String)
    ensures
        r@ == lossy_text(bytes@),
        valid_utf8(bytes@) ==> r@ == decode_utf8(bytes@),
{
    String::from_utf8_lossy(bytes).into_owned()
}

/// Calls `std::str::from_utf8` and returns its text, if it gave one. The
/// contract says that it gives one exactly for bytes that are UTF-8, and that
/// it is the text that they encode.
#[verifier::external_body]
fn decode_strict(bytes: &[u8]) -> (r: Option<String>)
    ensures
        r is Some <==> valid_utf8(bytes@),
        r matches Some(text) ==> text@ == decode_utf8(bytes@),
{
    std::str::from_utf8(bytes).ok().map(|text| text.to_string())
}

/// The new and the old content of a file.
#[derive(Clone, Debug, PartialEq, Eq)]
pub struct DiffState {
    /// The content after the change.
    pub new_content: String,
    /// The content before the change.
    pub old_content: String,
}

/// The text that is shown for the content of a file in a tree: the bytes as
/// text, and nothing where the tree has no file at the path.
pub open spec fn tree_text(blob: Option<Seq<u8>>) -> Seq<char> {
    match blob {
        Some(bytes) => lossy_text(bytes),
        None => Seq::empty(),
    }
}

/// The text of the content of a file in the commit at HEAD, or the failure:
/// there must be a file at the path, and its bytes must be UTF-8.
pub open spec fn head_text(blob: Option<Seq<u8>>) -> Result<Seq<char>, ErrorView> {
    match blob {
        Some(bytes) => {
            if valid_utf8(bytes) {
                Ok(decode_utf8(bytes))
            } else {
                Err(ErrorView::Engine("File is not valid UTF-8"@))
            }
        },
        None => Err(ErrorView::Engine("Path is not a blob"@)),
    }
}

/// The text, or nothing where there is none.
pub open spec fn content_or_empty(content: Option<Seq<char>>) -> Seq<char> {
    match content {
        Some(text) => text,
        None => Seq::empty(),
    }
}

/// The bytes of a blob, or nothing.
pub open spec fn bytes_view(blob: Option<Vec<u8>>) -> Option<Seq<u8>> {
    match blob {
        Some(bytes) => Some(bytes@),
        None => None,
    }
}

/// The text to show for the content of a file in a tree, from the bytes of
/// the blob at its path, if there is one.
pub fn get_file_content_from_tree(blob: &Option<Vec<u8>>) -> (r: String)
    ensures
        r@ == tree_text(bytes_view(*blob)),
        blob matches Some(bytes) ==> (valid_utf8(bytes@) ==> r@ == decode_utf8(bytes@)),
{
    match blob {
        Some(bytes) => decode_lossy(bytes.as_slice()),
        None => String::new(),
    }
}

/// The text of the content of a file in the commit at HEAD, from the bytes
/// of the blob at its path, if there is one.
pub fn get_file_content_from_head(blob: &Option<Vec<u8>>) -> (r: Result<String, Error>)
    ensures
        match head_text(bytes_view(*blob)) {
            Ok(text) => r is Ok && r->Ok_0@ == text,
            Err(error) => r is Err && r->Err_0@ == error,
        },
{
    match blob {
        Some(bytes) => match decode_strict(bytes.as_slice()) {
            Some(text) => Ok(text),
            None => Err(Error::Engine(String::from_str("File is not valid UTF-8"))),
        },
        None => Err(Error::Engine(String::from_str("Path is not a blob"))),
    }
}

/// The difference of a file between the working tree and HEAD: the content
/// on disk, and the content at HEAD. Either is empty where it could not be
/// had.
pub fn get_file_diff(new_content: Option<String>, old_content: Option<String>) -> (r: DiffState)
    ensures
        r.new_content@ == content_or_empty(new_content.deep_view()),
        r.old_content@ == content_or_empty(old_content.deep_view()),
{
    DiffState {
        new_content: match new_content {
            Some(text) => text,
            None => String::new(),
        },
        old_content: match old_content {
            Some(text) => text,
            None => String::new(),
        },
    }
}

/// The difference of a file between a commit and its first parent, from the
/// bytes of the file in each. The old side is empty where the commit has no
/// parent.
pub fn get_file_diff_by_commit(new_blob: &Option<Vec<u8>>, old_blob: &Option<Vec<u8>>) -> (r:
    DiffState)
    ensures
        r.new_content@ == tree_text(bytes_view(*new_blob)),
        r.old_content@ == tree_text(bytes_view(*old_blob)),
{
    DiffState {
        new_content: get_file_content_from_tree(new_blob),
        old_content: get_file_content_from_tree(old_blob),
    }
}

} // verus!
