use workspace_core::error::Error;
use workspace_core::file::{
    get_file_content_from_head, get_file_content_from_tree, get_file_diff,
    get_file_diff_by_commit, DiffState,
};

#[test]
fn tree_content_is_decoded_leniently() {
    assert_eq!(get_file_content_from_tree(&Some(b"hello\n".to_vec())), "hello\n");
    assert_eq!(get_file_content_from_tree(&Some("héllo 路".as_bytes().to_vec())), "héllo 路");
    assert_eq!(get_file_content_from_tree(&Some(Vec::new())), "");
    assert_eq!(get_file_content_from_tree(&None), "");
    assert_eq!(get_file_content_from_tree(&Some(vec![b'a', 0xff, b'b'])), "a\u{fffd}b");
    assert_eq!(get_file_content_from_tree(&Some(vec![0xe2, 0x82])), "\u{fffd}");
}

#[test]
fn head_content_must_be_utf8() {
    assert_eq!(get_file_content_from_head(&Some(b"hello".to_vec())), Ok("hello".to_string()));
    assert_eq!(
        get_file_content_from_head(&Some("héllo".as_bytes().to_vec())),
        Ok("héllo".to_string())
    );
    assert_eq!(get_file_content_from_head(&Some(Vec::new())), Ok(String::new()));
    assert_eq!(
        get_file_content_from_head(&Some(vec![b'a', 0xff])),
        Err(Error::Engine("File is not valid UTF-8".to_string()))
    );
    assert_eq!(
        get_file_content_from_head(&Some(vec![0xed, 0xa0, 0x80])),
        Err(Error::Engine("File is not valid UTF-8".to_string()))
    );
}

#[test]
fn head_content_needs_a_blob() {
    assert_eq!(
        get_file_content_from_head(&None),
        Err(Error::Engine("Path is not a blob".to_string()))
    );
}

#[test]
fn a_side_that_could_not_be_had_is_empty() {
    assert_eq!(
        get_file_diff(Some("new".to_string()), Some("old".to_string())),
        DiffState { new_content: "new".to_string(), old_content: "old".to_string() }
    );
    assert_eq!(
        get_file_diff(None, Some("old".to_string())),
        DiffState { new_content: String::new(), old_content: "old".to_string() }
    );
    assert_eq!(
        get_file_diff(Some("new".to_string()), None),
        DiffState { new_content: "new".to_string(), old_content: String::new() }
    );
    assert_eq!(
        get_file_diff(None, None),
        DiffState { new_content: String::new(), old_content: String::new() }
    );
}

#[test]
fn the_diff_of_a_commit_decodes_both_sides() {
    assert_eq!(
        get_file_diff_by_commit(&Some(b"new".to_vec()), &Some(vec![b'o', 0x80])),
        DiffState { new_content: "new".to_string(), old_content: "o\u{fffd}".to_string() }
    );
    assert_eq!(
        get_file_diff_by_commit(&Some(b"new".to_vec()), &None),
        DiffState { new_content: "new".to_string(), old_content: String::new() }
    );
    assert_eq!(
        get_file_diff_by_commit(&None, &None),
        DiffState { new_content: String::new(), old_content: String::new() }
    );
}
