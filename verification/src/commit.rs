//! The history of commits, as it is shown.
use crate::text::{first_chars, prefix_of};
use chrono::{DateTime, FixedOffset};
use vstd::prelude::*;
use vstd::string::*;

verus! {

/// Whether a time, in seconds since the start of 1970, is one that the
/// calendar can represent. It stands for what chrono's
/// `DateTime::from_timestamp` accepts.
pub uninterp spec fn timestamp_is_valid(seconds: int) -> bool;

/// The text of a time, in seconds since the start of 1970, as a date at
/// `offset_seconds` east of UTC, written after `pattern`. It stands for what
/// chrono's `DateTime::format` writes.
pub uninterp spec fn formatted_date(seconds: int, offset_seconds: int, pattern: Seq<char>) -> Seq<
    char,
>;

/// The pattern of a date as it is shown: the short name of the month, the
/// day in two digits, and the year, as in `Jan 02, 2024`.
pub open spec fn date_pattern() -> Seq<char> {
    "%b %d, %Y"@
}

/// The offset from UTC, in seconds, that `offset_minutes` stands for: it
/// counts where it stays within a day, and is taken for 0 where it does not.
pub open spec fn offset_seconds_of(offset_minutes: int) -> int {
    if -86_400 < offset_minutes * 60 < 86_400 {
        offset_minutes * 60
    } else {
        0
    }
}

/// The time that is shown for `seconds`: itself where the calendar can
/// represent it, and the start of 1970 where it cannot.
pub open spec fn shown_seconds(seconds: int) -> int {
    if timestamp_is_valid(seconds) {
        seconds
    } else {
        0
    }
}

/// The date that is shown for a commit made at `seconds` with
/// `offset_minutes` as its author's offset from UTC.
pub open spec fn date_text(seconds: int, offset_minutes: int) -> Seq<char> {
    formatted_date(shown_seconds(seconds), offset_seconds_of(offset_minutes), date_pattern())
}

/// Calls chrono's `DateTime::from_timestamp` with no nanoseconds, and tells
/// whether it gave a time. The contract names that answer.
#[verifier::external_body]
fn timestamp_in_range(seconds: i64) -> (r: bool)
    ensures
        r == timestamp_is_valid(seconds as int),
{
    DateTime::from_timestamp(seconds, 0).is_some()
}

/// Calls chrono's `DateTime::format` on the time `seconds`, moved to the
/// fixed offset `offset_seconds` by `DateTime::with_timezone`, and returns
/// what it writes. The contract names that text. It asks for a time that
/// `DateTime::from_timestamp` accepts, which the start of 1970 is, for an
/// offset that `FixedOffset::east_opt` accepts, and for the one pattern that
/// the library uses, which chrono can write.
#[verifier::external_body]
fn format_date(seconds: i64, offset_seconds: i32, pattern: &str) -> (r: String)
    requires
        seconds == 0 || timestamp_is_valid(seconds as int),
        -86_400 < offset_seconds < 86_400,
        pattern@ == date_pattern(),
    ensures
        r@ == formatted_date(seconds as int, offset_seconds as int, pattern@),
{
    let offset = FixedOffset::east_opt(offset_seconds).unwrap();
    let utc = DateTime::from_timestamp(seconds, 0).unwrap();
    utc.with_timezone(&offset).format(pattern).to_string()
}

/// The offset from UTC, in seconds, that `offset_minutes` stands for.
pub fn offset_seconds(offset_minutes: i32) -> (r: i32)
    ensures
        r == offset_seconds_of(offset_minutes as int),
        -86_400 < r < 86_400,
{
    let seconds: i64 = (offset_minutes as i64) * 60;
    if -86_400 < seconds && seconds < 86_400 {
        seconds as i32
    } else {
        0
    }
}

/// The time to show for `seconds`, given whether the calendar can represent
/// it: itself where it can, and the start of 1970 where it cannot.
pub fn time_to_show(seconds: i64, representable: bool) -> (r: i64)
    ensures
        r == if representable {
            seconds
        } else {
            0
        },
{
    if representable {
        seconds
    } else {
        0
    }
}

/// The date to show for a commit made at `seconds` since the start of 1970,
/// by an author `offset_minutes` east of UTC.
pub fn convert_date(seconds: i64, offset_minutes: i32) -> (r: String)
    ensures
        r@ == date_text(seconds as int, offset_minutes as int),
{
    let offset = offset_seconds(offset_minutes);
    let shown = time_to_show(seconds, timestamp_in_range(seconds));
    format_date(shown, offset, "%b %d, %Y")
}

/// What the engine tells of one commit.
#[derive(Clone, Debug, PartialEq, Eq)]
pub struct CommitRecord {
    /// The id of the commit, in hexadecimal.
    pub oid: String,
    /// The message, or nothing where it is not valid text.
    pub message: Option<String>,
    /// The author's name, or nothing where it is not valid text.
    pub author_name: Option<String>,
    /// The author's address, or nothing where it is not valid text.
    pub author_email: Option<String>,
    /// The time of the commit, in seconds since the start of 1970.
    pub seconds: i64,
    /// The offset from UTC of the commit's time, in minutes.
    pub offset_minutes: i32,
    /// The ids of the parents, in order.
    pub parents: Vec<String>,
}

/// The mathematical value of a [`CommitRecord`].
pub struct CommitRecordView {
    pub oid: Seq<char>,
    pub message: Option<Seq<char>>,
    pub author_name: Option<Seq<char>>,
    pub author_email: Option<Seq<char>>,
    pub seconds: int,
    pub offset_minutes: int,
    pub parents: Seq<Seq<char>>,
}

impl DeepView for CommitRecord {
    type V = CommitRecordView;

    open spec fn deep_view(&self) -> CommitRecordView {
        CommitRecordView {
            oid: self.oid@,
            message: self.message.deep_view(),
            author_name: self.author_name.deep_view(),
            author_email: self.author_email.deep_view(),
            seconds: self.seconds as int,
            offset_minutes: self.offset_minutes as int,
            parents: self.parents.deep_view(),
        }
    }
}

/// One commit, as it is shown.
#[derive(Clone, Debug, PartialEq, Eq)]
pub struct CommitInfo {
    /// The id of the commit.
    pub oid: String,
    /// The first seven characters of the id.
    pub short_oid: String,
    /// The message; `Message` where the engine gave none.
    pub message: String,
    /// The author's name; `Unknown` where the engine gave none.
    pub author_name: String,
    /// The author's address; empty where the engine gave none.
    pub author_email: String,
    /// The date of the commit.
    pub date: String,
    /// The ids of the parents, in order.
    pub parents: Vec<String>,
}

/// The mathematical value of a [`CommitInfo`].
pub struct CommitInfoView {
    pub oid: Seq<char>,
    pub short_oid: Seq<char>,
    pub message: Seq<char>,
    pub author_name: Seq<char>,
    pub author_email: Seq<char>,
    pub date: Seq<char>,
    pub parents: Seq<Seq<char>>,
}

impl DeepView for CommitInfo {
    type V = CommitInfoView;

    open spec fn deep_view(&self) -> CommitInfoView {
        CommitInfoView {
            oid: self.oid@,
            short_oid: self.short_oid@,
            message: self.message@,
            author_name: self.author_name@,
            author_email: self.author_email@,
            date: self.date@,
            parents: self.parents.deep_view(),
        }
    }
}

/// The text, or `fallback` where there is none.
pub open spec fn text_or(text: Option<Seq<char>>, fallback: Seq<char>) -> Seq<char> {
    match text {
        Some(given) => given,
        None => fallback,
    }
}

/// How a commit is shown with `date` as its date.
pub open spec fn info_with_date(record: CommitRecordView, date: Seq<char>) -> CommitInfoView {
    CommitInfoView {
        oid: record.oid,
        short_oid: prefix_of(record.oid, 7),
        message: text_or(record.message, "Message"@),
        author_name: text_or(record.author_name, "Unknown"@),
        author_email: text_or(record.author_email, Seq::empty()),
        date,
        parents: record.parents,
    }
}

/// How a commit is shown.
pub open spec fn info_of(record: CommitRecordView) -> CommitInfoView {
    info_with_date(record, date_text(record.seconds, record.offset_minutes))
}

/// The first page of a history: the first `page_size` commits of `records`,
/// or all of them where there are fewer, each as it is shown.
pub open spec fn page_of(records: Seq<CommitRecordView>, page_size: nat) -> Seq<CommitInfoView> {
    Seq::new(
        if records.len() <= page_size {
            records.len()
        } else {
            page_size
        },
        |i: int| info_of(records[i]),
    )
}

/// The text, or `fallback` where there is none.
fn or_text(text: &Option<String>, fallback: &str) -> (r: String)
    ensures
        r@ == text_or(text.deep_view(), fallback@),
{
    match text {
        Some(given) => given.clone(),
        None => String::from_str(fallback),
    }
}

/// A copy of a list of ids.
fn copy_ids(ids: &Vec<String>) -> (r: Vec<String>)
    ensures
        r.deep_view() == ids.deep_view(),
{
    let mut copy: Vec<String> = Vec::new();
    let mut i: usize = 0;
    while i < ids.len()
        invariant
            i <= ids.len(),
            copy.len() == i,
            forall|k: int| 0 <= k < i ==> copy[k]@ == ids[k]@,
        decreases ids.len() - i,
    {
        copy.push(ids[i].clone());
        i = i + 1;
    }
    copy
}

/// Shows a commit with `date` as its date.
pub fn commit_info_with_date(record: &CommitRecord, date: String) -> (r: CommitInfo)
    ensures
        r.deep_view() == info_with_date(record.deep_view(), date@),
{
    proof {
        reveal_strlit("");
        assert(""@ =~= Seq::<char>::empty());
    }
    CommitInfo {
        oid: record.oid.clone(),
        short_oid: first_chars(record.oid.as_str(), 7),
        message: or_text(&record.message, "Message"),
        author_name: or_text(&record.author_name, "Unknown"),
        author_email: or_text(&record.author_email, ""),
        date,
        parents: copy_ids(&record.parents),
    }
}

/// Shows a commit.
pub fn commit_info(record: &CommitRecord) -> (r: CommitInfo)
    ensures
        r.deep_view() == info_of(record.deep_view()),
{
    let date = convert_date(record.seconds, record.offset_minutes);
    commit_info_with_date(record, date)
}

/// The first page of the history to show, from what the engine tells of each
/// commit in the order of the walk: `page_size` commits at most.
pub fn get_commits(records: &Vec<CommitRecord>, page_size: usize) -> (r: Vec<CommitInfo>)
    ensures
        r.deep_view() == page_of(records.deep_view(), page_size as nat),
{
    let count: usize = if records.len() <= page_size {
        records.len()
    } else {
        page_size
    };
    let mut all_commits: Vec<CommitInfo> = Vec::new();
    let mut i: usize = 0;
    while i < count
        invariant
            i <= count <= records.len(),
            all_commits.len() == i,
            forall|k: int|
                0 <= k < i ==> all_commits[k].deep_view() == info_of(records[k].deep_view()),
        decreases count - i,
    {
        all_commits.push(commit_info(&records[i]));
        i = i + 1;
    }
    all_commits
}

} // verus!
