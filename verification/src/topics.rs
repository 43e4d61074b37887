//! The topic listing: a numbered table of topic names and partition counts.

use crate::base::{output_error, ErrorKind, KToolsError};
use vstd::prelude::*;
use vstd::string::StrSliceExecFns;

verus! {

/// A topic of a cluster and the number of its partitions.
#[derive(Clone, Debug, PartialEq, Eq)]
pub struct TopicInfo {
    pub name: String,
    pub partitions: usize,
}

/// One row of the listing: the number of the row, counted from one, the
/// topic's name and the number of its partitions.
#[derive(Clone, Debug, PartialEq, Eq)]
pub struct TopicRow {
    pub index: usize,
    pub name: String,
    pub partitions: usize,
}

pub struct TopicInfoView {
    pub name: Seq<char>,
    pub partitions: usize,
}

pub struct TopicRowView {
    pub index: usize,
    pub name: Seq<char>,
    pub partitions: usize,
}

impl DeepView for TopicInfo {
    type V = TopicInfoView;

    open spec fn deep_view(&self) -> TopicInfoView {
        TopicInfoView { name: self.name@, partitions: self.partitions }
    }
}

impl DeepView for TopicRow {
    type V = TopicRowView;

    open spec fn deep_view(&self) -> TopicRowView {
        TopicRowView { index: self.index, name: self.name@, partitions: self.partitions }
    }
}

/// The rows of a listing: the topics in their order, numbered from one.
pub open spec fn numbered(topics: Seq<TopicInfoView>) -> Seq<TopicRowView> {
    Seq::new(
        topics.len(),
        |i: int|
            TopicRowView {
                index: (i + 1) as usize,
                name: topics[i].name,
                partitions: topics[i].partitions,
            },
    )
}

/// The titles of the listing's columns.
pub open spec fn listing_titles() -> Seq<Seq<char>> {
    seq!["#"@, "topics"@, "partitions"@]
}

/// Numbers the topics from one, in their order.
pub fn topic_rows(topics: &Vec<TopicInfo>) -> (rows: Vec<TopicRow>)
    ensures
        rows.deep_view() == numbered(topics.deep_view()),
        rows.len() == topics.len(),
        forall|k: int| 0 <= k < rows.len() ==> (#[trigger] rows[k]).name@ == topics[k].name@,
{
    let mut rows: Vec<TopicRow> = Vec::new();
    let mut i: usize = 0;
    while i < topics.len()
        invariant
            i <= topics.len(),
            rows.len() == i,
            forall|k: int|
                0 <= k < i ==> (#[trigger] rows[k]).deep_view() == numbered(topics.deep_view())[k],
            forall|k: int| 0 <= k < i ==> (#[trigger] rows[k]).name@ == topics[k].name@,
        decreases topics.len() - i,
    {
        rows.push(
            TopicRow {
                index: i + 1,
                name: topics[i].name.clone(),
                partitions: topics[i].partitions,
            },
        );
        i = i + 1;
    }
    rows
}

/// The escape character, U+001B. Directly followed by `[` it opens a
/// terminal escape sequence.
pub const ESCAPE: char = '\u{1b}';

/// Text in which no escape character stands directly before `[`. The
/// table is laid out by the width of its cells; the layout discounts what
/// follows the opening of an escape sequence and can fail on it, and on no
/// other text. An escape character anywhere else is plain.
pub open spec fn plain_text(text: Seq<char>) -> bool {
    forall|i: int|
        0 <= i < text.len() - 1 ==> !((#[trigger] text[i]) == ESCAPE && text[i + 1] == '[')
}

/// That every topic has a plain name.
pub open spec fn plain_names(topics: Seq<TopicInfoView>) -> bool {
    forall|k: int| 0 <= k < topics.len() ==> plain_text((#[trigger] topics[k]).name)
}

/// The text of the error for a topic name that opens an escape sequence.
pub open spec fn escape_text() -> Seq<char> {
    "a topic name opens an escape sequence"@
}

/// Whether no escape character of `text` stands directly before `[`.
pub fn is_plain(text: &str) -> (r: bool)
    ensures
        r == plain_text(text@),
{
    let n: usize = text.unicode_len();
    if n < 2 {
        return true;
    }
    let mut i: usize = 0;
    while i < n - 1
        invariant
            n == text@.len(),
            n >= 2,
            i <= n - 1,
            forall|k: int| 0 <= k < i ==> !((#[trigger] text@[k]) == ESCAPE && text@[k + 1] == '['),
        decreases n - i,
    {
        if text.get_char(i) == ESCAPE && text.get_char(i + 1) == '[' {
            return false;
        }
        i = i + 1;
    }
    true
}

/// Whether every topic has a plain name.
pub fn names_are_plain(topics: &Vec<TopicInfo>) -> (r: bool)
    ensures
        r == plain_names(topics.deep_view()),
{
    let mut k: usize = 0;
    while k < topics.len()
        invariant
            k <= topics.len(),
            forall|j: int| 0 <= j < k ==> plain_text((#[trigger] topics.deep_view()[j]).name),
        decreases topics.len() - k,
    {
        if !is_plain(topics[k].name.as_str()) {
            assert(!plain_text(topics.deep_view()[k as int].name));
            return false;
        }
        k = k + 1;
    }
    true
}

/// The bytes that `prettytable` prints for a table with the given titles
/// and rows, in the format without borders and with a line under the
/// titles.
pub uninterp spec fn table_bytes(titles: Seq<Seq<char>>, rows: Seq<TopicRowView>) -> Seq<u8>;

/// Builds a `prettytable::Table` in `FORMAT_NO_BORDER_LINE_SEPARATOR`
/// with `titles` as its title row and one row of three cells for each of
/// `rows`, the numbers in decimal, and prints it with `Table::print` into a
/// byte buffer. Where a cell's text has an escape character directly
/// before `[`, `Cell::new` counts what follows as hidden and can panic on
/// the width that is left, so such titles and names are left out. Claimed:
/// on plain titles and names none of the calls panics, and the bytes depend
/// on the titles and rows alone.
#[verifier::external_body]
fn render_table(titles: &Vec<String>, rows: &Vec<TopicRow>) -> (out: Vec<u8>)
    requires
        forall|i: int| 0 <= i < titles.len() ==> plain_text(#[trigger] titles[i]@),
        forall|i: int| 0 <= i < rows.len() ==> plain_text((#[trigger] rows[i]).name@),
    ensures
        out@ == table_bytes(titles.deep_view(), rows.deep_view()),
{
    let mut table = prettytable::Table::new();
    table.set_format(*prettytable::format::consts::FORMAT_NO_BORDER_LINE_SEPARATOR);
    table.set_titles(titles.iter().map(|t| prettytable::Cell::new(t)).collect());
    for row in rows {
        let index = prettytable::Cell::new(&row.index.to_string());
        let partitions = prettytable::Cell::new(&row.partitions.to_string());
        table.add_row(prettytable::Row::new(vec![index, prettytable::Cell::new(&row.name), partitions]));
    }
    let mut out = Vec::new();
    let _ = table.print(&mut out);
    out
}

/// The listing of the topics of a cluster as it is printed: a title row
/// `#`, `topics`, `partitions`, then one numbered row for each topic, for
/// every listing whose names are plain. A name with an escape character
/// directly before `[` is turned down, and nothing is listed then: those
/// are the names on which the layout of the table can panic.
pub fn display_topics(topics: &Vec<TopicInfo>) -> (r: Result<Vec<u8>, KToolsError>)
    ensures
        r is Ok <==> plain_names(topics.deep_view()),
        r matches Ok(out) ==> out@ == table_bytes(listing_titles(), numbered(topics.deep_view())),
        r matches Err(e) ==> e@ == (ErrorKind::Output, escape_text()),
{
    if !names_are_plain(topics) {
        return Err(output_error("a topic name opens an escape sequence".to_owned()));
    }
    let mut titles: Vec<String> = Vec::new();
    titles.push("#".to_owned());
    titles.push("topics".to_owned());
    titles.push("partitions".to_owned());
    proof {
        reveal_strlit("#");
        reveal_strlit("topics");
        reveal_strlit("partitions");
        assert(titles.deep_view() =~= listing_titles());
    }
    let rows = topic_rows(topics);
    assert forall|i: int| 0 <= i < rows.len() implies plain_text((#[trigger] rows[i]).name@) by {
        assert(topics.deep_view()[i].name == topics[i].name@);
    }
    Ok(render_table(&titles, &rows))
}

} // verus!
