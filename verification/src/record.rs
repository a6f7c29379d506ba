//! Feeds and entries as rows of the store: what is written for a feed, and
//! the feed made of what is read.

use crate::model::{entry_views, feed_views};
use crate::model::{EntryView, FeedView, RssEntry, RssFeed, Timestamp};
use crate::order::{by_title, newest_first, sort_by, sort_entries, sort_feeds, sorted_by};
use crate::text::text_of;
use vstd::prelude::*;

verus! {

/// A row of the table of feeds.
#[derive(Clone, Debug, PartialEq, Eq)]
pub struct FeedRecord {
    pub id: String,
    pub title: String,
    pub link: String,
    /// 0 for a collapsed feed, 1 for an expanded one.
    pub expanded: i32,
}

/// A row of the table of entries.
#[derive(Clone, Debug, PartialEq, Eq)]
pub struct EntryRecord {
    pub id: String,
    /// The id of the feed that the entry belongs to.
    pub rss_feed_id: String,
    pub title: String,
    /// The authors' names as a JSON array of strings.
    pub authors: String,
    pub content: String,
    pub content_total_lines: i64,
    pub link: String,
    /// The publication time in RFC 3339; empty for an entry without one.
    pub published: String,
    /// 0 for an unread entry, 1 for a read one.
    pub read: i32,
}

/// The mathematical value of a [`FeedRecord`].
#[verifier::ext_equal]
pub struct FeedRecordView {
    pub id: Seq<char>,
    pub title: Seq<char>,
    pub link: Seq<char>,
    pub expanded: i32,
}

/// The mathematical value of an [`EntryRecord`].
#[verifier::ext_equal]
pub struct EntryRecordView {
    pub id: Seq<char>,
    pub rss_feed_id: Seq<char>,
    pub title: Seq<char>,
    pub authors: Seq<char>,
    pub content: Seq<char>,
    pub content_total_lines: i64,
    pub link: Seq<char>,
    pub published: Seq<char>,
    pub read: i32,
}

impl View for FeedRecord {
    type V = FeedRecordView;

    open spec fn view(&self) -> FeedRecordView {
        FeedRecordView {
            id: self.id@,
            title: self.title@,
            link: self.link@,
            expanded: self.expanded,
        }
    }
}

impl View for EntryRecord {
    type V = EntryRecordView;

    open spec fn view(&self) -> EntryRecordView {
        EntryRecordView {
            id: self.id@,
            rss_feed_id: self.rss_feed_id@,
            title: self.title@,
            authors: self.authors@,
            content: self.content@,
            content_total_lines: self.content_total_lines,
            link: self.link@,
            published: self.published@,
            read: self.read,
        }
    }
}

/// The JSON text that `serde_json::to_string` writes for a list of strings;
/// `None` where it reports an error.
pub uninterp spec fn json_of_authors(authors: Seq<Seq<char>>) -> Option<Seq<char>>;

/// The list of strings that `serde_json::from_str` reads from a JSON text;
/// `None` where it reports an error.
pub uninterp spec fn authors_of_json(text: Seq<char>) -> Option<Seq<Seq<char>>>;

/// The RFC 3339 text that `chrono::DateTime::to_rfc3339` writes for the
/// instant in UTC with these seconds and nanoseconds; `None` where
/// `chrono::DateTime::from_timestamp` has no such instant.
pub uninterp spec fn rfc3339_of(secs: i64, nanos: u32) -> Option<Seq<char>>;

/// The instant that `chrono::DateTime::parse_from_rfc3339` reads from a
/// text; `None` where it reports an error.
pub uninterp spec fn time_of_rfc3339(text: Seq<char>) -> Option<Timestamp>;

/// Writes a list of strings as a JSON array.
///
/// Trusted: calls `serde_json::to_string` and names its result; an error
/// becomes `None`.
#[verifier::external_body]
pub(crate) fn authors_to_json(authors: &Vec<String>) -> (text: Option<String>)
    ensures
        text_of(text) == json_of_authors(authors.deep_view()),
{
    serde_json::to_string(authors).ok()
}

/// The value of an optional list of strings.
pub open spec fn names_of(names: Option<Vec<String>>) -> Option<Seq<Seq<char>>> {
    match names {
        Some(n) => Some(n.deep_view()),
        None => None,
    }
}

/// Reads a JSON array of strings.
///
/// Trusted: calls `serde_json::from_str` for a `Vec<String>` and names its
/// result; an error becomes `None`.
#[verifier::external_body]
pub(crate) fn authors_from_json(text: &str) -> (authors: Option<Vec<String>>)
    ensures
        names_of(authors) == authors_of_json(text@),
{
    serde_json::from_str(text).ok()
}

/// Writes an instant in RFC 3339.
///
/// Trusted: makes the instant with `chrono::DateTime::from_timestamp`, calls
/// `chrono::DateTime::to_rfc3339` on it and names the result; `None` where
/// there is no such instant.
#[verifier::external_body]
pub(crate) fn rfc3339_text(secs: i64, nanos: u32) -> (text: Option<String>)
    ensures
        text_of(text) == rfc3339_of(secs, nanos),
{
    chrono::DateTime::from_timestamp(secs, nanos).map(|d| d.to_rfc3339())
}

/// Reads an instant in RFC 3339.
///
/// Trusted: calls `chrono::DateTime::parse_from_rfc3339` and names its
/// result, taken by `timestamp` and `timestamp_subsec_nanos`; an error
/// becomes `None`.
#[verifier::external_body]
pub(crate) fn parse_rfc3339(text: &str) -> (time: Option<Timestamp>)
    ensures
        time == time_of_rfc3339(text@),
{
    chrono::DateTime::parse_from_rfc3339(text).ok().map(
        |d| Timestamp { secs: d.timestamp(), nanos: d.timestamp_subsec_nanos() },
    )
}

/// A flag as the store holds it.
pub open spec fn flag(b: bool) -> i32 {
    if b {
        1
    } else {
        0
    }
}

/// A count of lines as the store holds it: held to what the store's
/// integers can express.
pub open spec fn stored_lines(lines: usize) -> i64 {
    if lines > i64::MAX {
        i64::MAX
    } else {
        lines as i64
    }
}

/// A count of lines read from the store: none for a negative number, and
/// held to what a count can express.
pub open spec fn loaded_lines(lines: i64) -> usize {
    if lines < 0 {
        0
    } else if lines > usize::MAX {
        usize::MAX
    } else {
        lines as usize
    }
}

/// The text stored for a publication time: RFC 3339, or empty for an entry
/// without a time or with one that has no such text.
pub open spec fn published_text(published: Option<Timestamp>) -> Seq<char> {
    match published {
        Some(t) => match rfc3339_of(t.secs, t.nanos) {
            Some(text) => text,
            None => Seq::empty(),
        },
        None => Seq::empty(),
    }
}

/// The row written for an entry of the feed with the given id; `None` where
/// the authors cannot be written as JSON.
pub open spec fn record_of_entry(entry: EntryView, rss_feed_id: Seq<char>) -> Option<
    EntryRecordView,
> {
    match json_of_authors(entry.authors) {
        Some(authors) => Some(
            EntryRecordView {
                id: entry.id,
                rss_feed_id,
                title: entry.title,
                authors,
                content: entry.content,
                content_total_lines: stored_lines(entry.content_total_lines),
                link: entry.link,
                published: published_text(entry.published),
                read: flag(entry.read),
            },
        ),
        None => None,
    }
}

/// The entry read from a row. Authors that are no JSON array of strings are
/// read as none, and a time that is not in RFC 3339 as absent.
pub open spec fn entry_of_record(record: EntryRecordView) -> EntryView {
    EntryView {
        id: record.id,
        title: record.title,
        authors: match authors_of_json(record.authors) {
            Some(authors) => authors,
            None => Seq::empty(),
        },
        content: record.content,
        content_total_lines: loaded_lines(record.content_total_lines),
        link: record.link,
        published: time_of_rfc3339(record.published),
        read: record.read != 0,
    }
}

/// The row written for a feed.
pub open spec fn record_of_feed(feed: FeedView) -> FeedRecordView {
    FeedRecordView { id: feed.id, title: feed.title, link: feed.link, expanded: flag(feed.expanded) }
}

/// The rows written for the first `n` entries of a feed; `None` where the
/// authors of one of them cannot be written as JSON.
pub open spec fn records_of_entries(
    entries: Seq<EntryView>,
    rss_feed_id: Seq<char>,
    n: int,
) -> Option<Seq<EntryRecordView>>
    decreases n,
{
    if n <= 0 {
        Some(Seq::empty())
    } else {
        match (
            records_of_entries(entries, rss_feed_id, n - 1),
            record_of_entry(entries[n - 1], rss_feed_id),
        ) {
            (Some(records), Some(record)) => Some(records.push(record)),
            _ => None,
        }
    }
}

/// The entries read from rows, in the rows' order.
pub open spec fn entries_of_records(records: Seq<EntryRecordView>) -> Seq<EntryView> {
    records.map_values(|r: EntryRecordView| entry_of_record(r))
}

/// The feed read from its row and the rows of its entries: the entries are
/// put newest first.
pub open spec fn feed_of_records(feed: FeedRecordView, entries: Seq<EntryRecordView>) -> FeedView {
    FeedView {
        id: feed.id,
        title: feed.title,
        link: feed.link,
        entries: sort_by(entries_of_records(entries), newest_first()),
        expanded: feed.expanded != 0,
    }
}

/// The message for authors that cannot be written as JSON.
pub open spec fn authors_failed_message() -> Seq<char> {
    "authors failed to serialize"@
}

/// The values of rows, in order.
pub open spec fn record_views(records: Seq<EntryRecord>) -> Seq<EntryRecordView> {
    records.map_values(|r: EntryRecord| r@)
}

impl RssEntry {
    /// The row to write for this entry, given its authors as JSON: `None`
    /// stands for authors that could not be written, and is an error.
    pub fn record_with(&self, rss_feed_id: &String, authors: Option<String>, published: Option<
        String,
    >) -> (result: Result<EntryRecord, String>)
        ensures
            match authors {
                Some(json) => result is Ok && result->Ok_0@ == (EntryRecordView {
                    id: self@.id,
                    rss_feed_id: rss_feed_id@,
                    title: self@.title,
                    authors: json@,
                    content: self@.content,
                    content_total_lines: stored_lines(self@.content_total_lines),
                    link: self@.link,
                    published: match published {
                        Some(text) => text@,
                        None => Seq::empty(),
                    },
                    read: flag(self@.read),
                }),
                None => result is Err && result->Err_0@ == authors_failed_message(),
            },
    {
        match authors {
            Some(json) => Ok(
                EntryRecord {
                    id: self.id.clone(),
                    rss_feed_id: rss_feed_id.clone(),
                    title: self.title.clone(),
                    authors: json,
                    content: self.content.clone(),
                    content_total_lines: if self.content_total_lines as u64 > i64::MAX as u64 {
                        i64::MAX
                    } else {
                        self.content_total_lines as i64
                    },
                    link: self.link.clone(),
                    published: match published {
                        Some(text) => text,
                        None => String::new(),
                    },
                    read: if self.read {
                        1
                    } else {
                        0
                    },
                },
            ),
            None => Err(String::from_str("authors failed to serialize")),
        }
    }

    /// The row to write for this entry of the feed with the given id. It is
    /// an error if the authors cannot be written as JSON.
    pub fn to_record(&self, rss_feed_id: &String) -> (result: Result<EntryRecord, String>)
        ensures
            match record_of_entry(self@, rss_feed_id@) {
                Some(record) => result is Ok && result->Ok_0@ == record,
                None => result is Err && result->Err_0@ == authors_failed_message(),
            },
    {
        let authors = authors_to_json(&self.authors);
        let published = match self.published {
            Some(t) => rfc3339_text(t.secs, t.nanos),
            None => None,
        };
        self.record_with(rss_feed_id, authors, published)
    }

    /// The entry read from a row, given what its authors and its time were
    /// read as: authors that could not be read are none.
    pub fn from_record_with(
        record: EntryRecord,
        authors: Option<Vec<String>>,
        published: Option<Timestamp>,
    ) -> (entry: RssEntry)
        ensures
            entry@ == (EntryView {
                id: record@.id,
                title: record@.title,
                authors: match names_of(authors) {
                    Some(names) => names,
                    None => Seq::empty(),
                },
                content: record@.content,
                content_total_lines: loaded_lines(record@.content_total_lines),
                link: record@.link,
                published,
                read: record@.read != 0,
            }),
    {
        let lines = record.content_total_lines;
        RssEntry {
            id: record.id,
            title: record.title,
            authors: match authors {
                Some(names) => names,
                None => Vec::new(),
            },
            content: record.content,
            content_total_lines: if lines < 0 {
                0
            } else if lines as u64 > usize::MAX as u64 {
                usize::MAX
            } else {
                lines as usize
            },
            link: record.link,
            published,
            read: record.read != 0,
        }
    }

    /// The entry read from a row.
    pub fn from_record(record: EntryRecord) -> (entry: RssEntry)
        ensures
            entry@ == entry_of_record(record@),
    {
        let authors = authors_from_json(record.authors.as_str());
        let published = parse_rfc3339(record.published.as_str());
        RssEntry::from_record_with(record, authors, published)
    }
}

impl RssFeed {
    /// The row to write for this feed.
    pub fn to_record(&self) -> (record: FeedRecord)
        ensures
            record@ == record_of_feed(self@),
    {
        FeedRecord {
            id: self.id.clone(),
            title: self.title.clone(),
            link: self.link.clone(),
            expanded: if self.expanded {
                1
            } else {
                0
            },
        }
    }

    /// The rows to write for the entries of this feed, in their order. It is
    /// an error if the authors of one of them cannot be written as JSON.
    pub fn entry_records(&self) -> (result: Result<Vec<EntryRecord>, String>)
        ensures
            match records_of_entries(self@.entries, self@.id, self@.entries.len() as int) {
                Some(records) => result is Ok && record_views(result->Ok_0@) == records,
                None => result is Err && result->Err_0@ == authors_failed_message(),
            },
    {
        let mut records: Vec<EntryRecord> = Vec::new();
        let mut i: usize = 0;
        while i < self.rss_entries.len()
            invariant
                i <= self.rss_entries.len(),
                records_of_entries(self@.entries, self@.id, i as int) == Some(
                    record_views(records@),
                ),
            decreases self.rss_entries.len() - i,
        {
            let ghost before = record_views(records@);
            match self.rss_entries[i].to_record(&self.id) {
                Ok(record) => {
                    records.push(record);
                    proof {
                        assert(record_views(records@) =~= before.push(record@));
                    }
                },
                Err(message) => {
                    proof {
                        lemma_records_fail(self@.entries, self@.id, i as int, self@.entries.len() as int);
                    }
                    return Err(message);
                },
            }
            i += 1;
        }
        Ok(records)
    }

    /// The feed read from its row and the rows of its entries: the entries
    /// are put newest first.
    pub fn from_records(feed: FeedRecord, entries: Vec<EntryRecord>) -> (loaded: RssFeed)
        ensures
            loaded@ == feed_of_records(feed@, record_views(entries@)),
    {
        let ghost views = record_views(entries@);
        let mut rss_entries: Vec<RssEntry> = Vec::new();
        for record in it: entries
            invariant
                record_views(it.seq()) == views,
                entry_views(rss_entries@) == entries_of_records(views.take(it.index() as int)),
        {
            let ghost before = entry_views(rss_entries@);
            let entry = RssEntry::from_record(record);
            rss_entries.push(entry);
            proof {
                assert(entry_views(rss_entries@) =~= before.push(entry@));
                assert(entries_of_records(views.take(it.index() + 1)) =~= before.push(entry@));
            }
        }
        proof {
            assert(views.take(views.len() as int) =~= views);
        }
        sort_entries(&mut rss_entries);
        RssFeed {
            id: feed.id,
            title: feed.title,
            link: feed.link,
            rss_entries,
            expanded: feed.expanded != 0,
        }
    }
}

/// The feeds read from the rows of the store, each feed's row with the rows
/// of its entries: the feeds are put in the order of their titles.
pub open spec fn feeds_of_records(rows: Seq<(FeedRecord, Vec<EntryRecord>)>) -> Seq<FeedView> {
    sort_by(
        rows.map_values(
            |r: (FeedRecord, Vec<EntryRecord>)| feed_of_records(r.0@, record_views(r.1@)),
        ),
        by_title(),
    )
}

/// The feeds read from the rows of the store, each feed's row with the rows
/// of its entries, in whatever order the store gave them: the feeds are put
/// in the order of their titles, the entries of each newest first.
pub fn feeds_from_records(rows: Vec<(FeedRecord, Vec<EntryRecord>)>) -> (feeds: Vec<RssFeed>)
    ensures
        feed_views(feeds@) == feeds_of_records(rows@),
{
    let ghost read = rows@.map_values(
        |r: (FeedRecord, Vec<EntryRecord>)| feed_of_records(r.0@, record_views(r.1@)),
    );
    let mut feeds: Vec<RssFeed> = Vec::new();
    for row in it: rows
        invariant
            it.seq().map_values(
                |r: (FeedRecord, Vec<EntryRecord>)| feed_of_records(r.0@, record_views(r.1@)),
            ) == read,
            feed_views(feeds@) == read.take(it.index() as int),
    {
        let ghost before = feed_views(feeds@);
        let (feed, entries) = row;
        let loaded = RssFeed::from_records(feed, entries);
        feeds.push(loaded);
        proof {
            assert(feed_views(feeds@) =~= before.push(loaded@));
            assert(read.take(it.index() + 1) =~= before.push(loaded@));
        }
    }
    proof {
        assert(read.take(read.len() as int) =~= read);
    }
    sort_feeds(&mut feeds);
    feeds
}

/// If the row of one entry cannot be written, the rows of no longer run of
/// entries can.
pub proof fn lemma_records_fail(entries: Seq<EntryView>, rss_feed_id: Seq<char>, i: int, n: int)
    requires
        0 <= i < n,
        record_of_entry(entries[i], rss_feed_id) is None,
    ensures
        records_of_entries(entries, rss_feed_id, n) is None,
    decreases n,
{
    if n > i + 1 {
        lemma_records_fail(entries, rss_feed_id, i, n - 1);
    }
}

/// The rows written for entries are one per entry, in the entries' order.
pub proof fn lemma_records_of_entries(entries: Seq<EntryView>, rss_feed_id: Seq<char>, n: int)
    requires
        0 <= n,
        records_of_entries(entries, rss_feed_id, n) is Some,
    ensures
        records_of_entries(entries, rss_feed_id, n)->0.len() == n,
        forall|i: int|
            0 <= i < n ==> record_of_entry(entries[i], rss_feed_id) == Some(
                #[trigger] records_of_entries(entries, rss_feed_id, n)->0[i],
            ),
    decreases n,
{
    if n > 0 {
        lemma_records_of_entries(entries, rss_feed_id, n - 1);
    }
}

/// A feed that is written as rows and read from these rows comes back with
/// its id, title, link and expansion, and with as many entries, which are
/// its entries by id, title, text, link and read mark, put newest first by
/// the times that were read.
pub proof fn lemma_feed_comes_back(feed: FeedView)
    requires
        records_of_entries(feed.entries, feed.id, feed.entries.len() as int) is Some,
    ensures
        ({
            let rows = records_of_entries(feed.entries, feed.id, feed.entries.len() as int)->0;
            let read = entries_of_records(rows);
            let loaded = feed_of_records(record_of_feed(feed), rows);
            &&& loaded.id == feed.id
            &&& loaded.title == feed.title
            &&& loaded.link == feed.link
            &&& loaded.expanded == feed.expanded
            &&& loaded.entries == sort_by(read, newest_first())
            &&& loaded.entries.to_multiset() == read.to_multiset()
            &&& read.len() == feed.entries.len()
            &&& forall|i: int|
                0 <= i < feed.entries.len() ==> {
                    &&& (#[trigger] read[i]).id == feed.entries[i].id
                    &&& read[i].title == feed.entries[i].title
                    &&& read[i].content == feed.entries[i].content
                    &&& read[i].link == feed.entries[i].link
                    &&& read[i].read == feed.entries[i].read
                }
        }),
{
    let n = feed.entries.len() as int;
    lemma_records_of_entries(feed.entries, feed.id, n);
    let rows = records_of_entries(feed.entries, feed.id, n)->0;
    let read = entries_of_records(rows);
    crate::order::lemma_sort_permutes(read, newest_first());
    assert forall|i: int| 0 <= i < n implies (#[trigger] read[i]).id == feed.entries[i].id
        && read[i].title == feed.entries[i].title && read[i].content == feed.entries[i].content
        && read[i].link == feed.entries[i].link && read[i].read == feed.entries[i].read by {
        assert(record_of_entry(feed.entries[i], feed.id) == Some(rows[i]));
    }
}

/// Whether the reader of the store reads back what the writer wrote of an
/// entry's authors and time: the JSON written for the authors reads as these
/// authors, and the text written for the time reads as this time.
pub open spec fn reads_back(entry: EntryView) -> bool {
    &&& match json_of_authors(entry.authors) {
        Some(json) => authors_of_json(json) == Some(entry.authors),
        None => false,
    }
    &&& time_of_rfc3339(published_text(entry.published)) == entry.published
}

/// An entry that is written as a row and read from that row comes back as it
/// was, in every field, if the reader reads back what the writer wrote of
/// its authors and time and the store can hold its number of lines. Its id,
/// title, text, link and read mark come back in any case.
pub proof fn lemma_entry_comes_back(entry: EntryView, rss_feed_id: Seq<char>)
    ensures
        match record_of_entry(entry, rss_feed_id) {
            Some(row) => {
                let read = entry_of_record(row);
                &&& row.rss_feed_id == rss_feed_id
                &&& read.id == entry.id
                &&& read.title == entry.title
                &&& read.content == entry.content
                &&& read.link == entry.link
                &&& read.read == entry.read
                &&& entry.content_total_lines <= i64::MAX ==> read.content_total_lines
                    == entry.content_total_lines
                &&& reads_back(entry) ==> read.authors == entry.authors && read.published
                    == entry.published
                &&& reads_back(entry) && entry.content_total_lines <= i64::MAX ==> read == entry
            },
            None => !reads_back(entry),
        },
{
}

/// Whether every entry of the feed can be brought back from the store: the
/// reader reads back what the writer wrote of its authors and time, and the
/// store can hold its number of lines.
pub open spec fn storable(feed: FeedView) -> bool {
    forall|i: int|
        0 <= i < feed.entries.len() ==> reads_back(#[trigger] feed.entries[i])
            && feed.entries[i].content_total_lines <= i64::MAX
}

/// A feed that is written as rows and read from these rows comes back as it
/// was, with every entry in every field and in its place, if its entries are
/// newest first and every one of them can be brought back.
pub proof fn lemma_feed_comes_back_whole(feed: FeedView)
    ensures
        storable(feed) && sorted_by(feed.entries, newest_first()) ==> {
            let rows = records_of_entries(feed.entries, feed.id, feed.entries.len() as int);
            rows is Some && feed_of_records(record_of_feed(feed), rows->0) == feed
        },
{
    let n = feed.entries.len() as int;
    if storable(feed) && sorted_by(feed.entries, newest_first()) {
        lemma_all_written(feed.entries, feed.id, n);
        let rows = records_of_entries(feed.entries, feed.id, n);
        lemma_records_of_entries(feed.entries, feed.id, n);
        let read = entries_of_records(rows->0);
        assert forall|i: int| 0 <= i < n implies read[i] == feed.entries[i] by {
            assert(record_of_entry(feed.entries[i], feed.id) == Some(rows->0[i]));
            assert(reads_back(feed.entries[i]));
            lemma_entry_comes_back(feed.entries[i], feed.id);
        }
        assert(read =~= feed.entries);
        crate::order::lemma_sort_of_sorted(feed.entries, newest_first());
    }
}

/// The rows of entries can be written if the authors of each can.
proof fn lemma_all_written(entries: Seq<EntryView>, rss_feed_id: Seq<char>, n: int)
    requires
        0 <= n <= entries.len(),
        forall|i: int| 0 <= i < n ==> json_of_authors((#[trigger] entries[i]).authors) is Some,
    ensures
        records_of_entries(entries, rss_feed_id, n) is Some,
    decreases n,
{
    if n > 0 {
        lemma_all_written(entries, rss_feed_id, n - 1);
    }
}

} // verus!
