//! Feeds, entries and the rows derived from them.

use vstd::prelude::*;

verus! {

/// A point in time: seconds since the Unix epoch and the nanoseconds within
/// that second.
#[derive(Clone, Copy, Debug, PartialEq, Eq, Structural)]
pub struct Timestamp {
    pub secs: i64,
    pub nanos: u32,
}

impl Timestamp {
    /// The position of this instant on the time line; a later instant has a
    /// larger key.
    pub open spec fn key(self) -> int {
        self.secs * 0x1_0000_0000 + self.nanos
    }

    /// The earliest instant that can be represented.
    pub open spec fn spec_min() -> Timestamp {
        Timestamp { secs: i64::MIN, nanos: 0 }
    }

    /// The earliest instant that can be represented.
    #[verifier::when_used_as_spec(spec_min)]
    pub fn min() -> (t: Timestamp)
        ensures
            t == Timestamp::spec_min(),
    {
        Timestamp { secs: i64::MIN, nanos: 0 }
    }

    /// Whether `self` is strictly later than `other`.
    pub fn is_after(&self, other: &Timestamp) -> (r: bool)
        ensures
            r == (self.key() > other.key()),
    {
        self.secs > other.secs || (self.secs == other.secs && self.nanos > other.nanos)
    }
}

/// The ordering key of an optional publication time: an absent time counts
/// as the earliest instant.
pub open spec fn published_key(published: Option<Timestamp>) -> int {
    match published {
        Some(t) => t.key(),
        None => Timestamp::spec_min().key(),
    }
}

/// An entry of a feed, such as an article.
#[derive(Clone, Debug, PartialEq, Eq)]
pub struct RssEntry {
    pub id: String,
    pub title: String,
    pub authors: Vec<String>,
    pub content: String,
    pub content_total_lines: usize,
    pub link: String,
    pub published: Option<Timestamp>,
    pub read: bool,
}

/// The mathematical value of an [`RssEntry`].
#[verifier::ext_equal]
pub struct EntryView {
    pub id: Seq<char>,
    pub title: Seq<char>,
    pub authors: Seq<Seq<char>>,
    pub content: Seq<char>,
    pub content_total_lines: usize,
    pub link: Seq<char>,
    pub published: Option<Timestamp>,
    pub read: bool,
}

impl View for RssEntry {
    type V = EntryView;

    open spec fn view(&self) -> EntryView {
        EntryView {
            id: self.id@,
            title: self.title@,
            authors: self.authors.deep_view(),
            content: self.content@,
            content_total_lines: self.content_total_lines,
            link: self.link@,
            published: self.published,
            read: self.read,
        }
    }
}

/// A web feed with its entries, newest first.
#[derive(Clone, Debug, PartialEq, Eq)]
pub struct RssFeed {
    pub id: String,
    pub title: String,
    pub link: String,
    pub rss_entries: Vec<RssEntry>,
    pub expanded: bool,
}

/// The mathematical value of an [`RssFeed`].
#[verifier::ext_equal]
pub struct FeedView {
    pub id: Seq<char>,
    pub title: Seq<char>,
    pub link: Seq<char>,
    pub entries: Seq<EntryView>,
    pub expanded: bool,
}

/// The values of a sequence of entries, in order.
pub open spec fn entry_views(entries: Seq<RssEntry>) -> Seq<EntryView> {
    entries.map_values(|e: RssEntry| e@)
}

impl View for RssFeed {
    type V = FeedView;

    open spec fn view(&self) -> FeedView {
        FeedView {
            id: self.id@,
            title: self.title@,
            link: self.link@,
            entries: entry_views(self.rss_entries@),
            expanded: self.expanded,
        }
    }
}

/// The values of a sequence of feeds, in order.
pub open spec fn feed_views(feeds: Seq<RssFeed>) -> Seq<FeedView> {
    feeds.map_values(|f: RssFeed| f@)
}

/// A line of the feed list: a feed, or an entry of an expanded feed.
#[derive(Clone, Copy, Debug, PartialEq, Eq, Structural)]
pub enum Row {
    /// The feed at this index.
    RssFeed(usize),
    /// The entry at the second index of the feed at the first index.
    RssEntry(usize, usize),
}

/// Which screen is shown.
#[derive(Clone, Copy, Debug, PartialEq, Eq, Structural)]
pub enum ViewState {
    /// The list of feeds with the entries of the expanded ones.
    RssFeeds,
    /// The content of one entry.
    RssEntry { rss_feed_index: usize, rss_entry_index: usize },
}

impl Default for ViewState {
    fn default() -> (v: ViewState)
        ensures
            v == ViewState::RssFeeds,
    {
        ViewState::RssFeeds
    }
}

/// Which popup, if any, lies over the screen and takes the keys.
#[derive(Clone, Copy, Debug, PartialEq, Eq, Structural)]
pub enum PopupState {
    /// No popup is shown; the keys go to the screen.
    Closed,
    /// Takes the address of a feed to add.
    AddRssFeed,
    /// Asks whether the feed under the cursor is to be deleted.
    ConfirmDeleteRssFeed,
    /// Shows an error message.
    Error,
    /// Lists the keys of the entry screen.
    RssEntryHelp,
    /// Lists the keys of the feed list.
    RssFeedHelp,
    /// Shown while feeds are being synchronised.
    Syncing,
}

/// The rows that the feed at `index` contributes: its own row, followed by
/// one row per entry when it is expanded.
pub open spec fn feed_block(index: int, feed: FeedView) -> Seq<Row> {
    seq![Row::RssFeed(index as usize)] + if feed.expanded {
        Seq::new(feed.entries.len(), |e: int| Row::RssEntry(index as usize, e as usize))
    } else {
        Seq::empty()
    }
}

/// The rows of a feed list: the blocks of its feeds, in order.
pub open spec fn rows_of(feeds: Seq<FeedView>) -> Seq<Row>
    decreases feeds.len(),
{
    if feeds.len() == 0 {
        Seq::empty()
    } else {
        rows_of(feeds.drop_last()) + feed_block(feeds.len() - 1, feeds.last())
    }
}

/// Whether a row names a feed, or an entry, that exists in `feeds`.
pub open spec fn row_valid(feeds: Seq<FeedView>, row: Row) -> bool {
    match row {
        Row::RssFeed(f) => f < feeds.len(),
        Row::RssEntry(f, e) => f < feeds.len() && e < feeds[f as int].entries.len(),
    }
}

/// The feed that a row belongs to.
pub open spec fn row_feed(row: Row) -> usize {
    match row {
        Row::RssFeed(f) => f,
        Row::RssEntry(f, _) => f,
    }
}

/// Builds the rows of a feed list.
pub fn rows_for(feeds: &Vec<RssFeed>) -> (rows: Vec<Row>)
    ensures
        rows@ == rows_of(feed_views(feeds@)),
{
    let ghost fv = feed_views(feeds@);
    let mut rows: Vec<Row> = Vec::new();
    let mut i: usize = 0;
    while i < feeds.len()
        invariant
            i <= feeds.len(),
            fv == feed_views(feeds@),
            rows@ == rows_of(fv.take(i as int)),
        decreases feeds.len() - i,
    {
        let ghost before = rows@;
        rows.push(Row::RssFeed(i));
        if feeds[i].expanded {
            let n = feeds[i].rss_entries.len();
            let mut e: usize = 0;
            while e < n
                invariant
                    e <= n,
                    i < feeds.len(),
                    n == feeds[i as int].rss_entries.len(),
                    rows@ == before + seq![Row::RssFeed(i)] + Seq::new(
                        e as nat,
                        |k: int| Row::RssEntry(i, k as usize),
                    ),
                decreases n - e,
            {
                rows.push(Row::RssEntry(i, e));
                e += 1;
            }
        }
        proof {
            let next = fv.take(i + 1);
            assert(next.drop_last() == fv.take(i as int));
            assert(next.last() == fv[i as int]);
            assert(fv[i as int].entries.len() == feeds[i as int].rss_entries.len());
            assert(rows@ == before + feed_block(i as int, fv[i as int]));
        }
        i += 1;
    }
    proof {
        assert(fv.take(feeds.len() as int) == fv);
    }
    rows
}

/// A feed list has at least one row for each feed, and has no row only if
/// it has no feed.
pub proof fn lemma_rows_len(feeds: Seq<FeedView>)
    ensures
        rows_of(feeds).len() >= feeds.len(),
        feeds.len() == 0 <==> rows_of(feeds).len() == 0,
    decreases feeds.len(),
{
    if feeds.len() > 0 {
        lemma_rows_len(feeds.drop_last());
    }
}

/// Whether the feeds and the entries of each can be counted by the indices
/// of rows, as those of every feed list in memory can.
pub open spec fn countable(feeds: Seq<FeedView>) -> bool {
    &&& feeds.len() <= usize::MAX
    &&& forall|f: int| 0 <= f < feeds.len() ==> (#[trigger] feeds[f]).entries.len() <= usize::MAX
}

/// The rows of the first `k` feeds are the first rows of all feeds.
pub proof fn lemma_rows_prefix(feeds: Seq<FeedView>, k: int)
    requires
        0 <= k <= feeds.len(),
    ensures
        rows_of(feeds.take(k)).len() <= rows_of(feeds).len(),
        rows_of(feeds.take(k)) == rows_of(feeds).take(rows_of(feeds.take(k)).len() as int),
    decreases feeds.len(),
{
    if k == feeds.len() {
        assert(feeds.take(k) == feeds);
        assert(rows_of(feeds).take(rows_of(feeds).len() as int) == rows_of(feeds));
    } else {
        let rest = feeds.drop_last();
        lemma_rows_prefix(rest, k);
        assert(rest.take(k) == feeds.take(k));
        let n = rows_of(feeds.take(k)).len() as int;
        assert(rows_of(rest).take(n) == rows_of(feeds).take(n));
    }
}

/// Where a row stands: the row of a feed stands behind the rows of the feeds
/// before it, and the row of an entry as many rows behind the row of its
/// feed as its index says, and one more. Every row names a feed, or an entry
/// of an expanded feed, that exists.
pub proof fn lemma_row_position(feeds: Seq<FeedView>, i: int)
    requires
        0 <= i < rows_of(feeds).len(),
        countable(feeds),
    ensures
        row_valid(feeds, rows_of(feeds)[i]),
        ({
            let f = row_feed(rows_of(feeds)[i]) as int;
            let start = rows_of(feeds.take(f)).len();
            match rows_of(feeds)[i] {
                Row::RssFeed(_) => i == start,
                Row::RssEntry(_, e) => i == start + 1 + e && feeds[f].expanded,
            }
        }),
    decreases feeds.len(),
{
    if feeds.len() > 0 {
        let rest = feeds.drop_last();
        if i < rows_of(rest).len() {
            lemma_row_position(rest, i);
            let row = rows_of(rest)[i];
            let f = row_feed(row) as int;
            assert(rows_of(feeds)[i] == row);
            assert(rest[f] == feeds[f]);
            assert(rest.take(f) == feeds.take(f));
        } else {
            let block = feed_block(feeds.len() - 1, feeds.last());
            assert(rows_of(feeds)[i] == block[i - rows_of(rest).len()]);
            assert(feeds.take(feeds.len() - 1) == rest);
        }
    }
}

/// Every row of a feed list names a feed, or an entry, of that list.
pub proof fn lemma_rows_valid(feeds: Seq<FeedView>, i: int)
    requires
        0 <= i < rows_of(feeds).len(),
        countable(feeds),
    ensures
        row_valid(feeds, rows_of(feeds)[i]),
{
    lemma_row_position(feeds, i);
}

/// The row of a feed stays where it is when the feed, or one behind it, is
/// expanded, collapsed or otherwise changed: only the feeds before it decide
/// where it stands.
pub proof fn lemma_feed_row_stays(before: Seq<FeedView>, after: Seq<FeedView>, f: int)
    requires
        0 <= f < before.len(),
        f < after.len(),
        before.take(f) == after.take(f),
    ensures
        rows_of(after).len() > rows_of(before.take(f)).len(),
{
    lemma_rows_prefix(after, f + 1);
    let upto = after.take(f + 1);
    assert(upto.drop_last() == after.take(f));
    assert(feed_block(f, upto.last()).len() >= 1);
}

} // verus!
