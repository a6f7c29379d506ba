//! The results of background work, and what they do to the state.

use crate::app::{App, AppView, Effect, EffectView, Step};
use crate::document::{feed_of, FeedDocument, FeedDocumentView};
use crate::model::{feed_views, EntryView, FeedView, PopupState, RssFeed};
use crate::order::{by_title, sort_by, sort_feeds, sorted_by};
use crate::order::{lemma_by_title_ranks, lemma_sort_permutes, lemma_sort_sorted};
use vstd::prelude::*;

verus! {

/// The result of work that the host did in the background.
#[derive(Debug, PartialEq, Eq)]
pub enum AppEvent {
    /// A feed was fetched from the address and parsed, or that failed.
    FeedFetched(Result<FeedDocument, String>, String),
    /// The full text of an entry was fetched and rendered, or that failed.
    ScrapedEntry { rss_feed_index: usize, rss_entry_index: usize, result: Result<String, String> },
    /// A copy of the feeds was synchronised, or that failed.
    SyncFinished(Result<Vec<RssFeed>, String>),
}

/// The mathematical value of an [`AppEvent`].
pub enum AppEventView {
    FeedFetched(Result<FeedDocumentView, Seq<char>>, Seq<char>),
    ScrapedEntry {
        rss_feed_index: usize,
        rss_entry_index: usize,
        result: Result<Seq<char>, Seq<char>>,
    },
    SyncFinished(Result<Seq<FeedView>, Seq<char>>),
}

impl View for AppEvent {
    type V = AppEventView;

    open spec fn view(&self) -> AppEventView {
        match *self {
            AppEvent::FeedFetched(Ok(document), url) => AppEventView::FeedFetched(
                Ok(document@),
                url@,
            ),
            AppEvent::FeedFetched(Err(message), url) => AppEventView::FeedFetched(
                Err(message@),
                url@,
            ),
            AppEvent::ScrapedEntry { rss_feed_index, rss_entry_index, result: Ok(content) } =>
                AppEventView::ScrapedEntry { rss_feed_index, rss_entry_index, result: Ok(content@) },
            AppEvent::ScrapedEntry { rss_feed_index, rss_entry_index, result: Err(message) } =>
                AppEventView::ScrapedEntry { rss_feed_index, rss_entry_index, result: Err(message@) },
            AppEvent::SyncFinished(Ok(feeds)) => AppEventView::SyncFinished(Ok(feed_views(feeds@))),
            AppEvent::SyncFinished(Err(message)) => AppEventView::SyncFinished(Err(message@)),
        }
    }
}

/// The index of the first feed with the given id; the number of feeds if
/// there is none.
pub open spec fn first_with_id(feeds: Seq<FeedView>, id: Seq<char>) -> int
    decreases feeds.len(),
{
    if feeds.len() == 0 {
        0
    } else if feeds[0].id == id {
        0
    } else {
        1 + first_with_id(feeds.drop_first(), id)
    }
}

/// Whether a feed with the given id is among the feeds.
pub open spec fn has_feed(feeds: Seq<FeedView>, id: Seq<char>) -> bool {
    first_with_id(feeds, id) < feeds.len()
}

/// The message shown when a feed that is already there is added again.
pub open spec fn duplicate_message(title: Seq<char>) -> Seq<char> {
    "failed to add "@ + title + ": feed already exists"@
}

/// The message shown when a synchronisation failed.
pub open spec fn sync_failed_message(cause: Seq<char>) -> Seq<char> {
    "Sync failed: "@ + cause
}

/// The feeds with the text of one entry replaced.
pub open spec fn set_content(
    feeds: Seq<FeedView>,
    feed: int,
    entry: int,
    content: Seq<char>,
) -> Seq<FeedView> {
    feeds.update(
        feed,
        FeedView {
            entries: feeds[feed].entries.update(
                entry,
                EntryView { content, ..feeds[feed].entries[entry] },
            ),
            ..feeds[feed]
        },
    )
}

impl AppView {
    /// The error popup opened on `message`.
    pub open spec fn report_error(self, message: Seq<char>) -> AppView {
        AppView { error_message: Some(message), popup: PopupState::Error, ..self }
    }

    /// A feed taken into the list, with `link` as the address it is fetched
    /// from: the list is sorted by title again and the feed is to be stored.
    /// A feed whose id is in the list already is refused with a message.
    pub open spec fn add_feed(self, feed: FeedView, link: Seq<char>) -> Step {
        if has_feed(self.rss_feeds, feed.id) {
            self.report_error(duplicate_message(feed.title)).stay()
        } else {
            let feeds = sort_by(self.rss_feeds.push(FeedView { link, ..feed }), by_title());
            (AppView { rss_feeds: feeds, ..self }).then_do(
                EffectView::SaveFeed(first_with_id(feeds, feed.id) as usize),
            )
        }
    }

    /// The text of an entry replaced by what was fetched, and any error
    /// message dropped; the entry is to be stored. Nothing happens if the
    /// entry is no longer there.
    pub open spec fn set_entry_content(self, f: usize, e: usize, content: Seq<char>) -> Step {
        if self.has_entry(f, e) {
            (AppView {
                rss_feeds: set_content(self.rss_feeds, f as int, e as int, content),
                error_message: None,
                ..self
            }).then_do(EffectView::SaveEntry(f, e))
        } else {
            self.stay()
        }
    }

    /// The end of a synchronisation: the popup closes; on success the feeds
    /// are replaced by the synchronised ones, which are to be stored; on
    /// failure the cause is shown.
    pub open spec fn finish_sync(self, result: Result<Seq<FeedView>, Seq<char>>) -> Step {
        let idle = AppView { popup: PopupState::Closed, syncing: false, ..self };
        match result {
            Ok(feeds) => (AppView { rss_feeds: feeds, ..idle }).then_do(EffectView::SaveAllFeeds),
            Err(cause) => idle.report_error(sync_failed_message(cause)).stay(),
        }
    }

    /// The transition on the result of background work.
    pub open spec fn event(self, event: AppEventView) -> Step {
        match event {
            AppEventView::ScrapedEntry { rss_feed_index, rss_entry_index, result } => match result {
                Ok(content) => self.set_entry_content(rss_feed_index, rss_entry_index, content),
                Err(message) => self.report_error(message).stay(),
            },
            AppEventView::FeedFetched(Ok(document), url) => self.add_feed(feed_of(document), url),
            AppEventView::FeedFetched(Err(message), _) => self.report_error(message).stay(),
            AppEventView::SyncFinished(result) => self.finish_sync(result),
        }
    }
}

/// Three strings one after the other.
fn join3(a: &str, b: &str, c: &str) -> (s: String)
    ensures
        s@ == a@ + b@ + c@,
{
    let mut s = String::from_str(a);
    s.append(b);
    s.append(c);
    s
}

impl App {
    /// The index of the first feed with the given id; the number of feeds if
    /// there is none.
    pub fn find_feed(&self, id: &String) -> (index: usize)
        ensures
            index == first_with_id(self@.rss_feeds, id@),
            index <= self.rss_feeds.len(),
    {
        let ghost feeds = self@.rss_feeds;
        let mut i: usize = 0;
        proof {
            assert(feeds.skip(0) == feeds);
        }
        while i < self.rss_feeds.len() && self.rss_feeds[i].id != *id
            invariant
                i <= self.rss_feeds.len(),
                feeds == self@.rss_feeds,
                first_with_id(feeds, id@) == i + first_with_id(feeds.skip(i as int), id@),
            decreases self.rss_feeds.len() - i,
        {
            proof {
                assert(feeds.skip(i as int).drop_first() == feeds.skip(i + 1));
            }
            i += 1;
        }
        i
    }

    /// Opens the error popup on a message; the host calls this when the
    /// store fails.
    pub fn report_error(&mut self, message: String)
        ensures
            final(self)@ == old(self)@.report_error(message@),
    {
        self.error_message = Some(message);
        self.popup = PopupState::Error;
    }

    /// Takes a parsed feed into the list, with `link` as the address it is
    /// fetched from, unless a feed with its id is there already.
    pub fn add_feed(&mut self, feed: RssFeed, link: String) -> (effect: Effect)
        ensures
            final(self)@ == old(self)@.add_feed(feed@, link@).state,
            effect@ == old(self)@.add_feed(feed@, link@).effect,
    {
        let mut feed = feed;
        if self.find_feed(&feed.id) < self.rss_feeds.len() {
            let message = join3("failed to add ", feed.title.as_str(), ": feed already exists");
            self.report_error(message);
            Effect::Nothing
        } else {
            let id = feed.id.clone();
            feed.link = link;
            let ghost pushed = self@.rss_feeds.push(feed@);
            self.rss_feeds.push(feed);
            proof {
                assert(feed_views(self.rss_feeds@) =~= pushed);
            }
            sort_feeds(&mut self.rss_feeds);
            Effect::SaveFeed(self.find_feed(&id))
        }
    }

    /// Handles the result of background work.
    pub fn handle_app_event(&mut self, app_event: AppEvent) -> (effect: Effect)
        ensures
            final(self)@ == old(self)@.event(app_event@).state,
            effect@ == old(self)@.event(app_event@).effect,
    {
        match app_event {
            AppEvent::ScrapedEntry { rss_feed_index, rss_entry_index, result } => match result {
                Ok(content) => {
                    if rss_feed_index < self.rss_feeds.len() && rss_entry_index
                        < self.rss_feeds[rss_feed_index].rss_entries.len() {
                        self.rss_feeds[rss_feed_index].rss_entries[rss_entry_index].content =
                            content;
                        self.error_message = None;
                        proof {
                            let f = rss_feed_index as int;
                            let replaced = set_content(
                                old(self)@.rss_feeds,
                                f,
                                rss_entry_index as int,
                                content@,
                            );
                            assert(self@.rss_feeds[f].entries =~= replaced[f].entries);
                            assert(self@.rss_feeds =~= replaced);
                        }
                        Effect::SaveEntry(rss_feed_index, rss_entry_index)
                    } else {
                        Effect::Nothing
                    }
                },
                Err(message) => {
                    self.report_error(message);
                    Effect::Nothing
                },
            },
            AppEvent::FeedFetched(Ok(document), url) => {
                let feed = RssFeed::from(document);
                self.add_feed(feed, url)
            },
            AppEvent::FeedFetched(Err(message), _) => {
                self.report_error(message);
                Effect::Nothing
            },
            AppEvent::SyncFinished(result) => {
                self.popup = PopupState::Closed;
                self.syncing = false;
                match result {
                    Ok(rss_feeds) => {
                        self.rss_feeds = rss_feeds;
                        Effect::SaveAllFeeds
                    },
                    Err(cause) => {
                        let mut message = String::from_str("Sync failed: ");
                        message.append(cause.as_str());
                        self.report_error(message);
                        Effect::Nothing
                    },
                }
            },
        }
    }
}

/// What `first_with_id` finds: a feed with the id, before which no feed has
/// it; or no feed at all if none has it.
pub proof fn lemma_first_with_id(feeds: Seq<FeedView>, id: Seq<char>)
    ensures
        0 <= first_with_id(feeds, id) <= feeds.len(),
        has_feed(feeds, id) ==> feeds[first_with_id(feeds, id)].id == id,
        forall|j: int| 0 <= j < first_with_id(feeds, id) ==> (#[trigger] feeds[j]).id != id,
    decreases feeds.len(),
{
    if feeds.len() > 0 && feeds[0].id != id {
        let rest = feeds.drop_first();
        lemma_first_with_id(rest, id);
        assert forall|j: int| 0 <= j < first_with_id(feeds, id) implies (#[trigger] feeds[j]).id
            != id by {
            if j > 0 {
                assert(rest[j - 1] == feeds[j]);
            }
        }
    }
}

/// A feed whose id is new is taken into the list: the list then holds the
/// feeds it held and the new one with its address, sorted by title, and the
/// feed that the host is asked to store is the new one.
pub proof fn lemma_added_feed_is_stored(s: AppView, feed: FeedView, link: Seq<char>)
    requires
        !has_feed(s.rss_feeds, feed.id),
        s.rss_feeds.len() < usize::MAX,
    ensures
        ({
            let added = FeedView { link, ..feed };
            let step = s.add_feed(feed, link);
            let feeds = step.state.rss_feeds;
            &&& sorted_by(feeds, by_title())
            &&& feeds.to_multiset() == s.rss_feeds.push(added).to_multiset()
            &&& feeds.len() == s.rss_feeds.len() + 1
            &&& step.effect matches EffectView::SaveFeed(i) && i < feeds.len() && feeds[i as int]
                == added
        }),
{
    let added = FeedView { link, ..feed };
    let pushed = s.rss_feeds.push(added);
    let feeds = sort_by(pushed, by_title());
    lemma_by_title_ranks();
    lemma_sort_sorted(pushed, by_title());
    lemma_sort_permutes(pushed, by_title());
    lemma_first_with_id(feeds, feed.id);
    lemma_first_with_id(s.rss_feeds, feed.id);
    // the new feed is in the sorted list
    assert(pushed[pushed.len() - 1] == added);
    assert(pushed.contains(added));
    vstd::seq_lib::to_multiset_contains(pushed, added);
    vstd::seq_lib::to_multiset_contains(feeds, added);
    let j = choose|j: int| 0 <= j < feeds.len() && feeds[j] == added;
    let k = first_with_id(feeds, feed.id);
    if k > j {
        assert(feeds[j].id != feed.id);
    }
    // and no other feed of the sorted list has its id
    let found = feeds[k];
    assert(feeds.contains(found));
    vstd::seq_lib::to_multiset_contains(feeds, found);
    vstd::seq_lib::to_multiset_contains(pushed, found);
    let m = choose|m: int| 0 <= m < pushed.len() && pushed[m] == found;
    if m < s.rss_feeds.len() {
        assert(s.rss_feeds[m] == found);
    }
}

/// Whatever the result of background work changes of the feeds, the host is
/// asked to bring to the store: an added feed is stored, an entry whose text
/// was replaced is stored, synchronised feeds are all stored. With no effect
/// the feeds are as they were.
pub proof fn lemma_event_changes_are_stored(s: AppView, event: AppEventView)
    ensures
        ({
            let step = s.event(event);
            let feeds = step.state.rss_feeds;
            match step.effect {
                EffectView::SaveFeed(_) => event matches AppEventView::FeedFetched(
                    Ok(document),
                    url,
                ) && feeds == sort_by(
                    s.rss_feeds.push(FeedView { link: url, ..feed_of(document) }),
                    by_title(),
                ),
                EffectView::SaveEntry(f, e) => event matches AppEventView::ScrapedEntry {
                    result: Ok(content),
                    ..
                } && s.has_entry(f, e) && feeds == set_content(s.rss_feeds, f as int, e as int, content),
                EffectView::SaveAllFeeds => event == AppEventView::SyncFinished(Ok(feeds)),
                _ => feeds == s.rss_feeds,
            }
        }),
{
}

/// Whether no two of the feeds have the same id.
pub open spec fn distinct_ids(feeds: Seq<FeedView>) -> bool {
    forall|i: int, j: int|
        0 <= i < j < feeds.len() ==> (#[trigger] feeds[i]).id != (#[trigger] feeds[j]).id
}

/// Sorting feeds leaves their ids distinct.
pub proof fn lemma_sort_keeps_ids_distinct(feeds: Seq<FeedView>)
    requires
        distinct_ids(feeds),
    ensures
        distinct_ids(sort_by(feeds, by_title())),
    decreases feeds.len(),
{
    if feeds.len() > 0 {
        let front = feeds.drop_last();
        let x = feeds.last();
        assert forall|i: int, j: int| 0 <= i < j < front.len() implies (#[trigger] front[i]).id != (
        #[trigger] front[j]).id by {
            assert(feeds[i].id != feeds[j].id);
        }
        lemma_sort_keeps_ids_distinct(front);
        let rest = sort_by(front, by_title());
        lemma_sort_permutes(front, by_title());
        crate::order::lemma_insert_place(rest, x, by_title());
        let at = crate::order::insert_place(rest, x, by_title());
        let sorted = rest.insert(at, x);
        // no feed of `rest` has the id of `x`
        assert forall|k: int| 0 <= k < rest.len() implies (#[trigger] rest[k]).id != x.id by {
            let y = rest[k];
            assert(rest.contains(y));
            vstd::seq_lib::to_multiset_contains(rest, y);
            vstd::seq_lib::to_multiset_contains(front, y);
            let m = choose|m: int| 0 <= m < front.len() && front[m] == y;
            assert(feeds[m].id != feeds[feeds.len() - 1].id);
        }
        assert forall|i: int, j: int| 0 <= i < j < sorted.len() implies (#[trigger] sorted[i]).id
            != (#[trigger] sorted[j]).id by {
            let a = if i < at { i } else { i - 1 };
            let b = if j < at { j } else { j - 1 };
            if i == at {
                assert(rest[b].id != x.id);
            } else if j == at {
                assert(rest[a].id != x.id);
            } else {
                assert(rest[a].id != rest[b].id);
            }
        }
    }
}

/// Taking a feed into the list leaves the ids of the feeds distinct: a feed
/// whose id is in the list is refused.
pub proof fn lemma_add_keeps_ids_distinct(s: AppView, feed: FeedView, link: Seq<char>)
    requires
        distinct_ids(s.rss_feeds),
    ensures
        distinct_ids(s.add_feed(feed, link).state.rss_feeds),
{
    if !has_feed(s.rss_feeds, feed.id) {
        lemma_first_with_id(s.rss_feeds, feed.id);
        let pushed = s.rss_feeds.push(FeedView { link, ..feed });
        assert forall|i: int, j: int| 0 <= i < j < pushed.len() implies (#[trigger] pushed[i]).id
            != (#[trigger] pushed[j]).id by {
            if j < s.rss_feeds.len() {
                assert(s.rss_feeds[i].id != s.rss_feeds[j].id);
            } else {
                assert(s.rss_feeds[i].id != feed.id);
            }
        }
        lemma_sort_keeps_ids_distinct(pushed);
    }
}

} // verus!
