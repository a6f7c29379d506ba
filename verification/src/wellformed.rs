//! What holds of the feeds at all times: no two have the same id, and the
//! entries of each are newest first.

use crate::app::{AppView, EffectView, KeyEvent};
use crate::document::{entries_of, feed_of, FeedDocumentView};
use crate::event::{distinct_ids, has_feed, lemma_add_keeps_ids_distinct, AppEventView};
use crate::expiry::{kept, lemma_kept_stay_ordered};
use crate::feed_list::cursor_in_rows;
use crate::model::{countable, feed_block, lemma_feed_row_stays, lemma_row_position, rows_of};
use crate::model::{EntryView, FeedView, PopupState, Row, Timestamp, ViewState};
use crate::order::{by_title, lemma_newest_first_ranks, lemma_sort_permutes, lemma_sort_sorted};
use crate::order::{newest_first, sorted_by};
use crate::record::{entries_of_records, feed_of_records, EntryRecordView, FeedRecordView};
use crate::sync::{lemma_merged_is_ordered, synced};
use vstd::prelude::*;

verus! {

/// Whether the entries of a feed are newest first.
pub open spec fn feed_ordered(feed: FeedView) -> bool {
    sorted_by(feed.entries, newest_first())
}

/// Whether feeds are as a feed list has to be: no two with the same id, and
/// the entries of each newest first.
pub open spec fn feeds_wf(feeds: Seq<FeedView>) -> bool {
    &&& distinct_ids(feeds)
    &&& forall|i: int| 0 <= i < feeds.len() ==> feed_ordered(#[trigger] feeds[i])
}

/// A feed made of a parsed document has its entries newest first.
pub proof fn lemma_new_feed_is_ordered(document: FeedDocumentView)
    ensures
        feed_ordered(feed_of(document)),
{
    lemma_newest_first_ranks();
    lemma_sort_sorted(entries_of(document.entries), newest_first());
}

/// A feed read from the store has its entries newest first, in whatever
/// order the store gave their rows.
pub proof fn lemma_loaded_feed_is_ordered(feed: FeedRecordView, entries: Seq<EntryRecordView>)
    ensures
        feed_ordered(feed_of_records(feed, entries)),
{
    lemma_newest_first_ranks();
    lemma_sort_sorted(entries_of_records(entries), newest_first());
}

/// Synchronising a feed leaves its id as it is and its entries newest
/// first.
pub proof fn lemma_synced_feed_is_ordered(feed: FeedView, fetched: FeedDocumentView)
    ensures
        synced(feed, fetched).id == feed.id,
        feed_ordered(synced(feed, fetched)),
{
    lemma_merged_is_ordered(feed.entries, fetched.entries);
}

/// A feed whose old unread entries expire keeps its other entries newest
/// first.
pub proof fn lemma_expiry_keeps_order(feed: FeedView, cutoff: Timestamp)
    requires
        feed_ordered(feed),
    ensures
        feed_ordered(FeedView { entries: kept(feed.entries, cutoff), ..feed }),
{
    lemma_kept_stay_ordered(feed.entries, cutoff);
}

/// No key takes the feeds out of the state that a feed list has to be in.
pub proof fn lemma_key_keeps_feeds_wf(s: AppView, key: KeyEvent, rows: Seq<Row>)
    requires
        feeds_wf(s.rss_feeds),
    ensures
        feeds_wf(s.key(key, rows).state.rss_feeds),
{
    crate::popup::lemma_key_changes_are_stored(s, key, rows);
    let step = s.key(key, rows);
    let feeds = step.state.rss_feeds;
    match step.effect {
        EffectView::SaveFeed(f) => {
            assert forall|i: int| 0 <= i < feeds.len() implies feed_ordered(
                #[trigger] feeds[i],
            ) by {
                assert(feed_ordered(s.rss_feeds[i]));
            }
        },
        EffectView::SaveEntry(f, e) => {
            assert forall|i: int| 0 <= i < feeds.len() implies feed_ordered(
                #[trigger] feeds[i],
            ) by {
                assert(feed_ordered(s.rss_feeds[i]));
                if i == f {
                    lemma_same_times_same_order(s.rss_feeds[i].entries, feeds[i].entries);
                }
            }
        },
        EffectView::DeleteFeed(id) => {
            let k = choose|k: int|
                0 <= k < s.rss_feeds.len() && (#[trigger] s.rss_feeds[k]).id == id && feeds
                    == s.rss_feeds.remove(k);
            assert forall|i: int| 0 <= i < feeds.len() implies feed_ordered(
                #[trigger] feeds[i],
            ) by {
                if i < k {
                    assert(feed_ordered(s.rss_feeds[i]));
                } else {
                    assert(feed_ordered(s.rss_feeds[i + 1]));
                }
            }
            assert forall|i: int, j: int| 0 <= i < j < feeds.len() implies (#[trigger] feeds[i]).id
                != (#[trigger] feeds[j]).id by {
                let a = if i < k { i } else { i + 1 };
                let b = if j < k { j } else { j + 1 };
                assert(s.rss_feeds[a].id != s.rss_feeds[b].id);
            }
        },
        _ => {},
    }
}

/// Entries that differ from ordered ones in nothing that orders them are
/// ordered.
pub proof fn lemma_same_times_same_order(
    before: Seq<EntryView>,
    after: Seq<EntryView>,
)
    requires
        sorted_by(before, newest_first()),
        before.len() == after.len(),
        forall|i: int| 0 <= i < before.len() ==> (#[trigger] after[i]).published == before[i].published,
    ensures
        sorted_by(after, newest_first()),
{
    assert forall|i: int, j: int| 0 <= i < j < after.len() implies !newest_first()(
        #[trigger] after[j],
        #[trigger] after[i],
    ) by {
        assert(!newest_first()(before[j], before[i]));
    }
}

/// No result of background work takes the feeds out of the state that a
/// feed list has to be in, as long as synchronised feeds are in that state.
pub proof fn lemma_event_keeps_feeds_wf(s: AppView, event: AppEventView)
    requires
        feeds_wf(s.rss_feeds),
        event matches AppEventView::SyncFinished(Ok(feeds)) ==> feeds_wf(feeds),
    ensures
        feeds_wf(s.event(event).state.rss_feeds),
{
    let feeds = s.event(event).state.rss_feeds;
    match event {
        AppEventView::FeedFetched(Ok(document), url) => {
            let feed = feed_of(document);
            lemma_add_keeps_ids_distinct(s, feed, url);
            if !has_feed(s.rss_feeds, feed.id) {
                let added = FeedView { link: url, ..feed };
                let pushed = s.rss_feeds.push(added);
                lemma_new_feed_is_ordered(document);
                lemma_sort_permutes(pushed, by_title());
                assert forall|i: int| 0 <= i < feeds.len() implies feed_ordered(
                    #[trigger] feeds[i],
                ) by {
                    let x = feeds[i];
                    assert(feeds.contains(x));
                    vstd::seq_lib::to_multiset_contains(feeds, x);
                    vstd::seq_lib::to_multiset_contains(pushed, x);
                    let m = choose|m: int| 0 <= m < pushed.len() && pushed[m] == x;
                    if m < s.rss_feeds.len() {
                        assert(feed_ordered(s.rss_feeds[m]));
                    }
                }
            }
        },
        AppEventView::ScrapedEntry { rss_feed_index, rss_entry_index, result: Ok(content) } => {
            if s.has_entry(rss_feed_index, rss_entry_index) {
                assert forall|i: int| 0 <= i < feeds.len() implies feed_ordered(
                    #[trigger] feeds[i],
                ) by {
                    assert(feed_ordered(s.rss_feeds[i]));
                    if i == rss_feed_index {
                        lemma_same_times_same_order(s.rss_feeds[i].entries, feeds[i].entries);
                    }
                }
            }
        },
        _ => {},
    }
}

/// As long as keys are handled with the rows of the feeds as they are, no
/// key takes the cursor off the rows: after every key it is on a row of the
/// feeds as they then are, or on 0 if there is no row.
pub proof fn lemma_key_keeps_cursor_on_rows(s: AppView, key: KeyEvent)
    requires
        countable(s.rss_feeds),
        cursor_in_rows(s.cursor, rows_of(s.rss_feeds).len()),
    ensures
        ({
            let after = s.key(key, rows_of(s.rss_feeds)).state;
            cursor_in_rows(after.cursor, rows_of(after.rss_feeds).len())
        }),
{
    let rows = rows_of(s.rss_feeds);
    let step = s.key(key, rows);
    let after = step.state;
    crate::popup::lemma_key_changes_are_stored(s, key, rows);
    match step.effect {
        EffectView::SaveFeed(f) => {
            // the feed under the cursor was expanded or collapsed
            lemma_row_position(s.rss_feeds, s.cursor as int);
            assert(after.rss_feeds.take(f as int) == s.rss_feeds.take(f as int));
            lemma_feed_row_stays(s.rss_feeds, after.rss_feeds, f as int);
        },
        EffectView::SaveEntry(f, e) => {
            lemma_rows_unchanged(s.rss_feeds, after.rss_feeds);
        },
        EffectView::DeleteFeed(_) => {
            crate::model::lemma_rows_len(after.rss_feeds);
        },
        _ => {
            crate::feed_list::lemma_feed_list_keeps_cursor_in_rows(s, key, rows);
        },
    }
}

/// Feeds that differ in nothing but what their entries hold have the same
/// rows.
pub proof fn lemma_rows_unchanged(before: Seq<FeedView>, after: Seq<FeedView>)
    requires
        before.len() == after.len(),
        forall|f: int|
            0 <= f < before.len() ==> (#[trigger] after[f]).expanded == before[f].expanded
                && after[f].entries.len() == before[f].entries.len(),
    ensures
        rows_of(after) == rows_of(before),
    decreases before.len(),
{
    if before.len() > 0 {
        lemma_rows_unchanged(before.drop_last(), after.drop_last());
        assert(after[after.len() - 1].expanded == before[before.len() - 1].expanded);
        assert(feed_block(after.len() - 1, after.last()) =~= feed_block(
            before.len() - 1,
            before.last(),
        ));
    }
}

/// Whether the popup goes with the screen below it: the popups of the feed
/// list lie over the feed list, the help of the entry view lies over an
/// entry, and the popup of a synchronisation is shown only while one is
/// under way. An error may be shown over either screen.
pub open spec fn overlay_valid(s: AppView) -> bool {
    match s.popup {
        PopupState::AddRssFeed | PopupState::ConfirmDeleteRssFeed | PopupState::RssFeedHelp =>
            s.view_state == ViewState::RssFeeds,
        PopupState::Syncing => s.view_state == ViewState::RssFeeds && s.syncing,
        PopupState::RssEntryHelp => s.view_state is RssEntry,
        PopupState::Error | PopupState::Closed => true,
    }
}

/// An application starts with a popup that goes with its screen: with none.
pub proof fn lemma_initial_overlay_valid(feeds: Seq<FeedView>)
    ensures
        overlay_valid(AppView::initial(feeds)),
{
}

/// No key leads to a popup that does not go with the screen below it.
pub proof fn lemma_key_keeps_overlay_valid(s: AppView, key: KeyEvent, rows: Seq<Row>)
    requires
        overlay_valid(s),
    ensures
        overlay_valid(s.key(key, rows).state),
{
}

/// No result of background work leads to a popup that does not go with the
/// screen below it.
pub proof fn lemma_event_keeps_overlay_valid(s: AppView, event: AppEventView)
    requires
        overlay_valid(s),
    ensures
        overlay_valid(s.event(event).state),
{
}

/// A synchronisation starts only from the feed list without a popup, on the
/// key `s`, and only when none is under way.
pub proof fn lemma_sync_starts_from_feed_list(s: AppView, key: KeyEvent, rows: Seq<Row>)
    requires
        s.key(key, rows).effect == EffectView::SyncFeeds,
    ensures
        s.popup == PopupState::Closed,
        s.view_state == ViewState::RssFeeds,
        key.code == crate::app::KeyCode::Char('s'),
        !s.syncing,
        s.key(key, rows).state.popup == PopupState::Syncing,
        s.key(key, rows).state.syncing,
{
}

/// While a synchronisation is under way no key starts another, whatever
/// popup is shown or none; and a synchronisation stays under way until its
/// result arrives.
pub proof fn lemma_one_sync_at_a_time(s: AppView, key: KeyEvent, rows: Seq<Row>)
    requires
        s.syncing,
    ensures
        s.key(key, rows).effect != EffectView::SyncFeeds,
        s.key(key, rows).state.syncing,
{
}

} // verus!
