//! Bringing a feed up to date with what its source publishes now.

use crate::document::entries_of;
use crate::document::{EntryDocument, EntryDocumentView, FeedDocument, FeedDocumentView};
use crate::model::{entry_views, feed_views, published_key};
use crate::model::{EntryView, FeedView, RssEntry, RssFeed, Timestamp};
use crate::order::{is_newer, newest_first, sort_by, sort_entries, sorted_by};
use crate::order::{lemma_newest_first_ranks, lemma_sort_of_sorted, lemma_sort_permutes};
use crate::order::lemma_sort_sorted;
use vstd::prelude::*;

verus! {

/// The publication time of the first entry: of the newest, when the entries
/// are newest first. That of no entries is the earliest instant.
pub open spec fn newest_known(entries: Seq<EntryView>) -> int {
    if entries.len() > 0 {
        published_key(entries[0].published)
    } else {
        Timestamp::spec_min().key()
    }
}

/// The documents published later than `threshold`, in their order.
pub open spec fn newer_than(
    documents: Seq<EntryDocumentView>,
    threshold: int,
) -> Seq<EntryDocumentView> {
    documents.filter(|d: EntryDocumentView| published_key(d.published) > threshold)
}

/// One more document taken into view: it is kept if it was published later
/// than `threshold`, and then stands last.
pub proof fn lemma_newer_than_next(documents: Seq<EntryDocumentView>, i: int, threshold: int)
    requires
        0 <= i < documents.len(),
    ensures
        newer_than(documents.take(i + 1), threshold) == if published_key(documents[i].published)
            > threshold {
            newer_than(documents.take(i), threshold).push(documents[i])
        } else {
            newer_than(documents.take(i), threshold)
        },
{
    reveal(Seq::filter);
    assert(documents.take(i + 1).drop_last() == documents.take(i));
    assert(documents.take(i + 1).last() == documents[i]);
}

/// The entries of a feed after its source was fetched: the entries it had,
/// and a new unread entry for each fetched one that was published later than
/// the newest known; all of them newest first. What was known is neither
/// fetched again nor changed.
pub open spec fn merged(
    entries: Seq<EntryView>,
    fetched: Seq<EntryDocumentView>,
) -> Seq<EntryView> {
    sort_by(entries + entries_of(newer_than(fetched, newest_known(entries))), newest_first())
}

/// The feed with what its source published since merged in.
pub open spec fn synced(feed: FeedView, fetched: FeedDocumentView) -> FeedView {
    FeedView { entries: merged(feed.entries, fetched.entries), ..feed }
}

impl RssFeed {
    /// The publication time of the first entry, or the earliest instant if
    /// there is no entry. An entry without a time counts as published at the
    /// earliest instant.
    pub fn newest_known(&self) -> (newest: Option<Timestamp>)
        ensures
            published_key(newest) == newest_known(self@.entries),
    {
        if self.rss_entries.len() > 0 {
            self.rss_entries[0].published
        } else {
            None
        }
    }

    /// Merges a fetched feed into this one: every fetched entry that was
    /// published later than the newest known one is added as a new unread
    /// entry, and the entries are put newest first again.
    pub fn merge(&mut self, fetched: FeedDocument)
        ensures
            final(self)@ == synced(old(self)@, fetched@),
    {
        let newest = self.newest_known();
        let ghost threshold = newest_known(self@.entries);
        let ghost known = self@.entries;
        let ghost views = fetched@.entries;
        for document in it: fetched.entries
            invariant
                it.seq().map_values(|e: EntryDocument| e@) == views,
                published_key(newest) == threshold,
                self.id == old(self).id,
                self.title == old(self).title,
                self.link == old(self).link,
                self.expanded == old(self).expanded,
                entry_views(self.rss_entries@) == known + entries_of(
                    newer_than(views.take(it.index() as int), threshold),
                ),
        {
            proof {
                assert(views[it.index() as int] == document@);
                lemma_newer_than_next(views, it.index() as int, threshold);
            }
            if is_newer(&document.published, &newest) {
                let ghost before = entry_views(self.rss_entries@);
                let entry = RssEntry::from(document);
                self.rss_entries.push(entry);
                proof {
                    assert(entry_views(self.rss_entries@) =~= before.push(entry@));
                    let kept = newer_than(views.take(it.index() as int), threshold);
                    assert(entries_of(kept.push(document@)) =~= entries_of(kept).push(entry@));
                    assert(before.push(entry@) =~= known + entries_of(kept).push(entry@));
                }
            }
        }
        proof {
            assert(views.take(views.len() as int) == views);
        }
        sort_entries(&mut self.rss_entries);
    }

    /// Merges the outcome of parsing what the source sent: a parsed feed is
    /// merged in; a failure leaves this feed as it was and is handed on.
    pub fn merge_parsed(&mut self, parsed: Result<FeedDocument, String>) -> (result: Result<
        (),
        String,
    >)
        ensures
            match parsed {
                Ok(fetched) => result is Ok && final(self)@ == synced(old(self)@, fetched@),
                Err(cause) => result == Err::<(), String>(cause) && final(self)@ == old(self)@,
            },
    {
        match parsed {
            Ok(fetched) => {
                self.merge(fetched);
                Ok(())
            },
            Err(cause) => Err(cause),
        }
    }
}

/// A synchronisation under way: the feeds, of which those before `next` are
/// up to date already.
pub struct SyncRun {
    feeds: Vec<RssFeed>,
    next: usize,
}

/// The mathematical value of a [`SyncRun`].
#[verifier::ext_equal]
pub struct SyncRunView {
    pub feeds: Seq<FeedView>,
    pub next: nat,
}

impl View for SyncRun {
    type V = SyncRunView;

    closed spec fn view(&self) -> SyncRunView {
        SyncRunView { feeds: feed_views(self.feeds@), next: self.next as nat }
    }
}

impl SyncRunView {
    /// The run after the source of the next feed answered with a parsed
    /// feed: that feed is brought up to date and the run goes on to the one
    /// behind it.
    pub open spec fn advance(self, fetched: FeedDocumentView) -> SyncRunView {
        SyncRunView {
            feeds: self.feeds.update(self.next as int, synced(self.feeds[self.next as int], fetched)),
            next: self.next + 1,
        }
    }

    /// Whether every feed is up to date.
    pub open spec fn done(self) -> bool {
        self.next >= self.feeds.len()
    }
}

impl SyncRun {
    #[verifier::type_invariant]
    spec fn wf(self) -> bool {
        self.next <= self.feeds.len()
    }

    /// A run over a copy of the feeds, which starts with the first feed.
    pub fn new(rss_feeds: Vec<RssFeed>) -> (run: SyncRun)
        ensures
            run@ == (SyncRunView { feeds: feed_views(rss_feeds@), next: 0 }),
    {
        SyncRun { feeds: rss_feeds, next: 0 }
    }

    /// The address to fetch next: that of the first feed that is not up to
    /// date; `None` when every feed is.
    pub fn next_link(&self) -> (link: Option<&String>)
        ensures
            match link {
                Some(l) => !self@.done() && l@ == self@.feeds[self@.next as int].link,
                None => self@.done(),
            },
    {
        proof {
            use_type_invariant(self);
        }
        if self.next < self.feeds.len() {
            Some(&self.feeds[self.next].link)
        } else {
            None
        }
    }

    /// Takes the outcome of fetching and parsing the source of the next
    /// feed, as the host reports it. A parsed feed is merged in and the run goes on; it is dropped if
    /// no feed is left to bring up to date. A failure ends the run: it is
    /// handed on and nothing is changed.
    pub fn accept_parsed(&mut self, parsed: Result<FeedDocument, String>) -> (result: Result<
        (),
        String,
    >)
        ensures
            match parsed {
                Ok(fetched) => result is Ok && final(self)@ == if old(self)@.done() {
                    old(self)@
                } else {
                    old(self)@.advance(fetched@)
                },
                Err(cause) => result == Err::<(), String>(cause) && final(self)@ == old(self)@,
            },
    {
        proof {
            use_type_invariant(&*self);
        }
        match parsed {
            Ok(fetched) => {
                if self.next < self.feeds.len() {
                    let ghost before = feed_views(self.feeds@);
                    let at = self.next;
                    self.feeds[at].merge(fetched);
                    self.next = at + 1;
                    proof {
                        assert(feed_views(self.feeds@) =~= before.update(
                            at as int,
                            synced(before[at as int], fetched@),
                        ));
                    }
                }
                Ok(())
            },
            Err(cause) => Err(cause),
        }
    }

    /// Whether the next feed would take this entry of what its source sent:
    /// whether it was published later than the newest entry that the feed
    /// has. Only of such entries the host has to render the text.
    pub fn wants(&self, entry: &EntryDocument) -> (wanted: bool)
        ensures
            wanted == (!self@.done() && published_key(entry.published) > newest_known(
                self@.feeds[self@.next as int].entries,
            )),
    {
        proof {
            use_type_invariant(self);
        }
        if self.next < self.feeds.len() {
            let newest = self.feeds[self.next].newest_known();
            is_newer(&entry.published, &newest)
        } else {
            false
        }
    }

    /// The feeds of the run, all of them up to date if the run is done.
    pub fn finish(self) -> (rss_feeds: Vec<RssFeed>)
        ensures
            feed_views(rss_feeds@) == self@.feeds,
    {
        self.feeds
    }
}

/// After a merge the entries are newest first, and they are the entries
/// known before together with the new ones: nothing known is lost.
pub proof fn lemma_merged_is_ordered(entries: Seq<EntryView>, fetched: Seq<EntryDocumentView>)
    ensures
        sorted_by(merged(entries, fetched), newest_first()),
        merged(entries, fetched).to_multiset() == (entries + entries_of(
            newer_than(fetched, newest_known(entries)),
        )).to_multiset(),
        merged(entries, fetched).len() == entries.len() + newer_than(
            fetched,
            newest_known(entries),
        ).len(),
{
    let all = entries + entries_of(newer_than(fetched, newest_known(entries)));
    lemma_newest_first_ranks();
    lemma_sort_sorted(all, newest_first());
    lemma_sort_permutes(all, newest_first());
}

/// A merge in which the source has nothing that was published later than the
/// newest known entry leaves entries that are newest first as they are, in
/// content and in order.
pub proof fn lemma_nothing_new(entries: Seq<EntryView>, fetched: Seq<EntryDocumentView>)
    requires
        sorted_by(entries, newest_first()),
        forall|i: int|
            0 <= i < fetched.len() ==> published_key((#[trigger] fetched[i]).published)
                <= newest_known(entries),
    ensures
        merged(entries, fetched) == entries,
{
    let kept = newer_than(fetched, newest_known(entries));
    if kept.len() > 0 {
        let pred = |d: EntryDocumentView| published_key(d.published) > newest_known(entries);
        fetched.lemma_filter_pred(pred, 0);
        fetched.lemma_filter_contains_rev(pred, kept[0]);
        let i = choose|i: int| 0 <= i < fetched.len() && fetched[i] == kept[0];
        assert(published_key(fetched[i].published) <= newest_known(entries));
    }
    assert(entries + entries_of(kept) =~= entries);
    lemma_sort_of_sorted(entries, newest_first());
}

/// The first of entries that are newest first was published no earlier than
/// any of them.
pub proof fn lemma_first_is_newest(entries: Seq<EntryView>, i: int)
    requires
        sorted_by(entries, newest_first()),
        0 <= i < entries.len(),
    ensures
        published_key(entries[i].published) <= newest_known(entries),
{
    if i > 0 {
        assert(!newest_first()(entries[i], entries[0]));
    }
}

/// An entry of `all` was published no later than the first of `sorted`, if
/// `sorted` holds the entries of `all` newest first.
pub proof fn lemma_rearranged_is_below_first(all: Seq<EntryView>, sorted: Seq<EntryView>, i: int)
    requires
        0 <= i < all.len(),
        sorted_by(sorted, newest_first()),
        sorted.to_multiset() == all.to_multiset(),
    ensures
        published_key(all[i].published) <= newest_known(sorted),
{
    let x = all[i];
    assert(all.contains(x));
    vstd::seq_lib::to_multiset_contains(all, x);
    vstd::seq_lib::to_multiset_contains(sorted, x);
    let j = choose|j: int| 0 <= j < sorted.len() && sorted[j] == x;
    lemma_first_is_newest(sorted, j);
}

/// Synchronising twice in a row with the same answer of the source changes
/// nothing the second time.
pub proof fn lemma_sync_twice(feed: FeedView, fetched: FeedDocumentView)
    ensures
        synced(synced(feed, fetched), fetched) == synced(feed, fetched),
{
    let entries = feed.entries;
    let threshold = newest_known(entries);
    let pred = |d: EntryDocumentView| published_key(d.published) > threshold;
    let kept = newer_than(fetched.entries, threshold);
    let all = entries + entries_of(kept);
    let once = merged(entries, fetched.entries);
    lemma_merged_is_ordered(entries, fetched.entries);
    assert forall|i: int| 0 <= i < fetched.entries.len() implies published_key(
        (#[trigger] fetched.entries[i]).published,
    ) <= newest_known(once) by {
        let d = fetched.entries[i];
        if published_key(d.published) > threshold {
            fetched.entries.lemma_filter_contains(pred, i);
            let k = choose|k: int| 0 <= k < kept.len() && kept[k] == d;
            assert(all[entries.len() + k] == entries_of(kept)[k]);
            lemma_rearranged_is_below_first(all, once, entries.len() + k);
        } else if entries.len() > 0 {
            assert(all[0] == entries[0]);
            lemma_rearranged_is_below_first(all, once, 0);
        }
    }
    lemma_nothing_new(once, fetched.entries);
}

} // verus!
