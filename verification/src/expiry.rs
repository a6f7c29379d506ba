//! The end of entries that were left unread for too long.

use crate::model::{entry_views, EntryView, FeedView, RssEntry, RssFeed, Timestamp};
use crate::order::{newest_first, sorted_by};
use vstd::prelude::*;

verus! {

/// The longest that unread entries are kept unless it is set otherwise: five
/// days, in seconds.
pub const DEFAULT_MAX_TTL_SECS: i64 = 432_000;

/// The instant `max_ttl_secs` seconds before `now`; `None` where the age is
/// negative or that instant cannot be expressed.
pub open spec fn cutoff_of(now: Timestamp, max_ttl_secs: i64) -> Option<Timestamp> {
    if max_ttl_secs >= 0 && now.secs - max_ttl_secs >= i64::MIN {
        Some(Timestamp { secs: (now.secs - max_ttl_secs) as i64, nanos: now.nanos })
    } else {
        None
    }
}

/// Whether an entry has expired at the cutoff: it is unread and was
/// published before the cutoff. An entry without a publication time has no
/// age and does not expire.
pub open spec fn expired(entry: EntryView, cutoff: Timestamp) -> bool {
    !entry.read && match entry.published {
        Some(t) => t.key() < cutoff.key(),
        None => false,
    }
}

/// The entries that have not expired at the cutoff, in their order.
pub open spec fn kept(entries: Seq<EntryView>, cutoff: Timestamp) -> Seq<EntryView> {
    entries.filter(|e: EntryView| !expired(e, cutoff))
}

/// The ids of the entries that have expired at the cutoff, in the entries'
/// order.
pub open spec fn expired_ids(entries: Seq<EntryView>, cutoff: Timestamp) -> Seq<Seq<char>> {
    entries.filter(|e: EntryView| expired(e, cutoff)).map_values(|e: EntryView| e.id)
}

/// The instant before which unread entries have expired: `max_ttl_secs`
/// seconds before `now`.
pub fn expiry_cutoff(now: Timestamp, max_ttl_secs: i64) -> (cutoff: Option<Timestamp>)
    ensures
        cutoff == cutoff_of(now, max_ttl_secs),
{
    if max_ttl_secs >= 0 && now.secs >= i64::MIN + max_ttl_secs {
        Some(Timestamp { secs: now.secs - max_ttl_secs, nanos: now.nanos })
    } else {
        None
    }
}

impl RssEntry {
    /// Whether the entry has expired at the cutoff.
    pub fn is_expired(&self, cutoff: &Timestamp) -> (r: bool)
        ensures
            r == expired(self@, *cutoff),
    {
        !self.read && match &self.published {
            Some(t) => cutoff.is_after(t),
            None => false,
        }
    }
}

impl RssFeed {
    /// Removes the entries that have expired at the cutoff and returns their
    /// ids, for the host to remove them from the store. The other entries
    /// stay, in their order.
    pub fn expire_unread(&mut self, cutoff: Timestamp) -> (removed: Vec<String>)
        ensures
            final(self)@ == (FeedView {
                entries: kept(old(self)@.entries, cutoff),
                ..old(self)@
            }),
            removed.deep_view() == expired_ids(old(self)@.entries, cutoff),
    {
        let ghost views = self@.entries;
        let mut all: Vec<RssEntry> = Vec::new();
        std::mem::swap(&mut all, &mut self.rss_entries);
        let mut removed: Vec<String> = Vec::new();
        proof {
            reveal(Seq::filter);
            assert(views.take(0) =~= Seq::<EntryView>::empty());
            assert(removed.deep_view() =~= expired_ids(views.take(0), cutoff));
        }
        for entry in it: all
            invariant
                entry_views(it.seq()) == views,
                self.id == old(self).id,
                self.title == old(self).title,
                self.link == old(self).link,
                self.expanded == old(self).expanded,
                entry_views(self.rss_entries@) == kept(views.take(it.index() as int), cutoff),
                removed.deep_view() == expired_ids(views.take(it.index() as int), cutoff),
        {
            let ghost before = entry_views(self.rss_entries@);
            let ghost ids = removed.deep_view();
            proof {
                reveal(Seq::filter);
                let next = views.take(it.index() + 1);
                assert(next.drop_last() == views.take(it.index() as int));
                assert(next.last() == entry@);
            }
            if entry.is_expired(&cutoff) {
                removed.push(entry.id);
                proof {
                    assert(removed.deep_view() =~= ids.push(entry@.id));
                    let gone = views.take(it.index() as int).filter(
                        |e: EntryView| expired(e, cutoff),
                    );
                    assert(gone.push(entry@).map_values(|e: EntryView| e.id) =~= ids.push(
                        entry@.id,
                    ));
                }
            } else {
                self.rss_entries.push(entry);
                proof {
                    assert(entry_views(self.rss_entries@) =~= before.push(entry@));
                }
            }
        }
        proof {
            assert(views.take(views.len() as int) == views);
        }
        removed
    }
}

/// Entries that are newest first stay so when some of them expire.
pub proof fn lemma_kept_stay_ordered(entries: Seq<EntryView>, cutoff: Timestamp)
    requires
        sorted_by(entries, newest_first()),
    ensures
        sorted_by(kept(entries, cutoff), newest_first()),
    decreases entries.len(),
{
    reveal(Seq::filter);
    if entries.len() > 0 {
        let front = entries.drop_last();
        let pred = |e: EntryView| !expired(e, cutoff);
        assert forall|i: int, j: int| 0 <= i < j < front.len() implies !newest_first()(
            #[trigger] front[j],
            #[trigger] front[i],
        ) by {
            assert(!newest_first()(entries[j], entries[i]));
        }
        lemma_kept_stay_ordered(front, cutoff);
        let rest = kept(front, cutoff);
        if pred(entries.last()) {
            let all = rest.push(entries.last());
            assert forall|i: int, j: int| 0 <= i < j < all.len() implies !newest_first()(
                #[trigger] all[j],
                #[trigger] all[i],
            ) by {
                if j == rest.len() {
                    assert(rest.contains(rest[i]));
                    front.lemma_filter_contains_rev(pred, rest[i]);
                    let m = choose|m: int| 0 <= m < front.len() && front[m] == rest[i];
                    assert(!newest_first()(entries[entries.len() - 1], entries[m]));
                } else {
                    assert(!newest_first()(rest[j], rest[i]));
                }
            }
        }
    }
}

} // verus!
