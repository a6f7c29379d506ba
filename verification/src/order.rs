//! Stable sorting, stated once for every order and carried out for entries
//! (newest first) and for feeds (by title).

use crate::model::{entry_views, feed_views, published_key};
use crate::model::{EntryView, FeedView, RssEntry, RssFeed, Timestamp};
use crate::text::chars_of;
use vstd::prelude::*;

verus! {

/// `x` put into `s` behind every item that it does not have to precede:
/// it passes the items at the end of `s` that it comes before, and stops at
/// the first that it does not.
pub open spec fn insert_by<T>(s: Seq<T>, x: T, before: spec_fn(T, T) -> bool) -> Seq<T>
    decreases s.len(),
{
    if s.len() == 0 {
        seq![x]
    } else if before(x, s.last()) {
        insert_by(s.drop_last(), x, before).push(s.last())
    } else {
        s.push(x)
    }
}

/// The items of `s` sorted by `before`; items of which neither comes before
/// the other keep the order that they had in `s`.
pub open spec fn sort_by<T>(s: Seq<T>, before: spec_fn(T, T) -> bool) -> Seq<T>
    decreases s.len(),
{
    if s.len() == 0 {
        s
    } else {
        insert_by(sort_by(s.drop_last(), before), s.last(), before)
    }
}

/// Whether no item of `s` comes before an item that stands earlier in `s`.
pub open spec fn sorted_by<T>(s: Seq<T>, before: spec_fn(T, T) -> bool) -> bool {
    forall|i: int, j: int| 0 <= i < j < s.len() ==> !before(#[trigger] s[j], #[trigger] s[i])
}

/// Whether `before` orders items as a ranking does: never both ways, and if
/// `a` does not come before `b` nor `b` before `c`, then `a` does not come
/// before `c`.
pub open spec fn ranks<T>(before: spec_fn(T, T) -> bool) -> bool {
    &&& forall|a: T, b: T| #[trigger] before(a, b) ==> !before(b, a)
    &&& forall|a: T, b: T, c: T|
        !#[trigger] before(a, b) && !#[trigger] before(b, c) ==> !before(a, c)
}

/// Where `insert_by` puts an item: at `j`, if the item comes before every
/// item from `j` on and not before the one at `j - 1`.
pub proof fn lemma_insert_at<T>(s: Seq<T>, x: T, before: spec_fn(T, T) -> bool, j: int)
    requires
        0 <= j <= s.len(),
        forall|k: int| j <= k < s.len() ==> before(x, #[trigger] s[k]),
        j > 0 ==> !before(x, s[j - 1]),
    ensures
        insert_by(s, x, before) == s.insert(j, x),
    decreases s.len(),
{
    if s.len() == 0 {
        assert(seq![x] =~= s.insert(j, x));
    } else if j == s.len() {
        assert(s.push(x) =~= s.insert(j, x));
    } else {
        assert(before(x, s[s.len() - 1]));
        lemma_insert_at(s.drop_last(), x, before, j);
        assert(s.drop_last().insert(j, x).push(s.last()) =~= s.insert(j, x));
    }
}

/// The place at which `insert_by` puts `x` into `s`.
pub open spec fn insert_place<T>(s: Seq<T>, x: T, before: spec_fn(T, T) -> bool) -> int
    decreases s.len(),
{
    if s.len() > 0 && before(x, s.last()) {
        insert_place(s.drop_last(), x, before)
    } else {
        s.len() as int
    }
}

/// `insert_by` puts the item at `insert_place`, which lies behind every item
/// that the new one does not come before.
pub proof fn lemma_insert_place<T>(s: Seq<T>, x: T, before: spec_fn(T, T) -> bool)
    ensures
        0 <= insert_place(s, x, before) <= s.len(),
        forall|k: int| insert_place(s, x, before) <= k < s.len() ==> before(x, #[trigger] s[k]),
        insert_place(s, x, before) > 0 ==> !before(x, s[insert_place(s, x, before) - 1]),
        insert_by(s, x, before) == s.insert(insert_place(s, x, before), x),
    decreases s.len(),
{
    if s.len() > 0 && before(x, s.last()) {
        lemma_insert_place(s.drop_last(), x, before);
    }
    let j = insert_place(s, x, before);
    assert forall|k: int| j <= k < s.len() implies before(x, #[trigger] s[k]) by {
        if k < s.len() - 1 {
            assert(s.drop_last()[k] == s[k]);
        }
    }
    if j > 0 && s.len() > 0 && before(x, s.last()) {
        assert(s.drop_last()[j - 1] == s[j - 1]);
    }
    lemma_insert_at(s, x, before, j);
}

/// Inserting into a sorted sequence leaves it sorted.
pub proof fn lemma_insert_keeps_sorted<T>(s: Seq<T>, x: T, before: spec_fn(T, T) -> bool)
    requires
        ranks(before),
        sorted_by(s, before),
    ensures
        sorted_by(insert_by(s, x, before), before),
{
    lemma_insert_place(s, x, before);
    let j = insert_place(s, x, before);
    let r = s.insert(j, x);
    assert forall|a: int, b: int| 0 <= a < b < r.len() implies !before(
        #[trigger] r[b],
        #[trigger] r[a],
    ) by {
        if b == j {
            // r[b] is x, r[a] stands before the place
            if a < j - 1 {
                assert(!before(s[j - 1], s[a]));
            }
            assert(!before(x, s[a]));
        } else if a == j {
            assert(before(x, s[b - 1]));
        } else if b < j {
            assert(!before(s[b], s[a]));
        } else if a < j {
            assert(!before(s[b - 1], s[a]));
        } else {
            assert(!before(s[b - 1], s[a - 1]));
        }
    }
}

/// Sorting gives a sorted sequence.
pub proof fn lemma_sort_sorted<T>(s: Seq<T>, before: spec_fn(T, T) -> bool)
    requires
        ranks(before),
    ensures
        sorted_by(sort_by(s, before), before),
    decreases s.len(),
{
    if s.len() > 0 {
        lemma_sort_sorted(s.drop_last(), before);
        lemma_insert_keeps_sorted(sort_by(s.drop_last(), before), s.last(), before);
    }
}

/// Sorting rearranges: every item occurs as often after it as before.
pub proof fn lemma_sort_permutes<T>(s: Seq<T>, before: spec_fn(T, T) -> bool)
    ensures
        sort_by(s, before).to_multiset() == s.to_multiset(),
        sort_by(s, before).len() == s.len(),
    decreases s.len(),
{
    if s.len() > 0 {
        let rest = sort_by(s.drop_last(), before);
        lemma_sort_permutes(s.drop_last(), before);
        lemma_insert_place(rest, s.last(), before);
        let j = insert_place(rest, s.last(), before);
        assert(s.drop_last().push(s.last()) =~= s);
        vstd::seq_lib::to_multiset_insert(rest, j, s.last());
        vstd::seq_lib::to_multiset_build(s.drop_last(), s.last());
    } else {
        assert(sort_by(s, before) =~= s);
    }
}

/// Sorting a sorted sequence changes nothing.
pub proof fn lemma_sort_of_sorted<T>(s: Seq<T>, before: spec_fn(T, T) -> bool)
    requires
        sorted_by(s, before),
    ensures
        sort_by(s, before) == s,
    decreases s.len(),
{
    if s.len() > 0 {
        let rest = s.drop_last();
        assert forall|i: int, j: int| 0 <= i < j < rest.len() implies !before(
            #[trigger] rest[j],
            #[trigger] rest[i],
        ) by {
            assert(!before(s[j], s[i]));
        }
        lemma_sort_of_sorted(rest, before);
        if rest.len() > 0 {
            assert(!before(s[s.len() - 1], s[s.len() - 2]));
            assert(rest.last() == s[s.len() - 2]);
        }
        assert(insert_by(rest, s.last(), before) == rest.push(s.last()));
        assert(rest.push(s.last()) =~= s);
    }
}

/// The order of entries: the one published later comes first. An entry
/// without a publication time counts as published at the earliest instant.
pub open spec fn newest_first() -> spec_fn(EntryView, EntryView) -> bool {
    |a: EntryView, b: EntryView| published_key(a.published) > published_key(b.published)
}

/// The order of feeds: by title, as strings are ordered.
pub open spec fn by_title() -> spec_fn(FeedView, FeedView) -> bool {
    |a: FeedView, b: FeedView| text_lt(a.title, b.title)
}

/// Whether `a` stands before `b` as strings are ordered: at the first place
/// where they differ `a` has the character with the smaller code, or `a` ends
/// there and `b` does not.
pub open spec fn text_lt(a: Seq<char>, b: Seq<char>) -> bool
    decreases a.len(),
{
    if b.len() == 0 {
        false
    } else if a.len() == 0 {
        true
    } else if a[0] == b[0] {
        text_lt(a.drop_first(), b.drop_first())
    } else {
        a[0] < b[0]
    }
}

/// Whether the first publication time is later than the second.
pub fn is_newer(a: &Option<Timestamp>, b: &Option<Timestamp>) -> (r: bool)
    ensures
        r == (published_key(*a) > published_key(*b)),
{
    let first = match a {
        Some(t) => *t,
        None => Timestamp::min(),
    };
    let second = match b {
        Some(t) => *t,
        None => Timestamp::min(),
    };
    first.is_after(&second)
}

/// Whether `a` stands before `b` as strings are ordered.
pub fn text_before(a: &Vec<char>, b: &Vec<char>) -> (r: bool)
    ensures
        r == text_lt(a@, b@),
{
    let mut i: usize = 0;
    proof {
        assert(a@.skip(0) == a@);
        assert(b@.skip(0) == b@);
    }
    while i < a.len() && i < b.len() && a[i] == b[i]
        invariant
            i <= a.len(),
            i <= b.len(),
            text_lt(a@, b@) == text_lt(a@.skip(i as int), b@.skip(i as int)),
        decreases a.len() - i,
    {
        proof {
            assert(a@.skip(i as int).drop_first() == a@.skip(i + 1));
            assert(b@.skip(i as int).drop_first() == b@.skip(i + 1));
        }
        i += 1;
    }
    if i >= b.len() {
        false
    } else if i >= a.len() {
        true
    } else {
        let x: char = a[i];
        let y: char = b[i];
        x < y
    }
}

/// Sorts entries so that the newest comes first; entries published at the
/// same instant keep their order.
pub fn sort_entries(entries: &mut Vec<RssEntry>)
    ensures
        entry_views(final(entries)@) == sort_by(entry_views(old(entries)@), newest_first()),
{
    let ghost start = entry_views(entries@);
    let mut i: usize = 0;
    while i < entries.len()
        invariant
            i <= entries.len(),
            entries.len() == start.len(),
            entry_views(entries@).take(i as int) == sort_by(start.take(i as int), newest_first()),
            entry_views(entries@).skip(i as int) == start.skip(i as int),
        decreases entries.len() - i,
    {
        let ghost at_head = entry_views(entries@);
        let ghost prefix = at_head.take(i as int);
        let x = entries.remove(i);
        proof {
            assert(x@ == at_head.skip(i as int)[0]);
            assert(x@ == start[i as int]);
            assert(entry_views(entries@) =~= at_head.remove(i as int));
        }
        let mut j: usize = i;
        while j > 0 && is_newer(&x.published, &entries[j - 1].published)
            invariant
                j <= i,
                i <= entries.len(),
                entry_views(entries@) == at_head.remove(i as int),
                prefix == at_head.take(i as int),
                i < at_head.len(),
                forall|k: int| j <= k < i ==> newest_first()(x@, #[trigger] prefix[k]),
            decreases j,
        {
            proof {
                assert(prefix[j - 1] == entry_views(entries@)[j - 1]);
            }
            j -= 1;
        }
        proof {
            if j > 0 {
                assert(prefix[j - 1] == entry_views(entries@)[j - 1]);
            }
            lemma_insert_at(prefix, x@, newest_first(), j as int);
        }
        entries.insert(j, x);
        proof {
            let now = entry_views(entries@);
            assert(now =~= at_head.remove(i as int).insert(j as int, x@));
            assert(now.take(i + 1) =~= prefix.insert(j as int, x@));
            assert(now.skip(i + 1) =~= at_head.skip(i as int).drop_first());
            assert(start.skip(i as int).drop_first() =~= start.skip(i + 1));
            assert(start.take(i + 1).drop_last() =~= start.take(i as int));
            assert(start.take(i + 1).last() == start[i as int]);
        }
        i += 1;
    }
    proof {
        assert(entry_views(entries@).take(i as int) =~= entry_views(entries@));
        assert(start.take(i as int) =~= start);
    }
}

/// Sorts feeds by title; feeds with the same title keep their order.
pub fn sort_feeds(feeds: &mut Vec<RssFeed>)
    ensures
        feed_views(final(feeds)@) == sort_by(feed_views(old(feeds)@), by_title()),
{
    let ghost start = feed_views(feeds@);
    let mut i: usize = 0;
    while i < feeds.len()
        invariant
            i <= feeds.len(),
            feeds.len() == start.len(),
            feed_views(feeds@).take(i as int) == sort_by(start.take(i as int), by_title()),
            feed_views(feeds@).skip(i as int) == start.skip(i as int),
        decreases feeds.len() - i,
    {
        let ghost at_head = feed_views(feeds@);
        let ghost prefix = at_head.take(i as int);
        let x = feeds.remove(i);
        let title = chars_of(x.title.as_str());
        proof {
            assert(x@ == at_head.skip(i as int)[0]);
            assert(x@ == start[i as int]);
            assert(feed_views(feeds@) =~= at_head.remove(i as int));
        }
        let mut j: usize = i;
        while j > 0 && text_before(&title, &chars_of(feeds[j - 1].title.as_str()))
            invariant
                j <= i,
                i <= feeds.len(),
                feed_views(feeds@) == at_head.remove(i as int),
                prefix == at_head.take(i as int),
                i < at_head.len(),
                title@ == x@.title,
                forall|k: int| j <= k < i ==> by_title()(x@, #[trigger] prefix[k]),
            decreases j,
        {
            proof {
                assert(prefix[j - 1] == feed_views(feeds@)[j - 1]);
            }
            j -= 1;
        }
        proof {
            if j > 0 {
                assert(prefix[j - 1] == feed_views(feeds@)[j - 1]);
            }
            lemma_insert_at(prefix, x@, by_title(), j as int);
        }
        feeds.insert(j, x);
        proof {
            let now = feed_views(feeds@);
            assert(now =~= at_head.remove(i as int).insert(j as int, x@));
            assert(now.take(i + 1) =~= prefix.insert(j as int, x@));
            assert(now.skip(i + 1) =~= at_head.skip(i as int).drop_first());
            assert(start.skip(i as int).drop_first() =~= start.skip(i + 1));
            assert(start.take(i + 1).drop_last() =~= start.take(i as int));
            assert(start.take(i + 1).last() == start[i as int]);
        }
        i += 1;
    }
    proof {
        assert(feed_views(feeds@).take(i as int) =~= feed_views(feeds@));
        assert(start.take(i as int) =~= start);
    }
}

/// The order of entries is a ranking.
pub proof fn lemma_newest_first_ranks()
    ensures
        ranks(newest_first()),
{
}

/// How strings are ordered: never both ways, and if `a` does not stand
/// before `b` nor `b` before `c`, then `a` does not stand before `c`.
pub proof fn lemma_text_order(a: Seq<char>, b: Seq<char>, c: Seq<char>)
    ensures
        text_lt(a, b) ==> !text_lt(b, a),
        !text_lt(a, b) && !text_lt(b, c) ==> !text_lt(a, c),
    decreases a.len() + b.len() + c.len(),
{
    if a.len() > 0 && b.len() > 0 {
        if c.len() > 0 {
            lemma_text_order(a.drop_first(), b.drop_first(), c.drop_first());
        } else {
            lemma_text_order(a.drop_first(), b.drop_first(), c);
        }
    }
}

/// The order of feeds by title is a ranking.
pub proof fn lemma_by_title_ranks()
    ensures
        ranks(by_title()),
{
    assert forall|a: FeedView, b: FeedView| #[trigger] by_title()(a, b) implies !by_title()(
        b,
        a,
    ) by {
        lemma_text_order(a.title, b.title, b.title);
    }
    assert forall|a: FeedView, b: FeedView, c: FeedView|
        !#[trigger] by_title()(a, b) && !#[trigger] by_title()(b, c) implies !by_title()(a, c) by {
        lemma_text_order(a.title, b.title, c.title);
    }
}

} // verus!
