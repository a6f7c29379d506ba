//! Keys in the feed list.

use crate::app::{App, AppView, Effect, EffectView, KeyCode, KeyEvent, Outcome, Rect, Step};
use crate::model::{EntryView, FeedView, PopupState, Row, ViewState};
use crate::model::row_valid;
use vstd::prelude::*;

verus! {

/// The index of the last of `len` rows; 0 if there is none.
pub open spec fn last_row(len: int) -> int {
    if len <= 0 {
        0
    } else {
        len - 1
    }
}

/// `position` held within the rows: at least 0 and at most the last row.
pub open spec fn clamp_row(position: int, len: int) -> usize {
    if position < 0 {
        0
    } else if position > last_row(len) {
        last_row(len) as usize
    } else {
        position as usize
    }
}

/// Half the lines of the viewport within its border.
pub open spec fn half_page(area: Rect) -> int {
    if area.height < 2 {
        0
    } else {
        (area.height - 2) / 2
    }
}

/// The feeds with the feed at `index` expanded or collapsed.
pub open spec fn set_expanded(feeds: Seq<FeedView>, index: int, expanded: bool) -> Seq<FeedView> {
    feeds.update(index, FeedView { expanded, ..feeds[index] })
}

/// The feeds with one entry marked as read.
pub open spec fn mark_read(feeds: Seq<FeedView>, feed: int, entry: int) -> Seq<FeedView> {
    feeds.update(
        feed,
        FeedView {
            entries: feeds[feed].entries.update(
                entry,
                EntryView { read: true, ..feeds[feed].entries[entry] },
            ),
            ..feeds[feed]
        },
    )
}

/// Whether the cursor is on a row, and that row names a feed or entry that
/// exists.
pub open spec fn cursor_on_valid_row(s: AppView, rows: Seq<Row>) -> bool {
    s.cursor < rows.len() && row_valid(s.rss_feeds, rows[s.cursor as int])
}

/// The row of the feed that the row under the cursor belongs to: the cursor
/// itself on a feed row, and as many rows above an entry row as the entry's
/// index says, and one more.
pub open spec fn parent_row(cursor: usize, row: Row) -> usize {
    match row {
        Row::RssFeed(_) => cursor,
        Row::RssEntry(_, e) => if cursor > e {
            (cursor - e - 1) as usize
        } else {
            0
        },
    }
}

impl AppView {
    /// The cursor moved by `by` rows and held within the rows.
    pub open spec fn move_cursor(self, by: int, rows: Seq<Row>) -> AppView {
        AppView { cursor: clamp_row(self.cursor + by, rows.len() as int), ..self }
    }

    /// The feed of the row under the cursor collapsed and the cursor on that
    /// feed's own row; the feed is to be stored.
    pub open spec fn collapse_at_cursor(self, rows: Seq<Row>) -> Step {
        if cursor_on_valid_row(self, rows) {
            let row = rows[self.cursor as int];
            let f = crate::model::row_feed(row);
            (AppView {
                rss_feeds: set_expanded(self.rss_feeds, f as int, false),
                cursor: parent_row(self.cursor, row),
                ..self
            }).then_do(EffectView::SaveFeed(f))
        } else {
            self.stay()
        }
    }

    /// On a feed row the feed is expanded if it was collapsed and collapsed
    /// if it was expanded, and is to be stored. On an entry row the entry is
    /// marked as read, is to be stored, and is shown from its first line.
    pub open spec fn open_at_cursor(self, rows: Seq<Row>) -> Step {
        if cursor_on_valid_row(self, rows) {
            match rows[self.cursor as int] {
                Row::RssFeed(f) => (AppView {
                    rss_feeds: set_expanded(
                        self.rss_feeds,
                        f as int,
                        !self.rss_feeds[f as int].expanded,
                    ),
                    ..self
                }).then_do(EffectView::SaveFeed(f)),
                Row::RssEntry(f, e) => (AppView {
                    rss_entry_scroll: 0,
                    rss_feeds: mark_read(self.rss_feeds, f as int, e as int),
                    view_state: ViewState::RssEntry { rss_feed_index: f, rss_entry_index: e },
                    ..self
                }).then_do(EffectView::SaveEntry(f, e)),
            }
        } else {
            self.stay()
        }
    }

    /// The transition of the feed list on a key.
    ///
    /// Every key but `g` is noted as the last key, so that only two `g` in a
    /// row jump to the first row. While a synchronisation is under way `s`
    /// does nothing at all: only one runs at a time.
    pub open spec fn feed_list_key(self, key: KeyEvent, rows: Seq<Row>) -> Step {
        let noted = AppView { last_key: Some(key.code), ..self };
        match key.code {
            KeyCode::Char(c) => {
                if c == 's' {
                    if self.syncing {
                        self.stay()
                    } else {
                        (AppView { popup: PopupState::Syncing, syncing: true, ..noted }).then_do(
                            EffectView::SyncFeeds,
                        )
                    }
                } else if c == 'g' {
                    if self.last_key == Some(KeyCode::Char('g')) {
                        (AppView { cursor: 0, last_key: None, ..self }).stay()
                    } else {
                        noted.stay()
                    }
                } else if c == 'G' {
                    (AppView { cursor: last_row(rows.len() as int) as usize, ..noted }).stay()
                } else if c == 'q' {
                    Step { state: noted, should_quit: true, effect: EffectView::Nothing }
                } else if c == 'j' {
                    noted.move_cursor(1, rows).stay()
                } else if c == 'k' {
                    noted.move_cursor(-1, rows).stay()
                } else if c == 'a' {
                    (AppView { popup: PopupState::AddRssFeed, ..noted }).stay()
                } else if c == 'h' {
                    (AppView { popup: PopupState::RssFeedHelp, ..noted }).stay()
                } else if c == 'c' {
                    noted.collapse_at_cursor(rows)
                } else if c == 'u' {
                    if key.control {
                        noted.move_cursor(-half_page(self.last_frame_area), rows).stay()
                    } else {
                        noted.stay()
                    }
                } else if c == 'd' {
                    if key.control {
                        noted.move_cursor(half_page(self.last_frame_area), rows).stay()
                    } else if self.cursor < rows.len() {
                        (AppView { popup: PopupState::ConfirmDeleteRssFeed, ..noted }).stay()
                    } else {
                        noted.stay()
                    }
                } else {
                    noted.stay()
                }
            },
            KeyCode::Esc => Step { state: noted, should_quit: true, effect: EffectView::Nothing },
            KeyCode::Down => noted.move_cursor(1, rows).stay(),
            KeyCode::Up => noted.move_cursor(-1, rows).stay(),
            KeyCode::Enter => noted.open_at_cursor(rows),
            _ => noted.stay(),
        }
    }
}

impl App {
    /// Whether the cursor is on a row that names a feed or entry that exists.
    fn cursor_on_valid_row(&self, rows: &[Row]) -> (valid: bool)
        ensures
            valid == cursor_on_valid_row(self@, rows@),
    {
        if self.cursor < rows.len() {
            match rows[self.cursor] {
                Row::RssFeed(f) => f < self.rss_feeds.len(),
                Row::RssEntry(f, e) => f < self.rss_feeds.len() && e
                    < self.rss_feeds[f].rss_entries.len(),
            }
        } else {
            false
        }
    }

    /// Moves the cursor down by `by` rows, at most to the last row.
    fn move_cursor_down(&mut self, by: usize, rows: &[Row])
        ensures
            final(self)@ == old(self)@.move_cursor(by as int, rows@),
    {
        let last = if rows.len() == 0 { 0 } else { rows.len() - 1 };
        if self.cursor >= last || by >= last - self.cursor {
            self.cursor = last;
        } else {
            self.cursor = self.cursor + by;
        }
    }

    /// Moves the cursor up by `by` rows, at most to the first row, and holds
    /// it within the rows.
    fn move_cursor_up(&mut self, by: usize, rows: &[Row])
        ensures
            final(self)@ == old(self)@.move_cursor(-(by as int), rows@),
    {
        let last = if rows.len() == 0 { 0 } else { rows.len() - 1 };
        let moved = if self.cursor >= by { self.cursor - by } else { 0 };
        self.cursor = if moved > last { last } else { moved };
    }

    /// Half the lines of the last frame within its border.
    pub fn half_page(&self) -> (half: u16)
        ensures
            half == half_page(self@.last_frame_area),
    {
        if self.last_frame_area.height < 2 {
            0
        } else {
            (self.last_frame_area.height - 2) / 2
        }
    }

    /// Collapses the feed of the row under the cursor.
    fn collapse_at_cursor(&mut self, rows: &[Row]) -> (out: Outcome)
        ensures
            final(self)@ == old(self)@.collapse_at_cursor(rows@).state,
            out.should_quit == old(self)@.collapse_at_cursor(rows@).should_quit,
            out.effect@ == old(self)@.collapse_at_cursor(rows@).effect,
    {
        if self.cursor_on_valid_row(rows) {
            match rows[self.cursor] {
                Row::RssFeed(f) => {
                    self.rss_feeds[f].expanded = false;
                    Outcome { should_quit: false, effect: Effect::SaveFeed(f) }
                },
                Row::RssEntry(f, e) => {
                    self.rss_feeds[f].expanded = false;
                    self.cursor = if self.cursor > e { self.cursor - e - 1 } else { 0 };
                    Outcome { should_quit: false, effect: Effect::SaveFeed(f) }
                },
            }
        } else {
            Outcome { should_quit: false, effect: Effect::Nothing }
        }
    }

    /// Expands or collapses the feed, or opens the entry, under the cursor.
    fn open_at_cursor(&mut self, rows: &[Row]) -> (out: Outcome)
        ensures
            final(self)@ == old(self)@.open_at_cursor(rows@).state,
            out.should_quit == old(self)@.open_at_cursor(rows@).should_quit,
            out.effect@ == old(self)@.open_at_cursor(rows@).effect,
    {
        if self.cursor_on_valid_row(rows) {
            match rows[self.cursor] {
                Row::RssFeed(f) => {
                    let expanded = self.rss_feeds[f].expanded;
                    self.rss_feeds[f].expanded = !expanded;
                    Outcome { should_quit: false, effect: Effect::SaveFeed(f) }
                },
                Row::RssEntry(f, e) => {
                    self.rss_entry_scroll = 0;
                    self.rss_feeds[f].rss_entries[e].read = true;
                    self.view_state = ViewState::RssEntry { rss_feed_index: f, rss_entry_index: e };
                    proof {
                        let marked = mark_read(old(self)@.rss_feeds, f as int, e as int);
                        assert(self@.rss_feeds[f as int].entries =~= marked[f as int].entries);
                        assert(self@.rss_feeds =~= marked);
                    }
                    Outcome { should_quit: false, effect: Effect::SaveEntry(f, e) }
                },
            }
        } else {
            Outcome { should_quit: false, effect: Effect::Nothing }
        }
    }

    /// Handles a key in the feed list: moves the cursor, expands, collapses
    /// or opens what is under it, opens a popup, starts a synchronisation, or
    /// asks to quit.
    pub fn handle_rss_feeds_view(&mut self, key: KeyEvent, rows: &[Row]) -> (out: Outcome)
        ensures
            final(self)@ == old(self)@.feed_list_key(key, rows@).state,
            out.should_quit == old(self)@.feed_list_key(key, rows@).should_quit,
            out.effect@ == old(self)@.feed_list_key(key, rows@).effect,
    {
        let stay = Outcome { should_quit: false, effect: Effect::Nothing };
        let before = self.last_key;
        self.last_key = Some(key.code);
        match key.code {
            KeyCode::Char(c) => {
                if c == 's' {
                    if self.syncing {
                        self.last_key = before;
                        stay
                    } else {
                        self.popup = PopupState::Syncing;
                        self.syncing = true;
                        Outcome { should_quit: false, effect: Effect::SyncFeeds }
                    }
                } else if c == 'g' {
                    if before == Some(KeyCode::Char('g')) {
                        self.cursor = 0;
                        self.last_key = None;
                    }
                    stay
                } else if c == 'G' {
                    self.cursor = if rows.len() == 0 { 0 } else { rows.len() - 1 };
                    stay
                } else if c == 'q' {
                    Outcome { should_quit: true, effect: Effect::Nothing }
                } else if c == 'j' {
                    self.move_cursor_down(1, rows);
                    stay
                } else if c == 'k' {
                    self.move_cursor_up(1, rows);
                    stay
                } else if c == 'a' {
                    self.popup = PopupState::AddRssFeed;
                    stay
                } else if c == 'h' {
                    self.popup = PopupState::RssFeedHelp;
                    stay
                } else if c == 'c' {
                    self.collapse_at_cursor(rows)
                } else if c == 'u' {
                    if key.control {
                        let half = self.half_page();
                        self.move_cursor_up(half as usize, rows);
                    }
                    stay
                } else if c == 'd' {
                    if key.control {
                        let half = self.half_page();
                        self.move_cursor_down(half as usize, rows);
                    } else if self.cursor < rows.len() {
                        self.popup = PopupState::ConfirmDeleteRssFeed;
                    }
                    stay
                } else {
                    stay
                }
            },
            KeyCode::Esc => Outcome { should_quit: true, effect: Effect::Nothing },
            KeyCode::Down => {
                self.move_cursor_down(1, rows);
                stay
            },
            KeyCode::Up => {
                self.move_cursor_up(1, rows);
                stay
            },
            KeyCode::Enter => self.open_at_cursor(rows),
            _ => stay,
        }
    }
}

/// Whether a key moves the cursor of the feed list by one row.
pub open spec fn moves_by_one(key: KeyEvent) -> bool {
    key.code == KeyCode::Up || key.code == KeyCode::Down || key.code == KeyCode::Char('j')
        || key.code == KeyCode::Char('k')
}

/// The state after a sequence of keys, while the rows stay the same.
pub open spec fn after_keys(s: AppView, keys: Seq<KeyEvent>, rows: Seq<Row>) -> AppView
    decreases keys.len(),
{
    if keys.len() == 0 {
        s
    } else {
        after_keys(s, keys.drop_last(), rows).key(keys.last(), rows).state
    }
}

/// Whether the cursor is on one of `len` rows, or on 0 where there is none.
pub open spec fn cursor_in_rows(cursor: usize, len: nat) -> bool {
    cursor <= last_row(len as int)
}

/// Whatever the screen and the popup, no sequence of up and down keys takes
/// the cursor off the rows: it stays between the first and the last row, and
/// on 0 where there are no rows.
pub proof fn lemma_cursor_stays_in_rows(s: AppView, keys: Seq<KeyEvent>, rows: Seq<Row>)
    requires
        cursor_in_rows(s.cursor, rows.len()),
        forall|i: int| 0 <= i < keys.len() ==> moves_by_one(#[trigger] keys[i]),
    ensures
        cursor_in_rows(after_keys(s, keys, rows).cursor, rows.len()),
        rows.len() == 0 ==> after_keys(s, keys, rows).cursor == 0,
    decreases keys.len(),
{
    if keys.len() > 0 {
        lemma_cursor_stays_in_rows(s, keys.drop_last(), rows);
        let before = after_keys(s, keys.drop_last(), rows);
        assert(moves_by_one(keys[keys.len() - 1]));
        lemma_move_keeps_cursor_in_rows(before, keys.last(), rows);
    }
}

/// One up or down key leaves the cursor on the rows; in the feed list it
/// even brings a cursor back that was off them.
pub proof fn lemma_move_keeps_cursor_in_rows(s: AppView, key: KeyEvent, rows: Seq<Row>)
    requires
        moves_by_one(key),
    ensures
        cursor_in_rows(s.cursor, rows.len()) ==> cursor_in_rows(
            s.key(key, rows).state.cursor,
            rows.len(),
        ),
        s.popup == PopupState::Closed && s.view_state == ViewState::RssFeeds ==> cursor_in_rows(
            s.key(key, rows).state.cursor,
            rows.len(),
        ),
{
}

/// In the feed list every key leaves the cursor on the rows if it was there.
pub proof fn lemma_feed_list_keeps_cursor_in_rows(s: AppView, key: KeyEvent, rows: Seq<Row>)
    requires
        cursor_in_rows(s.cursor, rows.len()),
    ensures
        cursor_in_rows(s.feed_list_key(key, rows).state.cursor, rows.len()),
{
}

} // verus!
