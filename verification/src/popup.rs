//! Keys while a popup is open, and the routing of keys.

use crate::app::{App, AppView, Effect, EffectView, KeyCode, KeyEvent, Outcome, Step};
use crate::feed_list::{clamp_row, parent_row};
use crate::model::{row_feed, rows_for, rows_of};
use crate::model::{PopupState, Row, ViewState};
use vstd::prelude::*;

verus! {

impl AppView {
    /// The popup closed.
    pub open spec fn close_popup(self) -> AppView {
        AppView { popup: PopupState::Closed, ..self }
    }

    /// The input line emptied and the popup closed.
    pub open spec fn close_input(self) -> AppView {
        AppView { input: Seq::empty(), character_index: 0, popup: PopupState::Closed, ..self }
    }

    /// The input line handed over as the address of a feed to fetch, and then
    /// emptied.
    pub open spec fn add_rss_feed(self) -> Step {
        (AppView { input: Seq::empty(), character_index: 0, ..self }).then_do(
            EffectView::FetchFeed(self.input),
        )
    }

    /// The transition of the popup that takes a feed's address.
    pub open spec fn add_feed_popup_key(self, key: KeyEvent) -> Step {
        match key.code {
            KeyCode::Esc => self.close_input().stay(),
            KeyCode::Enter => self.close_input().then_do(EffectView::FetchFeed(self.input)),
            KeyCode::Char(c) => if c == 'q' {
                self.close_input().stay()
            } else {
                self.enter_char(c).stay()
            },
            KeyCode::Backspace => self.delete_char().stay(),
            KeyCode::Left => self.move_cursor_left().stay(),
            KeyCode::Right => self.move_cursor_right().stay(),
            _ => self.stay(),
        }
    }

    /// The feed at `index` removed with its entries; it is to be removed
    /// from the store. Nothing happens if there is no such feed.
    pub open spec fn delete_rss_feed(self, index: usize) -> Step {
        if index < self.rss_feeds.len() {
            (AppView { rss_feeds: self.rss_feeds.remove(index as int), ..self }).then_do(
                EffectView::DeleteFeed(self.rss_feeds[index as int].id),
            )
        } else {
            self.stay()
        }
    }

    /// Whether the cursor is on a row whose feed exists.
    pub open spec fn cursor_on_feed(self, rows: Seq<Row>) -> bool {
        self.cursor < rows.len() && row_feed(rows[self.cursor as int]) < self.rss_feeds.len()
    }

    /// The feed of the row under the cursor removed, with its entries; the
    /// cursor stays on the row where that feed was, or goes to the last row
    /// that is left; the feed is to be removed from the store.
    pub open spec fn delete_at_cursor(self, rows: Seq<Row>) -> Step {
        if self.cursor_on_feed(rows) {
            let row = rows[self.cursor as int];
            let f = row_feed(row) as int;
            let rest = self.rss_feeds.remove(f);
            (AppView {
                rss_feeds: rest,
                cursor: clamp_row(parent_row(self.cursor, row) as int, rows_of(rest).len() as int),
                popup: PopupState::Closed,
                ..self
            }).then_do(EffectView::DeleteFeed(self.rss_feeds[f].id))
        } else {
            self.close_popup().stay()
        }
    }

    /// The transition of the popup that confirms a deletion.
    pub open spec fn delete_popup_key(self, key: KeyEvent, rows: Seq<Row>) -> Step {
        match key.code {
            KeyCode::Esc => self.close_popup().stay(),
            KeyCode::Char(c) => if c == 'q' || c == 'n' {
                self.close_popup().stay()
            } else if c == 'y' {
                self.delete_at_cursor(rows)
            } else {
                self.stay()
            },
            _ => self.stay(),
        }
    }

    /// The transition of the popup that shows an error.
    pub open spec fn error_popup_key(self, key: KeyEvent) -> Step {
        if key.code == KeyCode::Esc || key.code == KeyCode::Enter || key.code == KeyCode::Char(
            'q',
        ) {
            (AppView { error_message: None, popup: PopupState::Closed, ..self }).stay()
        } else {
            self.stay()
        }
    }

    /// The transition of a popup that lists keys.
    pub open spec fn help_popup_key(self, key: KeyEvent) -> Step {
        if key.code == KeyCode::Esc || key.code == KeyCode::Char('q') {
            self.close_popup().stay()
        } else {
            self.stay()
        }
    }

    /// The transition of the screen that is shown on a key.
    pub open spec fn view_key(self, key: KeyEvent, rows: Seq<Row>) -> Step {
        match self.view_state {
            ViewState::RssFeeds => self.feed_list_key(key, rows),
            ViewState::RssEntry { rss_feed_index, rss_entry_index } => self.entry_key(
                key,
                rss_feed_index,
                rss_entry_index,
            ),
        }
    }

    /// The transition on a key: an open popup takes every key; without one
    /// the key goes to the screen that is shown. While feeds are synchronised
    /// no key does anything.
    pub open spec fn key(self, key: KeyEvent, rows: Seq<Row>) -> Step {
        match self.popup {
            PopupState::AddRssFeed => self.add_feed_popup_key(key),
            PopupState::ConfirmDeleteRssFeed => self.delete_popup_key(key, rows),
            PopupState::Error => self.error_popup_key(key),
            PopupState::RssEntryHelp => self.help_popup_key(key),
            PopupState::RssFeedHelp => self.help_popup_key(key),
            PopupState::Syncing => self.stay(),
            PopupState::Closed => self.view_key(key, rows),
        }
    }
}

impl App {
    /// Hands the input line over as the address of a feed to fetch, and
    /// empties it.
    pub fn add_rss_feed(&mut self) -> (effect: Effect)
        ensures
            final(self)@ == old(self)@.add_rss_feed().state,
            effect@ == old(self)@.add_rss_feed().effect,
    {
        let rss_feed_url = self.input.clone();
        self.input = String::new();
        self.character_index = 0;
        Effect::FetchFeed(rss_feed_url)
    }

    /// Removes the feed at `rss_feed_index` with its entries, and asks the
    /// host to remove it from the store. Nothing happens if there is no such
    /// feed.
    pub fn delete_rss_feed(&mut self, rss_feed_index: usize) -> (effect: Effect)
        ensures
            final(self)@ == old(self)@.delete_rss_feed(rss_feed_index).state,
            effect@ == old(self)@.delete_rss_feed(rss_feed_index).effect,
    {
        if rss_feed_index < self.rss_feeds.len() {
            let removed = self.rss_feeds.remove(rss_feed_index);
            proof {
                assert(self@.rss_feeds =~= old(self)@.rss_feeds.remove(rss_feed_index as int));
            }
            Effect::DeleteFeed(removed.id)
        } else {
            Effect::Nothing
        }
    }

    /// Handles a key while the popup for a feed's address is open.
    pub fn handle_add_rss_feed_popup(&mut self, key: KeyEvent) -> (out: Outcome)
        ensures
            final(self)@ == old(self)@.add_feed_popup_key(key).state,
            out.should_quit == old(self)@.add_feed_popup_key(key).should_quit,
            out.effect@ == old(self)@.add_feed_popup_key(key).effect,
    {
        let mut effect = Effect::Nothing;
        match key.code {
            KeyCode::Esc => {
                self.input = String::new();
                self.character_index = 0;
                self.popup = PopupState::Closed;
            },
            KeyCode::Enter => {
                effect = self.add_rss_feed();
                self.popup = PopupState::Closed;
            },
            KeyCode::Char(c) => {
                if c == 'q' {
                    self.input = String::new();
                    self.character_index = 0;
                    self.popup = PopupState::Closed;
                } else {
                    self.enter_char(c);
                }
            },
            KeyCode::Backspace => self.delete_char(),
            KeyCode::Left => self.move_cursor_left(),
            KeyCode::Right => self.move_cursor_right(),
            _ => {},
        }
        Outcome { should_quit: false, effect }
    }

    /// Handles a key while the popup that confirms a deletion is open.
    pub fn handle_delete_rss_feed_popup(&mut self, key: KeyEvent, rows: &[Row]) -> (out: Outcome)
        ensures
            final(self)@ == old(self)@.delete_popup_key(key, rows@).state,
            out.should_quit == old(self)@.delete_popup_key(key, rows@).should_quit,
            out.effect@ == old(self)@.delete_popup_key(key, rows@).effect,
    {
        let mut effect = Effect::Nothing;
        match key.code {
            KeyCode::Esc => {
                self.popup = PopupState::Closed;
            },
            KeyCode::Char(c) => {
                if c == 'q' || c == 'n' {
                    self.popup = PopupState::Closed;
                } else if c == 'y' {
                    effect = self.delete_at_cursor(rows);
                }
            },
            _ => {},
        }
        Outcome { should_quit: false, effect }
    }

    /// Deletes the feed of the row under the cursor and puts the cursor on a
    /// row of the feeds that are left.
    fn delete_at_cursor(&mut self, rows: &[Row]) -> (effect: Effect)
        ensures
            final(self)@ == old(self)@.delete_at_cursor(rows@).state,
            effect@ == old(self)@.delete_at_cursor(rows@).effect,
    {
        let mut effect = Effect::Nothing;
        if self.cursor < rows.len() {
            let (f, position) = match rows[self.cursor] {
                Row::RssFeed(f) => (f, self.cursor),
                Row::RssEntry(f, e) => (f, if self.cursor > e { self.cursor - e - 1 } else { 0 }),
            };
            if f < self.rss_feeds.len() {
                effect = self.delete_rss_feed(f);
                let left = rows_for(&self.rss_feeds).len();
                let last = if left == 0 { 0 } else { left - 1 };
                self.cursor = if position > last { last } else { position };
            }
        }
        self.popup = PopupState::Closed;
        effect
    }

    /// Handles a key while an error is shown.
    pub fn handle_error_popup(&mut self, key: KeyEvent) -> (out: Outcome)
        ensures
            final(self)@ == old(self)@.error_popup_key(key).state,
            out.should_quit == old(self)@.error_popup_key(key).should_quit,
            out.effect@ == old(self)@.error_popup_key(key).effect,
    {
        if key.code == KeyCode::Esc || key.code == KeyCode::Enter || key.code == KeyCode::Char('q') {
            self.error_message = None;
            self.popup = PopupState::Closed;
        }
        Outcome { should_quit: false, effect: Effect::Nothing }
    }

    /// Handles a key while the keys of the feed list are listed.
    pub fn handle_rss_feed_help_popup(&mut self, key: KeyEvent) -> (out: Outcome)
        ensures
            final(self)@ == old(self)@.help_popup_key(key).state,
            out.should_quit == old(self)@.help_popup_key(key).should_quit,
            out.effect@ == old(self)@.help_popup_key(key).effect,
    {
        if key.code == KeyCode::Esc || key.code == KeyCode::Char('q') {
            self.popup = PopupState::Closed;
        }
        Outcome { should_quit: false, effect: Effect::Nothing }
    }

    /// Handles a key while the keys of the entry view are listed.
    pub fn handle_rss_entry_help_popup(&mut self, key: KeyEvent) -> (out: Outcome)
        ensures
            final(self)@ == old(self)@.help_popup_key(key).state,
            out.should_quit == old(self)@.help_popup_key(key).should_quit,
            out.effect@ == old(self)@.help_popup_key(key).effect,
    {
        if key.code == KeyCode::Esc || key.code == KeyCode::Char('q') {
            self.popup = PopupState::Closed;
        }
        Outcome { should_quit: false, effect: Effect::Nothing }
    }

    /// Handles a key that goes to the screen shown.
    pub fn handle_default(&mut self, key: KeyEvent, rows: &[Row]) -> (out: Outcome)
        ensures
            final(self)@ == old(self)@.view_key(key, rows@).state,
            out.should_quit == old(self)@.view_key(key, rows@).should_quit,
            out.effect@ == old(self)@.view_key(key, rows@).effect,
    {
        match self.view_state {
            ViewState::RssFeeds => self.handle_rss_feeds_view(key, rows),
            ViewState::RssEntry { rss_feed_index, rss_entry_index } => self.handle_rss_entry_view(
                key,
                rss_feed_index,
                rss_entry_index,
            ),
        }
    }

    /// Handles a key press. `rows` are the rows of the feed list as they were
    /// drawn. An open popup takes the key; otherwise the screen shown does.
    pub fn handle_key(&mut self, key: KeyEvent, rows: &[Row]) -> (out: Outcome)
        ensures
            final(self)@ == old(self)@.key(key, rows@).state,
            out.should_quit == old(self)@.key(key, rows@).should_quit,
            out.effect@ == old(self)@.key(key, rows@).effect,
    {
        match self.popup {
            PopupState::AddRssFeed => self.handle_add_rss_feed_popup(key),
            PopupState::ConfirmDeleteRssFeed => self.handle_delete_rss_feed_popup(key, rows),
            PopupState::Error => self.handle_error_popup(key),
            PopupState::RssEntryHelp => self.handle_rss_entry_help_popup(key),
            PopupState::RssFeedHelp => self.handle_rss_feed_help_popup(key),
            PopupState::Closed => self.handle_default(key, rows),
            PopupState::Syncing => Outcome { should_quit: false, effect: Effect::Nothing },
        }
    }
}

/// Confirming the deletion of the feed under the cursor removes that feed
/// and no other, and leaves the cursor on a row of the feeds that are left,
/// or on 0 if none is left.
pub proof fn lemma_delete_leaves_cursor_on_row(s: AppView, rows: Seq<Row>)
    requires
        s.popup == PopupState::ConfirmDeleteRssFeed,
        s.cursor_on_feed(rows),
    ensures
        ({
            let after = s.key(KeyEvent { code: KeyCode::Char('y'), control: false }, rows).state;
            let left = rows_of(after.rss_feeds);
            &&& after.rss_feeds == s.rss_feeds.remove(row_feed(rows[s.cursor as int]) as int)
            &&& after.popup == PopupState::Closed
            &&& left.len() > 0 ==> after.cursor < left.len()
            &&& left.len() == 0 ==> after.cursor == 0 && after.rss_feeds.len() == 0
        }),
{
    let after = s.key(KeyEvent { code: KeyCode::Char('y'), control: false }, rows).state;
    crate::model::lemma_rows_len(after.rss_feeds);
}

/// While a popup is open no key reaches the screen below: the screen shown,
/// and the scroll position of the entry, stay as they are.
pub proof fn lemma_popup_takes_keys(s: AppView, key: KeyEvent, rows: Seq<Row>)
    requires
        s.popup != PopupState::Closed,
    ensures
        s.key(key, rows).state.view_state == s.view_state,
        s.key(key, rows).state.rss_entry_scroll == s.rss_entry_scroll,
        s.key(key, rows).state.last_key == s.last_key,
        !s.key(key, rows).should_quit,
{
}

/// While feeds are synchronised no key changes the state or asks anything
/// of the host, so that no second synchronisation can start.
pub proof fn lemma_no_key_while_syncing(s: AppView, key: KeyEvent, rows: Seq<Row>)
    requires
        s.popup == PopupState::Syncing,
    ensures
        s.key(key, rows) == s.stay(),
{
}

/// Whatever a key changes of the feeds, the host is asked to bring to the
/// store: a feed that was expanded or collapsed is stored, an entry that was
/// marked as read is stored, a feed that was removed is removed there. With
/// any other effect, and with none, the feeds are as they were.
pub proof fn lemma_key_changes_are_stored(s: AppView, key: KeyEvent, rows: Seq<Row>)
    ensures
        ({
            let step = s.key(key, rows);
            let feeds = step.state.rss_feeds;
            match step.effect {
                EffectView::SaveFeed(f) => {
                    &&& f < s.rss_feeds.len()
                    &&& feeds == crate::feed_list::set_expanded(
                        s.rss_feeds,
                        f as int,
                        feeds[f as int].expanded,
                    )
                },
                EffectView::SaveEntry(f, e) => {
                    &&& s.has_entry(f, e)
                    &&& feeds == crate::feed_list::mark_read(s.rss_feeds, f as int, e as int)
                },
                EffectView::DeleteFeed(id) => exists|k: int|
                    0 <= k < s.rss_feeds.len() && (#[trigger] s.rss_feeds[k]).id == id && feeds
                        == s.rss_feeds.remove(k),
                _ => feeds == s.rss_feeds,
            }
        }),
{
    let step = s.key(key, rows);
    if step.effect is DeleteFeed {
        let k = row_feed(rows[s.cursor as int]) as int;
        assert(s.rss_feeds[k].id == step.effect->DeleteFeed_0);
    }
}

} // verus!
