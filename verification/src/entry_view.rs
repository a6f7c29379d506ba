//! Keys in the view of one entry.

use crate::app::{entry_max_scroll, App, AppView, Effect, EffectView, KeyCode, KeyEvent};
use crate::app::{Outcome, Step};
use crate::feed_list::half_page;
use crate::model::{PopupState, ViewState};
use vstd::prelude::*;

verus! {

/// The key under which a key of the entry view is noted as the last key:
/// keys that do the same are noted alike.
pub open spec fn entry_key_name(code: KeyCode) -> KeyCode {
    match code {
        KeyCode::Esc => KeyCode::Char('q'),
        KeyCode::Up => KeyCode::Char('k'),
        KeyCode::Down => KeyCode::Char('j'),
        KeyCode::End => KeyCode::Char('G'),
        _ => code,
    }
}

impl AppView {
    /// Whether the feed list holds the entry `e` of the feed `f`.
    pub open spec fn has_entry(self, f: usize, e: usize) -> bool {
        f < self.rss_feeds.len() && e < self.rss_feeds[f as int].entries.len()
    }

    /// How far the entry can be scrolled in the last frame.
    pub open spec fn scroll_limit(self, f: usize, e: usize) -> u16 {
        entry_max_scroll(self.rss_feeds, f, e, self.last_frame_area.height)
    }

    /// The entry scrolled to `position`, held between its first line and its
    /// scroll limit.
    pub open spec fn scroll_to(self, position: int, f: usize, e: usize) -> AppView {
        AppView {
            rss_entry_scroll: if position < 0 {
                0
            } else if position > self.scroll_limit(f, e) {
                self.scroll_limit(f, e)
            } else {
                position as u16
            },
            ..self
        }
    }

    /// The transition of the view of entry `e` of feed `f` on a key.
    pub open spec fn entry_key(self, key: KeyEvent, f: usize, e: usize) -> Step {
        let noted = AppView { last_key: Some(entry_key_name(key.code)), ..self };
        let scroll = self.rss_entry_scroll as int;
        match entry_key_name(key.code) {
            KeyCode::Char(c) => {
                if c == 'o' {
                    if self.has_entry(f, e) {
                        noted.then_do(
                            EffectView::OpenLink(self.rss_feeds[f as int].entries[e as int].link),
                        )
                    } else {
                        noted.stay()
                    }
                } else if c == 'f' {
                    if self.has_entry(f, e) {
                        noted.then_do(
                            EffectView::FetchEntryContent {
                                rss_feed_index: f,
                                rss_entry_index: e,
                                link: self.rss_feeds[f as int].entries[e as int].link,
                                width: self.last_frame_area.width,
                            },
                        )
                    } else {
                        noted.stay()
                    }
                } else if c == 'q' {
                    (AppView { view_state: ViewState::RssFeeds, ..noted }).stay()
                } else if c == 'k' {
                    noted.scroll_to(scroll - 1, f, e).stay()
                } else if c == 'j' {
                    noted.scroll_to(scroll + 1, f, e).stay()
                } else if c == 'h' {
                    (AppView { popup: PopupState::RssEntryHelp, ..noted }).stay()
                } else if c == 'g' {
                    if self.last_key == Some(KeyCode::Char('g')) {
                        (AppView { rss_entry_scroll: 0, last_key: None, ..self }).stay()
                    } else {
                        noted.stay()
                    }
                } else if c == 'G' {
                    (AppView { rss_entry_scroll: self.scroll_limit(f, e), ..noted }).stay()
                } else if c == 'u' {
                    if key.control {
                        noted.scroll_to(scroll - half_page(self.last_frame_area), f, e).stay()
                    } else {
                        noted.stay()
                    }
                } else if c == 'd' {
                    if key.control {
                        noted.scroll_to(scroll + half_page(self.last_frame_area), f, e).stay()
                    } else {
                        noted.stay()
                    }
                } else {
                    noted.stay()
                }
            },
            _ => noted.stay(),
        }
    }
}

impl App {
    /// Scrolls the entry down by `by` lines, at most to its scroll limit.
    fn scroll_down(&mut self, by: u16, f: usize, e: usize)
        ensures
            final(self)@ == old(self)@.scroll_to(old(self)@.rss_entry_scroll + by, f, e),
    {
        let limit = self.get_max_rss_entry_scroll(f, e, self.last_frame_area.height);
        if self.rss_entry_scroll >= limit || by >= limit - self.rss_entry_scroll {
            self.rss_entry_scroll = limit;
        } else {
            self.rss_entry_scroll = self.rss_entry_scroll + by;
        }
    }

    /// Scrolls the entry up by `by` lines, at most to its first line, and
    /// holds it within its scroll limit.
    fn scroll_up(&mut self, by: u16, f: usize, e: usize)
        ensures
            final(self)@ == old(self)@.scroll_to(old(self)@.rss_entry_scroll - by, f, e),
    {
        let limit = self.get_max_rss_entry_scroll(f, e, self.last_frame_area.height);
        let moved = if self.rss_entry_scroll >= by { self.rss_entry_scroll - by } else { 0 };
        self.rss_entry_scroll = if moved > limit { limit } else { moved };
    }

    /// The key under which a key of the entry view is noted as the last key.
    fn entry_key_name(code: KeyCode) -> (name: KeyCode)
        ensures
            name == entry_key_name(code),
    {
        match code {
            KeyCode::Esc => KeyCode::Char('q'),
            KeyCode::Up => KeyCode::Char('k'),
            KeyCode::Down => KeyCode::Char('j'),
            KeyCode::End => KeyCode::Char('G'),
            _ => code,
        }
    }

    /// Handles a key in the view of an entry: scrolls, returns to the feed
    /// list, opens the help, or asks the host to open the entry's link or to
    /// fetch its full content.
    pub fn handle_rss_entry_view(
        &mut self,
        key: KeyEvent,
        rss_feed_index: usize,
        rss_entry_index: usize,
    ) -> (out: Outcome)
        ensures
            final(self)@ == old(self)@.entry_key(key, rss_feed_index, rss_entry_index).state,
            out.should_quit == old(self)@.entry_key(
                key,
                rss_feed_index,
                rss_entry_index,
            ).should_quit,
            out.effect@ == old(self)@.entry_key(key, rss_feed_index, rss_entry_index).effect,
    {
        let stay = Outcome { should_quit: false, effect: Effect::Nothing };
        let f = rss_feed_index;
        let e = rss_entry_index;
        let has_entry = f < self.rss_feeds.len() && e < self.rss_feeds[f].rss_entries.len();
        let before = self.last_key;
        let name = Self::entry_key_name(key.code);
        self.last_key = Some(name);
        match name {
            KeyCode::Char(c) => {
                if c == 'o' {
                    if has_entry {
                        let link = self.rss_feeds[f].rss_entries[e].link.clone();
                        Outcome { should_quit: false, effect: Effect::OpenLink(link) }
                    } else {
                        stay
                    }
                } else if c == 'f' {
                    if has_entry {
                        let link = self.rss_feeds[f].rss_entries[e].link.clone();
                        Outcome {
                            should_quit: false,
                            effect: Effect::FetchEntryContent {
                                rss_feed_index: f,
                                rss_entry_index: e,
                                link,
                                width: self.last_frame_area.width,
                            },
                        }
                    } else {
                        stay
                    }
                } else if c == 'q' {
                    self.view_state = ViewState::RssFeeds;
                    stay
                } else if c == 'k' {
                    self.scroll_up(1, f, e);
                    stay
                } else if c == 'j' {
                    self.scroll_down(1, f, e);
                    stay
                } else if c == 'h' {
                    self.popup = PopupState::RssEntryHelp;
                    stay
                } else if c == 'g' {
                    if before == Some(KeyCode::Char('g')) {
                        self.rss_entry_scroll = 0;
                        self.last_key = None;
                    }
                    stay
                } else if c == 'G' {
                    self.rss_entry_scroll = self.get_max_rss_entry_scroll(
                        f,
                        e,
                        self.last_frame_area.height,
                    );
                    stay
                } else if c == 'u' {
                    if key.control {
                        let half = self.half_page();
                        self.scroll_up(half, f, e);
                    }
                    stay
                } else if c == 'd' {
                    if key.control {
                        let half = self.half_page();
                        self.scroll_down(half, f, e);
                    }
                    stay
                } else {
                    stay
                }
            },
            _ => stay,
        }
    }
}

} // verus!
