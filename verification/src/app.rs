//! The application state and the editing of its input line.

use crate::model::{FeedView, PopupState, Row, RssFeed, ViewState};
use crate::model::{feed_views, rows_for, rows_of};
use crate::text::{chars_of, string_of, text_of};
use vstd::prelude::*;

verus! {

/// The key of a key press.
#[derive(Clone, Copy, Debug, PartialEq, Eq, Structural)]
pub enum KeyCode {
    Backspace,
    Enter,
    Left,
    Right,
    Up,
    Down,
    End,
    Esc,
    Char(char),
    /// Any key that has no meaning here.
    Other,
}

/// A key press: the key, and whether Control was held.
#[derive(Clone, Copy, Debug, PartialEq, Eq, Structural)]
pub struct KeyEvent {
    pub code: KeyCode,
    pub control: bool,
}

impl KeyEvent {
    /// A key pressed alone.
    pub fn new(code: KeyCode) -> (key: KeyEvent)
        ensures
            key == (KeyEvent { code, control: false }),
    {
        KeyEvent { code, control: false }
    }

    /// A key pressed while Control was held.
    pub fn with_control(code: KeyCode) -> (key: KeyEvent)
        ensures
            key == (KeyEvent { code, control: true }),
    {
        KeyEvent { code, control: true }
    }
}

/// The rectangle of the terminal that the last frame was drawn in.
#[derive(Clone, Copy, Debug, PartialEq, Eq, Structural)]
pub struct Rect {
    pub x: u16,
    pub y: u16,
    pub width: u16,
    pub height: u16,
}

impl Default for Rect {
    fn default() -> (r: Rect)
        ensures
            r == (Rect { x: 0, y: 0, width: 0, height: 0 }),
    {
        Rect { x: 0, y: 0, width: 0, height: 0 }
    }
}

/// What the host is asked to do after a transition. The state machine itself
/// touches neither the store nor the network.
#[derive(Clone, Debug, PartialEq, Eq)]
pub enum Effect {
    Nothing,
    /// Store the feed at this index with all its entries.
    SaveFeed(usize),
    /// Store the entry at the second index of the feed at the first.
    SaveEntry(usize, usize),
    /// Store every feed, one after the other.
    SaveAllFeeds,
    /// Remove the feed with this id, and its entries, from the store.
    DeleteFeed(String),
    /// Fetch the feed at this address and report it as `FeedFetched`.
    FetchFeed(String),
    /// Fetch the page at `link`, render it `width` columns wide and report it
    /// as `ScrapedEntry` for this entry.
    FetchEntryContent { rss_feed_index: usize, rss_entry_index: usize, link: String, width: u16 },
    /// Synchronise a copy of the feeds and report it as `SyncFinished`.
    SyncFeeds,
    /// Open this address with the system's handler.
    OpenLink(String),
}

/// The mathematical value of an [`Effect`].
pub enum EffectView {
    Nothing,
    SaveFeed(usize),
    SaveEntry(usize, usize),
    SaveAllFeeds,
    DeleteFeed(Seq<char>),
    FetchFeed(Seq<char>),
    FetchEntryContent { rss_feed_index: usize, rss_entry_index: usize, link: Seq<char>, width: u16 },
    SyncFeeds,
    OpenLink(Seq<char>),
}

impl View for Effect {
    type V = EffectView;

    open spec fn view(&self) -> EffectView {
        match *self {
            Effect::Nothing => EffectView::Nothing,
            Effect::SaveFeed(f) => EffectView::SaveFeed(f),
            Effect::SaveEntry(f, e) => EffectView::SaveEntry(f, e),
            Effect::SaveAllFeeds => EffectView::SaveAllFeeds,
            Effect::DeleteFeed(id) => EffectView::DeleteFeed(id@),
            Effect::FetchFeed(url) => EffectView::FetchFeed(url@),
            Effect::FetchEntryContent { rss_feed_index, rss_entry_index, link, width } =>
                EffectView::FetchEntryContent {
                    rss_feed_index,
                    rss_entry_index,
                    link: link@,
                    width,
                },
            Effect::SyncFeeds => EffectView::SyncFeeds,
            Effect::OpenLink(url) => EffectView::OpenLink(url@),
        }
    }
}

/// The result of handling a key: whether the application is to quit, and what
/// the host is to do.
#[derive(Clone, Debug, PartialEq, Eq)]
pub struct Outcome {
    pub should_quit: bool,
    pub effect: Effect,
}

/// The application state.
#[derive(Clone, Debug, PartialEq, Eq)]
pub struct App {
    /// The error message to display, if any.
    pub error_message: Option<String>,
    /// The position of the cursor in the input line, counted in characters.
    pub character_index: usize,
    /// The key pressed before this one, for two-key commands.
    pub last_key: Option<KeyCode>,
    /// Which screen is shown.
    pub view_state: ViewState,
    /// Which popup is shown.
    pub popup: PopupState,
    /// The input line, as when a feed is added.
    pub input: String,
    /// The position of the cursor in the feed list, counted in rows.
    pub cursor: usize,
    /// The feeds with their entries.
    pub rss_feeds: Vec<RssFeed>,
    /// The first visible line of the entry on screen.
    pub rss_entry_scroll: u16,
    /// The area of the previous frame.
    pub last_frame_area: Rect,
    /// Whether a synchronisation is under way.
    pub syncing: bool,
    /// Which frame of the busy indicator is shown.
    pub spinner_index: usize,
}

/// The mathematical value of an [`App`].
#[verifier::ext_equal]
pub struct AppView {
    pub error_message: Option<Seq<char>>,
    pub character_index: usize,
    pub last_key: Option<KeyCode>,
    pub view_state: ViewState,
    pub popup: PopupState,
    pub input: Seq<char>,
    pub cursor: usize,
    pub rss_feeds: Seq<FeedView>,
    pub rss_entry_scroll: u16,
    pub last_frame_area: Rect,
    pub syncing: bool,
    pub spinner_index: usize,
}

/// The state after a transition, whether the application is to quit, and what
/// the host is to do.
#[verifier::ext_equal]
pub struct Step {
    pub state: AppView,
    pub should_quit: bool,
    pub effect: EffectView,
}

impl AppView {
    /// A transition to this state that asks nothing of the host.
    pub open spec fn stay(self) -> Step {
        Step { state: self, should_quit: false, effect: EffectView::Nothing }
    }

    /// A transition to this state that asks `effect` of the host.
    pub open spec fn then_do(self, effect: EffectView) -> Step {
        Step { state: self, should_quit: false, effect }
    }
}

/// The number of frames of the busy indicator.
pub const SPINNER_FRAMES: usize = 4;

impl View for App {
    type V = AppView;

    open spec fn view(&self) -> AppView {
        AppView {
            error_message: text_of(self.error_message),
            character_index: self.character_index,
            last_key: self.last_key,
            view_state: self.view_state,
            popup: self.popup,
            input: self.input@,
            cursor: self.cursor,
            rss_feeds: feed_views(self.rss_feeds@),
            rss_entry_scroll: self.rss_entry_scroll,
            last_frame_area: self.last_frame_area,
            syncing: self.syncing,
            spinner_index: self.spinner_index,
        }
    }
}

impl AppView {
    /// The state in which an application starts on the given feeds.
    pub open spec fn initial(feeds: Seq<FeedView>) -> AppView {
        AppView {
            error_message: None,
            character_index: 0,
            last_key: None,
            view_state: ViewState::RssFeeds,
            popup: PopupState::Closed,
            input: Seq::empty(),
            cursor: 0,
            rss_feeds: feeds,
            rss_entry_scroll: 0,
            last_frame_area: Rect { x: 0, y: 0, width: 0, height: 0 },
            syncing: false,
            spinner_index: 0,
        }
    }

    /// The input cursor moved to `position`, or to the end of the input if
    /// `position` lies beyond it.
    pub open spec fn with_input_cursor(self, position: int) -> AppView {
        AppView {
            character_index: if position > self.input.len() {
                self.input.len() as usize
            } else {
                position as usize
            },
            ..self
        }
    }

    /// The input cursor moved one character to the left.
    pub open spec fn move_cursor_left(self) -> AppView {
        self.with_input_cursor(if self.character_index == 0 { 0 } else { self.character_index - 1 })
    }

    /// The input cursor moved one character to the right.
    pub open spec fn move_cursor_right(self) -> AppView {
        self.with_input_cursor(
            if self.character_index == usize::MAX {
                usize::MAX as int
            } else {
                self.character_index + 1
            },
        )
    }

    /// `c` inserted before the character under the input cursor, or at the
    /// end if the cursor lies beyond the input; the cursor then moves right.
    pub open spec fn enter_char(self, c: char) -> AppView {
        let at = if self.character_index <= self.input.len() {
            self.character_index as int
        } else {
            self.input.len() as int
        };
        (AppView { input: self.input.insert(at, c), ..self }).move_cursor_right()
    }

    /// The character before the input cursor removed, if there is one; the
    /// cursor then moves left unless it was leftmost.
    pub open spec fn delete_char(self) -> AppView {
        if self.character_index == 0 {
            self
        } else if self.character_index <= self.input.len() {
            (AppView { input: self.input.remove(self.character_index - 1), ..self })
                .move_cursor_left()
        } else {
            self.move_cursor_left()
        }
    }

    /// The busy indicator advanced by one frame while synchronising.
    pub open spec fn on_tick(self) -> AppView {
        if self.syncing {
            AppView {
                spinner_index: ((self.spinner_index + 1) % (SPINNER_FRAMES as int)) as usize,
                ..self
            }
        } else {
            self
        }
    }
}

/// How far an entry of `lines` lines can be scrolled in a viewport of
/// `height` lines.
pub open spec fn max_scroll(lines: int, height: int) -> int {
    if lines <= height {
        0
    } else {
        lines - height
    }
}

impl App {
    /// An application on the given feeds: the feed list is shown, no popup is
    /// open, the cursor is on the first row.
    pub fn new(rss_feeds: Vec<RssFeed>) -> (app: App)
        ensures
            app@ == AppView::initial(feed_views(rss_feeds@)),
    {
        App {
            error_message: None,
            character_index: 0,
            last_key: None,
            view_state: ViewState::RssFeeds,
            popup: PopupState::Closed,
            input: String::new(),
            cursor: 0,
            rss_feeds,
            rss_entry_scroll: 0,
            last_frame_area: Rect { x: 0, y: 0, width: 0, height: 0 },
            syncing: false,
            spinner_index: 0,
        }
    }

    /// The largest scroll position of the given entry in a viewport of
    /// `area_height` lines, held to what a scroll position can express; 0 if
    /// there is no such entry.
    pub fn get_max_rss_entry_scroll(
        &self,
        rss_feed_index: usize,
        rss_entry_index: usize,
        area_height: u16,
    ) -> (scroll: u16)
        ensures
            scroll == entry_max_scroll(self@.rss_feeds, rss_feed_index, rss_entry_index, area_height),
    {
        if rss_feed_index < self.rss_feeds.len() && rss_entry_index
            < self.rss_feeds[rss_feed_index].rss_entries.len() {
            let lines = self.rss_feeds[rss_feed_index].rss_entries[rss_entry_index].content_total_lines;
            let height = area_height as usize;
            if lines <= height {
                0
            } else if lines - height > u16::MAX as usize {
                u16::MAX
            } else {
                (lines - height) as u16
            }
        } else {
            0
        }
    }

    /// Moves the input cursor one character to the left.
    pub fn move_cursor_left(&mut self)
        ensures
            final(self)@ == old(self)@.move_cursor_left(),
    {
        let moved = if self.character_index == 0 { 0 } else { self.character_index - 1 };
        self.character_index = self.clamp_cursor(moved);
    }

    /// Moves the input cursor one character to the right.
    pub fn move_cursor_right(&mut self)
        ensures
            final(self)@ == old(self)@.move_cursor_right(),
    {
        let moved = if self.character_index == usize::MAX {
            usize::MAX
        } else {
            self.character_index + 1
        };
        self.character_index = self.clamp_cursor(moved);
    }

    /// Inserts a character into the input line at the cursor.
    pub fn enter_char(&mut self, new_char: char)
        ensures
            final(self)@ == old(self)@.enter_char(new_char),
    {
        let mut chars = chars_of(self.input.as_str());
        let at = if self.character_index <= chars.len() {
            self.character_index
        } else {
            chars.len()
        };
        chars.insert(at, new_char);
        self.input = string_of(&chars);
        self.move_cursor_right();
    }

    /// Deletes the character before the cursor from the input line.
    pub fn delete_char(&mut self)
        ensures
            final(self)@ == old(self)@.delete_char(),
    {
        if self.character_index != 0 {
            let mut chars = chars_of(self.input.as_str());
            if self.character_index <= chars.len() {
                chars.remove(self.character_index - 1);
                self.input = string_of(&chars);
            }
            self.move_cursor_left();
        }
    }

    /// Holds a position of the input cursor within the input line.
    fn clamp_cursor(&self, new_cursor_pos: usize) -> (pos: usize)
        ensures
            pos == self@.with_input_cursor(new_cursor_pos as int).character_index,
    {
        let length = chars_of(self.input.as_str()).len();
        if new_cursor_pos > length {
            length
        } else {
            new_cursor_pos
        }
    }

    /// Advances the busy indicator while a synchronisation is under way.
    pub fn on_tick(&mut self)
        ensures
            final(self)@ == old(self)@.on_tick(),
    {
        if self.syncing {
            self.spinner_index = (self.spinner_index % SPINNER_FRAMES + 1) % SPINNER_FRAMES;
        }
    }
}

/// The largest scroll position of an entry in a viewport of `height` lines,
/// held to what a scroll position can express; 0 if there is no such entry.
pub open spec fn entry_max_scroll(
    feeds: Seq<FeedView>,
    feed_index: usize,
    entry_index: usize,
    height: u16,
) -> u16 {
    if feed_index < feeds.len() && entry_index < feeds[feed_index as int].entries.len() {
        let most = max_scroll(
            feeds[feed_index as int].entries[entry_index as int].content_total_lines as int,
            height as int,
        );
        if most > u16::MAX {
            u16::MAX
        } else {
            most as u16
        }
    } else {
        0
    }
}

/// A character that was typed is taken back by deleting: the input line and
/// its cursor are then as they were, as long as the cursor was within the
/// line.
pub proof fn lemma_delete_undoes_enter(s: AppView, c: char)
    requires
        s.character_index <= s.input.len(),
        s.input.len() < usize::MAX,
    ensures
        s.enter_char(c).delete_char() == s,
{
    let typed = s.enter_char(c);
    assert(typed.input.remove(s.character_index as int) =~= s.input);
}

/// Editing keeps the cursor of the input line within the line.
pub proof fn lemma_editing_keeps_cursor_in_line(s: AppView, c: char)
    requires
        s.input.len() < usize::MAX,
    ensures
        s.enter_char(c).character_index <= s.enter_char(c).input.len(),
        s.delete_char().character_index <= s.delete_char().input.len(),
        s.move_cursor_left().character_index <= s.input.len(),
        s.move_cursor_right().character_index <= s.input.len(),
{
}

/// The rows of the application's feed list.
pub fn get_rows(app: &App) -> (rows: Vec<Row>)
    ensures
        rows@ == rows_of(app@.rss_feeds),
{
    rows_for(&app.rss_feeds)
}

} // verus!
