//! What the drawing code asks of the state: text cut or wrapped to a width,
//! the part of a list or of an entry that is visible.

use crate::app::{App, AppView, Rect};
use crate::model::{EntryView, FeedView, RssFeed};
use crate::text::{chars_of, push_char};
use vstd::prelude::*;

verus! {

/// The number of columns that `unicode_width::UnicodeWidthStr::width` gives
/// for a string.
pub uninterp spec fn str_width(text: Seq<char>) -> usize;

/// The number of columns that `unicode_width::UnicodeWidthChar::width` gives
/// for a character; `None` for a control character.
pub uninterp spec fn char_width(c: char) -> Option<usize>;

/// The lines that `textwrap::wrap` breaks a text into at `width` columns;
/// `break_words` says whether a word that is wider than a line is broken.
pub uninterp spec fn wrapped(text: Seq<char>, width: usize, break_words: bool) -> Seq<Seq<char>>;

/// The displayed width of a string in columns.
///
/// Trusted: calls `unicode_width::UnicodeWidthStr::width` and names its
/// result.
#[verifier::external_body]
pub(crate) fn width_of_str(text: &str) -> (width: usize)
    ensures
        width == str_width(text@),
{
    unicode_width::UnicodeWidthStr::width(text)
}

/// The displayed width of a character in columns.
///
/// Trusted: calls `unicode_width::UnicodeWidthChar::width` and names its
/// result.
#[verifier::external_body]
pub(crate) fn width_of_char(c: char) -> (width: Option<usize>)
    ensures
        width == char_width(c),
{
    unicode_width::UnicodeWidthChar::width(c)
}

/// Breaks a text into lines of at most `width` columns.
///
/// Trusted: calls `textwrap::wrap` with `textwrap::Options::new(width)` and
/// its `break_words` set as given, and names the lines it gives.
#[verifier::external_body]
pub(crate) fn wrap_lines(text: &str, width: usize, break_words: bool) -> (lines: Vec<String>)
    ensures
        lines.deep_view() == wrapped(text@, width, break_words),
{
    let options = textwrap::Options::new(width).break_words(break_words);
    textwrap::wrap(text, options).into_iter().map(|l| l.to_string()).collect()
}

/// The columns that a character takes: none for a control character.
pub open spec fn columns(c: char) -> int {
    match char_width(c) {
        Some(w) => w as int,
        None => 0,
    }
}

/// How many characters at the front of `text` fit into `budget` columns: the
/// count stops before the first character that does not fit.
pub open spec fn fitting(text: Seq<char>, budget: int) -> int
    decreases text.len(),
{
    if text.len() == 0 || columns(text[0]) > budget {
        0
    } else {
        1 + fitting(text.drop_first(), budget - columns(text[0]))
    }
}

/// `n` full stops.
pub open spec fn dots(n: int) -> Seq<char> {
    Seq::new(n as nat, |i: int| '.')
}

/// A text cut to `max_width` columns: a text that fits is left as it is; of a
/// longer one as many characters are kept as fit before three full stops;
/// where not even these have room, only full stops are left.
pub open spec fn truncated(text: Seq<char>, max_width: usize) -> Seq<char> {
    if str_width(text) <= max_width {
        text
    } else if max_width <= 3 {
        dots(max_width as int)
    } else {
        text.take(fitting(text, max_width - 3)) + dots(3)
    }
}

/// The text cut to `max_width` columns, given its width.
pub fn truncate_to(text: &str, width: usize, max_width: usize) -> (result: String)
    ensures
        result@ == if width <= max_width {
            text@
        } else if max_width <= 3 {
            dots(max_width as int)
        } else {
            text@.take(fitting(text@, max_width - 3)) + dots(3)
        },
{
    if width <= max_width {
        return String::from_str(text);
    }
    let mut result = String::new();
    if max_width <= 3 {
        let mut n: usize = 0;
        while n < max_width
            invariant
                n <= max_width,
                result@ == dots(n as int),
            decreases max_width - n,
        {
            push_char(&mut result, '.');
            proof {
                assert(result@ =~= dots(n + 1));
            }
            n += 1;
        }
        return result;
    }
    let chars = chars_of(text);
    let budget = max_width - 3;
    let mut used: usize = 0;
    let mut i: usize = 0;
    proof {
        assert(chars@.skip(0) == chars@);
        assert(chars@.take(0) =~= Seq::<char>::empty());
    }
    while i < chars.len()
        invariant
            i <= chars.len(),
            used <= budget,
            chars@ == text@,
            result@ == chars@.take(i as int),
            fitting(chars@, budget as int) == i + fitting(chars@.skip(i as int), budget - used),
        ensures
            i <= chars.len(),
            result@ == chars@.take(i as int),
            fitting(chars@, budget as int) == i,
        decreases chars.len() - i,
    {
        let ch = chars[i];
        let ch_width = match width_of_char(ch) {
            Some(w) => w,
            None => 0,
        };
        proof {
            assert(chars@.skip(i as int)[0] == ch);
            assert(chars@.skip(i as int).drop_first() == chars@.skip(i + 1));
        }
        if ch_width > budget - used {
            break;
        }
        push_char(&mut result, ch);
        proof {
            assert(result@ =~= chars@.take(i + 1));
        }
        used += ch_width;
        i += 1;
    }
    result.append("...");
    proof {
        reveal_strlit("...");
        assert("..."@ =~= dots(3));
    }
    result
}

/// Cuts a text to `max_width` columns, ending it in three full stops if
/// something was cut off.
pub fn truncate_str(str_to_truncate: &str, max_width: usize) -> (result: String)
    ensures
        result@ == truncated(str_to_truncate@, max_width),
{
    let width = width_of_str(str_to_truncate);
    truncate_to(str_to_truncate, width, max_width)
}

/// Breaks a text into lines of at most `width` columns; a word that is wider
/// stands on a line of its own.
pub fn wrap_str(text: &str, width: usize) -> (lines: Vec<String>)
    ensures
        lines.deep_view() == wrapped(text@, width, false),
{
    wrap_lines(text, width, false)
}

/// The width left for the title of an entry in a list `width` columns wide,
/// beside its indentation, its mark and its date; the whole width where
/// these take it all.
pub open spec fn title_width(width: u16) -> usize {
    if width > 24 {
        (width - 24) as usize
    } else {
        width as usize
    }
}

/// Breaks the title of an entry into the lines of its row in a list `width`
/// columns wide; a word that is wider than a line is broken.
pub fn entry_title_lines(title: &str, width: u16) -> (lines: Vec<String>)
    ensures
        lines.deep_view() == wrapped(title@, title_width(width), true),
{
    let wrapped_width = if width > 24 { width - 24 } else { width };
    wrap_lines(title, wrapped_width as usize, true)
}

/// The first row that is drawn of `len` rows in a list of `height` lines,
/// with the cursor held near the middle.
pub open spec fn window_start(len: int, height: int, cursor: int) -> int {
    if len <= height {
        0
    } else if cursor < height / 2 {
        0
    } else if cursor + height / 2 >= len {
        len - height
    } else {
        cursor - height / 2
    }
}

/// The first row to draw of `rows_len` rows in a list of `visible_height`
/// lines. All rows are drawn if they fit; otherwise the window follows the
/// cursor and ends with the last row at the latest.
pub fn list_window_start(rows_len: usize, visible_height: usize, cursor: usize) -> (start: usize)
    ensures
        start == window_start(rows_len as int, visible_height as int, cursor as int),
        start <= rows_len,
        rows_len > visible_height ==> start + visible_height <= rows_len,
        cursor < rows_len && visible_height > 0 ==> start <= cursor < start + visible_height,
{
    let half = visible_height / 2;
    if rows_len <= visible_height {
        0
    } else if cursor < half {
        0
    } else if cursor >= rows_len - half {
        rows_len - visible_height
    } else {
        cursor - half
    }
}

/// The rows to draw of `rows_len` rows in a list of `visible_height` lines:
/// the index of the first, and the index behind the last. As many rows are
/// drawn as there are lines, or as there are rows from the first on.
pub fn list_window(rows_len: usize, visible_height: usize, cursor: usize) -> (window: (
    usize,
    usize,
))
    ensures
        window.0 == window_start(rows_len as int, visible_height as int, cursor as int),
        window.0 <= window.1 <= rows_len,
        window.1 - window.0 == if visible_height <= rows_len - window.0 {
            visible_height as int
        } else {
            rows_len - window.0
        },
        cursor < rows_len && visible_height > 0 ==> window.0 <= cursor < window.1,
{
    let start = list_window_start(rows_len, visible_height, cursor);
    let count = if visible_height <= rows_len - start { visible_height } else { rows_len - start };
    (start, start + count)
}

/// The number of entries among the first `n` that are unread.
pub open spec fn unread_among(entries: Seq<EntryView>, n: int) -> int
    decreases n,
{
    if n <= 0 {
        0
    } else {
        unread_among(entries, n - 1) + if entries[n - 1].read {
            0int
        } else {
            1int
        }
    }
}

impl RssFeed {
    /// The number of unread entries of the feed.
    pub fn unread_count(&self) -> (count: usize)
        ensures
            count == unread_among(self@.entries, self@.entries.len() as int),
    {
        let mut count: usize = 0;
        let mut i: usize = 0;
        while i < self.rss_entries.len()
            invariant
                i <= self.rss_entries.len(),
                count == unread_among(self@.entries, i as int),
                count <= i,
            decreases self.rss_entries.len() - i,
        {
            if !self.rss_entries[i].read {
                count += 1;
            }
            i += 1;
        }
        count
    }
}

/// The feeds with the number of lines of one entry set.
pub open spec fn set_lines(feeds: Seq<FeedView>, feed: int, entry: int, lines: usize) -> Seq<
    FeedView,
> {
    feeds.update(
        feed,
        FeedView {
            entries: feeds[feed].entries.update(
                entry,
                EntryView { content_total_lines: lines, ..feeds[feed].entries[entry] },
            ),
            ..feeds[feed]
        },
    )
}

/// The width of the text inside the border of a frame.
pub open spec fn inner_width(area: Rect) -> usize {
    if area.width < 2 {
        0
    } else {
        (area.width - 2) as usize
    }
}

impl AppView {
    /// The state after an entry was laid out in a frame: the frame is noted,
    /// and so is the number of lines that the entry's text takes in it.
    pub open spec fn lay_out_entry(self, f: usize, e: usize, area: Rect) -> AppView {
        if self.has_entry(f, e) {
            AppView {
                last_frame_area: area,
                rss_feeds: set_lines(
                    self.rss_feeds,
                    f as int,
                    e as int,
                    wrapped(
                        self.rss_feeds[f as int].entries[e as int].content,
                        inner_width(area),
                        false,
                    ).len() as usize,
                ),
                ..self
            }
        } else {
            AppView { last_frame_area: area, ..self }
        }
    }
}

impl App {
    /// Lays the text of an entry out in a frame: wraps it to the width inside
    /// the border, notes the frame and the number of lines, and returns the
    /// lines. There are no lines if there is no such entry.
    pub fn lay_out_entry(&mut self, rss_feed_index: usize, rss_entry_index: usize, area: Rect) -> (lines:
        Vec<String>)
        ensures
            final(self)@ == old(self)@.lay_out_entry(rss_feed_index, rss_entry_index, area),
            lines.deep_view() == if old(self)@.has_entry(rss_feed_index, rss_entry_index) {
                wrapped(
                    old(self)@.rss_feeds[rss_feed_index as int].entries[rss_entry_index as int].content,
                    inner_width(area),
                    false,
                )
            } else {
                Seq::empty()
            },
    {
        self.last_frame_area = area;
        if rss_feed_index < self.rss_feeds.len() && rss_entry_index
            < self.rss_feeds[rss_feed_index].rss_entries.len() {
            let width = if area.width < 2 { 0 } else { (area.width - 2) as usize };
            let lines = wrap_lines(
                self.rss_feeds[rss_feed_index].rss_entries[rss_entry_index].content.as_str(),
                width,
                false,
            );
            self.rss_feeds[rss_feed_index].rss_entries[rss_entry_index].content_total_lines =
                lines.len();
            proof {
                let f = rss_feed_index as int;
                let set = set_lines(
                    old(self)@.rss_feeds,
                    f,
                    rss_entry_index as int,
                    lines.len(),
                );
                assert(lines.deep_view().len() == lines.len());
                assert(self@.rss_feeds[f].entries =~= set[f].entries);
                assert(self@.rss_feeds =~= set);
            }
            lines
        } else {
            let lines: Vec<String> = Vec::new();
            proof {
                assert(lines.deep_view() =~= Seq::<Seq<char>>::empty());
            }
            lines
        }
    }
}

} // verus!
