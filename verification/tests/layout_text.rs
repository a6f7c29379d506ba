use pequod_reader::app::{App, Rect};
use pequod_reader::layout::{entry_title_lines, list_window, list_window_start, truncate_str};
use pequod_reader::layout::truncate_to;
use pequod_reader::layout::wrap_str;
use pequod_reader::model::{RssEntry, RssFeed};
use pequod_reader::text::{chars_of, string_of};

fn entry(content: &str, read: bool) -> RssEntry {
    RssEntry {
        id: "e".to_string(),
        title: "t".to_string(),
        authors: Vec::new(),
        content: content.to_string(),
        content_total_lines: 0,
        link: String::new(),
        published: None,
        read,
    }
}

fn feed(entries: Vec<RssEntry>) -> RssFeed {
    RssFeed {
        id: "f".to_string(),
        title: "Feed".to_string(),
        link: String::new(),
        rss_entries: entries,
        expanded: false,
    }
}

#[test]
fn test_wrap_str_two_words() {
    let test_title = "two words";
    let wrapped_str = wrap_str(test_title, 1);
    assert!(wrapped_str.first().unwrap() == "two");
    assert!(wrapped_str.get(1).unwrap() == "words");
}

#[test]
fn test_wrap_str_empty() {
    let test_title = String::new();
    let wrapped_str = wrap_str(&test_title, 3);
    assert!(wrapped_str.first().unwrap() == "");
    assert!(wrapped_str.get(1).is_none());
}

#[test]
fn test_wrap_str_long_single_world() {
    let test_title = "this_is_a_long_word_that_should_not_get_wrapped";
    let wrapped_str = wrap_str(test_title, 1);
    assert!(wrapped_str.first().unwrap() == "this_is_a_long_word_that_should_not_get_wrapped");
    assert!(wrapped_str.get(1).is_none());
}

#[test]
fn test_truncate_str_simple() {
    let test_title = "test_title";
    let truncated_title = truncate_str(&test_title, 7);
    assert!(truncated_title == "test...");
}

#[test]
fn test_truncate_str_empty() {
    let test_title = String::new();
    let truncated_title = truncate_str(&test_title, 7);
    assert!(truncated_title == "");
}

#[test]
fn wrap_str_breaks_at_the_width() {
    assert_eq!(
        wrap_str("The quick brown fox jumps over the lazy dog", 10),
        vec!["The quick", "brown fox", "jumps over", "the lazy", "dog"]
    );
    assert_eq!(wrap_str("one\ntwo", 80), vec!["one", "two"]);
}

#[test]
fn truncate_str_counts_columns() {
    assert_eq!(truncate_str("fits", 4), "fits");
    assert_eq!(truncate_str("too long", 3), "...");
    assert_eq!(truncate_str("too long", 2), "..");
    assert_eq!(truncate_str("too long", 0), "");
    assert_eq!(truncate_str("too long", 4), "t...");
    // Wide characters take two columns, combining marks none.
    assert_eq!(truncate_str("日本語のタイトル", 9), "日本語...");
    assert_eq!(truncate_str("日本語のタイトル", 8), "日本...");
    assert_eq!(truncate_str("abc\u{301}defgh", 6), "abc\u{301}...");
    assert_eq!(truncate_to("abcdef", 6, 5), "ab...");
    assert_eq!(truncate_to("abcdef", 5, 5), "abcdef");
}

#[test]
fn characters_and_strings_convert_both_ways() {
    assert_eq!(chars_of("añ日"), vec!['a', 'ñ', '日']);
    assert_eq!(string_of(&vec!['a', 'ñ', '日']), "añ日");
    assert_eq!(string_of(&Vec::new()), "");
}

#[test]
fn list_window_follows_the_cursor() {
    // Everything fits.
    assert_eq!(list_window_start(5, 10, 4), 0);
    assert_eq!(list_window_start(10, 10, 9), 0);
    // Near the top, in the middle, near the end.
    assert_eq!(list_window_start(100, 10, 3), 0);
    assert_eq!(list_window_start(100, 10, 50), 45);
    assert_eq!(list_window_start(100, 10, 95), 90);
    assert_eq!(list_window_start(100, 10, 99), 90);
    assert_eq!(list_window_start(100, 1, 42), 42);
    assert_eq!(list_window_start(100, 0, 42), 42);
    assert_eq!(list_window_start(0, 0, 0), 0);
}

#[test]
fn unread_entries_are_counted() {
    assert_eq!(feed(Vec::new()).unread_count(), 0);
    assert_eq!(feed(vec![entry("", true), entry("", false), entry("", false)]).unread_count(), 2);
    assert_eq!(feed(vec![entry("", true)]).unread_count(), 0);
}

#[test]
fn laying_out_an_entry_notes_frame_and_lines() {
    let mut app =
        App::new(vec![feed(vec![entry("The quick brown fox jumps over the lazy dog", false)])]);
    let area = Rect { x: 0, y: 0, width: 12, height: 3 };
    let lines = app.lay_out_entry(0, 0, area);
    assert_eq!(lines, vec!["The quick", "brown fox", "jumps over", "the lazy", "dog"]);
    assert_eq!(app.last_frame_area, area);
    assert_eq!(app.rss_feeds[0].rss_entries[0].content_total_lines, 5);
    assert_eq!(app.get_max_rss_entry_scroll(0, 0, area.height), 2);
    assert_eq!(app.half_page(), 0);

    let narrow = Rect { x: 0, y: 0, width: 1, height: 40 };
    let lines = app.lay_out_entry(0, 0, narrow);
    assert_eq!(lines.len(), 9);
    assert_eq!(app.rss_feeds[0].rss_entries[0].content_total_lines, 9);
    assert_eq!(app.half_page(), 19);

    let lines = app.lay_out_entry(4, 0, area);
    assert!(lines.is_empty());
    assert_eq!(app.last_frame_area, area);
    assert_eq!(app.rss_feeds[0].rss_entries[0].content_total_lines, 9);
}

#[test]
fn wrap_str_takes_any_width() {
    assert_eq!(wrap_str("a b", 0), vec!["a", "b"]);
    assert_eq!(wrap_str("a b", usize::MAX), vec!["a b"]);
}

#[test]
fn entry_titles_are_wrapped_beside_the_date() {
    // Of 34 columns, 10 are left for the title.
    assert_eq!(
        entry_title_lines("The quick brown fox", 34),
        vec!["The quick", "brown fox"]
    );
    // A list that is no wider than what stands beside the title gives it all.
    assert_eq!(entry_title_lines("The quick brown fox", 24), vec!["The quick brown fox"]);
    assert_eq!(entry_title_lines("The quick brown fox", 5), vec!["The", "quick", "brown", "fox"]);
    // Unlike in the text of an entry, a word that is too wide is broken.
    assert_eq!(entry_title_lines("abcdefgh", 3), vec!["abc", "def", "gh"]);
    assert_eq!(wrap_str("abcdefgh", 3), vec!["abcdefgh"]);
}

#[test]
fn list_window_holds_as_many_rows_as_fit() {
    assert_eq!(list_window(5, 10, 4), (0, 5));
    assert_eq!(list_window(100, 10, 50), (45, 55));
    assert_eq!(list_window(100, 10, 99), (90, 100));
    assert_eq!(list_window(100, 0, 42), (42, 42));
    assert_eq!(list_window(0, 10, 0), (0, 0));
    assert_eq!(list_window(11, 10, 0), (0, 10));
}
