use pequod_reader::app::{App, Effect, KeyCode, KeyEvent};
use pequod_reader::model::{PopupState, Row};

fn typing_app(text: &str, cursor: usize) -> App {
    let mut app = App::new(Vec::new());
    app.popup = PopupState::AddRssFeed;
    app.input = text.to_string();
    app.character_index = cursor;
    app
}

#[test]
fn characters_are_inserted_at_the_cursor() {
    let mut app = typing_app("", 0);
    for c in "héllo".chars() {
        app.enter_char(c);
    }
    assert_eq!(app.input, "héllo");
    assert_eq!(app.character_index, 5);
    app.move_cursor_left();
    app.move_cursor_left();
    app.move_cursor_left();
    app.move_cursor_left();
    assert_eq!(app.character_index, 1);
    app.enter_char('ü');
    assert_eq!(app.input, "hüéllo");
    assert_eq!(app.character_index, 2);
}

#[test]
fn backspace_removes_whole_characters() {
    let mut app = typing_app("日本語", 2);
    app.delete_char();
    assert_eq!(app.input, "日語");
    assert_eq!(app.character_index, 1);
    app.delete_char();
    assert_eq!(app.input, "語");
    assert_eq!(app.character_index, 0);
    app.delete_char();
    assert_eq!(app.input, "語");
    assert_eq!(app.character_index, 0);
}

#[test]
fn input_cursor_stays_within_the_text() {
    let mut app = typing_app("ab", 0);
    app.move_cursor_left();
    assert_eq!(app.character_index, 0);
    app.move_cursor_right();
    app.move_cursor_right();
    app.move_cursor_right();
    assert_eq!(app.character_index, 2);
    // A cursor beyond the text comes back to its end.
    app.character_index = 10;
    app.enter_char('c');
    assert_eq!(app.input, "abc");
    assert_eq!(app.character_index, 3);
    app.character_index = 10;
    app.delete_char();
    assert_eq!(app.input, "abc");
    assert_eq!(app.character_index, 3);
}

#[test]
fn add_popup_edits_and_submits() {
    let rows: Vec<Row> = Vec::new();
    let mut app = App::new(Vec::new());
    app.handle_key(KeyEvent::new(KeyCode::Char('a')), &rows);
    for c in "htp://x".chars() {
        app.handle_key(KeyEvent::new(KeyCode::Char(c)), &rows);
    }
    for _ in 0..5 {
        app.handle_key(KeyEvent::new(KeyCode::Left), &rows);
    }
    app.handle_key(KeyEvent::new(KeyCode::Char('t')), &rows);
    app.handle_key(KeyEvent::new(KeyCode::Right), &rows);
    app.handle_key(KeyEvent::new(KeyCode::Backspace), &rows);
    app.handle_key(KeyEvent::new(KeyCode::Char('p')), &rows);
    assert_eq!(app.input, "http://x");
    assert_eq!(app.popup, PopupState::AddRssFeed);
    let outcome = app.handle_key(KeyEvent::new(KeyCode::Enter), &rows);
    assert_eq!(outcome.effect, Effect::FetchFeed("http://x".to_string()));
    assert_eq!(app.input, "");
    assert_eq!(app.character_index, 0);
    assert_eq!(app.popup, PopupState::Closed);
}

#[test]
fn add_popup_is_cancelled_by_escape_and_q() {
    let rows: Vec<Row> = Vec::new();
    for code in [KeyCode::Esc, KeyCode::Char('q')] {
        let mut app = typing_app("https://example.com", 5);
        let outcome = app.handle_key(KeyEvent::new(code), &rows);
        assert_eq!(outcome.effect, Effect::Nothing);
        assert!(!outcome.should_quit);
        assert_eq!(app.input, "");
        assert_eq!(app.character_index, 0);
        assert_eq!(app.popup, PopupState::Closed);
    }
}

#[test]
fn add_rss_feed_hands_the_input_over() {
    let mut app = typing_app("https://example.com/feed", 3);
    let effect = app.add_rss_feed();
    assert_eq!(effect, Effect::FetchFeed("https://example.com/feed".to_string()));
    assert_eq!(app.input, "");
    assert_eq!(app.character_index, 0);
}
