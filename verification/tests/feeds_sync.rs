use pequod_reader::app::{App, Effect};
use pequod_reader::document::{EntryDocument, FeedDocument, UNWRAPPED};
use pequod_reader::event::AppEvent;
use pequod_reader::model::{PopupState, RssEntry, RssFeed, Timestamp};
use pequod_reader::order::{is_newer, sort_entries, sort_feeds, text_before};
use pequod_reader::sync::SyncRun;
use pequod_reader::task::{feed_event, scraped_event};

const ATOM: &str = r#"<?xml version="1.0" encoding="utf-8"?>
<feed xmlns="http://www.w3.org/2005/Atom">
  <title>Example Feed</title>
  <link href="http://example.org/"/>
  <updated>2003-12-13T18:30:02Z</updated>
  <id>urn:uuid:60a76c80-d399-11d9-b93C-0003939e0af6</id>
  <entry>
    <title>Atom-Powered Robots Run Amok</title>
    <link href="http://example.org/2003/12/13/atom03"/>
    <id>urn:uuid:1225c695-cfb8-4ebb-aaaa-80da344efa6a</id>
    <published>2003-12-13T18:30:02Z</published>
    <updated>2003-12-13T18:30:02Z</updated>
    <author><name>John Doe</name></author>
    <summary>Some text.</summary>
  </entry>
  <entry>
    <link href="http://example.org/2"/>
    <id>second</id>
    <published>2004-01-01T00:00:00.5+01:00</published>
    <content type="html">&lt;p&gt;Hello &lt;b&gt;world&lt;/b&gt;&lt;/p&gt;</content>
  </entry>
</feed>"#;

/// What the host does with markup: the renderer's text, if it gives one.
fn render(html: &str, width: usize) -> Option<String> {
    html2text::from_read(html.as_bytes(), width).ok()
}

/// What the host does with the bytes of a feed: the parsed feed with the
/// text of every entry rendered, or the parser's message.
fn parse(source: &str) -> Result<FeedDocument, String> {
    let feed = feed_rs::parser::parse(source.as_bytes()).map_err(|e| e.to_string())?;
    let mut entries = Vec::new();
    for entry in feed.entries {
        let mut document = EntryDocument {
            id: entry.id,
            title: entry.title.map(|t| t.content),
            authors: entry.authors.into_iter().map(|a| a.name).collect(),
            body: entry.content.and_then(|c| c.body),
            summary: entry.summary.map(|s| s.content),
            text: None,
            links: entry.links.into_iter().map(|l| l.href).collect(),
            published: entry
                .published
                .map(|d| Timestamp { secs: d.timestamp(), nanos: d.timestamp_subsec_nanos() }),
        };
        document.text = document.markup().and_then(|markup| render(markup, UNWRAPPED));
        entries.push(document);
    }
    Ok(FeedDocument {
        id: feed.id,
        title: feed.title.map(|t| t.content),
        links: feed.links.into_iter().map(|l| l.href).collect(),
        entries,
    })
}

fn at(secs: i64) -> Option<Timestamp> {
    Some(Timestamp { secs, nanos: 0 })
}

fn entry(id: &str, published: Option<Timestamp>) -> RssEntry {
    RssEntry {
        id: id.to_string(),
        title: id.to_string(),
        authors: Vec::new(),
        content: String::new(),
        content_total_lines: 0,
        link: String::new(),
        published,
        read: false,
    }
}

fn document(id: &str, published: Option<Timestamp>) -> EntryDocument {
    EntryDocument {
        id: id.to_string(),
        title: Some(id.to_string()),
        authors: Vec::new(),
        body: None,
        summary: None,
        text: None,
        links: Vec::new(),
        published,
    }
}

fn feed(id: &str, title: &str, entries: Vec<RssEntry>) -> RssFeed {
    RssFeed {
        id: id.to_string(),
        title: title.to_string(),
        link: format!("https://example.com/{}", id),
        rss_entries: entries,
        expanded: false,
    }
}

fn fetched(entries: Vec<EntryDocument>) -> FeedDocument {
    FeedDocument { id: "f".to_string(), title: None, links: Vec::new(), entries }
}

fn ids(feed: &RssFeed) -> Vec<&str> {
    feed.rss_entries.iter().map(|e| e.id.as_str()).collect()
}

#[test]
fn parsed_feed_becomes_feed_with_entries_newest_first() {
    let event = feed_event(parse(ATOM), "https://example.org/feed".to_string());
    let document = match event {
        AppEvent::FeedFetched(Ok(document), url) => {
            assert_eq!(url, "https://example.org/feed");
            document
        }
        other => panic!("{:?}", other),
    };
    assert_eq!(document.entries.len(), 2);
    assert_eq!(document.entries[0].summary, Some("Some text.".to_string()));
    assert_eq!(document.entries[1].body, Some("<p>Hello <b>world</b></p>".to_string()));
    let feed = RssFeed::from(document);
    assert_eq!(feed.id, "urn:uuid:60a76c80-d399-11d9-b93C-0003939e0af6");
    assert_eq!(feed.title, "Example Feed");
    assert_eq!(feed.link, "http://example.org/");
    assert!(!feed.expanded);
    assert_eq!(ids(&feed), vec!["second", "urn:uuid:1225c695-cfb8-4ebb-aaaa-80da344efa6a"]);
    let newest = &feed.rss_entries[0];
    assert_eq!(newest.title, "Untitled");
    assert_eq!(newest.content, "Hello **world**\n");
    assert_eq!(newest.link, "http://example.org/2");
    assert_eq!(newest.published, Some(Timestamp { secs: 1072911600, nanos: 500_000_000 }));
    assert!(newest.authors.is_empty());
    assert!(!newest.read);
    assert_eq!(newest.content_total_lines, 0);
    let older = &feed.rss_entries[1];
    assert_eq!(older.title, "Atom-Powered Robots Run Amok");
    assert_eq!(older.authors, vec!["John Doe".to_string()]);
    assert_eq!(older.content, "Some text.\n");
    assert_eq!(older.link, "http://example.org/2003/12/13/atom03");
    assert_eq!(older.published, at(1071340202));
}

#[test]
fn entry_without_markup_has_no_text() {
    let entry = RssEntry::from(document("x", None));
    assert_eq!(entry.content, "");
    assert_eq!(entry.link, "");
    assert_eq!(entry.title, "x");
    assert_eq!(entry.published, None);
    // Text without markup that it could be rendered of is not taken.
    let mut stray = document("s", None);
    stray.text = Some("stray".to_string());
    assert_eq!(stray.markup(), None);
    assert_eq!(RssEntry::from(stray).content, "");
    // Markup of which nothing was rendered gives no text.
    let mut unrendered = document("u", None);
    unrendered.summary = Some("<p>summary</p>".to_string());
    assert_eq!(RssEntry::from(unrendered).content, "");
}

#[test]
fn entry_text_is_rendered_of_content_before_summary() {
    let mut with_both = document("y", at(5));
    with_both.body = Some("<p>body</p>".to_string());
    with_both.summary = Some("<p>summary</p>".to_string());
    with_both.links = vec!["first".to_string(), "second".to_string()];
    with_both.title = None;
    assert_eq!(with_both.markup(), Some(&"<p>body</p>".to_string()));
    with_both.text = with_both.markup().and_then(|markup| render(markup, UNWRAPPED));
    let entry = RssEntry::from(with_both);
    assert_eq!(entry.content, "body\n");
    assert_eq!(entry.link, "first");
    assert_eq!(entry.title, "Untitled");

    let mut summary_only = document("z", None);
    summary_only.summary = Some("<p>summary</p>".to_string());
    assert_eq!(summary_only.markup(), Some(&"<p>summary</p>".to_string()));
    summary_only.text = Some("summary\n".to_string());
    assert_eq!(RssEntry::from(summary_only).content, "summary\n");
}

#[test]
fn entry_from_document_takes_given_text() {
    let entry = RssEntry::from_document(document("x", at(3)), "given".to_string());
    assert_eq!(entry.content, "given");
    assert_eq!(entry.id, "x");
    assert_eq!(entry.published, at(3));
}

#[test]
fn failures_to_add_a_feed_are_reported_with_their_cause() {
    let url = "https://example.com/rss.xml".to_string();
    assert_eq!(
        feed_event(Err("connection refused".to_string()), url.clone()),
        AppEvent::FeedFetched(Err("Failed to add feed: connection refused".to_string()), url.clone())
    );
    assert_eq!(
        feed_event(parse("no feed at all"), url.clone()),
        AppEvent::FeedFetched(
            Err("Failed to add feed: unable to parse feed: no root element".to_string()),
            url.clone()
        )
    );
    assert_eq!(
        feed_event(Err("broken".to_string()), url.clone()),
        AppEvent::FeedFetched(Err("Failed to add feed: broken".to_string()), url.clone())
    );
    let parsed = fetched(vec![]);
    assert_eq!(
        feed_event(Ok(parsed.clone()), url.clone()),
        AppEvent::FeedFetched(Ok(parsed), url)
    );
}

#[test]
fn scraped_page_is_rendered_to_the_width() {
    let page = "<h1>Title</h1><p>Some <i>long</i> text here to wrap around the width.</p>";
    assert_eq!(
        scraped_event(2, 3, Ok(render(page, 20))),
        AppEvent::ScrapedEntry {
            rss_feed_index: 2,
            rss_entry_index: 3,
            result: Ok("# Title\n\nSome long text here\nto wrap around the\nwidth.\n".to_string()),
        }
    );
    assert_eq!(
        scraped_event(0, 0, Ok(render("<p>x</p>", 0))),
        AppEvent::ScrapedEntry {
            rss_feed_index: 0,
            rss_entry_index: 0,
            result: Err("Failed to parse HTML".to_string()),
        }
    );
    assert_eq!(
        scraped_event(0, 1, Err("timed out".to_string())),
        AppEvent::ScrapedEntry {
            rss_feed_index: 0,
            rss_entry_index: 1,
            result: Err("Failed to load full content: timed out".to_string()),
        }
    );
    assert_eq!(
        scraped_event(1, 1, Ok(Some("text".to_string()))),
        AppEvent::ScrapedEntry { rss_feed_index: 1, rss_entry_index: 1, result: Ok("text".to_string()) }
    );
    assert_eq!(
        scraped_event(1, 1, Ok(None)),
        AppEvent::ScrapedEntry {
            rss_feed_index: 1,
            rss_entry_index: 1,
            result: Err("Failed to parse HTML".to_string()),
        }
    );
}

#[test]
fn merge_adds_only_what_is_newer_than_the_newest_known() {
    // Known: E1 at T2 = 200, E2 at T1 = 100. Fetched: a duplicate at T1 and a new one at T3.
    let mut feed = feed("f", "Feed", vec![entry("E1", at(200)), entry("E2", at(100))]);
    feed.rss_entries[1].read = true;
    feed.merge(fetched(vec![document("dup", at(100)), document("E3", at(300))]));
    assert_eq!(ids(&feed), vec!["E3", "E1", "E2"]);
    let times: Vec<_> = feed.rss_entries.iter().map(|e| e.published).collect();
    assert_eq!(times, vec![at(300), at(200), at(100)]);
    assert!(!feed.rss_entries[0].read);
    assert!(feed.rss_entries[2].read);
    assert_eq!(feed.title, "Feed");
    assert_eq!(feed.link, "https://example.com/f");
}

#[test]
fn merge_ignores_what_is_as_old_as_the_newest_known() {
    let mut feed = feed("f", "Feed", vec![entry("E1", at(200))]);
    feed.merge(fetched(vec![
        document("same", at(200)),
        document("older", at(150)),
        document("undated", None),
    ]));
    assert_eq!(ids(&feed), vec!["E1"]);
    // Within one second the nanoseconds decide.
    feed.merge(fetched(vec![document("later", Some(Timestamp { secs: 200, nanos: 1 }))]));
    assert_eq!(ids(&feed), vec!["later", "E1"]);
}

#[test]
fn merge_into_empty_feed_takes_every_dated_entry() {
    let mut feed = feed("f", "Feed", vec![]);
    assert_eq!(feed.newest_known(), None);
    feed.merge(fetched(vec![
        document("a", at(10)),
        document("undated", None),
        document("b", at(30)),
        document("c", at(-20)),
        document("d", at(30)),
    ]));
    assert_eq!(ids(&feed), vec!["b", "d", "a", "c"]);
    assert_eq!(feed.newest_known(), at(30));
}

#[test]
fn syncing_twice_changes_nothing_the_second_time() {
    let source = vec![document("dup", at(100)), document("E3", at(300)), document("E4", at(250))];
    let mut feed = feed("f", "Feed", vec![entry("E1", at(200)), entry("E2", at(100))]);
    feed.merge(fetched(source.clone()));
    let once = feed.clone();
    assert_eq!(ids(&once), vec!["E3", "E4", "E1", "E2"]);
    feed.merge(fetched(source));
    assert_eq!(feed, once);
}

#[test]
fn parsed_feed_is_merged_and_failure_handed_on() {
    let mut feed = feed("f", "Feed", vec![entry("known", at(1071340202))]);
    assert_eq!(feed.merge_parsed(parse(ATOM)), Ok(()));
    assert_eq!(ids(&feed), vec!["second", "known"]);
    let before = feed.clone();
    assert_eq!(
        feed.merge_parsed(parse("<html></html>")),
        Err("unable to parse feed: no root element".to_string())
    );
    assert_eq!(feed, before);
    assert_eq!(feed.merge_parsed(Err("cause".to_string())), Err("cause".to_string()));
    assert_eq!(feed, before);
    assert_eq!(feed.merge_parsed(Ok(fetched(vec![document("n", at(2_000_000_000))]))), Ok(()));
    assert_eq!(ids(&feed), vec!["n", "second", "known"]);
}

#[test]
fn entries_are_sorted_newest_first_and_stably() {
    let mut entries = vec![
        entry("a", at(5)),
        entry("none1", None),
        entry("b", at(9)),
        entry("c", at(5)),
        entry("none2", None),
        entry("d", Some(Timestamp { secs: 5, nanos: 7 })),
        entry("e", at(-3)),
    ];
    sort_entries(&mut entries);
    let order: Vec<&str> = entries.iter().map(|e| e.id.as_str()).collect();
    assert_eq!(order, vec!["b", "d", "a", "c", "e", "none1", "none2"]);
    assert!(is_newer(&at(2), &at(1)));
    assert!(!is_newer(&at(1), &at(1)));
    assert!(is_newer(&at(i64::MIN + 1), &None));
    assert!(!is_newer(&None, &None));
    assert!(!is_newer(&Some(Timestamp { secs: i64::MIN, nanos: 0 }), &None));
}

#[test]
fn feeds_are_sorted_by_title_and_stably() {
    let mut feeds = vec![
        feed("1", "beta", vec![]),
        feed("2", "Alpha", vec![]),
        feed("3", "alpha", vec![]),
        feed("4", "", vec![]),
        feed("5", "beta", vec![]),
        feed("6", "alp", vec![]),
        feed("7", "élan", vec![]),
    ];
    sort_feeds(&mut feeds);
    let order: Vec<&str> = feeds.iter().map(|f| f.id.as_str()).collect();
    assert_eq!(order, vec!["4", "2", "6", "3", "1", "5", "7"]);
    let chars = |s: &str| s.chars().collect::<Vec<char>>();
    assert!(text_before(&chars("a"), &chars("b")));
    assert!(text_before(&chars(""), &chars("a")));
    assert!(!text_before(&chars("a"), &chars("")));
    assert!(!text_before(&chars("same"), &chars("same")));
    assert!(text_before(&chars("Z"), &chars("a")));
    for (a, b) in [("abc", "abd"), ("zebra", "é"), ("ab", "abc"), ("B", "a")] {
        assert_eq!(text_before(&chars(a), &chars(b)), a < b);
    }
}

#[test]
fn added_feed_is_sorted_in_and_stored() {
    let mut app = App::new(vec![feed("a", "Alpha", vec![]), feed("c", "Gamma", vec![])]);
    let new = FeedDocument {
        id: "b".to_string(),
        title: Some("Beta".to_string()),
        links: vec!["https://beta.example/home".to_string()],
        entries: vec![document("old", at(1)), document("new", at(2))],
    };
    let effect = app.handle_app_event(AppEvent::FeedFetched(
        Ok(new),
        "https://beta.example/feed.xml".to_string(),
    ));
    assert_eq!(effect, Effect::SaveFeed(1));
    let titles: Vec<&str> = app.rss_feeds.iter().map(|f| f.title.as_str()).collect();
    assert_eq!(titles, vec!["Alpha", "Beta", "Gamma"]);
    assert_eq!(app.rss_feeds[1].id, "b");
    assert_eq!(app.rss_feeds[1].link, "https://beta.example/feed.xml");
    assert_eq!(ids(&app.rss_feeds[1]), vec!["new", "old"]);
    assert_eq!(app.popup, PopupState::Closed);
    assert_eq!(app.find_feed(&"c".to_string()), 2);
    assert_eq!(app.find_feed(&"missing".to_string()), 3);
}

#[test]
fn feed_that_is_there_already_is_refused() {
    let mut app = App::new(vec![feed("a", "Alpha", vec![entry("kept", at(1))])]);
    let again = FeedDocument {
        id: "a".to_string(),
        title: Some("Alpha again".to_string()),
        links: Vec::new(),
        entries: Vec::new(),
    };
    let effect = app.handle_app_event(AppEvent::FeedFetched(Ok(again), "u".to_string()));
    assert_eq!(effect, Effect::Nothing);
    assert_eq!(app.popup, PopupState::Error);
    assert_eq!(
        app.error_message,
        Some("failed to add Alpha again: feed already exists".to_string())
    );
    assert_eq!(app.rss_feeds.len(), 1);
    assert_eq!(app.rss_feeds[0].title, "Alpha");
    assert_eq!(ids(&app.rss_feeds[0]), vec!["kept"]);
}

#[test]
fn sync_run_brings_feeds_up_to_date_in_order() {
    let feeds = vec![
        feed("a", "Alpha", vec![entry("a1", at(10))]),
        feed("b", "Beta", vec![]),
    ];
    let mut run = SyncRun::new(feeds);
    assert_eq!(run.next_link(), Some(&"https://example.com/a".to_string()));
    assert_eq!(run.accept_parsed(Ok(fetched(vec![document("a2", at(20))]))), Ok(()));
    assert_eq!(run.next_link(), Some(&"https://example.com/b".to_string()));
    assert_eq!(run.accept_parsed(parse(ATOM)), Ok(()));
    assert_eq!(run.next_link(), None);
    // With no feed left an answer is dropped.
    assert_eq!(run.accept_parsed(Ok(fetched(vec![document("late", at(99))]))), Ok(()));
    let feeds = run.finish();
    assert_eq!(ids(&feeds[0]), vec!["a2", "a1"]);
    assert_eq!(ids(&feeds[1]), vec!["second", "urn:uuid:1225c695-cfb8-4ebb-aaaa-80da344efa6a"]);
}

#[test]
fn sync_run_ends_at_the_first_failure() {
    let feeds = vec![feed("a", "Alpha", vec![entry("a1", at(10))]), feed("b", "Beta", vec![])];
    let mut run = SyncRun::new(feeds.clone());
    assert_eq!(
        run.accept_parsed(Err("connection refused".to_string())),
        Err("connection refused".to_string())
    );
    assert_eq!(run.next_link(), Some(&"https://example.com/a".to_string()));
    assert_eq!(
        run.accept_parsed(parse("plain text")),
        Err("unable to parse feed: no root element".to_string())
    );
    assert_eq!(run.accept_parsed(Err("broken".to_string())), Err("broken".to_string()));
    assert_eq!(run.finish(), feeds);
    let mut empty = SyncRun::new(Vec::new());
    assert_eq!(empty.next_link(), None);
    assert_eq!(empty.accept_parsed(Err("unused".to_string())), Err("unused".to_string()));
    assert!(!empty.wants(&document("any", at(1))));
    assert!(empty.finish().is_empty());
}

#[test]
fn sync_run_wants_what_is_newer_than_the_next_feed_has() {
    let feeds = vec![feed("a", "Alpha", vec![entry("a1", at(10))]), feed("b", "Beta", vec![])];
    let mut run = SyncRun::new(feeds);
    assert!(run.wants(&document("newer", at(11))));
    assert!(!run.wants(&document("same", at(10))));
    assert!(!run.wants(&document("older", at(9))));
    assert!(!run.wants(&document("undated", None)));
    assert_eq!(run.accept_parsed(Ok(fetched(Vec::new()))), Ok(()));
    // The second feed has no entry: it takes every dated one.
    assert!(run.wants(&document("older", at(9))));
    assert!(!run.wants(&document("undated", None)));
    assert_eq!(run.accept_parsed(Ok(fetched(Vec::new()))), Ok(()));
    assert!(!run.wants(&document("newer", at(11))));
}
