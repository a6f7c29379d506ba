use pequod_reader::model::{RssEntry, RssFeed, Timestamp};
use pequod_reader::record::{feeds_from_records, EntryRecord, FeedRecord};

fn entry(id: &str, secs: i64) -> RssEntry {
    RssEntry {
        id: id.to_string(),
        title: format!("title of {}", id),
        authors: vec!["A \"B\"".to_string(), "C".to_string()],
        content: "c".to_string(),
        content_total_lines: 3,
        link: "l".to_string(),
        published: Some(Timestamp { secs, nanos: 500_000_000 }),
        read: true,
    }
}

fn record(id: &str, published: &str) -> EntryRecord {
    EntryRecord {
        id: id.to_string(),
        rss_feed_id: "f".to_string(),
        title: "t".to_string(),
        authors: "[\"X\"]".to_string(),
        content: "c".to_string(),
        content_total_lines: 4,
        link: "l".to_string(),
        published: published.to_string(),
        read: 0,
    }
}

#[test]
fn entry_is_written_as_a_row() {
    let row = entry("i", 1071340202).to_record(&"f".to_string()).unwrap();
    assert_eq!(
        row,
        EntryRecord {
            id: "i".to_string(),
            rss_feed_id: "f".to_string(),
            title: "title of i".to_string(),
            authors: "[\"A \\\"B\\\"\",\"C\"]".to_string(),
            content: "c".to_string(),
            content_total_lines: 3,
            link: "l".to_string(),
            published: "2003-12-13T18:30:02.500+00:00".to_string(),
            read: 1,
        }
    );
}

#[test]
fn entry_without_time_is_written_with_empty_time() {
    let mut undated = entry("i", 0);
    undated.published = None;
    undated.read = false;
    undated.authors = Vec::new();
    let row = undated.to_record(&"f".to_string()).unwrap();
    assert_eq!(row.published, "");
    assert_eq!(row.read, 0);
    assert_eq!(row.authors, "[]");
    // A time that has no text is written as absent too.
    let mut far = entry("j", i64::MAX);
    far.content_total_lines = usize::MAX;
    let row = far.to_record(&"f".to_string()).unwrap();
    assert_eq!(row.published, "");
    assert_eq!(row.content_total_lines as u128, (usize::MAX as u128).min(i64::MAX as u128));
}

#[test]
fn record_with_reports_authors_that_cannot_be_written() {
    let e = entry("i", 0);
    assert_eq!(
        e.record_with(&"f".to_string(), None, None),
        Err("authors failed to serialize".to_string())
    );
    let row = e.record_with(&"f".to_string(), Some("[]".to_string()), Some("when".to_string()));
    assert_eq!(row.unwrap().published, "when");
}

#[test]
fn entry_is_read_from_a_row() {
    let entry = RssEntry::from_record(record("i", "2003-12-13T19:30:02.5+01:00"));
    assert_eq!(
        entry,
        RssEntry {
            id: "i".to_string(),
            title: "t".to_string(),
            authors: vec!["X".to_string()],
            content: "c".to_string(),
            content_total_lines: 4,
            link: "l".to_string(),
            published: Some(Timestamp { secs: 1071340202, nanos: 500_000_000 }),
            read: false,
        }
    );
    let mut odd = record("j", "yesterday");
    odd.authors = "not json".to_string();
    odd.content_total_lines = -7;
    odd.read = 5;
    let entry = RssEntry::from_record(odd);
    assert_eq!(entry.published, None);
    assert!(entry.authors.is_empty());
    assert_eq!(entry.content_total_lines, 0);
    assert!(entry.read);
    let given = RssEntry::from_record_with(record("k", ""), None, Some(Timestamp { secs: 1, nanos: 2 }));
    assert_eq!(given.published, Some(Timestamp { secs: 1, nanos: 2 }));
    assert!(given.authors.is_empty());
}

#[test]
fn feed_comes_back_from_its_rows() {
    let feed = RssFeed {
        id: "f".to_string(),
        title: "Feed".to_string(),
        link: "https://example.com/feed".to_string(),
        rss_entries: vec![entry("new", 300), entry("mid", 200), entry("old", 100)],
        expanded: true,
    };
    let row = feed.to_record();
    assert_eq!(
        row,
        FeedRecord {
            id: "f".to_string(),
            title: "Feed".to_string(),
            link: "https://example.com/feed".to_string(),
            expanded: 1,
        }
    );
    let mut rows = feed.entry_records().unwrap();
    assert_eq!(rows.len(), 3);
    assert!(rows.iter().all(|r| r.rss_feed_id == "f"));
    // The store may hand the rows back in any order.
    rows.reverse();
    let loaded = RssFeed::from_records(row, rows);
    assert_eq!(loaded, feed);
}

#[test]
fn collapsed_feed_is_written_with_flag_zero() {
    let feed = RssFeed {
        id: "f".to_string(),
        title: "Feed".to_string(),
        link: String::new(),
        rss_entries: Vec::new(),
        expanded: false,
    };
    assert_eq!(feed.to_record().expanded, 0);
    assert_eq!(feed.entry_records(), Ok(Vec::new()));
    let loaded = RssFeed::from_records(feed.to_record(), Vec::new());
    assert_eq!(loaded, feed);
}

#[test]
fn feeds_are_loaded_by_title_with_entries_newest_first() {
    let feed_row = |id: &str, title: &str| FeedRecord {
        id: id.to_string(),
        title: title.to_string(),
        link: String::new(),
        expanded: 0,
    };
    let rows = vec![
        (feed_row("g", "Gamma"), vec![]),
        (
            feed_row("a", "Alpha"),
            vec![
                record("old", "2003-12-13T18:30:02+00:00"),
                record("undated", ""),
                record("new", "2004-01-01T00:00:00+00:00"),
            ],
        ),
        (feed_row("b", "Beta"), vec![record("only", "2020-02-02T02:02:02Z")]),
    ];
    let feeds = feeds_from_records(rows);
    let titles: Vec<&str> = feeds.iter().map(|f| f.title.as_str()).collect();
    assert_eq!(titles, vec!["Alpha", "Beta", "Gamma"]);
    let ids: Vec<&str> = feeds[0].rss_entries.iter().map(|e| e.id.as_str()).collect();
    assert_eq!(ids, vec!["new", "old", "undated"]);
    assert_eq!(feeds[1].rss_entries[0].published, Some(Timestamp { secs: 1580608922, nanos: 0 }));
    assert!(feeds_from_records(Vec::new()).is_empty());
}
