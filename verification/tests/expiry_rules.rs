use pequod_reader::expiry::{expiry_cutoff, DEFAULT_MAX_TTL_SECS};
use pequod_reader::model::{RssEntry, RssFeed, Timestamp};

fn entry(id: &str, published: Option<i64>, read: bool) -> RssEntry {
    RssEntry {
        id: id.to_string(),
        title: id.to_string(),
        authors: Vec::new(),
        content: String::new(),
        content_total_lines: 0,
        link: String::new(),
        published: published.map(|secs| Timestamp { secs, nanos: 0 }),
        read,
    }
}

#[test]
fn cutoff_lies_the_maximum_age_before_now() {
    let now = Timestamp { secs: 1071340202, nanos: 9 };
    assert_eq!(DEFAULT_MAX_TTL_SECS, 5 * 24 * 60 * 60);
    assert_eq!(
        expiry_cutoff(now, DEFAULT_MAX_TTL_SECS),
        Some(Timestamp { secs: 1070908202, nanos: 9 })
    );
    assert_eq!(expiry_cutoff(now, 0), Some(now));
    assert_eq!(expiry_cutoff(now, -1), None);
    assert_eq!(expiry_cutoff(Timestamp { secs: i64::MIN + 5, nanos: 0 }, 6), None);
    assert_eq!(
        expiry_cutoff(Timestamp { secs: i64::MIN + 5, nanos: 0 }, 5),
        Some(Timestamp { secs: i64::MIN, nanos: 0 })
    );
}

#[test]
fn unread_entries_older_than_the_cutoff_expire() {
    let cutoff = Timestamp { secs: 100, nanos: 0 };
    assert!(entry("old", Some(99), false).is_expired(&cutoff));
    assert!(!entry("at", Some(100), false).is_expired(&cutoff));
    assert!(!entry("read", Some(1), true).is_expired(&cutoff));
    assert!(!entry("undated", None, false).is_expired(&cutoff));
    assert!(entry("same second", Some(100), false).is_expired(&Timestamp { secs: 100, nanos: 1 }));

    let mut feed = RssFeed {
        id: "f".to_string(),
        title: "Feed".to_string(),
        link: "l".to_string(),
        rss_entries: vec![
            entry("new", Some(300), false),
            entry("edge", Some(100), false),
            entry("old unread", Some(99), false),
            entry("old read", Some(50), true),
            entry("older unread", Some(10), false),
            entry("undated", None, false),
        ],
        expanded: true,
    };
    let removed = feed.expire_unread(cutoff);
    assert_eq!(removed, vec!["old unread", "older unread"]);
    let left: Vec<&str> = feed.rss_entries.iter().map(|e| e.id.as_str()).collect();
    assert_eq!(left, vec!["new", "edge", "old read", "undated"]);
    assert_eq!(feed.id, "f");
    assert_eq!(feed.title, "Feed");
    assert!(feed.expanded);
    assert!(feed.expire_unread(cutoff).is_empty());
    assert_eq!(feed.rss_entries.len(), 4);
}

#[test]
fn instants_are_ordered_by_seconds_then_nanoseconds() {
    let a = Timestamp { secs: 5, nanos: 10 };
    assert!(a.is_after(&Timestamp { secs: 4, nanos: 999_999_999 }));
    assert!(a.is_after(&Timestamp { secs: 5, nanos: 9 }));
    assert!(!a.is_after(&a));
    assert!(!a.is_after(&Timestamp { secs: 5, nanos: 11 }));
    assert!(!Timestamp { secs: -1, nanos: 0 }.is_after(&Timestamp { secs: 0, nanos: 0 }));
    assert_eq!(Timestamp::min(), Timestamp { secs: i64::MIN, nanos: 0 });
    assert!(a.is_after(&Timestamp::min()));
    assert!(!Timestamp::min().is_after(&Timestamp::min()));
}
