//! What background work reports: the events made of what the host fetched,
//! parsed and rendered.

use crate::document::{FeedDocument, FeedDocumentView};
use crate::event::{AppEvent, AppEventView};
use crate::text::text_of;
use vstd::prelude::*;

verus! {

/// The message for a feed that could not be fetched or parsed.
pub open spec fn add_failed_message(cause: Seq<char>) -> Seq<char> {
    "Failed to add feed: "@ + cause
}

/// The message for a page that could not be fetched.
pub open spec fn load_failed_message(cause: Seq<char>) -> Seq<char> {
    "Failed to load full content: "@ + cause
}

/// The message for a page that could not be rendered.
pub open spec fn render_failed_message() -> Seq<char> {
    "Failed to parse HTML"@
}

/// The event for a feed that was fetched from `url`: the parsed feed, or the
/// message for the cause of the failure.
pub open spec fn feed_event_of(
    parsed: Result<FeedDocumentView, Seq<char>>,
    url: Seq<char>,
) -> AppEventView {
    match parsed {
        Ok(document) => AppEventView::FeedFetched(Ok(document), url),
        Err(cause) => AppEventView::FeedFetched(Err(add_failed_message(cause)), url),
    }
}

/// The event for the page of an entry: `outcome` holds the rendered text,
/// `None` where rendering failed, or the cause for which the page could not
/// be fetched.
pub open spec fn scraped_event_of(
    rss_feed_index: usize,
    rss_entry_index: usize,
    outcome: Result<Option<Seq<char>>, Seq<char>>,
) -> AppEventView {
    AppEventView::ScrapedEntry {
        rss_feed_index,
        rss_entry_index,
        result: match outcome {
            Ok(Some(text)) => Ok(text),
            Ok(None) => Err(render_failed_message()),
            Err(cause) => Err(load_failed_message(cause)),
        },
    }
}

/// The value of the outcome of parsing.
pub open spec fn parsed_view(
    parsed: Result<FeedDocument, String>,
) -> Result<FeedDocumentView, Seq<char>> {
    match parsed {
        Ok(document) => Ok(document@),
        Err(cause) => Err(cause@),
    }
}

/// A prefix followed by a cause.
fn prefixed(prefix: &str, cause: &String) -> (message: String)
    ensures
        message@ == prefix@ + cause@,
{
    let mut message = String::from_str(prefix);
    message.append(cause.as_str());
    message
}

/// The event for a feed that was fetched from `url` and parsed, or for which
/// either failed.
pub fn feed_event(parsed: Result<FeedDocument, String>, url: String) -> (event: AppEvent)
    ensures
        event@ == feed_event_of(parsed_view(parsed), url@),
{
    match parsed {
        Ok(document) => AppEvent::FeedFetched(Ok(document), url),
        Err(cause) => AppEvent::FeedFetched(Err(prefixed("Failed to add feed: ", &cause)), url),
    }
}

/// The event for the page of an entry, given the rendered text, `None` where
/// rendering failed, or the cause for which the page could not be fetched.
pub fn scraped_event(
    rss_feed_index: usize,
    rss_entry_index: usize,
    outcome: Result<Option<String>, String>,
) -> (event: AppEvent)
    ensures
        event@ == scraped_event_of(
            rss_feed_index,
            rss_entry_index,
            match outcome {
                Ok(text) => Ok(text_of(text)),
                Err(cause) => Err(cause@),
            },
        ),
{
    let result = match outcome {
        Ok(Some(text)) => Ok(text),
        Ok(None) => Err(String::from_str("Failed to parse HTML")),
        Err(cause) => Err(prefixed("Failed to load full content: ", &cause)),
    };
    AppEvent::ScrapedEntry { rss_feed_index, rss_entry_index, result }
}

} // verus!
