//! Feeds as the host hands them over once they are parsed, and the feeds and
//! entries made of them.

use crate::model::{entry_views, EntryView, FeedView, RssEntry, RssFeed, Timestamp};
use crate::order::{newest_first, sort_by, sort_entries};
use crate::text::text_of;
use vstd::prelude::*;

verus! {

/// An entry of a parsed feed.
#[derive(Clone, Debug, PartialEq, Eq)]
pub struct EntryDocument {
    pub id: String,
    pub title: Option<String>,
    /// The names of the authors.
    pub authors: Vec<String>,
    /// The markup of the entry's content, if it has any.
    pub body: Option<String>,
    /// The markup of the entry's summary, if it has one.
    pub summary: Option<String>,
    /// The plain text that the host rendered of the entry's markup; `None`
    /// where it rendered none or could not render it.
    pub text: Option<String>,
    /// The addresses that the entry links to.
    pub links: Vec<String>,
    pub published: Option<Timestamp>,
}

/// A parsed feed.
#[derive(Clone, Debug, PartialEq, Eq)]
pub struct FeedDocument {
    pub id: String,
    pub title: Option<String>,
    /// The addresses that the feed links to.
    pub links: Vec<String>,
    pub entries: Vec<EntryDocument>,
}

/// The mathematical value of an [`EntryDocument`].
#[verifier::ext_equal]
pub struct EntryDocumentView {
    pub id: Seq<char>,
    pub title: Option<Seq<char>>,
    pub authors: Seq<Seq<char>>,
    pub body: Option<Seq<char>>,
    pub summary: Option<Seq<char>>,
    pub text: Option<Seq<char>>,
    pub links: Seq<Seq<char>>,
    pub published: Option<Timestamp>,
}

/// The mathematical value of a [`FeedDocument`].
#[verifier::ext_equal]
pub struct FeedDocumentView {
    pub id: Seq<char>,
    pub title: Option<Seq<char>>,
    pub links: Seq<Seq<char>>,
    pub entries: Seq<EntryDocumentView>,
}

impl View for EntryDocument {
    type V = EntryDocumentView;

    open spec fn view(&self) -> EntryDocumentView {
        EntryDocumentView {
            id: self.id@,
            title: text_of(self.title),
            authors: self.authors.deep_view(),
            body: text_of(self.body),
            summary: text_of(self.summary),
            text: text_of(self.text),
            links: self.links.deep_view(),
            published: self.published,
        }
    }
}

impl View for FeedDocument {
    type V = FeedDocumentView;

    open spec fn view(&self) -> FeedDocumentView {
        FeedDocumentView {
            id: self.id@,
            title: text_of(self.title),
            links: self.links.deep_view(),
            entries: self.entries@.map_values(|e: EntryDocument| e@),
        }
    }
}

/// The title given to a feed or an entry that has none.
pub open spec fn untitled() -> Seq<char> {
    "Untitled"@
}

/// The title, or the title given to what has none.
pub open spec fn title_or_untitled(title: Option<Seq<char>>) -> Seq<char> {
    match title {
        Some(t) => t,
        None => untitled(),
    }
}

/// The first of the links, or the empty string if there is none.
pub open spec fn first_link(links: Seq<Seq<char>>) -> Seq<char> {
    if links.len() > 0 {
        links[0]
    } else {
        Seq::empty()
    }
}

/// The markup that an entry's text is rendered of: its content, or else its
/// summary.
pub open spec fn markup_of(document: EntryDocumentView) -> Option<Seq<char>> {
    match document.body {
        Some(b) => Some(b),
        None => document.summary,
    }
}

/// The width, in columns, at which the host renders the text of a new
/// entry: the text is wrapped when it is drawn.
pub const UNWRAPPED: usize = usize::MAX;

/// The text of an entry: what the host rendered of its markup; empty where
/// the entry has no markup or none of it was rendered.
pub open spec fn content_of(document: EntryDocumentView) -> Seq<char> {
    match (markup_of(document), document.text) {
        (Some(_), Some(text)) => text,
        _ => Seq::empty(),
    }
}

/// The unread entry made of a document and the text rendered of it.
pub open spec fn entry_of(document: EntryDocumentView, content: Seq<char>) -> EntryView {
    EntryView {
        id: document.id,
        title: title_or_untitled(document.title),
        authors: document.authors,
        content,
        content_total_lines: 0,
        link: first_link(document.links),
        published: document.published,
        read: false,
    }
}

/// The entries made of documents, in the documents' order.
pub open spec fn entries_of(documents: Seq<EntryDocumentView>) -> Seq<EntryView> {
    documents.map_values(|d: EntryDocumentView| entry_of(d, content_of(d)))
}

/// The collapsed feed made of a document: its entries newest first.
pub open spec fn feed_of(document: FeedDocumentView) -> FeedView {
    FeedView {
        id: document.id,
        title: title_or_untitled(document.title),
        link: first_link(document.links),
        entries: sort_by(entries_of(document.entries), newest_first()),
        expanded: false,
    }
}

/// The title, or "Untitled" where there is none.
pub fn some_title(title: Option<String>) -> (t: String)
    ensures
        t@ == title_or_untitled(text_of(title)),
{
    match title {
        Some(t) => t,
        None => String::from_str("Untitled"),
    }
}

/// The first of the links, or the empty string where there is none.
pub fn take_first_link(links: Vec<String>) -> (link: String)
    ensures
        link@ == first_link(links.deep_view()),
{
    let mut links = links;
    if links.len() > 0 {
        let ghost all = links.deep_view();
        let first = links.swap_remove(0);
        proof {
            assert(first@ == all[0]);
        }
        first
    } else {
        String::new()
    }
}

impl RssEntry {
    /// The unread entry made of a document and of `content`, the text
    /// rendered of its markup.
    pub fn from_document(document: EntryDocument, content: String) -> (entry: RssEntry)
        ensures
            entry@ == entry_of(document@, content@),
    {
        RssEntry {
            id: document.id,
            title: some_title(document.title),
            authors: document.authors,
            content,
            content_total_lines: 0,
            link: take_first_link(document.links),
            published: document.published,
            read: false,
        }
    }

    /// The unread entry made of a document: its text is what the host
    /// rendered of its markup.
    pub fn from(document: EntryDocument) -> (entry: RssEntry)
        ensures
            entry@ == entry_of(document@, content_of(document@)),
    {
        let mut document = document;
        let has_markup = document.markup().is_some();
        let mut text: Option<String> = None;
        std::mem::swap(&mut text, &mut document.text);
        let content = match text {
            Some(text) => if has_markup {
                text
            } else {
                String::new()
            },
            None => String::new(),
        };
        RssEntry::from_document(document, content)
    }
}

impl EntryDocument {
    /// The markup that the entry's text is to be rendered of: its content,
    /// or else its summary; `None` where it has neither.
    pub fn markup(&self) -> (markup: Option<&String>)
        ensures
            match markup {
                Some(m) => markup_of(self@) == Some(m@),
                None => markup_of(self@) is None,
            },
    {
        match &self.body {
            Some(body) => Some(body),
            None => match &self.summary {
                Some(summary) => Some(summary),
                None => None,
            },
        }
    }
}

impl RssFeed {
    /// The collapsed feed made of a document and of the entries made of the
    /// document's entries: the entries are put newest first.
    pub fn from_document(document: FeedDocument, rss_entries: Vec<RssEntry>) -> (feed: RssFeed)
        ensures
            feed@ == (FeedView {
                id: document@.id,
                title: title_or_untitled(document@.title),
                link: first_link(document@.links),
                entries: sort_by(entry_views(rss_entries@), newest_first()),
                expanded: false,
            }),
    {
        let mut rss_entries = rss_entries;
        sort_entries(&mut rss_entries);
        RssFeed {
            id: document.id,
            title: some_title(document.title),
            link: take_first_link(document.links),
            rss_entries,
            expanded: false,
        }
    }

    /// The collapsed feed made of a document: its entries with the text that
    /// the host rendered of them, newest first.
    pub fn from(document: FeedDocument) -> (feed: RssFeed)
        ensures
            feed@ == feed_of(document@),
    {
        let mut document = document;
        let mut documents: Vec<EntryDocument> = Vec::new();
        std::mem::swap(&mut documents, &mut document.entries);
        let ghost views = documents@.map_values(|e: EntryDocument| e@);
        let mut rss_entries: Vec<RssEntry> = Vec::new();
        for entry in it: documents
            invariant
                it.seq().map_values(|e: EntryDocument| e@) == views,
                entry_views(rss_entries@) == entries_of(views.take(it.index() as int)),
        {
            let ghost before = entry_views(rss_entries@);
            rss_entries.push(RssEntry::from(entry));
            proof {
                assert(entry_views(rss_entries@) =~= before.push(
                    entry_of(entry@, content_of(entry@)),
                ));
                assert(entries_of(views.take(it.index() + 1)) =~= before.push(
                    entry_of(entry@, content_of(entry@)),
                ));
            }
        }
        proof {
            assert(views.take(views.len() as int) =~= views);
        }
        RssFeed::from_document(document, rss_entries)
    }
}

} // verus!
