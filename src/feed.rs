//! Feed documents as the ingestion core reads them, and the parser that tries
//! RSS first and Atom only where RSS fails.

use crate::dates::UtcInstant;
use vstd::prelude::*;

verus! {

/// An RSS item: the fields that ingestion reads, each optional as in RSS.
#[derive(Debug)]
pub struct RssItem {
    pub title: Option<String>,
    pub link: Option<String>,
    pub guid: Option<String>,
    pub pub_date: Option<String>,
}

/// An RSS channel: its title and items, in document order.
#[derive(Debug)]
pub struct RssChannel {
    pub title: String,
    pub items: Vec<RssItem>,
}

/// A link of an Atom entry.
#[derive(Debug)]
pub struct AtomLink {
    pub href: String,
    pub mime_type: Option<String>,
}

/// An Atom entry: the fields that ingestion reads.
#[derive(Debug)]
pub struct AtomEntry {
    pub title: String,
    pub id: String,
    pub links: Vec<AtomLink>,
    pub published: Option<UtcInstant>,
    pub updated: UtcInstant,
}

/// An Atom feed: its title and entries, in document order.
#[derive(Debug)]
pub struct AtomFeed {
    pub title: String,
    pub entries: Vec<AtomEntry>,
}

/// The outcome of parsing a feed body.
#[derive(Debug)]
pub enum FeedDocument {
    Rss(RssChannel),
    Atom(AtomFeed),
    Unrecognized,
}

/// The channel that the rss crate reads from a body, if it reads one.
pub uninterp spec fn rss_channel_of(b: Seq<u8>) -> Option<RssChannel>;

/// The feed that the atom_syndication crate reads from a body, if it reads one.
pub uninterp spec fn atom_feed_of(b: Seq<u8>) -> Option<AtomFeed>;

/// Relies on rss's `Channel::read_from`: the channel read from the body, or
/// nothing where the body is not an RSS document.
#[verifier::external_body]
fn read_rss(b: &[u8]) -> (r: Option<RssChannel>)
    ensures
        r == rss_channel_of(b@),
{
    rss::Channel::read_from(b).ok().map(|c| RssChannel {
        title: c.title,
        items: c.items.into_iter().map(|i| RssItem {
            title: i.title,
            link: i.link,
            guid: i.guid.map(|g| g.value),
            pub_date: i.pub_date,
        }).collect(),
    })
}

/// Relies on atom_syndication's `Feed::read_from`: the feed read from the
/// body, or nothing where the body is not an Atom document.
#[verifier::external_body]
fn read_atom(b: &[u8]) -> (r: Option<AtomFeed>)
    ensures
        r == atom_feed_of(b@),
{
    atom_syndication::Feed::read_from(b).ok().map(|f| AtomFeed {
        title: f.title.value,
        entries: f.entries.into_iter().map(|e| AtomEntry {
            title: e.title.value,
            id: e.id,
            links: e.links.into_iter().map(|l| AtomLink { href: l.href, mime_type: l.mime_type }).collect(),
            published: e.published.map(|p| UtcInstant { secs: p.timestamp(), nanos: p.timestamp_subsec_nanos() }),
            updated: UtcInstant { secs: e.updated.timestamp(), nanos: e.updated.timestamp_subsec_nanos() },
        }).collect(),
    })
}

/// RSS where the body reads as RSS; else Atom where it reads as Atom; else
/// unrecognized.
pub open spec fn parsed_document(b: Seq<u8>) -> FeedDocument {
    match rss_channel_of(b) {
        Some(c) => FeedDocument::Rss(c),
        None => match atom_feed_of(b) {
            Some(f) => FeedDocument::Atom(f),
            None => FeedDocument::Unrecognized,
        },
    }
}

/// Parses a feed body: RSS first and, if and only if that fails, Atom.
pub fn parse_feed(body: &[u8]) -> (r: FeedDocument)
    ensures
        r == parsed_document(body@),
{
    match read_rss(body) {
        Some(c) => FeedDocument::Rss(c),
        None => match read_atom(body) {
            Some(f) => FeedDocument::Atom(f),
            None => FeedDocument::Unrecognized,
        },
    }
}

/// A body that fails as RSS but reads as Atom gives an Atom document, never
/// an unrecognized one.
pub proof fn lemma_atom_fallback(b: Seq<u8>)
    requires
        rss_channel_of(b) is None,
        atom_feed_of(b) is Some,
    ensures
        parsed_document(b) == FeedDocument::Atom(atom_feed_of(b)->Some_0),
        !(parsed_document(b) is Unrecognized),
{
}

/// A body that reads as RSS is taken as RSS, whatever it reads as in Atom.
pub proof fn lemma_rss_first(b: Seq<u8>)
    requires
        rss_channel_of(b) is Some,
    ensures
        parsed_document(b) == FeedDocument::Rss(rss_channel_of(b)->Some_0),
{
}

} // verus!
