//! Mapping parsed feed entries into canonical records, and the identity rule
//! that gives each entry its natural key.

use crate::dates::{normalized, parse_date, UtcInstant};
use crate::feed::{AtomEntry, RssItem};
use crate::models::{copy_text, fresh_id, now, NewsItem, RecordId};
use vstd::prelude::*;

verus! {

/// Why a single entry cannot become a news item.
#[derive(Clone, Copy, Debug, PartialEq, Eq, Structural)]
pub enum MappingError {
    /// The entry has no link.
    MissingLink,
}

/// The title given to an RSS item that has none.
pub open spec fn untitled() -> Seq<char> {
    seq!['n', '/', 'a']
}

/// The natural key of an RSS item: its explicit guid where it has one, else
/// its link; nothing where it has neither.
pub open spec fn rss_item_key(item: RssItem) -> Option<Seq<char>> {
    match item.guid {
        Some(g) => Some(g@),
        None => match item.link {
            Some(l) => Some(l@),
            None => None,
        },
    }
}

/// The natural key of an RSS item that maps to a news item.
pub open spec fn rss_news_key(item: RssItem) -> Option<Seq<char>> {
    if item.link is Some {
        rss_item_key(item)
    } else {
        None
    }
}

/// The natural key of an Atom entry that maps to a news item: its id, where
/// it has a link.
pub open spec fn atom_news_key(entry: AtomEntry) -> Option<Seq<char>> {
    if entry.links@.len() > 0 {
        Some(entry.id@)
    } else {
        None
    }
}

/// The canonical publish instant of a raw date text, with `fallback` where
/// there is no text or it does not normalize.
pub open spec fn published_or(raw: Option<String>, fallback: UtcInstant) -> UtcInstant {
    match raw {
        Some(d) => match normalized(d@) {
            Some(t) => t,
            None => fallback,
        },
        None => fallback,
    }
}

/// `n` is the news item mapped from RSS item `item` of feed `feed_id`, with
/// identifier `id`, created at `created`.
pub open spec fn is_rss_news_item(
    n: NewsItem,
    feed_id: RecordId,
    item: RssItem,
    id: RecordId,
    created: UtcInstant,
) -> bool {
    &&& item.link is Some
    &&& n.id == id
    &&& n.feed_id == feed_id
    &&& Some(n.guid@) == rss_item_key(item)
    &&& n.title@ == match item.title {
        Some(t) => t@,
        None => untitled(),
    }
    &&& n.url == item.link->Some_0
    &&& n.published_timestamp == published_or(item.pub_date, created)
    &&& n.create_timestamp == created
    &&& n.raw_content_path is None
    &&& n.text_content_path is None
}

/// `n` is the news item mapped from Atom entry `entry` of feed `feed_id`,
/// with identifier `id`, created at `created`.
pub open spec fn is_atom_news_item(
    n: NewsItem,
    feed_id: RecordId,
    entry: AtomEntry,
    id: RecordId,
    created: UtcInstant,
) -> bool {
    &&& entry.links@.len() > 0
    &&& n == NewsItem::with_identity_spec(
        id,
        created,
        feed_id,
        entry.id,
        entry.title,
        match entry.published {
            Some(p) => p,
            None => entry.updated,
        },
        entry.links@[0].href,
    )
}

/// The natural key of an RSS item: its explicit guid where present, else its
/// link.
pub fn rss_item_guid(item: &RssItem) -> (r: Option<String>)
    ensures
        match r {
            Some(g) => rss_item_key(*item) == Some(g@),
            None => rss_item_key(*item) is None,
        },
{
    match &item.guid {
        Some(g) => Some(g.clone()),
        None => copy_text(&item.link),
    }
}

/// The canonical publish instant of a raw date text, with `fallback` where
/// there is no text or it does not normalize.
pub fn published_instant(raw: &Option<String>, fallback: UtcInstant) -> (r: UtcInstant)
    ensures
        r == published_or(*raw, fallback),
{
    match raw {
        Some(d) => match parse_date(d.as_str()) {
            Some(t) => t,
            None => fallback,
        },
        None => fallback,
    }
}

/// Maps an RSS item to a news item with the given identifier and creation
/// instant; an item without a link cannot be mapped.
pub fn map_rss_item(feed_id: RecordId, item: &RssItem, id: RecordId, created: UtcInstant) -> (r:
    Result<NewsItem, MappingError>)
    ensures
        match r {
            Ok(n) => is_rss_news_item(n, feed_id, *item, id, created),
            Err(e) => item.link is None && e == MappingError::MissingLink,
        },
{
    let url = match &item.link {
        Some(l) => l.clone(),
        None => {
            return Err(MappingError::MissingLink);
        },
    };
    let guid = match rss_item_guid(item) {
        Some(g) => g,
        None => url.clone(),
    };
    let title = match &item.title {
        Some(t) => t.clone(),
        None => {
            proof {
                reveal_strlit("n/a");
            }
            let t = String::from_str("n/a");
            assert(t@ =~= untitled());
            t
        },
    };
    let published = published_instant(&item.pub_date, created);
    Ok(NewsItem::with_identity(id, created, feed_id, guid, title, published, url))
}

/// Maps an RSS item to a news item with a fresh identifier, created now; an
/// item whose date is missing or does not normalize is dated now.
pub fn item_to_news_item(feed_id: RecordId, item: &RssItem) -> (r: Result<NewsItem, MappingError>)
    ensures
        match r {
            Ok(n) => is_rss_news_item(n, feed_id, *item, n.id, n.create_timestamp),
            Err(e) => item.link is None && e == MappingError::MissingLink,
        },
{
    map_rss_item(feed_id, item, fresh_id(), now())
}

/// Maps an Atom entry to a news item with the given identifier and creation
/// instant: its id is the guid, its first link the url, and it is dated by
/// its publication or else its last update.
pub fn map_atom_entry(feed_id: RecordId, entry: &AtomEntry, id: RecordId, created: UtcInstant) -> (r:
    Result<NewsItem, MappingError>)
    ensures
        match r {
            Ok(n) => is_atom_news_item(n, feed_id, *entry, id, created),
            Err(e) => entry.links@.len() == 0 && e == MappingError::MissingLink,
        },
{
    if entry.links.len() == 0 {
        return Err(MappingError::MissingLink);
    }
    let published = match entry.published {
        Some(p) => p,
        None => entry.updated,
    };
    Ok(
        NewsItem::with_identity(
            id,
            created,
            feed_id,
            entry.id.clone(),
            entry.title.clone(),
            published,
            entry.links[0].href.clone(),
        ),
    )
}

/// Maps an Atom entry to a news item with a fresh identifier, created now.
pub fn entry_to_news_item(feed_id: RecordId, entry: &AtomEntry) -> (r: Result<NewsItem, MappingError>)
    ensures
        match r {
            Ok(n) => is_atom_news_item(n, feed_id, *entry, n.id, n.create_timestamp),
            Err(e) => entry.links@.len() == 0 && e == MappingError::MissingLink,
        },
{
    map_atom_entry(feed_id, entry, fresh_id(), now())
}

/// The identity rule: an RSS item without an explicit guid is keyed by its
/// link, and one with both is keyed by its guid, never its link.
pub proof fn lemma_rss_identity_rule(item: RssItem)
    ensures
        item.guid is None ==> rss_item_key(item) == match item.link {
            Some(l) => Some(l@),
            None => None::<Seq<char>>,
        },
        item.guid is Some ==> rss_item_key(item) == Some(item.guid->Some_0@),
{
}

} // verus!
