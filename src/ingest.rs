//! Ingesting a parsed feed document into the store: the feed is persisted
//! first, then each entry on its own, every news item referencing the
//! identifier of the persisted feed row.

use crate::feed::{AtomEntry, FeedDocument, RssItem};
use crate::mapping::{
    atom_news_key, entry_to_news_item, is_atom_news_item, is_rss_news_item, item_to_news_item,
    rss_news_key, MappingError,
};
use crate::models::{Feed, NewsItem, Record, RecordId};
use crate::store::{exactly_one_with_key, holds_key, keys_unique, position_of_key, upserted, DedupStore};
use vstd::prelude::*;

verus! {

/// The natural keys of the items of an RSS channel, nothing for an item that
/// does not map.
pub open spec fn rss_keys(items: Seq<RssItem>) -> Seq<Option<Seq<char>>> {
    items.map_values(|i: RssItem| rss_news_key(i))
}

/// The natural keys of the entries of an Atom feed, nothing for an entry that
/// does not map.
pub open spec fn atom_keys(entries: Seq<AtomEntry>) -> Seq<Option<Seq<char>>> {
    entries.map_values(|e: AtomEntry| atom_news_key(e))
}

/// The natural keys of the entries of a document, in document order.
pub open spec fn document_keys(doc: FeedDocument) -> Seq<Option<Seq<char>>> {
    match doc {
        FeedDocument::Rss(c) => rss_keys(c.items@),
        FeedDocument::Atom(f) => atom_keys(f.entries@),
        FeedDocument::Unrecognized => Seq::empty(),
    }
}

/// The number of entries of a document.
pub open spec fn entry_count(doc: FeedDocument) -> int {
    match doc {
        FeedDocument::Rss(c) => c.items@.len() as int,
        FeedDocument::Atom(f) => f.entries@.len() as int,
        FeedDocument::Unrecognized => 0,
    }
}

/// `n` is the news item mapped from the `j`-th entry of `doc` for feed
/// `feed_id`, whatever identifier and creation instant it was given.
pub open spec fn is_mapped_entry(doc: FeedDocument, j: int, n: NewsItem, feed_id: RecordId) -> bool {
    0 <= j < entry_count(doc) && match doc {
        FeedDocument::Rss(c) => is_rss_news_item(n, feed_id, c.items@[j], n.id, n.create_timestamp),
        FeedDocument::Atom(f) => is_atom_news_item(n, feed_id, f.entries@[j], n.id, n.create_timestamp),
        FeedDocument::Unrecognized => false,
    }
}

/// `after` holds the rows of `before` in place; each row it adds is the news
/// item mapped from one of the first `upto` entries of `doc`, under a key
/// that `before` did not hold; and it holds a row for the key of each of
/// those entries that maps.
pub open spec fn news_extended(
    before: Seq<NewsItem>,
    after: Seq<NewsItem>,
    doc: FeedDocument,
    upto: int,
    feed_id: RecordId,
) -> bool {
    &&& before.len() <= after.len()
    &&& after.subrange(0, before.len() as int) == before
    &&& forall|i: int|
        before.len() <= i < after.len() ==> {
            &&& !holds_key(before, #[trigger] after[i].key())
            &&& exists|j: int| 0 <= j < upto && is_mapped_entry(doc, j, after[i], feed_id)
        }
    &&& forall|j: int|
        0 <= j < upto && #[trigger] document_keys(doc)[j] is Some ==> holds_key(
            after,
            document_keys(doc)[j]->Some_0,
        )
}

/// `after` holds the feed rows of `before` in place and one row with key
/// `url`, added only where `before` had none.
pub open spec fn feeds_extended(before: Seq<Feed>, after: Seq<Feed>, url: Seq<char>) -> bool {
    &&& before.len() <= after.len()
    &&& after.subrange(0, before.len() as int) == before
    &&& forall|i: int|
        before.len() <= i < after.len() ==> #[trigger] after[i].key() == url && !holds_key(before, url)
    &&& holds_key(after, url)
}

/// The identifier of the row that holds natural key `k`.
pub open spec fn id_for_key<R: Record>(rows: Seq<R>, k: Seq<char>) -> RecordId {
    rows[position_of_key(rows, k)].id_of()
}

/// Ingesting document `doc` of feed `url`, owned by source `source_id`, took
/// the store from `before` to `after`.
pub open spec fn ingested(
    before: DedupStore,
    after: DedupStore,
    source_id: RecordId,
    url: Seq<char>,
    doc: FeedDocument,
) -> bool {
    &&& after.sources@ == before.sources@
    &&& feeds_extended(before.feeds@, after.feeds@, url)
    &&& forall|i: int|
        before.feeds@.len() <= i < after.feeds@.len() ==> is_document_feed(
            #[trigger] after.feeds@[i],
            source_id,
            url,
            doc,
        )
    &&& news_extended(
        before.news@,
        after.news@,
        doc,
        entry_count(doc),
        id_for_key(after.feeds@, url),
    )
}

proof fn lemma_holds_key_kept<R: Record>(before: Seq<R>, after: Seq<R>, k: Seq<char>)
    requires
        before.len() <= after.len(),
        after.subrange(0, before.len() as int) == before,
        holds_key(before, k),
    ensures
        holds_key(after, k),
{
    let i = position_of_key(before, k);
    assert(after[i] == after.subrange(0, before.len() as int)[i]);
}

/// A mapped entry is keyed by the entry's key and references its feed.
proof fn lemma_mapped_key(doc: FeedDocument, j: int, n: NewsItem, feed_id: RecordId)
    requires
        is_mapped_entry(doc, j, n, feed_id),
    ensures
        document_keys(doc)[j] == Some(n.key()),
        n.feed_id == feed_id,
{
}

proof fn lemma_news_step(
    before: Seq<NewsItem>,
    prev: Seq<NewsItem>,
    doc: FeedDocument,
    j: int,
    feed_id: RecordId,
    r: Result<NewsItem, MappingError>,
)
    requires
        0 <= j < entry_count(doc),
        news_extended(before, prev, doc, j, feed_id),
        match r {
            Ok(n) => is_mapped_entry(doc, j, n, feed_id),
            Err(_) => document_keys(doc)[j] is None,
        },
    ensures
        news_extended(
            before,
            match r {
                Ok(n) => upserted(prev, n).0,
                Err(_) => prev,
            },
            doc,
            j + 1,
            feed_id,
        ),
{
    let keys = document_keys(doc);
    let next = match r {
        Ok(n) => upserted(prev, n).0,
        Err(_) => prev,
    };
    if let Ok(n) = r {
        lemma_mapped_key(doc, j, n, feed_id);
    }
    assert(next.subrange(0, prev.len() as int) == prev) by {
        assert(next.subrange(0, prev.len() as int) =~= prev);
    }
    assert(next.subrange(0, before.len() as int) == before) by {
        assert(next.subrange(0, before.len() as int) =~= prev.subrange(0, before.len() as int));
    }
    assert forall|i: int| before.len() <= i < next.len() implies {
        &&& !holds_key(before, #[trigger] next[i].key())
        &&& exists|k: int| 0 <= k < j + 1 && is_mapped_entry(doc, k, next[i], feed_id)
    } by {
        if i < prev.len() {
            assert(next[i] == prev[i]);
        } else {
            let n = r->Ok_0;
            assert(next[i] == n);
            assert(!holds_key(prev, n.key()));
            if holds_key(before, n.key()) {
                lemma_holds_key_kept(before, prev, n.key());
            }
            assert(is_mapped_entry(doc, j, next[i], feed_id));
        }
    }
    assert forall|k: int| 0 <= k < j + 1 && #[trigger] keys[k] is Some implies holds_key(next, keys[k]->Some_0) by {
        if k < j {
            lemma_holds_key_kept(prev, next, keys[k]->Some_0);
        } else {
            let n = r->Ok_0;
            if !holds_key(prev, n.key()) {
                assert(next[prev.len() as int] == n);
            }
        }
    }
}

/// Maps every entry of a document to a news item of feed `feed_id`, each
/// with a fresh identifier and created now; an entry without a link maps to
/// an error.
pub fn map_entries(feed_id: RecordId, doc: &FeedDocument) -> (r: Vec<Result<NewsItem, MappingError>>)
    ensures
        r@.len() == entry_count(*doc),
        forall|j: int|
            0 <= j < r@.len() ==> match #[trigger] r@[j] {
                Ok(n) => is_mapped_entry(*doc, j, n, feed_id),
                Err(e) => document_keys(*doc)[j] is None && e == MappingError::MissingLink,
            },
{
    let mut r: Vec<Result<NewsItem, MappingError>> = Vec::new();
    match doc {
        FeedDocument::Rss(c) => {
            let mut j: usize = 0;
            while j < c.items.len()
                invariant
                    j <= c.items@.len(),
                    *doc == FeedDocument::Rss(*c),
                    r@.len() == j,
                    forall|k: int|
                        0 <= k < j ==> match #[trigger] r@[k] {
                            Ok(n) => is_mapped_entry(*doc, k, n, feed_id),
                            Err(e) => document_keys(*doc)[k] is None && e == MappingError::MissingLink,
                        },
                decreases c.items@.len() - j,
            {
                r.push(item_to_news_item(feed_id, &c.items[j]));
                j = j + 1;
            }
        },
        FeedDocument::Atom(a) => {
            let mut j: usize = 0;
            while j < a.entries.len()
                invariant
                    j <= a.entries@.len(),
                    *doc == FeedDocument::Atom(*a),
                    r@.len() == j,
                    forall|k: int|
                        0 <= k < j ==> match #[trigger] r@[k] {
                            Ok(n) => is_mapped_entry(*doc, k, n, feed_id),
                            Err(e) => document_keys(*doc)[k] is None && e == MappingError::MissingLink,
                        },
                decreases a.entries@.len() - j,
            {
                r.push(entry_to_news_item(feed_id, &a.entries[j]));
                j = j + 1;
            }
        },
        FeedDocument::Unrecognized => {},
    }
    r
}

/// The feed record of a recognized document fetched from `url`: titled as
/// the document is, of type "RSS" or "Atom".
pub open spec fn is_document_feed(f: Feed, source_id: RecordId, url: Seq<char>, doc: FeedDocument) -> bool {
    &&& f.source_id == source_id
    &&& f.url@ == url
    &&& f.ttl is None
    &&& match doc {
        FeedDocument::Rss(c) => f.title == Some(c.title) && (f.feed_type matches Some(t) && t@ == seq!['R', 'S', 'S']),
        FeedDocument::Atom(a) => f.title == Some(a.title) && (f.feed_type matches Some(t) && t@ == seq!['A', 't', 'o', 'm']),
        FeedDocument::Unrecognized => false,
    }
}

/// The feed candidate for a recognized document fetched from `url`, with a
/// fresh identifier, created now; nothing for an unrecognized document.
pub fn feed_for_document(source_id: RecordId, url: &str, doc: &FeedDocument) -> (r: Option<Feed>)
    ensures
        match r {
            Some(f) => is_document_feed(f, source_id, url@, *doc),
            None => doc is Unrecognized,
        },
{
    let (title, kind) = match doc {
        FeedDocument::Rss(c) => {
            proof {
                reveal_strlit("RSS");
            }
            (c.title.clone(), String::from_str("RSS"))
        },
        FeedDocument::Atom(a) => {
            proof {
                reveal_strlit("Atom");
            }
            (a.title.clone(), String::from_str("Atom"))
        },
        FeedDocument::Unrecognized => {
            return None;
        },
    };
    let f = Feed::new(source_id, String::from_str(url), Some(title), Some(kind));
    proof {
        if doc is Rss {
            assert(f.feed_type->Some_0@ =~= seq!['R', 'S', 'S']);
        } else {
            assert(f.feed_type->Some_0@ =~= seq!['A', 't', 'o', 'm']);
        }
    }
    Some(f)
}

/// Ingests a parsed document of the feed at `url`, owned by source
/// `source_id`: persists the feed, then every entry that maps, each news item
/// referencing the persisted feed row. Returns the identifier of that row, or
/// nothing, with the store untouched, for an unrecognized document.
pub fn ingest_document(store: &mut DedupStore, source_id: RecordId, url: &str, doc: &FeedDocument) -> (r:
    Option<RecordId>)
    requires
        old(store).wf(),
    ensures
        final(store).wf(),
        r is Some <==> !(doc is Unrecognized),
        match r {
            Some(id) => ingested(*old(store), *final(store), source_id, url@, *doc) && id == id_for_key(
                final(store).feeds@,
                url@,
            ),
            None => doc is Unrecognized && *final(store) == *old(store),
        },
{
    let feed = match feed_for_document(source_id, url, doc) {
        Some(f) => f,
        None => {
            return None;
        },
    };
    let ghost feeds_before = store.feeds@;
    let feed_id = feed.save(store);
    proof {
        lemma_feed_upsert(feeds_before, feed);
        assert forall|i: int| feeds_before.len() <= i < store.feeds@.len() implies is_document_feed(
            #[trigger] store.feeds@[i],
            source_id,
            url@,
            *doc,
        ) by {
            assert(store.feeds@ == feeds_before.push(feed));
        }
    }
    let mapped = map_entries(feed_id, doc);
    let ghost feeds_after = store.feeds@;
    let ghost news_before = store.news@;
    assert(store.news@.subrange(0, news_before.len() as int) =~= news_before);
    let mut j: usize = 0;
    while j < mapped.len()
        invariant
            j <= mapped@.len(),
            mapped@.len() == entry_count(*doc),
            forall|k: int|
                0 <= k < mapped@.len() ==> match #[trigger] mapped@[k] {
                    Ok(n) => is_mapped_entry(*doc, k, n, feed_id),
                    Err(e) => document_keys(*doc)[k] is None && e == MappingError::MissingLink,
                },
            store.wf(),
            store.sources@ == old(store).sources@,
            store.feeds@ == feeds_after,
            news_before == old(store).news@,
            news_extended(news_before, store.news@, *doc, j as int, feed_id),
        decreases mapped@.len() - j,
    {
        let ghost prev = store.news@;
        match &mapped[j] {
            Ok(n) => {
                n.save(store);
            },
            Err(_) => {},
        }
        proof {
            lemma_news_step(news_before, prev, *doc, j as int, feed_id, mapped@[j as int]);
        }
        j = j + 1;
    }
    Some(feed_id)
}

proof fn lemma_feed_upsert(before: Seq<Feed>, f: Feed)
    requires
        keys_unique(before),
    ensures
        feeds_extended(before, upserted(before, f).0, f.key()),
        id_for_key(upserted(before, f).0, f.key()) == upserted(before, f).1,
{
    crate::store::lemma_upsert_keeps_keys_unique(before, f);
    let after = upserted(before, f).0;
    assert(after.subrange(0, before.len() as int) =~= before);
}

/// Re-ingestion adds nothing: ingesting again a document of a feed url
/// whose ingestion is already in the store leaves every table as it was, and
/// afterwards exactly one feed row holds the url and exactly one news row
/// holds each entry key.
pub proof fn lemma_ingest_twice(
    s0: DedupStore,
    s1: DedupStore,
    s2: DedupStore,
    first_source: RecordId,
    second_source: RecordId,
    url: Seq<char>,
    doc: FeedDocument,
)
    requires
        s2.wf(),
        ingested(s0, s1, first_source, url, doc),
        ingested(s1, s2, second_source, url, doc),
    ensures
        s2.sources@ == s1.sources@,
        s2.feeds@ == s1.feeds@,
        s2.news@ == s1.news@,
        exactly_one_with_key(s2.feeds@, url),
        forall|j: int|
            0 <= j < document_keys(doc).len() && #[trigger] document_keys(doc)[j] is Some
                ==> exactly_one_with_key(s2.news@, document_keys(doc)[j]->Some_0),
{
    let keys = document_keys(doc);
    if s2.feeds@.len() > s1.feeds@.len() {
        let i = s1.feeds@.len() as int;
        assert(s2.feeds@[i].key() == url);
    }
    assert(s2.feeds@ =~= s2.feeds@.subrange(0, s1.feeds@.len() as int));
    if s2.news@.len() > s1.news@.len() {
        let i = s1.news@.len() as int;
        let n = s2.news@[i];
        let fid = id_for_key(s2.feeds@, url);
        assert(!holds_key(s1.news@, n.key()));
        let j = choose|j: int| 0 <= j < entry_count(doc) && is_mapped_entry(doc, j, n, fid);
        lemma_mapped_key(doc, j, n, fid);
        assert(keys[j] is Some);
        assert(false);
    }
    assert(s2.news@ =~= s2.news@.subrange(0, s1.news@.len() as int));
}

} // verus!
