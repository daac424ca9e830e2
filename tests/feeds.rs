use feed_fetcher::dates::UtcInstant;
use feed_fetcher::feed::{parse_feed, AtomEntry, AtomLink, FeedDocument, RssItem};
use feed_fetcher::ingest::{feed_for_document, ingest_document, map_entries};
use feed_fetcher::mapping::{
    entry_to_news_item, item_to_news_item, map_atom_entry, map_rss_item, published_instant, rss_item_guid,
    MappingError,
};
use feed_fetcher::models::RecordId;
use feed_fetcher::store::DedupStore;

const RSS: &str = r#"<?xml version="1.0"?>
<rss version="2.0"><channel>
<title>Example News</title><link>https://news.example</link><description>d</description>
<item><title>First</title><link>https://news.example/1</link><guid>urn:first</guid><pubDate>Wed, 01 Jan 2020 12:34:56 GMT</pubDate></item>
<item><title>Second</title><link>https://news.example/2</link></item>
<item><title>No link</title><guid>urn:nolink</guid></item>
</channel></rss>"#;

const ATOM: &str = r#"<?xml version="1.0" encoding="utf-8"?>
<feed xmlns="http://www.w3.org/2005/Atom">
<title>Example Atom</title><id>urn:feed</id><updated>2021-02-03T04:05:06Z</updated>
<entry><title>One</title><id>urn:one</id><updated>2021-02-03T04:05:06Z</updated><published>2021-02-01T00:00:00Z</published><link href="https://atom.example/one"/></entry>
<entry><title>Two</title><id>urn:two</id><updated>2021-02-03T04:05:06Z</updated><link href="https://atom.example/two"/></entry>
<entry><title>Three</title><id>urn:three</id><updated>2021-02-03T04:05:06Z</updated></entry>
</feed>"#;

fn item(title: Option<&str>, link: Option<&str>, guid: Option<&str>, date: Option<&str>) -> RssItem {
    RssItem {
        title: title.map(|s| s.to_string()),
        link: link.map(|s| s.to_string()),
        guid: guid.map(|s| s.to_string()),
        pub_date: date.map(|s| s.to_string()),
    }
}

#[test]
fn rss_body_parses_as_rss() {
    match parse_feed(RSS.as_bytes()) {
        FeedDocument::Rss(c) => {
            assert_eq!(c.title, "Example News");
            assert_eq!(c.items.len(), 3);
            assert_eq!(c.items[0].guid.as_deref(), Some("urn:first"));
            assert_eq!(c.items[1].guid, None);
            assert_eq!(c.items[1].link.as_deref(), Some("https://news.example/2"));
        }
        other => panic!("expected RSS, got {:?}", other),
    }
}

#[test]
fn atom_body_falls_back_to_atom() {
    match parse_feed(ATOM.as_bytes()) {
        FeedDocument::Atom(f) => {
            assert_eq!(f.title, "Example Atom");
            assert_eq!(f.entries.len(), 3);
            assert_eq!(f.entries[0].id, "urn:one");
            assert_eq!(f.entries[0].links[0].href, "https://atom.example/one");
            assert_eq!(f.entries[0].published, Some(UtcInstant { secs: 1612137600, nanos: 0 }));
            assert_eq!(f.entries[1].published, None);
        }
        other => panic!("expected Atom, got {:?}", other),
    }
}

#[test]
fn other_bodies_are_unrecognized() {
    assert!(matches!(parse_feed(b"<html><body>hello</body></html>"), FeedDocument::Unrecognized));
    assert!(matches!(parse_feed(b""), FeedDocument::Unrecognized));
}

#[test]
fn item_without_guid_is_keyed_by_link() {
    let i = item(Some("t"), Some("https://x.example/a"), None, None);
    assert_eq!(rss_item_guid(&i).as_deref(), Some("https://x.example/a"));
    let n = map_rss_item(RecordId(1), &i, RecordId(2), UtcInstant { secs: 9, nanos: 0 }).unwrap();
    assert_eq!(n.guid, "https://x.example/a");
}

#[test]
fn item_with_guid_and_link_is_keyed_by_guid() {
    let i = item(Some("t"), Some("https://x.example/a"), Some("urn:a"), None);
    assert_eq!(rss_item_guid(&i).as_deref(), Some("urn:a"));
    let n = item_to_news_item(RecordId(1), &i).unwrap();
    assert_eq!(n.guid, "urn:a");
    assert_eq!(n.url, "https://x.example/a");
    assert_eq!(rss_item_guid(&item(None, None, None, None)), None);
}

#[test]
fn rss_item_mapping_fills_defaults() {
    let now = UtcInstant { secs: 77, nanos: 5 };
    let n = map_rss_item(RecordId(1), &item(None, Some("https://x.example/b"), None, Some("2023-06-19")), RecordId(3), now)
        .unwrap();
    assert_eq!(n.title, "n/a");
    assert_eq!(n.id, RecordId(3));
    assert_eq!(n.feed_id, RecordId(1));
    assert_eq!(n.create_timestamp, now);
    assert_eq!(n.published_timestamp, UtcInstant { secs: 1687132800, nanos: 0 });
    let bad = map_rss_item(RecordId(1), &item(Some("t"), Some("https://x.example/c"), None, Some("Not a date")), RecordId(4), now)
        .unwrap();
    assert_eq!(bad.published_timestamp, now);
    assert_eq!(published_instant(&None, now), now);
}

#[test]
fn rss_item_without_link_is_a_mapping_error() {
    let r = map_rss_item(RecordId(1), &item(Some("t"), None, Some("urn:x"), None), RecordId(2), UtcInstant { secs: 0, nanos: 0 });
    assert_eq!(r.unwrap_err(), MappingError::MissingLink);
    assert_eq!(item_to_news_item(RecordId(1), &item(None, None, None, None)).unwrap_err(), MappingError::MissingLink);
}

#[test]
fn atom_entry_mapping_uses_id_first_link_and_dates() {
    let updated = UtcInstant { secs: 200, nanos: 0 };
    let mut e = AtomEntry {
        title: "T".to_string(),
        id: "urn:e".to_string(),
        links: vec![
            AtomLink { href: "https://a.example/e".to_string(), mime_type: None },
            AtomLink { href: "https://a.example/e2".to_string(), mime_type: None },
        ],
        published: Some(UtcInstant { secs: 100, nanos: 0 }),
        updated,
    };
    let n = map_atom_entry(RecordId(1), &e, RecordId(2), UtcInstant { secs: 5, nanos: 0 }).unwrap();
    assert_eq!(n.guid, "urn:e");
    assert_eq!(n.url, "https://a.example/e");
    assert_eq!(n.title, "T");
    assert_eq!(n.published_timestamp.secs, 100);
    e.published = None;
    assert_eq!(entry_to_news_item(RecordId(1), &e).unwrap().published_timestamp, updated);
    e.links.clear();
    assert_eq!(entry_to_news_item(RecordId(1), &e).unwrap_err(), MappingError::MissingLink);
}

#[test]
fn feed_record_follows_document_kind() {
    let rss = parse_feed(RSS.as_bytes());
    let f = feed_for_document(RecordId(1), "https://news.example/rss", &rss).unwrap();
    assert_eq!(f.feed_type.as_deref(), Some("RSS"));
    assert_eq!(f.title.as_deref(), Some("Example News"));
    assert_eq!(f.url, "https://news.example/rss");
    let atom = parse_feed(ATOM.as_bytes());
    let g = feed_for_document(RecordId(1), "https://atom.example/feed", &atom).unwrap();
    assert_eq!(g.feed_type.as_deref(), Some("Atom"));
    assert!(feed_for_document(RecordId(1), "u", &FeedDocument::Unrecognized).is_none());
}

#[test]
fn ingesting_one_feed_twice_adds_no_duplicates() {
    let mut store = DedupStore::new();
    let url = "https://news.example/rss";
    let first = ingest_document(&mut store, RecordId(1), url, &parse_feed(RSS.as_bytes())).unwrap();
    assert_eq!(store.feeds.len(), 1);
    assert_eq!(store.news.len(), 2);
    let second = ingest_document(&mut store, RecordId(1), url, &parse_feed(RSS.as_bytes())).unwrap();
    assert_eq!(first, second);
    assert_eq!(store.feeds.len(), 1);
    assert_eq!(store.news.len(), 2);
    assert_eq!(store.news.row(0).guid, "urn:first");
    assert_eq!(store.news.row(1).guid, "https://news.example/2");
    assert_eq!(store.news.row(0).feed_id, first);
    assert_eq!(store.news.row(1).feed_id, first);
}

#[test]
fn ingesting_atom_skips_entries_without_links() {
    let mut store = DedupStore::new();
    let id = ingest_document(&mut store, RecordId(1), "https://atom.example/feed", &parse_feed(ATOM.as_bytes())).unwrap();
    assert_eq!(store.news.len(), 2);
    assert_eq!(store.news.row(1).guid, "urn:two");
    assert_eq!(store.news.row(1).feed_id, id);
}

#[test]
fn unrecognized_document_leaves_store_untouched() {
    let mut store = DedupStore::new();
    assert!(ingest_document(&mut store, RecordId(1), "u", &FeedDocument::Unrecognized).is_none());
    assert_eq!(store.feeds.len(), 0);
    assert_eq!(store.news.len(), 0);
}

#[test]
fn ingested_rows_carry_the_mapped_entries() {
    let mut store = DedupStore::new();
    let url = "https://news.example/rss";
    let id = ingest_document(&mut store, RecordId(4), url, &parse_feed(RSS.as_bytes())).unwrap();
    let feed = store.feeds.row(0);
    assert_eq!(feed.id, id);
    assert_eq!(feed.source_id, RecordId(4));
    assert_eq!(feed.title.as_deref(), Some("Example News"));
    assert_eq!(feed.feed_type.as_deref(), Some("RSS"));
    let first = store.news.row(0);
    assert_eq!(first.title, "First");
    assert_eq!(first.url, "https://news.example/1");
    assert_eq!(first.published_timestamp, UtcInstant { secs: 1577882096, nanos: 0 });
    let second = store.news.row(1);
    assert_eq!(second.title, "Second");
    assert_eq!(second.url, "https://news.example/2");
}

#[test]
fn every_entry_is_mapped_in_order() {
    let mapped = map_entries(RecordId(3), &parse_feed(RSS.as_bytes()));
    assert_eq!(mapped.len(), 3);
    assert_eq!(mapped[0].as_ref().unwrap().guid, "urn:first");
    assert_eq!(mapped[1].as_ref().unwrap().feed_id, RecordId(3));
    assert_eq!(mapped[2].as_ref().unwrap_err(), &MappingError::MissingLink);
    let atom = map_entries(RecordId(3), &parse_feed(ATOM.as_bytes()));
    assert_eq!(atom.len(), 3);
    assert_eq!(atom[1].as_ref().unwrap().published_timestamp, UtcInstant { secs: 1612325106, nanos: 0 });
    assert!(atom[2].is_err());
    assert!(map_entries(RecordId(3), &FeedDocument::Unrecognized).is_empty());
}
