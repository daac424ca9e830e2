//! The canonical records of the ingestion core and the natural keys that
//! identify them.

use crate::dates::UtcInstant;
use chrono::Utc;
use vstd::prelude::*;

verus! {

/// An opaque, globally unique record identifier (the 128 bits of a UUID).
#[derive(Clone, Copy, Debug, PartialEq, Eq, Hash, Structural)]
pub struct RecordId(pub u128);

/// Relies on uuid's `Uuid::new_v4`: a fresh random identifier, of whose value
/// nothing is promised.
#[verifier::external_body]
pub(crate) fn fresh_id() -> RecordId {
    RecordId(uuid::Uuid::new_v4().as_u128())
}

/// Relies on chrono's `Utc::now`: the current instant, of whose value nothing
/// is promised.
#[verifier::external_body]
pub(crate) fn now() -> UtcInstant {
    let t = Utc::now();
    UtcInstant { secs: t.timestamp(), nanos: t.timestamp_subsec_nanos() }
}

/// A copy of an optional text.
pub fn copy_text(o: &Option<String>) -> (r: Option<String>)
    ensures
        r == *o,
{
    match o {
        Some(s) => Some(s.clone()),
        None => None,
    }
}

/// A record that is persisted under a natural key.
pub trait Record: Sized {
    /// The natural key under which the record is deduplicated.
    spec fn key(&self) -> Seq<char>;

    /// The record's identifier.
    spec fn id_of(&self) -> RecordId;

    fn natural_key(&self) -> (r: &String)
        ensures
            r@ == self.key(),
    ;

    fn record_id(&self) -> (r: RecordId)
        ensures
            r == self.id_of(),
    ;

    fn duplicate(&self) -> (r: Self)
        ensures
            r == *self,
    ;
}

/// A classification of the origin of a source, such as a website.
#[derive(Debug)]
pub struct SourceType {
    pub id: i32,
    pub name: String,
    pub description: Option<String>,
}

impl SourceType {
    pub fn new(id: i32, name: String, description: Option<String>) -> (r: Self)
        ensures
            r.id == id,
            r.name == name,
            r.description == description,
    {
        SourceType { id, name, description }
    }
}

/// A named origin of content, identified by its url.
#[derive(Debug)]
pub struct Source {
    pub id: RecordId,
    pub name: String,
    pub url: String,
    pub type_id: i32,
    pub paywall: Option<bool>,
    pub feed_available: Option<bool>,
    pub description: Option<String>,
    pub short_name: Option<String>,
    pub state: Option<String>,
    pub city: Option<String>,
    pub create_timestamp: UtcInstant,
}

impl Source {
    /// A source candidate with the given identifier and creation instant.
    pub fn with_identity(id: RecordId, created: UtcInstant, name: String, url: String, type_id: i32) -> (r: Self)
        ensures
            r == Source::with_identity_spec(id, created, name, url, type_id),
    {
        Source {
            id,
            name,
            url,
            type_id,
            paywall: None,
            feed_available: None,
            description: None,
            short_name: None,
            state: None,
            city: None,
            create_timestamp: created,
        }
    }

    /// A source candidate with a fresh identifier, created now.
    pub fn new(name: String, url: String, type_id: i32) -> (r: Self)
        ensures
            r == Source::with_identity_spec(r.id, r.create_timestamp, name, url, type_id),
    {
        Source::with_identity(fresh_id(), now(), name, url, type_id)
    }

    pub open spec fn with_identity_spec(id: RecordId, created: UtcInstant, name: String, url: String, type_id: i32) -> Source {
        Source {
            id,
            name,
            url,
            type_id,
            paywall: None,
            feed_available: None,
            description: None,
            short_name: None,
            state: None,
            city: None,
            create_timestamp: created,
        }
    }
}

impl Record for Source {
    open spec fn key(&self) -> Seq<char> {
        self.url@
    }

    open spec fn id_of(&self) -> RecordId {
        self.id
    }

    fn natural_key(&self) -> (r: &String) {
        &self.url
    }

    fn record_id(&self) -> (r: RecordId) {
        self.id
    }

    fn duplicate(&self) -> (r: Self) {
        Source {
            id: self.id,
            name: self.name.clone(),
            url: self.url.clone(),
            type_id: self.type_id,
            paywall: self.paywall,
            feed_available: self.feed_available,
            description: copy_text(&self.description),
            short_name: copy_text(&self.short_name),
            state: copy_text(&self.state),
            city: copy_text(&self.city),
            create_timestamp: self.create_timestamp,
        }
    }
}


/// A syndication endpoint belonging to a source, identified by its url.
#[derive(Debug)]
pub struct Feed {
    pub id: RecordId,
    pub source_id: RecordId,
    pub url: String,
    pub title: Option<String>,
    pub create_timestamp: UtcInstant,
    pub feed_type: Option<String>,
    pub ttl: Option<i32>,
}

impl Feed {
    pub open spec fn with_identity_spec(
        id: RecordId,
        created: UtcInstant,
        source_id: RecordId,
        url: String,
        title: Option<String>,
        feed_type: Option<String>,
    ) -> Feed {
        Feed { id, source_id, url, title, create_timestamp: created, feed_type, ttl: None }
    }

    /// A feed candidate with the given identifier and creation instant.
    pub fn with_identity(
        id: RecordId,
        created: UtcInstant,
        source_id: RecordId,
        url: String,
        title: Option<String>,
        feed_type: Option<String>,
    ) -> (r: Self)
        ensures
            r == Feed::with_identity_spec(id, created, source_id, url, title, feed_type),
    {
        Feed { id, source_id, url, title, create_timestamp: created, feed_type, ttl: None }
    }

    /// A feed candidate with a fresh identifier, created now.
    pub fn new(source_id: RecordId, url: String, title: Option<String>, feed_type: Option<String>) -> (r: Self)
        ensures
            r == Feed::with_identity_spec(r.id, r.create_timestamp, source_id, url, title, feed_type),
    {
        Feed::with_identity(fresh_id(), now(), source_id, url, title, feed_type)
    }
}

impl Record for Feed {
    open spec fn key(&self) -> Seq<char> {
        self.url@
    }

    open spec fn id_of(&self) -> RecordId {
        self.id
    }

    fn natural_key(&self) -> (r: &String) {
        &self.url
    }

    fn record_id(&self) -> (r: RecordId) {
        self.id
    }

    fn duplicate(&self) -> (r: Self) {
        Feed {
            id: self.id,
            source_id: self.source_id,
            url: self.url.clone(),
            title: copy_text(&self.title),
            create_timestamp: self.create_timestamp,
            feed_type: copy_text(&self.feed_type),
            ttl: self.ttl,
        }
    }
}

/// One discovered article or entry, identified by its guid.
#[derive(Debug)]
pub struct NewsItem {
    pub id: RecordId,
    pub feed_id: RecordId,
    pub guid: String,
    pub title: String,
    pub published_timestamp: UtcInstant,
    pub url: String,
    pub create_timestamp: UtcInstant,
    pub raw_content_path: Option<String>,
    pub text_content_path: Option<String>,
}

impl NewsItem {
    pub open spec fn with_identity_spec(
        id: RecordId,
        created: UtcInstant,
        feed_id: RecordId,
        guid: String,
        title: String,
        published_timestamp: UtcInstant,
        url: String,
    ) -> NewsItem {
        NewsItem {
            id,
            feed_id,
            guid,
            title,
            published_timestamp,
            url,
            create_timestamp: created,
            raw_content_path: None,
            text_content_path: None,
        }
    }

    /// A news item candidate with the given identifier and creation instant.
    pub fn with_identity(
        id: RecordId,
        created: UtcInstant,
        feed_id: RecordId,
        guid: String,
        title: String,
        published_timestamp: UtcInstant,
        url: String,
    ) -> (r: Self)
        ensures
            r == NewsItem::with_identity_spec(id, created, feed_id, guid, title, published_timestamp, url),
    {
        NewsItem {
            id,
            feed_id,
            guid,
            title,
            published_timestamp,
            url,
            create_timestamp: created,
            raw_content_path: None,
            text_content_path: None,
        }
    }

    /// A news item candidate with a fresh identifier, created now.
    pub fn new(
        feed_id: RecordId,
        guid: String,
        title: String,
        published_timestamp: UtcInstant,
        url: String,
    ) -> (r: Self)
        ensures
            r == NewsItem::with_identity_spec(
                r.id,
                r.create_timestamp,
                feed_id,
                guid,
                title,
                published_timestamp,
                url,
            ),
    {
        NewsItem::with_identity(fresh_id(), now(), feed_id, guid, title, published_timestamp, url)
    }
}

impl Record for NewsItem {
    open spec fn key(&self) -> Seq<char> {
        self.guid@
    }

    open spec fn id_of(&self) -> RecordId {
        self.id
    }

    fn natural_key(&self) -> (r: &String) {
        &self.guid
    }

    fn record_id(&self) -> (r: RecordId) {
        self.id
    }

    fn duplicate(&self) -> (r: Self) {
        NewsItem {
            id: self.id,
            feed_id: self.feed_id,
            guid: self.guid.clone(),
            title: self.title.clone(),
            published_timestamp: self.published_timestamp,
            url: self.url.clone(),
            create_timestamp: self.create_timestamp,
            raw_content_path: copy_text(&self.raw_content_path),
            text_content_path: copy_text(&self.text_content_path),
        }
    }
}

} // verus!
