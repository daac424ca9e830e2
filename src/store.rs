//! An idempotent store of records keyed by their natural keys: upserting a
//! candidate either adds it or leaves the row already holding its key, and
//! returns the identifier of the row that holds the key afterwards.

use crate::models::{Feed, NewsItem, Record, RecordId, Source};
use vstd::prelude::*;

verus! {

/// No two rows share a natural key.
pub open spec fn keys_unique<R: Record>(rows: Seq<R>) -> bool {
    forall|i: int, j: int|
        0 <= i < rows.len() && 0 <= j < rows.len() && i != j ==> #[trigger] rows[i].key()
            != #[trigger] rows[j].key()
}

/// Some row holds the natural key `k`.
pub open spec fn holds_key<R: Record>(rows: Seq<R>, k: Seq<char>) -> bool {
    exists|i: int| 0 <= i < rows.len() && #[trigger] rows[i].key() == k
}

/// The position of a row that holds the natural key `k`.
pub open spec fn position_of_key<R: Record>(rows: Seq<R>, k: Seq<char>) -> int {
    choose|i: int| 0 <= i < rows.len() && #[trigger] rows[i].key() == k
}

/// The rows after upserting `c`, and the identifier that the upsert returns.
pub open spec fn upserted<R: Record>(rows: Seq<R>, c: R) -> (Seq<R>, RecordId) {
    if holds_key(rows, c.key()) {
        (rows, rows[position_of_key(rows, c.key())].id_of())
    } else {
        (rows.push(c), c.id_of())
    }
}

/// One table of records, unique by natural key.
pub struct Table<R> {
    rows: Vec<R>,
}

impl<R: Record> View for Table<R> {
    type V = Seq<R>;

    closed spec fn view(&self) -> Seq<R> {
        self.rows@
    }
}

impl<R: Record> Table<R> {
    pub open spec fn wf(&self) -> bool {
        keys_unique(self@)
    }

    pub fn new() -> (r: Self)
        ensures
            r@ == Seq::<R>::empty(),
            r.wf(),
    {
        Table { rows: Vec::new() }
    }

    pub fn len(&self) -> (r: usize)
        ensures
            r == self@.len(),
    {
        self.rows.len()
    }

    /// The row at position `i`.
    pub fn row(&self, i: usize) -> (r: &R)
        requires
            i < self@.len(),
        ensures
            *r == self@[i as int],
    {
        &self.rows[i]
    }

    /// The position of the row that holds natural key `key`, if any.
    pub fn position(&self, key: &String) -> (r: Option<usize>)
        ensures
            match r {
                Some(i) => i < self@.len() && self@[i as int].key() == key@,
                None => !holds_key(self@, key@),
            },
    {
        let mut i: usize = 0;
        while i < self.rows.len()
            invariant
                i <= self.rows@.len(),
                forall|j: int| 0 <= j < i ==> #[trigger] self.rows@[j].key() != key@,
            decreases self.rows@.len() - i,
        {
            if self.rows[i].natural_key().eq(key) {
                return Some(i);
            }
            i = i + 1;
        }
        None
    }

    /// Adds `candidate` unless a row already holds its natural key; returns
    /// the identifier of the row that holds the key afterwards.
    pub fn upsert(&mut self, candidate: &R) -> (id: RecordId)
        requires
            old(self).wf(),
        ensures
            final(self).wf(),
            (final(self)@, id) == upserted(old(self)@, *candidate),
    {
        match self.position(candidate.natural_key()) {
            Some(i) => {
                let id = self.rows[i].record_id();
                proof {
                    let k = candidate.key();
                    let p = position_of_key(self@, k);
                    assert(holds_key(self@, k));
                    assert(self@[p].key() == k);
                    assert(p == i as int);
                }
                id
            },
            None => {
                let row = candidate.duplicate();
                self.rows.push(row);
                proof {
                    let rows = self@;
                    assert forall|i: int, j: int|
                        0 <= i < rows.len() && 0 <= j < rows.len() && i != j implies #[trigger] rows[i].key()
                            != #[trigger] rows[j].key() by {
                        if i == rows.len() - 1 {
                            assert(old(self)@[j].key() == rows[j].key());
                        } else if j == rows.len() - 1 {
                            assert(old(self)@[i].key() == rows[i].key());
                        } else {
                            assert(old(self)@[i].key() == rows[i].key());
                            assert(old(self)@[j].key() == rows[j].key());
                        }
                    }
                }
                candidate.record_id()
            },
        }
    }
}


/// Exactly one row holds the natural key `k`.
pub open spec fn exactly_one_with_key<R: Record>(rows: Seq<R>, k: Seq<char>) -> bool {
    &&& holds_key(rows, k)
    &&& forall|i: int, j: int|
        0 <= i < rows.len() && 0 <= j < rows.len() && #[trigger] rows[i].key() == k
            && #[trigger] rows[j].key() == k ==> i == j
}

/// Upserting keeps the natural keys unique, and afterwards exactly one row
/// holds the candidate's key.
pub proof fn lemma_upsert_keeps_keys_unique<R: Record>(rows: Seq<R>, c: R)
    requires
        keys_unique(rows),
    ensures
        keys_unique(upserted(rows, c).0),
        exactly_one_with_key(upserted(rows, c).0, c.key()),
        upserted(rows, c).0[position_of_key(upserted(rows, c).0, c.key())].id_of() == upserted(
            rows,
            c,
        ).1,
{
    let k = c.key();
    let r = upserted(rows, c).0;
    if !holds_key(rows, k) {
        assert(r[rows.len() as int].key() == k);
        assert forall|i: int, j: int|
            0 <= i < r.len() && 0 <= j < r.len() && i != j implies #[trigger] r[i].key()
                != #[trigger] r[j].key() by {
            if i == rows.len() {
                assert(rows[j].key() == r[j].key());
            } else if j == rows.len() {
                assert(rows[i].key() == r[i].key());
            } else {
                assert(rows[i].key() == r[i].key());
                assert(rows[j].key() == r[j].key());
            }
        }
    }
    assert(holds_key(r, k));
}

/// Idempotence: upserting two candidates that share a natural key returns the
/// same identifier both times, the second upsert changes nothing, and exactly
/// one row holds the key afterwards.
pub proof fn lemma_upsert_twice_same_key<R: Record>(rows: Seq<R>, a: R, b: R)
    requires
        keys_unique(rows),
        a.key() == b.key(),
    ensures
        upserted(upserted(rows, a).0, b).1 == upserted(rows, a).1,
        upserted(upserted(rows, a).0, b).0 == upserted(rows, a).0,
        exactly_one_with_key(upserted(upserted(rows, a).0, b).0, a.key()),
{
    lemma_upsert_keeps_keys_unique(rows, a);
}

/// The three natural-keyed tables of the ingestion core: sources by url,
/// feeds by url and news items by guid.
pub struct DedupStore {
    pub sources: Table<Source>,
    pub feeds: Table<Feed>,
    pub news: Table<NewsItem>,
}

impl DedupStore {
    pub open spec fn wf(&self) -> bool {
        self.sources.wf() && self.feeds.wf() && self.news.wf()
    }

    pub fn new() -> (r: Self)
        ensures
            r.wf(),
            r.sources@ == Seq::<Source>::empty(),
            r.feeds@ == Seq::<Feed>::empty(),
            r.news@ == Seq::<NewsItem>::empty(),
    {
        DedupStore { sources: Table::new(), feeds: Table::new(), news: Table::new() }
    }
}

impl Source {
    /// Persists the source unless one with its url exists; returns the
    /// identifier of the persisted row.
    pub fn save(&self, store: &mut DedupStore) -> (id: RecordId)
        requires
            old(store).wf(),
        ensures
            final(store).wf(),
            (final(store).sources@, id) == upserted(old(store).sources@, *self),
            final(store).feeds@ == old(store).feeds@,
            final(store).news@ == old(store).news@,
    {
        store.sources.upsert(self)
    }
}

impl Feed {
    /// Persists the feed unless one with its url exists; returns the
    /// identifier of the persisted row.
    pub fn save(&self, store: &mut DedupStore) -> (id: RecordId)
        requires
            old(store).wf(),
        ensures
            final(store).wf(),
            (final(store).feeds@, id) == upserted(old(store).feeds@, *self),
            final(store).sources@ == old(store).sources@,
            final(store).news@ == old(store).news@,
    {
        store.feeds.upsert(self)
    }
}

impl NewsItem {
    /// Persists the news item unless one with its guid exists; returns the
    /// identifier of the persisted row.
    pub fn save(&self, store: &mut DedupStore) -> (id: RecordId)
        requires
            old(store).wf(),
        ensures
            final(store).wf(),
            (final(store).news@, id) == upserted(old(store).news@, *self),
            final(store).sources@ == old(store).sources@,
            final(store).feeds@ == old(store).feeds@,
    {
        store.news.upsert(self)
    }
}

} // verus!
