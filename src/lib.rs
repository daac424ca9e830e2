//! Ingestion core for news feeds: date normalization, feed parsing with an
//! ordered RSS-then-Atom fallback, natural-key identity, mapping into
//! canonical records and an idempotent, natural-keyed record store.

pub mod dates;
pub mod models;
pub mod store;
pub mod feed;
pub mod mapping;
pub mod ingest;
pub mod outline;
pub mod text;
pub mod targets;
pub mod stages;
