//! The stages of one ingestion cycle and the transitions between them. A
//! cycle starts, fetches, parses, maps and persists; a failure at any stage
//! ends it in a failed state that no later event leaves.

use vstd::prelude::*;

verus! {

/// Where a cycle failed.
#[derive(Clone, Copy, Debug, PartialEq, Eq, Structural)]
pub enum FailedAt {
    Fetching,
    Parsing,
    Persisting,
}

/// The stage of one ingestion cycle.
#[derive(Clone, Copy, Debug, PartialEq, Eq, Structural)]
pub enum Stage {
    Start,
    Fetching,
    Parsing,
    Mapping,
    Persisting,
    Done,
    Failed(FailedAt),
}

/// What happened at the current stage.
#[derive(Clone, Copy, Debug, PartialEq, Eq, Structural)]
pub enum Event {
    /// The cycle was asked to run.
    Begin,
    /// The body was fetched.
    Fetched,
    /// The fetch failed.
    FetchFailed,
    /// The body was recognized as RSS or Atom.
    Recognized,
    /// The body was neither RSS nor Atom.
    Unrecognized,
    /// The entries were mapped.
    Mapped,
    /// The feed row was persisted, created or reused.
    FeedPersisted,
    /// Persisting the feed row failed.
    FeedPersistFailed,
}

/// The stage that follows `s` on event `e`; an event that does not belong to
/// the stage leaves it as it is, and done and failed cycles stay so.
pub open spec fn step(s: Stage, e: Event) -> Stage {
    match (s, e) {
        (Stage::Start, Event::Begin) => Stage::Fetching,
        (Stage::Fetching, Event::Fetched) => Stage::Parsing,
        (Stage::Fetching, Event::FetchFailed) => Stage::Failed(FailedAt::Fetching),
        (Stage::Parsing, Event::Recognized) => Stage::Mapping,
        (Stage::Parsing, Event::Unrecognized) => Stage::Failed(FailedAt::Parsing),
        (Stage::Mapping, Event::Mapped) => Stage::Persisting,
        (Stage::Persisting, Event::FeedPersisted) => Stage::Done,
        (Stage::Persisting, Event::FeedPersistFailed) => Stage::Failed(FailedAt::Persisting),
        _ => s,
    }
}

/// The stage that follows `s` on event `e`.
pub fn next_stage(s: Stage, e: Event) -> (r: Stage)
    ensures
        r == step(s, e),
{
    match (s, e) {
        (Stage::Start, Event::Begin) => Stage::Fetching,
        (Stage::Fetching, Event::Fetched) => Stage::Parsing,
        (Stage::Fetching, Event::FetchFailed) => Stage::Failed(FailedAt::Fetching),
        (Stage::Parsing, Event::Recognized) => Stage::Mapping,
        (Stage::Parsing, Event::Unrecognized) => Stage::Failed(FailedAt::Parsing),
        (Stage::Mapping, Event::Mapped) => Stage::Persisting,
        (Stage::Persisting, Event::FeedPersisted) => Stage::Done,
        (Stage::Persisting, Event::FeedPersistFailed) => Stage::Failed(FailedAt::Persisting),
        _ => s,
    }
}

/// Whether a cycle in stage `s` has ended, done or failed.
pub fn is_terminal(s: Stage) -> (r: bool)
    ensures
        r == (s is Done || s is Failed),
{
    match s {
        Stage::Done | Stage::Failed(_) => true,
        _ => false,
    }
}

/// The stage reached from `s` by the events of `es`, in order.
pub open spec fn run(s: Stage, es: Seq<Event>) -> Stage
    decreases es.len(),
{
    if es.len() == 0 {
        s
    } else {
        run(step(s, es[0]), es.subrange(1, es.len() as int))
    }
}

/// Done and failed cycles are absorbing: no sequence of events leaves them.
pub proof fn lemma_terminal_stages_absorb(s: Stage, es: Seq<Event>)
    requires
        s is Done || s is Failed,
    ensures
        run(s, es) == s,
    decreases es.len(),
{
    if es.len() > 0 {
        lemma_terminal_stages_absorb(step(s, es[0]), es.subrange(1, es.len() as int));
    }
}

} // verus!
