//! The cache-aside read path as a state machine. The caller performs the
//! lookups (a cache round-trip, a store query) and hands each answer
//! back as an event; the machine decides what happens next. The same
//! machine serves the listing and the lookup by identity.

use crate::characters::store::StoreError;
use vstd::prelude::*;

verus! {

/// What the cache lookup came back with.
pub enum CacheReply<P> {
    /// The cache could not be reached.
    Unreachable,
    /// No entry under the key.
    Miss,
    /// An entry that could not be read as a payload.
    Undecodable,
    /// An entry, read as a payload.
    Hit(P),
}

/// What the record store came back with.
pub enum StoreReply<P> {
    /// The payload that answers the request.
    Found(P),
    /// Nothing answers the request (a lookup by identity only).
    Absent,
    /// The store failed.
    Failed(StoreError),
}

/// What the caller of the read path receives.
pub enum ReadOutcome<P> {
    /// The payload, from the cache or from the store.
    Found(P),
    /// The store holds nothing under the identity.
    NotFound,
    /// The store failed. A failure of the cache never shows here.
    Failed(StoreError),
}

/// Where a read stands.
#[derive(Clone, Copy, Debug, PartialEq, Eq, Structural)]
pub enum ReadState {
    /// Nothing has happened yet.
    Start,
    /// The cache has been asked.
    CacheAsked,
    /// The store has been asked; `populate` tells whether the cache was
    /// reachable and so is to receive what the store finds.
    StoreAsked { populate: bool },
    /// The outcome has been handed out.
    Finished,
}

/// What happened since the last step.
pub enum ReadEvent<P> {
    /// The request arrived.
    Begin,
    /// The cache answered.
    Cache(CacheReply<P>),
    /// The store answered.
    Store(StoreReply<P>),
}

/// What the caller has to do next.
pub enum ReadAction<P> {
    /// Look the key up in the cache.
    AskCache,
    /// Run the query against the record store.
    AskStore,
    /// Hand `outcome` to the requester. Where `populate` holds, first
    /// offer the payload to the cache under the key, with the fixed
    /// time to live; whether the cache takes it changes nothing.
    Respond { outcome: ReadOutcome<P>, populate: bool },
    /// The event does not belong to the state; the read is abandoned.
    Reject,
}

/// What the store's answer means for the requester.
pub open spec fn outcome_of_store<P>(s: StoreReply<P>) -> ReadOutcome<P> {
    match s {
        StoreReply::Found(p) => ReadOutcome::Found(p),
        StoreReply::Absent => ReadOutcome::NotFound,
        StoreReply::Failed(e) => ReadOutcome::Failed(e),
    }
}

/// The transition function of the read path.
pub open spec fn transition<P>(state: ReadState, event: ReadEvent<P>) -> (ReadState, ReadAction<P>) {
    match (state, event) {
        (ReadState::Start, ReadEvent::Begin) => (ReadState::CacheAsked, ReadAction::AskCache),
        (ReadState::CacheAsked, ReadEvent::Cache(CacheReply::Hit(p))) => (
            ReadState::Finished,
            ReadAction::Respond { outcome: ReadOutcome::Found(p), populate: false },
        ),
        (ReadState::CacheAsked, ReadEvent::Cache(CacheReply::Unreachable)) => (
            ReadState::StoreAsked { populate: false },
            ReadAction::AskStore,
        ),
        (ReadState::CacheAsked, ReadEvent::Cache(_)) => (
            ReadState::StoreAsked { populate: true },
            ReadAction::AskStore,
        ),
        (ReadState::StoreAsked { populate }, ReadEvent::Store(s)) => (
            ReadState::Finished,
            ReadAction::Respond {
                outcome: outcome_of_store(s),
                populate: populate && s is Found,
            },
        ),
        _ => (ReadState::Finished, ReadAction::Reject),
    }
}

/// The outcome of a whole read, given what cache and store answer: the
/// cached payload on a hit, else whatever the store says.
pub open spec fn read_outcome<P>(cache: CacheReply<P>, store: StoreReply<P>) -> ReadOutcome<P> {
    match cache {
        CacheReply::Hit(p) => ReadOutcome::Found(p),
        _ => outcome_of_store(store),
    }
}

/// Whether a whole read ends with an offer to the cache: only after a
/// reachable cache had nothing usable and the store found the payload.
pub open spec fn read_populates<P>(cache: CacheReply<P>, store: StoreReply<P>) -> bool {
    (cache is Miss || cache is Undecodable) && store is Found
}

/// Takes one step of the read path.
pub fn step<P>(state: ReadState, event: ReadEvent<P>) -> (r: (ReadState, ReadAction<P>))
    ensures
        r == transition(state, event),
{
    match state {
        ReadState::Start => match event {
            ReadEvent::Begin => (ReadState::CacheAsked, ReadAction::AskCache),
            _ => (ReadState::Finished, ReadAction::Reject),
        },
        ReadState::CacheAsked => match event {
            ReadEvent::Cache(reply) => match reply {
                CacheReply::Hit(p) => (
                    ReadState::Finished,
                    ReadAction::Respond { outcome: ReadOutcome::Found(p), populate: false },
                ),
                CacheReply::Unreachable => (
                    ReadState::StoreAsked { populate: false },
                    ReadAction::AskStore,
                ),
                _ => (ReadState::StoreAsked { populate: true }, ReadAction::AskStore),
            },
            _ => (ReadState::Finished, ReadAction::Reject),
        },
        ReadState::StoreAsked { populate } => match event {
            ReadEvent::Store(s) => match s {
                StoreReply::Found(p) => (
                    ReadState::Finished,
                    ReadAction::Respond { outcome: ReadOutcome::Found(p), populate },
                ),
                StoreReply::Absent => (
                    ReadState::Finished,
                    ReadAction::Respond { outcome: ReadOutcome::NotFound, populate: false },
                ),
                StoreReply::Failed(e) => (
                    ReadState::Finished,
                    ReadAction::Respond { outcome: ReadOutcome::Failed(e), populate: false },
                ),
            },
            _ => (ReadState::Finished, ReadAction::Reject),
        },
        ReadState::Finished => (ReadState::Finished, ReadAction::Reject),
    }
}

/// A read runs as follows: the cache is asked first; on a hit the cached
/// payload is the outcome and the store is never asked; otherwise the
/// store is asked and its answer is the outcome, offered to the cache
/// only if the cache was reachable and the store found the payload.
pub proof fn lemma_read_run<P>(cache: CacheReply<P>, store: StoreReply<P>)
    ensures
        transition::<P>(ReadState::Start, ReadEvent::Begin) == (
            ReadState::CacheAsked,
            ReadAction::<P>::AskCache,
        ),
        cache is Hit ==> transition(ReadState::CacheAsked, ReadEvent::Cache(cache)) == (
            ReadState::Finished,
            ReadAction::Respond { outcome: read_outcome(cache, store), populate: false },
        ),
        !(cache is Hit) ==> {
            let asked = transition(ReadState::CacheAsked, ReadEvent::Cache(cache));
            &&& asked.1 is AskStore
            &&& asked.0 is StoreAsked
            &&& transition(asked.0, ReadEvent::Store(store)) == (
                ReadState::Finished,
                ReadAction::Respond {
                    outcome: read_outcome(cache, store),
                    populate: read_populates(cache, store),
                },
            )
        },
{
}

/// With the cache out of reach a read still succeeds whenever the store
/// does: the outcome is the store's answer and nothing is offered to the
/// cache.
pub proof fn lemma_cache_outage_degrades<P>(store: StoreReply<P>)
    ensures
        read_outcome(CacheReply::<P>::Unreachable, store) == outcome_of_store(store),
        !read_populates(CacheReply::<P>::Unreachable, store),
        store is Found ==> read_outcome(CacheReply::<P>::Unreachable, store) is Found,
{
}

/// A cache hit decides the outcome whatever the store holds by now.
pub proof fn lemma_hit_ignores_store<P>(payload: P, store: StoreReply<P>, other: StoreReply<P>)
    ensures
        read_outcome(CacheReply::Hit(payload), store) == ReadOutcome::Found(payload),
        read_outcome(CacheReply::Hit(payload), store) == read_outcome(
            CacheReply::Hit(payload),
            other,
        ),
        !read_populates(CacheReply::Hit(payload), store),
{
}

/// States from which no step leads anywhere: once finished, every event
/// is rejected.
pub proof fn lemma_finished_is_final<P>(event: ReadEvent<P>)
    ensures
        transition(ReadState::Finished, event) == (ReadState::Finished, ReadAction::<P>::Reject),
{
}

} // verus!
