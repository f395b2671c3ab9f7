//! The cache-aside orchestrator over a record store and a cache layer
//! that it is given when it is built. Reads go to the cache first and
//! fall back to the store; writes go to the store alone.

use crate::characters::cache::{expiry, live, CacheLayer, CacheRead, Slot, CACHE_TTL_SECS};
use crate::characters::filter::{requested_filter, rejection_reason, FilterSpec, FilterView};
use crate::characters::key::{cache_key_for_entity, cache_key_for_list, entity_key, list_key};
use crate::characters::model::{
    count_pages, page_count, rows_on_page, CharacterQuery, CharacterRecord, HanziCharacter, PageView,
    PaginatedResponse,
};
use crate::characters::read_path::{
    step, CacheReply, ReadAction, ReadEvent, ReadOutcome, ReadState, StoreReply,
};
use crate::characters::store::{
    ascending, lemma_listing_exact, listing, lookup, RecordStore, StoreError,
};
use crate::errors::api::ApiError;
use vstd::prelude::*;

verus! {

/// What a cache entry holds: a page of a listing or a single character.
pub enum CachedValue {
    Page(PaginatedResponse<HanziCharacter>),
    Character(HanziCharacter),
}

/// Mathematical content of a cached value.
pub enum CachedView {
    Page(PageView<CharacterRecord>),
    Character(CharacterRecord),
}

impl View for CachedValue {
    type V = CachedView;

    open spec fn view(&self) -> CachedView {
        match self {
            CachedValue::Page(p) => CachedView::Page(p@),
            CachedValue::Character(c) => CachedView::Character(c@),
        }
    }
}

/// Record store and cache layer as one mathematical value.
pub struct SystemView {
    pub rows: Seq<CharacterRecord>,
    pub store_online: bool,
    pub cache: Map<Seq<char>, Slot<CachedView>>,
    pub cache_available: bool,
    pub cache_writable: bool,
}

impl SystemView {
    /// Whether the cache takes a payload that it is offered.
    pub open spec fn cache_takes(&self) -> bool {
        self.cache_available && self.cache_writable
    }
}

/// A cached page can be used for `f` when it obeys the invariant of
/// pages, holds just the rows its totals leave for it, is the page and
/// page size that `f` asks for, and lists identities in ascending order.
pub open spec fn usable_page(p: PageView<CharacterRecord>, f: FilterView) -> bool {
    &&& p.exact()
    &&& p.page == f.page_number()
    &&& p.limit == f.page_size()
    &&& ascending(p.data)
}

/// The page that the cache offers for `f` at `now`, if any: the entry
/// under the list key, provided the cache can be reached, the entry has
/// not expired, and it is a page that can be used for `f`.
pub open spec fn cached_page(s: SystemView, f: FilterView, now: int) -> Option<
    PageView<CharacterRecord>,
> {
    if !s.cache_available {
        None
    } else {
        match live(s.cache, list_key(f), now) {
            Some(CachedView::Page(p)) => if usable_page(p, f) {
                Some(p)
            } else {
                None
            },
            _ => None,
        }
    }
}

/// The character that the cache offers for `id` at `now`, if any.
pub open spec fn cached_character(s: SystemView, id: i32, now: int) -> Option<CharacterRecord> {
    if !s.cache_available {
        None
    } else {
        match live(s.cache, entity_key(id), now) {
            Some(CachedView::Character(c)) => if c.id == id {
                Some(c)
            } else {
                None
            },
            _ => None,
        }
    }
}

/// What a listing for `f` at `now` returns: the cached page if the
/// cache offers one, else the page read off the store, else the store's
/// failure.
pub open spec fn list_result(s: SystemView, f: FilterView, now: int) -> Result<
    PageView<CharacterRecord>,
    StoreError,
> {
    match cached_page(s, f, now) {
        Some(p) => Ok(p),
        None => if s.store_online {
            Ok(listing(s.rows, f))
        } else {
            Err(StoreError::Unavailable)
        },
    }
}

/// The system after a listing for `f` at `now`: the page read off the
/// store is cached for the fixed time to live, provided the cache had
/// offered nothing and takes the page; else nothing changes.
pub open spec fn after_list(s: SystemView, f: FilterView, now: int) -> SystemView {
    if s.cache_takes() && cached_page(s, f, now) is None && s.store_online {
        SystemView {
            cache: s.cache.insert(
                list_key(f),
                Slot {
                    value: CachedView::Page(listing(s.rows, f)),
                    expires_at: expiry(now, CACHE_TTL_SECS as int),
                },
            ),
            ..s
        }
    } else {
        s
    }
}

/// What a lookup of `id` at `now` returns: the cached character if the
/// cache offers one, else what the store holds under the identity
/// (possibly nothing), else the store's failure.
pub open spec fn entity_result(s: SystemView, id: i32, now: int) -> Result<
    Option<CharacterRecord>,
    StoreError,
> {
    match cached_character(s, id, now) {
        Some(c) => Ok(Some(c)),
        None => if s.store_online {
            Ok(lookup(s.rows, id))
        } else {
            Err(StoreError::Unavailable)
        },
    }
}

/// The system after a lookup of `id` at `now`: a character found in the
/// store is cached, provided the cache had offered nothing and takes
/// the character. That nothing was found is never cached.
pub open spec fn after_entity(s: SystemView, id: i32, now: int) -> SystemView {
    if s.cache_takes() && cached_character(s, id, now) is None && s.store_online && lookup(
        s.rows,
        id,
    ) is Some {
        SystemView {
            cache: s.cache.insert(
                entity_key(id),
                Slot {
                    value: CachedView::Character(lookup(s.rows, id).unwrap()),
                    expires_at: expiry(now, CACHE_TTL_SECS as int),
                },
            ),
            ..s
        }
    } else {
        s
    }
}

/// The view of a cache slot.
pub open spec fn slot_view(s: Slot<CachedValue>) -> Slot<CachedView> {
    Slot { value: s.value@, expires_at: s.expires_at }
}

impl PaginatedResponse<HanziCharacter> {
    /// Whether this page, as it came out of the cache, can be used for `f`.
    pub fn is_usable_for(&self, f: &FilterSpec) -> (r: bool)
        ensures
            r == usable_page(self@, f@),
    {
        let offset = f.offset();
        if self.page != f.page() || self.limit != f.limit() || self.total < 0 {
            return false;
        }
        if self.total_pages != count_pages(self.total, self.limit) {
            return false;
        }
        let expected: u64 = if offset >= self.total {
            0
        } else if self.total - offset < self.limit {
            (self.total - offset) as u64
        } else {
            self.limit as u64
        };
        assert(expected == rows_on_page(self@.total, f@.offset(), self@.limit));
        let n = self.data.len();
        if n as u64 != expected {
            return false;
        }
        if n >= 2 {
            let mut i: usize = 0;
            while i < n - 1
                invariant
                    n == self.data.len(),
                    n >= 2,
                    i <= n - 1,
                    forall|a: int, b: int|
                        0 <= a < b <= i ==> (#[trigger] self@.data[a]).id < (
                        #[trigger] self@.data[b]).id,
                decreases n - 1 - i,
            {
                if self.data[i].id >= self.data[i + 1].id {
                    assert(self@.data[i as int].id == self.data@[i as int].id);
                    assert(self@.data[i + 1].id == self.data@[i + 1].id);
                    return false;
                }
                proof {
                    assert(self@.data[i as int].id == self.data@[i as int].id);
                    assert(self@.data[i + 1].id == self.data@[i + 1].id);
                    assert forall|a: int, b: int| 0 <= a < b <= i + 1 implies (
                    #[trigger] self@.data[a]).id < (#[trigger] self@.data[b]).id by {
                        if b == i + 1 && a < i {
                            assert(self@.data[a].id < self@.data[i as int].id);
                        }
                    }
                }
                i = i + 1;
            }
        }
        true
    }
}

/// Decides whether a page that was read back from the cache counts as a
/// hit for `f`: only a page that can be used for `f` does; anything
/// else is treated like an entry that could not be decoded.
pub fn admit_cached_page(page: PaginatedResponse<HanziCharacter>, f: &FilterSpec) -> (r: CacheReply<
    PaginatedResponse<HanziCharacter>,
>)
    ensures
        usable_page(page@, f@) ==> r == CacheReply::Hit(page),
        !usable_page(page@, f@) ==> r is Undecodable,
{
    if page.is_usable_for(f) {
        CacheReply::Hit(page)
    } else {
        CacheReply::Undecodable
    }
}

/// Decides whether a character that was read back from the cache counts
/// as a hit for `id`: only one that carries that identity does.
pub fn admit_cached_character(c: HanziCharacter, id: i32) -> (r: CacheReply<HanziCharacter>)
    ensures
        c.id == id ==> r == CacheReply::Hit(c),
        c.id != id ==> r is Undecodable,
{
    if c.id == id {
        CacheReply::Hit(c)
    } else {
        CacheReply::Undecodable
    }
}

/// The cache-aside orchestrator. Store and cache are handed in when it
/// is built and stay open to the caller: writes go straight to `store`
/// and never touch `cache`.
pub struct Orchestrator {
    pub store: RecordStore,
    pub cache: CacheLayer<CachedValue>,
}

impl View for Orchestrator {
    type V = SystemView;

    open spec fn view(&self) -> SystemView {
        SystemView {
            rows: self.store@,
            store_online: self.store.is_online(),
            cache: self.cache.contents().map_values(|s: Slot<CachedValue>| slot_view(s)),
            cache_available: self.cache.is_available(),
            cache_writable: self.cache.is_writable(),
        }
    }
}

/// Why a read through the orchestrator did not return a payload. A
/// failure of the cache is not among the reasons.
#[derive(Debug)]
pub enum ReadFailure {
    /// The request was malformed; the message says how.
    Validation(String),
    /// The store holds nothing under the identity.
    NotFound,
    /// The store failed.
    Store(StoreError),
}

impl ReadFailure {
    /// The error of the API taxonomy that this failure falls under.
    pub fn into_api_error(self) -> (r: ApiError)
        ensures
            match self {
                ReadFailure::Validation(m) => r matches ApiError::ValidationError { message }
                    && message@ == m@,
                ReadFailure::NotFound => r is NotFound,
                ReadFailure::Store(e) => r matches ApiError::DatabaseError(d) && d@ == e.text(),
            },
    {
        match self {
            ReadFailure::Validation(message) => ApiError::ValidationError { message },
            ReadFailure::NotFound => ApiError::NotFound,
            ReadFailure::Store(e) => ApiError::DatabaseError(e.describe()),
        }
    }
}

impl Orchestrator {
    /// Store and cache obey their invariants.
    pub open spec fn wf(&self) -> bool {
        self.store.wf() && self.cache.wf()
    }

    /// An orchestrator over the given store and cache.
    pub fn new(store: RecordStore, cache: CacheLayer<CachedValue>) -> (r: Orchestrator)
        ensures
            r.store == store,
            r.cache == cache,
    {
        Orchestrator { store, cache }
    }

    /// Asks the cache for the page of `f`.
    fn lookup_page(&self, key: &str, f: &FilterSpec, now: i64) -> (r: CacheReply<
        PaginatedResponse<HanziCharacter>,
    >)
        requires
            self.wf(),
            key@ == list_key(f@),
        ensures
            r is Unreachable <==> !self@.cache_available,
            match cached_page(self@, f@, now as int) {
                Some(p) => r matches CacheReply::Hit(found) && found@ == p,
                None => !(r is Hit),
            },
    {
        match self.cache.get(key, now) {
            CacheRead::Unavailable => CacheReply::Unreachable,
            CacheRead::Miss => CacheReply::Miss,
            CacheRead::Hit(value) => match value {
                CachedValue::Page(p) => admit_cached_page(p.duplicate(), f),
                CachedValue::Character(_) => CacheReply::Undecodable,
            },
        }
    }

    /// Asks the cache for the character `id`.
    fn lookup_character(&self, key: &str, id: i32, now: i64) -> (r: CacheReply<HanziCharacter>)
        requires
            self.wf(),
            key@ == entity_key(id),
        ensures
            r is Unreachable <==> !self@.cache_available,
            match cached_character(self@, id, now as int) {
                Some(c) => r matches CacheReply::Hit(found) && found@ == c,
                None => !(r is Hit),
            },
    {
        match self.cache.get(key, now) {
            CacheRead::Unavailable => CacheReply::Unreachable,
            CacheRead::Miss => CacheReply::Miss,
            CacheRead::Hit(value) => match value {
                CachedValue::Character(c) => admit_cached_character(c.duplicate(), id),
                CachedValue::Page(_) => CacheReply::Undecodable,
            },
        }
    }

    /// Offers `value` to the cache under `key` with the fixed time to
    /// live. Whether the cache takes it is of no concern to the caller.
    fn populate(&mut self, key: &str, value: CachedValue, now: i64)
        requires
            old(self).wf(),
        ensures
            final(self).wf(),
            final(self)@.rows == old(self)@.rows,
            final(self)@.store_online == old(self)@.store_online,
            final(self)@.cache_available == old(self)@.cache_available,
            final(self)@.cache_writable == old(self)@.cache_writable,
            old(self)@.cache_takes() ==> final(self)@.cache == old(self)@.cache.insert(
                key@,
                Slot { value: value@, expires_at: expiry(now as int, CACHE_TTL_SECS as int) },
            ),
            !old(self)@.cache_takes() ==> final(self)@.cache == old(self)@.cache,
    {
        let taken = self.cache.set_with_ttl(key, value, CACHE_TTL_SECS, now);
        proof {
            if !taken {
                assert(final(self)@.cache =~= old(self)@.cache);
            }
            if taken {
                assert(final(self)@.cache =~= old(self)@.cache.insert(
                    key@,
                    Slot { value: value@, expires_at: expiry(now as int, CACHE_TTL_SECS as int) },
                ));
            }
        }
    }

    /// Serves a listing at the time `now` (seconds since the epoch).
    ///
    /// The query is validated first; an invalid one is a validation
    /// failure and touches nothing. Then the cache is asked under the
    /// key of the query as it was stated: a usable
    /// page that has not expired is returned as it is. Otherwise the page
    /// is read off the store and offered to the cache for an hour. A
    /// cache that cannot be reached or does not take the page never fails
    /// the request; a store that cannot be reached does.
    pub fn fetch_list(&mut self, query: &CharacterQuery, now: i64) -> (r: Result<
        PaginatedResponse<HanziCharacter>,
        ReadFailure,
    >)
        requires
            old(self).wf(),
        ensures
            final(self).wf(),
            !requested_filter(query).wf() ==> final(self)@ == old(self)@ && (r matches Err(
                ReadFailure::Validation(message),
            ) && message@ == rejection_reason(query)),
            requested_filter(query).wf() ==> {
                let f = requested_filter(query);
                &&& final(self)@ == after_list(old(self)@, f, now as int)
                &&& match list_result(old(self)@, f, now as int) {
                    Ok(page) => r matches Ok(found) && found@ == page,
                    Err(e) => r == Err::<PaginatedResponse<HanziCharacter>, ReadFailure>(
                        ReadFailure::Store(e),
                    ),
                }
                &&& r matches Ok(found) ==> usable_page(found@, f)
            },
    {
        let f = match query.filter_spec() {
            Ok(f) => f,
            Err(e) => {
                assert(final(self)@.cache =~= old(self)@.cache);
                return Err(ReadFailure::Validation(e.public_message()));
            },
        };
        let key = cache_key_for_list(&f);
        let (state, _) = step::<PaginatedResponse<HanziCharacter>>(
            ReadState::Start,
            ReadEvent::Begin,
        );
        let reply = self.lookup_page(key.as_str(), &f, now);
        let (state, action) = step(state, ReadEvent::Cache(reply));
        match action {
            ReadAction::Respond { outcome: ReadOutcome::Found(page), .. } => {
                Ok(page)
            },
            ReadAction::AskStore => {
                let answer = match self.store.list(&f) {
                    Ok(page) => StoreReply::Found(page),
                    Err(e) => StoreReply::Failed(e),
                };
                proof {
                    lemma_listing_exact(self.store@, f@);
                    self.store.lemma_wf_ascending();
                }
                let (_, action) = step(state, ReadEvent::Store(answer));
                match action {
                    ReadAction::Respond { outcome, populate } => match outcome {
                        ReadOutcome::Found(page) => {
                            if populate {
                                self.populate(
                                    key.as_str(),
                                    CachedValue::Page(page.duplicate()),
                                    now,
                                );
                            }
                            Ok(page)
                        },
                        ReadOutcome::Failed(e) => Err(ReadFailure::Store(e)),
                        ReadOutcome::NotFound => Err(ReadFailure::NotFound),
                    },
                    _ => Err(ReadFailure::NotFound),
                }
            },
            _ => Err(ReadFailure::NotFound),
        }
    }

    /// Serves a lookup by identity at the time `now` (seconds since the
    /// epoch), with the same structure as a listing: cache first, then
    /// the store, then a best-effort fill of the cache. An identity that
    /// the store does not hold is `NotFound`, which is never cached.
    pub fn fetch_by_id(&mut self, id: i32, now: i64) -> (r: Result<HanziCharacter, ReadFailure>)
        requires
            old(self).wf(),
        ensures
            final(self).wf(),
            final(self)@ == after_entity(old(self)@, id, now as int),
            match entity_result(old(self)@, id, now as int) {
                Ok(Some(c)) => r matches Ok(found) && found@ == c,
                Ok(None) => r matches Err(ReadFailure::NotFound),
                Err(e) => r == Err::<HanziCharacter, ReadFailure>(ReadFailure::Store(e)),
            },
            r matches Ok(found) ==> found@.id == id,
    {
        let key = cache_key_for_entity(id);
        let (state, _) = step::<HanziCharacter>(ReadState::Start, ReadEvent::Begin);
        let reply = self.lookup_character(key.as_str(), id, now);
        let (state, action) = step(state, ReadEvent::Cache(reply));
        match action {
            ReadAction::Respond { outcome: ReadOutcome::Found(c), .. } => {
                assert(final(self)@.cache =~= old(self)@.cache);
                Ok(c)
            },
            ReadAction::AskStore => {
                let answer = match self.store.fetch_by_id(id) {
                    Ok(Some(c)) => StoreReply::Found(c),
                    Ok(None) => StoreReply::Absent,
                    Err(e) => StoreReply::Failed(e),
                };
                let (_, action) = step(state, ReadEvent::Store(answer));
                match action {
                    ReadAction::Respond { outcome, populate } => match outcome {
                        ReadOutcome::Found(c) => {
                            proof {
                                self.store.lemma_wf_ascending();
                                lemma_lookup_id(self.store@, id);
                            }
                            if populate {
                                self.populate(
                                    key.as_str(),
                                    CachedValue::Character(c.duplicate()),
                                    now,
                                );
                            }
                            Ok(c)
                        },
                        ReadOutcome::Failed(e) => Err(ReadFailure::Store(e)),
                        ReadOutcome::NotFound => Err(ReadFailure::NotFound),
                    },
                    _ => Err(ReadFailure::NotFound),
                }
            },
            _ => Err(ReadFailure::NotFound),
        }
    }
}

/// What a lookup finds carries the identity that was asked for.
pub proof fn lemma_lookup_id(rows: Seq<CharacterRecord>, id: i32)
    ensures
        lookup(rows, id) matches Some(c) ==> c.id == id && rows.contains(c),
{
}

/// Every page that a listing returns, from the cache or from the store,
/// has the ceiling of total over page size as its page count, holds no
/// more rows than the page size, and is empty where the page starts at
/// or past the total.
pub proof fn lemma_list_result_paginated(s: SystemView, f: FilterView, now: int)
    requires
        f.wf(),
        ascending(s.rows),
    ensures
        list_result(s, f, now) matches Ok(p) ==> {
            &&& usable_page(p, f)
            &&& p.total_pages == page_count(p.total, f.page_size())
            &&& p.data.len() <= f.page_size()
            &&& (f.offset() >= p.total ==> p.data.len() == 0)
        },
{
    lemma_listing_exact(s.rows, f);
}

/// Reads repeated while the cached entry lives return what the first
/// read returned, whatever has become of the store in between: the rows
/// may have changed (`rows_later`) and the store may even be down. The
/// later read leaves the cache as it is. After a read that filled the
/// cache, the entry lives for the fixed time to live.
pub proof fn lemma_repeated_listing_is_stable(
    s: SystemView,
    f: FilterView,
    first: int,
    later: int,
    rows_later: Seq<CharacterRecord>,
    online_later: bool,
)
    requires
        f.wf(),
        ascending(s.rows),
        s.cache_takes(),
        list_result(s, f, first) is Ok,
        first <= later,
        later < after_list(s, f, first).cache[list_key(f)].expires_at,
    ensures
        ({
            let between = SystemView {
                rows: rows_later,
                store_online: online_later,
                ..after_list(s, f, first)
            };
            &&& list_result(between, f, later) == list_result(s, f, first)
            &&& after_list(between, f, later) == between
        }),
        cached_page(s, f, first) is None ==> after_list(s, f, first).cache[list_key(
            f,
        )].expires_at == expiry(first, CACHE_TTL_SECS as int),
{
    lemma_listing_exact(s.rows, f);
}

/// Once the entry has expired, a read goes back to the store and
/// returns the page as the store holds it then.
pub proof fn lemma_expired_listing_is_refreshed(s: SystemView, f: FilterView, now: int)
    requires
        f.wf(),
        s.store_online,
        s.cache.dom().contains(list_key(f)) ==> s.cache[list_key(f)].expires_at <= now,
    ensures
        list_result(s, f, now) == Ok::<PageView<CharacterRecord>, StoreError>(listing(s.rows, f)),
{
}

/// A cache that refuses every write fails no request: each read
/// returns what it would have returned otherwise, and the cache stays
/// as it is.
pub proof fn lemma_failed_cache_write_is_ignored(s: SystemView, f: FilterView, id: i32, now: int)
    requires
        !s.cache_writable,
    ensures
        list_result(s, f, now) == list_result(SystemView { cache_writable: true, ..s }, f, now),
        entity_result(s, id, now) == entity_result(
            SystemView { cache_writable: true, ..s },
            id,
            now,
        ),
        after_list(s, f, now) == s,
        after_entity(s, id, now) == s,
{
}

/// With the cache out of reach, listings and lookups answer from the
/// store alone and succeed whenever the store is up; nothing is written.
pub proof fn lemma_cache_outage_is_invisible(s: SystemView, f: FilterView, id: i32, now: int)
    requires
        !s.cache_available,
    ensures
        s.store_online ==> list_result(s, f, now) == Ok::<PageView<CharacterRecord>, StoreError>(
            listing(s.rows, f),
        ),
        s.store_online ==> entity_result(s, id, now) == Ok::<Option<CharacterRecord>, StoreError>(
            lookup(s.rows, id),
        ),
        !s.store_online ==> list_result(s, f, now) is Err && entity_result(s, id, now) is Err,
        after_list(s, f, now) == s,
        after_entity(s, id, now) == s,
{
}

/// Writes to the store do not reach the cache: what the cache offers
/// depends on the cache alone.
pub proof fn lemma_store_writes_leave_cache(
    s: SystemView,
    rows_later: Seq<CharacterRecord>,
    f: FilterView,
    id: i32,
    now: int,
)
    ensures
        cached_page(SystemView { rows: rows_later, ..s }, f, now) == cached_page(s, f, now),
        cached_character(SystemView { rows: rows_later, ..s }, id, now) == cached_character(
            s,
            id,
            now,
        ),
{
}

/// Lookups repeated while the cached entry lives return the character
/// as the first lookup found it, whatever has become of the store in
/// between, and leave the cache as it is.
pub proof fn lemma_repeated_lookup_is_stable(
    s: SystemView,
    id: i32,
    first: int,
    later: int,
    rows_later: Seq<CharacterRecord>,
    online_later: bool,
)
    requires
        s.cache_takes(),
        entity_result(s, id, first) matches Ok(Some(_)),
        first <= later,
        later < after_entity(s, id, first).cache[entity_key(id)].expires_at,
    ensures
        ({
            let between = SystemView {
                rows: rows_later,
                store_online: online_later,
                ..after_entity(s, id, first)
            };
            &&& entity_result(between, id, later) == entity_result(s, id, first)
            &&& after_entity(between, id, later) == between
        }),
        cached_character(s, id, first) is None ==> after_entity(s, id, first).cache[entity_key(
            id,
        )].expires_at == expiry(first, CACHE_TTL_SECS as int),
{
    lemma_lookup_id(s.rows, id);
}

} // verus!
