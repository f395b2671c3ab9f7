//! The record store as the read path sees it: rows in ascending order of
//! identity, a count and a bounded page for a filter specification, and
//! a lookup by identity. `RecordStore` keeps the rows in memory.

use crate::characters::filter::{FilterSpec, FilterView};
use crate::characters::model::{
    count_pages, lemma_page_count_is_ceiling, page_count, rows_on_page, CharacterRecord,
    HanziCharacter, NewHanziCharacter, PageView, PaginatedResponse,
};
use crate::clock::Timestamp;
use vstd::prelude::*;

verus! {

/// Why the record store could not answer.
#[derive(Clone, Copy, Debug, PartialEq, Eq, Structural)]
pub enum StoreError {
    /// No connection could be had.
    Unavailable,
    /// The count query failed.
    CountFailed,
    /// The query for the rows failed, or its answer does not fit the plan.
    FetchFailed,
}

impl StoreError {
    /// The fixed phrase that names the failure.
    pub open spec fn text(&self) -> Seq<char> {
        match self {
            StoreError::Unavailable => "Failed to get database connection"@,
            StoreError::CountFailed => "Failed to count characters"@,
            StoreError::FetchFailed => "Failed to fetch characters"@,
        }
    }

    /// The fixed phrase that names the failure.
    pub fn describe(&self) -> (r: String)
        ensures
            r@ == self.text(),
    {
        match self {
            StoreError::Unavailable => "Failed to get database connection".to_string(),
            StoreError::CountFailed => "Failed to count characters".to_string(),
            StoreError::FetchFailed => "Failed to fetch characters".to_string(),
        }
    }
}

/// Identities strictly increase along `rows`.
pub open spec fn ascending(rows: Seq<CharacterRecord>) -> bool {
    forall|i: int, j: int| 0 <= i < j < rows.len() ==> (#[trigger] rows[i]).id < (#[trigger] rows[j]).id
}

/// The rows that pass the predicate of `f`, in the order of the store.
pub open spec fn matching(rows: Seq<CharacterRecord>, f: FilterView) -> Seq<CharacterRecord> {
    rows.filter(|c: CharacterRecord| f.admits(c))
}

/// The window of `m` that starts at `offset` and holds at most `limit` rows.
pub open spec fn window(m: Seq<CharacterRecord>, offset: int, limit: int) -> Seq<CharacterRecord> {
    let lo = if offset < m.len() { offset } else { m.len() as int };
    let hi = if offset + limit < m.len() { offset + limit } else { m.len() as int };
    m.subrange(lo, hi)
}

/// The rows of the page that `f` asks for.
pub open spec fn page_of(rows: Seq<CharacterRecord>, f: FilterView) -> Seq<CharacterRecord> {
    window(matching(rows, f), f.offset(), f.page_size())
}

/// The page that answers `f` over `rows`.
pub open spec fn listing(rows: Seq<CharacterRecord>, f: FilterView) -> PageView<CharacterRecord> {
    PageView {
        data: page_of(rows, f),
        page: f.page_number(),
        limit: f.page_size(),
        total: matching(rows, f).len() as int,
        total_pages: page_count(matching(rows, f).len() as int, f.page_size()),
    }
}

/// The row with identity `id`, if there is one.
pub open spec fn lookup(rows: Seq<CharacterRecord>, id: i32) -> Option<CharacterRecord> {
    if exists|i: int| 0 <= i < rows.len() && (#[trigger] rows[i]).id == id {
        let i = choose|i: int| 0 <= i < rows.len() && (#[trigger] rows[i]).id == id;
        Some(rows[i])
    } else {
        None
    }
}

/// What one more row adds to the matching rows.
pub proof fn lemma_matching_step(rows: Seq<CharacterRecord>, f: FilterView, i: int)
    requires
        0 <= i < rows.len(),
    ensures
        matching(rows.take(i + 1), f) == if f.admits(rows[i]) {
            matching(rows.take(i), f).push(rows[i])
        } else {
            matching(rows.take(i), f)
        },
{
    reveal(Seq::filter);
    assert(rows.take(i + 1).drop_last() =~= rows.take(i));
    assert(rows.take(i + 1).last() == rows[i]);
}

/// Of no rows, none match.
pub proof fn lemma_matching_none(rows: Seq<CharacterRecord>, f: FilterView)
    ensures
        matching(rows.take(0), f) == Seq::<CharacterRecord>::empty(),
{
    reveal(Seq::filter);
    assert(rows.take(0) =~= Seq::<CharacterRecord>::empty());
}

/// Every matching row is a row of the store that passes the predicate, and
/// the matching rows keep the ascending order of the store.
pub proof fn lemma_matching_rows(rows: Seq<CharacterRecord>, f: FilterView)
    ensures
        matching(rows, f).len() <= rows.len(),
        forall|k: int|
            0 <= k < matching(rows, f).len() ==> f.admits(#[trigger] matching(rows, f)[k])
                && rows.contains(matching(rows, f)[k]),
        forall|i: int|
            0 <= i < rows.len() && f.admits(rows[i]) ==> matching(rows, f).contains(
                #[trigger] rows[i],
            ),
        ascending(rows) ==> ascending(matching(rows, f)),
    decreases rows.len(),
{
    reveal(Seq::filter);
    let m = matching(rows, f);
    if rows.len() > 0 {
        let head = rows.drop_last();
        let mh = matching(head, f);
        lemma_matching_rows(head, f);
        assert forall|k: int| 0 <= k < m.len() implies f.admits(#[trigger] m[k]) && rows.contains(
            m[k],
        ) by {
            if k < mh.len() {
                assert(m[k] == mh[k]);
                assert(head.contains(mh[k]));
                let j = choose|j: int| 0 <= j < head.len() && head[j] == mh[k];
                assert(rows[j] == mh[k]);
            } else {
                assert(m[k] == rows.last());
                assert(rows[rows.len() - 1] == rows.last());
            }
        }
        assert forall|i: int| 0 <= i < rows.len() && f.admits(rows[i]) implies m.contains(
            #[trigger] rows[i],
        ) by {
            if i < head.len() {
                assert(head[i] == rows[i]);
                assert(mh.contains(head[i]));
                let k = choose|k: int| 0 <= k < mh.len() && mh[k] == head[i];
                assert(m[k] == rows[i]);
            } else {
                assert(m[m.len() - 1] == rows[i]);
            }
        }
        if ascending(rows) {
            assert(ascending(head)) by {
                assert forall|i: int, j: int| 0 <= i < j < head.len() implies (#[trigger] head[i]).id
                    < (#[trigger] head[j]).id by {
                    assert(head[i] == rows[i] && head[j] == rows[j]);
                }
            }
            assert forall|i: int, j: int| 0 <= i < j < m.len() implies (#[trigger] m[i]).id < (
            #[trigger] m[j]).id by {
                if j < mh.len() {
                    assert(m[i] == mh[i] && m[j] == mh[j]);
                } else {
                    assert(m[j] == rows.last());
                    assert(m[i] == mh[i]);
                    assert(head.contains(mh[i]));
                    let t = choose|t: int| 0 <= t < head.len() && head[t] == mh[i];
                    assert(rows[t] == mh[i]);
                    assert(rows[rows.len() - 1] == rows.last());
                }
            }
        }
    }
}

/// Which rows match does not depend on the page that is asked for.
pub proof fn lemma_matching_ignores_page(rows: Seq<CharacterRecord>, f: FilterView, g: FilterView)
    requires
        f.level == g.level,
        f.stroke_count == g.stroke_count,
        f.search == g.search,
    ensures
        matching(rows, f) == matching(rows, g),
    decreases rows.len(),
{
    reveal(Seq::filter);
    if rows.len() > 0 {
        lemma_matching_ignores_page(rows.drop_last(), f, g);
    }
}

/// Along ascending rows the identities grow at least as fast as the
/// positions, so there are no more rows than 32-bit identities.
pub proof fn lemma_ascending_len(rows: Seq<CharacterRecord>)
    requires
        ascending(rows),
    ensures
        rows.len() <= 0x1_0000_0000,
        forall|j: int| 0 <= j < rows.len() ==> (#[trigger] rows[j]).id - rows[0].id >= j,
    decreases rows.len(),
{
    if rows.len() > 1 {
        let head = rows.drop_last();
        assert(ascending(head)) by {
            assert forall|i: int, j: int| 0 <= i < j < head.len() implies (#[trigger] head[i]).id
                < (#[trigger] head[j]).id by {
                assert(head[i] == rows[i] && head[j] == rows[j]);
            }
        }
        lemma_ascending_len(head);
        let n = rows.len() as int;
        assert(head[n - 2] == rows[n - 2]);
        assert(head[0] == rows[0]);
        assert(rows[n - 2].id < rows[n - 1].id);
        assert forall|j: int| 0 <= j < rows.len() implies (#[trigger] rows[j]).id - rows[0].id
            >= j by {
            if j < n - 1 {
                assert(head[j] == rows[j]);
            }
        }
        assert(rows[n - 1].id - rows[0].id >= n - 1);
    }
}

/// The page that answers a filter specification obeys the invariant of
/// pages: its page count is the ceiling of total over page size, it holds
/// no more rows than the page size, just the rows its totals leave for it
/// (none where the page starts at or past the total), and its identities
/// strictly increase.
pub proof fn lemma_listing_exact(rows: Seq<CharacterRecord>, f: FilterView)
    requires
        f.wf(),
    ensures
        listing(rows, f).exact(),
        listing(rows, f).page == f.page_number(),
        listing(rows, f).limit == f.page_size(),
        f.offset() >= listing(rows, f).total ==> listing(rows, f).data.len() == 0,
        ascending(rows) ==> ascending(listing(rows, f).data),
{
    let m = matching(rows, f);
    lemma_matching_rows(rows, f);
    assert(f.offset() >= 0) by (nonlinear_arith)
        requires
            f.page_number() >= 1,
            f.page_size() >= 1,
            f.offset() == (f.page_number() - 1) * f.page_size(),
    ;
    lemma_page_count_is_ceiling(m.len() as int, f.page_size());
    let w = window(m, f.offset(), f.page_size());
    assert(w.len() == rows_on_page(m.len() as int, f.offset(), f.page_size()));
    if ascending(rows) {
        let lo = if f.offset() < m.len() { f.offset() } else { m.len() as int };
        assert forall|i: int, j: int| 0 <= i < j < w.len() implies (#[trigger] w[i]).id < (
        #[trigger] w[j]).id by {
            assert(w[i] == m[lo + i] && w[j] == m[lo + j]);
        }
    }
}

/// Two pages that follow one another, read off the same rows, hold
/// strictly increasing identities when put end to end: no row appears on
/// both and none is out of order across the boundary.
pub proof fn lemma_sequential_pages_ascending(
    rows: Seq<CharacterRecord>,
    f: FilterView,
    g: FilterView,
)
    requires
        ascending(rows),
        f.wf(),
        g.wf(),
        f.level == g.level,
        f.stroke_count == g.stroke_count,
        f.search == g.search,
        f.page_size() == g.page_size(),
        g.page_number() == f.page_number() + 1,
    ensures
        ascending(page_of(rows, f) + page_of(rows, g)),
        page_of(rows, f) + page_of(rows, g) == window(matching(rows, f), f.offset(), 2 * f.page_size()),
{
    let m = matching(rows, f);
    lemma_matching_ignores_page(rows, f, g);
    lemma_matching_rows(rows, f);
    assert(g.offset() == f.offset() + f.page_size()) by (nonlinear_arith)
        requires
            g.page_number() == f.page_number() + 1,
            g.page_size() == f.page_size(),
            g.offset() == (g.page_number() - 1) * g.page_size(),
            f.offset() == (f.page_number() - 1) * f.page_size(),
    ;
    assert(f.offset() >= 0) by (nonlinear_arith)
        requires
            f.page_number() >= 1,
            f.page_size() >= 1,
            f.offset() == (f.page_number() - 1) * f.page_size(),
    ;
    let both = page_of(rows, f) + page_of(rows, g);
    let w = window(m, f.offset(), 2 * f.page_size());
    assert(both =~= w);
    let lo = if f.offset() < m.len() { f.offset() } else { m.len() as int };
    assert forall|i: int, j: int| 0 <= i < j < w.len() implies (#[trigger] w[i]).id < (
    #[trigger] w[j]).id by {
        assert(w[i] == m[lo + i] && w[j] == m[lo + j]);
    }
}

/// The identity that the next stored character receives: one more than
/// the greatest one in use, or 1 in an empty store.
pub open spec fn next_id(rows: Seq<CharacterRecord>) -> int {
    if rows.len() == 0 {
        1
    } else {
        rows.last().id + 1
    }
}

/// Mathematical content of an optional record.
pub open spec fn record_of(o: Option<HanziCharacter>) -> Option<CharacterRecord> {
    match o {
        Some(c) => Some(c@),
        None => None,
    }
}

/// Mathematical content of a list of records.
pub open spec fn records_of(v: Seq<HanziCharacter>) -> Seq<CharacterRecord> {
    v.map_values(|c: HanziCharacter| c@)
}

/// In ascending rows an identity names at most one row.
pub proof fn lemma_lookup_unique(rows: Seq<CharacterRecord>, i: int)
    requires
        ascending(rows),
        0 <= i < rows.len(),
    ensures
        lookup(rows, rows[i].id) == Some(rows[i]),
{
    let id = rows[i].id;
    let j = choose|j: int| 0 <= j < rows.len() && (#[trigger] rows[j]).id == id;
    if j < i {
        assert(rows[j].id < rows[i].id);
    }
    if i < j {
        assert(rows[i].id < rows[j].id);
    }
}

/// An in-memory record store: the system of record for characters, kept
/// in ascending order of identity.
pub struct RecordStore {
    rows: Vec<HanziCharacter>,
    online: bool,
}

impl View for RecordStore {
    type V = Seq<CharacterRecord>;

    closed spec fn view(&self) -> Seq<CharacterRecord> {
        records_of(self.rows@)
    }
}

impl RecordStore {
    /// The invariant of the store: identities strictly increase.
    pub closed spec fn wf(&self) -> bool {
        ascending(self@)
    }

    /// Whether the store answers at all.
    pub closed spec fn is_online(&self) -> bool {
        self.online
    }

    /// The invariant says that the rows are in ascending order.
    pub proof fn lemma_wf_ascending(&self)
        requires
            self.wf(),
        ensures
            ascending(self@),
    {
    }

    /// An empty store that is online.
    pub fn new() -> (r: RecordStore)
        ensures
            r@ == Seq::<CharacterRecord>::empty(),
            r.wf(),
            r.is_online(),
    {
        let r = RecordStore { rows: Vec::new(), online: true };
        assert(r@ =~= Seq::<CharacterRecord>::empty());
        r
    }

    /// Takes the store offline or brings it back; the rows stay.
    pub fn set_online(&mut self, online: bool)
        ensures
            final(self)@ == old(self)@,
            final(self).wf() == old(self).wf(),
            final(self).is_online() == online,
    {
        self.online = online;
    }

    /// Number of rows.
    pub fn len(&self) -> (r: usize)
        ensures
            r == self@.len(),
    {
        self.rows.len()
    }

    /// Stores a new character under the next identity and returns that
    /// identity; `None`, with the store unchanged, where no 32-bit
    /// identity is left. The cache is not touched.
    pub fn create(&mut self, new: NewHanziCharacter, created_at: Timestamp) -> (r: Option<i32>)
        requires
            old(self).wf(),
        ensures
            final(self).wf(),
            final(self).is_online() == old(self).is_online(),
            r is Some <==> next_id(old(self)@) <= i32::MAX,
            r matches Some(id) ==> id == next_id(old(self)@) && final(self)@ == old(self)@.push(
                CharacterRecord {
                    id,
                    character: new.character@,
                    pinyin: new.pinyin@,
                    meaning: new.meaning@,
                    stroke_count: new.stroke_count,
                    level: new.level,
                    created_at,
                },
            ),
            r is None ==> final(self)@ == old(self)@,
    {
        let n = self.rows.len();
        let id: i32 = if n == 0 {
            1
        } else {
            let last = self.rows[n - 1].id;
            assert(self@.last() == self.rows@[n - 1]@);
            if last == i32::MAX {
                return None;
            }
            last + 1
        };
        let record = new.into_record(id, created_at);
        let ghost before = self@;
        self.rows.push(record);
        proof {
            assert(self@ =~= before.push(record@));
            assert forall|i: int, j: int| 0 <= i < j < self@.len() implies (#[trigger] self@[i]).id
                < (#[trigger] self@[j]).id by {
                if j < n {
                    assert(self@[i] == before[i] && self@[j] == before[j]);
                } else {
                    assert(self@[i] == before[i]);
                    if i < n - 1 {
                        assert(before[i].id < before[n - 1].id);
                    }
                }
            }
        }
        Some(id)
    }

    /// Position of the row with identity `id`, if there is one.
    fn position(&self, id: i32) -> (r: Option<usize>)
        ensures
            match r {
                Some(i) => i < self@.len() && self@[i as int].id == id,
                None => forall|k: int| 0 <= k < self@.len() ==> (#[trigger] self@[k]).id != id,
            },
    {
        let n = self.rows.len();
        let mut i: usize = 0;
        while i < n
            invariant
                n == self.rows.len(),
                i <= n,
                forall|k: int| 0 <= k < i ==> (#[trigger] self@[k]).id != id,
            decreases n - i,
        {
            if self.rows[i].id == id {
                assert(self@[i as int] == self.rows@[i as int]@);
                return Some(i);
            }
            assert(self@[i as int] == self.rows@[i as int]@);
            i = i + 1;
        }
        None
    }

    /// Removes the character with identity `id`; tells whether there was
    /// one. The cache is not touched.
    pub fn delete(&mut self, id: i32) -> (r: bool)
        requires
            old(self).wf(),
        ensures
            final(self).wf(),
            final(self).is_online() == old(self).is_online(),
            r == (lookup(old(self)@, id) is Some),
            r ==> exists|i: int|
                0 <= i < old(self)@.len() && (#[trigger] old(self)@[i]).id == id && final(self)@
                    == old(self)@.remove(i),
            !r ==> final(self)@ == old(self)@,
            lookup(final(self)@, id) is None,
    {
        match self.position(id) {
            Some(i) => {
                let ghost before = self@;
                self.rows.remove(i);
                proof {
                    assert(self@ =~= before.remove(i as int));
                    assert forall|a: int, b: int| 0 <= a < b < self@.len() implies (
                    #[trigger] self@[a]).id < (#[trigger] self@[b]).id by {
                        let a0 = if a < i { a } else { a + 1 };
                        let b0 = if b < i { b } else { b + 1 };
                        assert(self@[a] == before[a0] && self@[b] == before[b0]);
                    }
                    assert forall|k: int| 0 <= k < self@.len() implies (#[trigger] self@[k]).id
                        != id by {
                        let k0 = if k < i { k } else { k + 1 };
                        assert(self@[k] == before[k0]);
                        if k0 < i {
                            assert(before[k0].id < before[i as int].id);
                        } else {
                            assert(before[i as int].id < before[k0].id);
                        }
                    }
                }
                true
            },
            None => false,
        }
    }

    /// Replaces the attributes of the character with identity `id`,
    /// keeping its identity and creation time; tells whether there was
    /// one. The cache is not touched.
    pub fn update(&mut self, id: i32, new: NewHanziCharacter) -> (r: bool)
        requires
            old(self).wf(),
        ensures
            final(self).wf(),
            final(self).is_online() == old(self).is_online(),
            r == (lookup(old(self)@, id) is Some),
            r ==> exists|i: int|
                0 <= i < old(self)@.len() && (#[trigger] old(self)@[i]).id == id && final(self)@
                    == old(self)@.update(
                    i,
                    CharacterRecord {
                        id,
                        character: new.character@,
                        pinyin: new.pinyin@,
                        meaning: new.meaning@,
                        stroke_count: new.stroke_count,
                        level: new.level,
                        created_at: old(self)@[i].created_at,
                    },
                ),
            !r ==> final(self)@ == old(self)@,
    {
        match self.position(id) {
            Some(i) => {
                let ghost before = self@;
                let created_at = self.rows[i].created_at;
                assert(before[i as int] == self.rows@[i as int]@);
                let record = new.into_record(id, created_at);
                self.rows.set(i, record);
                proof {
                    assert(self@ =~= before.update(i as int, record@));
                    assert forall|a: int, b: int| 0 <= a < b < self@.len() implies (
                    #[trigger] self@[a]).id < (#[trigger] self@[b]).id by {
                        assert(self@[a].id == before[a].id && self@[b].id == before[b].id);
                    }
                }
                true
            },
            None => false,
        }
    }

    /// Number of rows that pass the predicate of `f`.
    pub fn count(&self, f: &FilterSpec) -> (r: Result<i64, StoreError>)
        requires
            self.wf(),
        ensures
            r is Ok <==> self.is_online(),
            r matches Ok(total) ==> total == matching(self@, f@).len(),
            r matches Err(e) ==> e == StoreError::Unavailable,
    {
        if !self.online {
            return Err(StoreError::Unavailable);
        }
        let n = self.rows.len();
        let mut seen: usize = 0;
        let mut i: usize = 0;
        proof {
            lemma_matching_none(self@, f@);
        }
        while i < n
            invariant
                n == self.rows.len(),
                n == self@.len(),
                i <= n,
                seen <= i,
                seen == matching(self@.take(i as int), f@).len(),
            decreases n - i,
        {
            proof {
                lemma_matching_step(self@, f@, i as int);
                assert(self@[i as int] == self.rows@[i as int]@);
            }
            if f.admits(&self.rows[i]) {
                seen = seen + 1;
            }
            i = i + 1;
        }
        proof {
            assert(self@.take(n as int) =~= self@);
            lemma_ascending_len(self@);
        }
        Ok(seen as i64)
    }

    /// The rows of the page that `f` asks for, in ascending order of
    /// identity.
    pub fn fetch_page(&self, f: &FilterSpec) -> (r: Result<Vec<HanziCharacter>, StoreError>)
        requires
            self.wf(),
        ensures
            r is Ok <==> self.is_online(),
            r matches Ok(rows) ==> records_of(rows@) == page_of(self@, f@),
            r matches Err(e) ==> e == StoreError::Unavailable,
    {
        if !self.online {
            return Err(StoreError::Unavailable);
        }
        let offset = f.offset() as u64;
        let limit = f.limit() as u64;
        let n = self.rows.len();
        let mut out: Vec<HanziCharacter> = Vec::new();
        let mut seen: usize = 0;
        let mut i: usize = 0;
        proof {
            lemma_matching_none(self@, f@);
            assert(records_of(out@) =~= window(
                matching(self@.take(0), f@),
                offset as int,
                limit as int,
            ));
        }
        while i < n
            invariant
                n == self.rows.len(),
                n == self@.len(),
                i <= n,
                seen <= i,
                offset == f@.offset(),
                limit == f@.page_size(),
                limit >= 1,
                seen == matching(self@.take(i as int), f@).len(),
                records_of(out@) == window(
                    matching(self@.take(i as int), f@),
                    offset as int,
                    limit as int,
                ),
            decreases n - i,
        {
            proof {
                lemma_matching_step(self@, f@, i as int);
                assert(self@[i as int] == self.rows@[i as int]@);
            }
            if f.admits(&self.rows[i]) {
                if seen as u64 >= offset && (seen as u64) - offset < limit {
                    let ghost before = records_of(out@);
                    out.push(self.rows[i].duplicate());
                    proof {
                        assert(records_of(out@) =~= before.push(self@[i as int]));
                        assert(records_of(out@) =~= window(
                            matching(self@.take(i + 1), f@),
                            offset as int,
                            limit as int,
                        ));
                    }
                } else {
                    proof {
                        assert(records_of(out@) =~= window(
                            matching(self@.take(i + 1), f@),
                            offset as int,
                            limit as int,
                        ));
                    }
                }
                seen = seen + 1;
            }
            i = i + 1;
        }
        proof {
            assert(self@.take(n as int) =~= self@);
        }
        Ok(out)
    }

    /// The character with identity `id`, if the store holds one.
    pub fn fetch_by_id(&self, id: i32) -> (r: Result<Option<HanziCharacter>, StoreError>)
        requires
            self.wf(),
        ensures
            r is Ok <==> self.is_online(),
            r matches Ok(found) ==> record_of(found) == lookup(self@, id),
            r matches Err(e) ==> e == StoreError::Unavailable,
    {
        if !self.online {
            return Err(StoreError::Unavailable);
        }
        match self.position(id) {
            Some(i) => {
                proof {
                    lemma_lookup_unique(self@, i as int);
                    assert(self@[i as int] == self.rows@[i as int]@);
                }
                Ok(Some(self.rows[i].duplicate()))
            },
            None => Ok(None),
        }
    }

    /// The page that answers `f`: the count and the rows, read off the
    /// same rows with the same predicate.
    pub fn list(&self, f: &FilterSpec) -> (r: Result<PaginatedResponse<HanziCharacter>, StoreError>)
        requires
            self.wf(),
        ensures
            r is Ok <==> self.is_online(),
            r matches Ok(page) ==> page@ == listing(self@, f@),
            r matches Err(e) ==> e == StoreError::Unavailable,
    {
        let total = match self.count(f) {
            Ok(t) => t,
            Err(e) => {
                return Err(e);
            },
        };
        let data = match self.fetch_page(f) {
            Ok(d) => d,
            Err(e) => {
                return Err(e);
            },
        };
        let page = PaginatedResponse {
            data,
            page: f.page(),
            limit: f.limit(),
            total,
            total_pages: count_pages(total, f.limit()),
        };
        assert(page@.data =~= page_of(self@, f@));
        Ok(page)
    }
}

} // verus!
