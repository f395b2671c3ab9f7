//! Records and request shapes of the character endpoints.

use crate::clock::Timestamp;
use vstd::prelude::*;

verus! {

/// Page number used when a request names none.
pub const DEFAULT_PAGE: i64 = 1;

/// Page size used when a request names none.
pub const DEFAULT_LIMIT: i64 = 20;

/// One character of the dictionary, as the record store holds it.
#[derive(Debug)]
pub struct HanziCharacter {
    pub id: i32,
    pub character: String,
    pub pinyin: String,
    pub meaning: String,
    pub stroke_count: i32,
    pub level: i32,
    pub created_at: Timestamp,
}

/// Mathematical content of a character record.
pub struct CharacterRecord {
    pub id: i32,
    pub character: Seq<char>,
    pub pinyin: Seq<char>,
    pub meaning: Seq<char>,
    pub stroke_count: i32,
    pub level: i32,
    pub created_at: Timestamp,
}

impl View for HanziCharacter {
    type V = CharacterRecord;

    open spec fn view(&self) -> CharacterRecord {
        CharacterRecord {
            id: self.id,
            character: self.character@,
            pinyin: self.pinyin@,
            meaning: self.meaning@,
            stroke_count: self.stroke_count,
            level: self.level,
            created_at: self.created_at,
        }
    }
}

impl HanziCharacter {
    /// A copy of this record with the same content.
    pub fn duplicate(&self) -> (r: HanziCharacter)
        ensures
            r@ == self@,
    {
        HanziCharacter {
            id: self.id,
            character: self.character.clone(),
            pinyin: self.pinyin.clone(),
            meaning: self.meaning.clone(),
            stroke_count: self.stroke_count,
            level: self.level,
            created_at: self.created_at,
        }
    }
}

/// A character that is about to be stored: everything but the identity
/// and the creation time, which the record store assigns.
#[derive(Debug)]
pub struct NewHanziCharacter {
    pub character: String,
    pub pinyin: String,
    pub meaning: String,
    pub stroke_count: i32,
    pub level: i32,
}

impl NewHanziCharacter {
    /// The record this becomes once the store has given it `id` and the
    /// creation time `created_at`.
    pub fn into_record(self, id: i32, created_at: Timestamp) -> (r: HanziCharacter)
        ensures
            r@ == (CharacterRecord {
                id,
                character: self.character@,
                pinyin: self.pinyin@,
                meaning: self.meaning@,
                stroke_count: self.stroke_count,
                level: self.level,
                created_at,
            }),
    {
        HanziCharacter {
            id,
            character: self.character,
            pinyin: self.pinyin,
            meaning: self.meaning,
            stroke_count: self.stroke_count,
            level: self.level,
            created_at,
        }
    }
}

/// The pagination part of a request, as it arrives: either field may be
/// absent.
#[derive(Debug)]
pub struct PaginationQuery {
    pub page: Option<i64>,
    pub limit: Option<i64>,
}

impl Default for PaginationQuery {
    /// The first page with the default page size, both stated explicitly.
    fn default() -> (r: PaginationQuery)
        ensures
            r.page == Some(DEFAULT_PAGE),
            r.limit == Some(DEFAULT_LIMIT),
    {
        PaginationQuery { page: Some(DEFAULT_PAGE), limit: Some(DEFAULT_LIMIT) }
    }
}

/// The filters and pagination of a character listing, as they arrive.
#[derive(Debug)]
pub struct CharacterQuery {
    pub level: Option<i32>,
    pub stroke_count: Option<i32>,
    pub search: Option<String>,
    pub pagination: PaginationQuery,
}

/// Number of pages needed to show `total` rows, `limit` to a page.
pub open spec fn page_count(total: int, limit: int) -> int {
    (total + limit - 1) / limit
}

/// Number of rows on the page that starts at `offset`, when `total` rows
/// match and a page holds `limit`.
pub open spec fn rows_on_page(total: int, offset: int, limit: int) -> int {
    if offset >= total {
        0
    } else if total - offset < limit {
        total - offset
    } else {
        limit
    }
}

/// `page_count` is the ceiling of `total / limit`: the least number of
/// pages that holds every row.
pub proof fn lemma_page_count_is_ceiling(total: int, limit: int)
    requires
        total >= 0,
        limit >= 1,
    ensures
        page_count(total, limit) >= 0,
        page_count(total, limit) * limit >= total,
        (page_count(total, limit) - 1) * limit < total || total == 0,
        total % limit == 0 ==> page_count(total, limit) == total / limit,
        total % limit != 0 ==> page_count(total, limit) == total / limit + 1,
{
    let n = page_count(total, limit);
    let t = total + limit - 1;
    assert(t == limit * (t / limit) + t % limit && 0 <= t % limit < limit) by (nonlinear_arith)
        requires
            limit >= 1,
    ;
    assert(total == limit * (total / limit) + total % limit && 0 <= total % limit < limit)
        by (nonlinear_arith)
        requires
            limit >= 1,
    ;
    assert(n * limit == limit * n) by (nonlinear_arith);
    assert((n - 1) * limit == limit * n - limit) by (nonlinear_arith);
    assert(n >= 0) by (nonlinear_arith)
        requires
            t >= 0,
            limit >= 1,
            n == t / limit,
    ;
    let q = total / limit;
    let r = total % limit;
    if r == 0 {
        assert(n == q) by (nonlinear_arith)
            requires
                limit >= 1,
                total == limit * q,
                t == total + limit - 1,
                t == limit * n + t % limit,
                0 <= t % limit < limit,
        ;
    } else {
        assert(n == q + 1) by (nonlinear_arith)
            requires
                limit >= 1,
                total == limit * q + r,
                0 < r < limit,
                t == total + limit - 1,
                t == limit * n + t % limit,
                0 <= t % limit < limit,
        ;
    }
}

/// One page of a listing together with the totals it was cut from.
#[derive(Debug)]
pub struct PaginatedResponse<T> {
    pub data: Vec<T>,
    pub page: i64,
    pub limit: i64,
    pub total: i64,
    pub total_pages: i64,
}

/// Mathematical content of a page.
pub struct PageView<V> {
    pub data: Seq<V>,
    pub page: int,
    pub limit: int,
    pub total: int,
    pub total_pages: int,
}

impl<V> PageView<V> {
    /// The invariant of every page: positive page number and size, a
    /// non-negative total, the page count that follows from them, and no
    /// more rows than a page holds.
    pub open spec fn wf(&self) -> bool {
        &&& self.page >= 1
        &&& self.limit >= 1
        &&& self.total >= 0
        &&& self.total_pages == page_count(self.total, self.limit)
        &&& 0 <= self.data.len() <= self.limit
    }

    /// A page is exact when it holds just the rows that its own totals
    /// leave for it: none where the page starts at or past the total.
    pub open spec fn exact(&self) -> bool {
        &&& self.wf()
        &&& self.data.len() == rows_on_page(self.total, (self.page - 1) * self.limit, self.limit)
    }
}

impl<T: View> View for PaginatedResponse<T> {
    type V = PageView<T::V>;

    open spec fn view(&self) -> PageView<T::V> {
        PageView {
            data: self.data@.map_values(|t: T| t@),
            page: self.page as int,
            limit: self.limit as int,
            total: self.total as int,
            total_pages: self.total_pages as int,
        }
    }
}

/// Computes the number of pages for `total` rows, `limit` to a page.
pub fn count_pages(total: i64, limit: i64) -> (r: i64)
    requires
        total >= 0,
        limit >= 1,
    ensures
        r == page_count(total as int, limit as int),
{
    proof {
        lemma_page_count_is_ceiling(total as int, limit as int);
    }
    let q = total / limit;
    if total % limit == 0 {
        q
    } else {
        assert(q + 1 <= i64::MAX) by (nonlinear_arith)
            requires
                q == (total as int) / (limit as int),
                (total as int) % (limit as int) != 0,
                0 <= total <= i64::MAX,
                limit >= 1,
        ;
        q + 1
    }
}

impl PaginatedResponse<HanziCharacter> {
    /// A copy of this page with the same content.
    pub fn duplicate(&self) -> (r: PaginatedResponse<HanziCharacter>)
        ensures
            r@ == self@,
    {
        let mut data: Vec<HanziCharacter> = Vec::new();
        let mut i: usize = 0;
        while i < self.data.len()
            invariant
                i <= self.data.len(),
                data.len() == i,
                forall|k: int| 0 <= k < i ==> data@[k]@ == self.data@[k]@,
            decreases self.data.len() - i,
        {
            data.push(self.data[i].duplicate());
            i = i + 1;
        }
        let r = PaginatedResponse {
            data,
            page: self.page,
            limit: self.limit,
            total: self.total,
            total_pages: self.total_pages,
        };
        assert(r@.data =~= self@.data);
        r
    }
}

} // verus!
