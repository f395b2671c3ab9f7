//! The query planner: from the request as it arrives to a validated
//! filter specification, the predicate it stands for and the bounded,
//! ordered store query that answers it. The specification keeps every
//! field as it was stated, so that the cache key can tell an absent
//! field from one that states the default; the planner works on the
//! page number and page size that the fields resolve to.

use crate::characters::model::{CharacterQuery, CharacterRecord, HanziCharacter, DEFAULT_LIMIT, DEFAULT_PAGE};
use crate::errors::api::ApiError;
use crate::characters::pattern::{
    lemma_like_pattern_means_contains, like_matches, like_pattern, like_pattern_for,
};
use crate::text::{contains_text, text_contains};
use vstd::prelude::*;

verus! {

/// Mathematical content of a filter specification: the five fields of a
/// request, each absent or present. Two filter specifications are equal
/// exactly when all five agree; an absent page and a page stated as 1
/// are two different specifications that ask for the same rows.
pub struct FilterView {
    pub level: Option<i32>,
    pub stroke_count: Option<i32>,
    pub search: Option<Seq<char>>,
    pub page: Option<i64>,
    pub limit: Option<i64>,
}

impl FilterView {
    /// The page that is asked for: the stated one, or the first.
    pub open spec fn page_number(&self) -> int {
        match self.page {
            Some(p) => p as int,
            None => DEFAULT_PAGE as int,
        }
    }

    /// The page size that is asked for: the stated one, or 20.
    pub open spec fn page_size(&self) -> int {
        match self.limit {
            Some(l) => l as int,
            None => DEFAULT_LIMIT as int,
        }
    }

    /// Number of matching rows that precede the requested page.
    pub open spec fn offset(&self) -> int {
        (self.page_number() - 1) * self.page_size()
    }

    /// Page number and page size are at least 1 and the offset fits in 64
    /// bits.
    pub open spec fn wf(&self) -> bool {
        &&& 1 <= self.page_number()
        &&& 1 <= self.page_size()
        &&& self.offset() <= i64::MAX
    }

    /// The predicate: a row passes when its level is at least the
    /// requested one, its stroke count equals the requested one, and the
    /// search text occurs in its character, its pinyin or its meaning.
    /// An absent filter lets every row pass.
    pub open spec fn admits(&self, c: CharacterRecord) -> bool {
        &&& (self.level matches Some(l) ==> c.level >= l)
        &&& (self.stroke_count matches Some(s) ==> c.stroke_count == s)
        &&& (self.search matches Some(q) ==> contains_text(c.character, q) || contains_text(
            c.pinyin,
            q,
        ) || contains_text(c.meaning, q))
    }
}

/// What the store query for `f` selects: rows whose level is at least
/// the requested one, whose stroke count equals the requested one, and
/// of which the character, the pinyin or the meaning matches the `LIKE`
/// pattern for the search text.
pub open spec fn plan_selects(f: FilterView, c: CharacterRecord) -> bool {
    &&& (f.level matches Some(l) ==> c.level >= l)
    &&& (f.stroke_count matches Some(s) ==> c.stroke_count == s)
    &&& (f.search matches Some(q) ==> like_matches(like_pattern(q), c.character) || like_matches(
        like_pattern(q),
        c.pinyin,
    ) || like_matches(like_pattern(q), c.meaning))
}

/// The store query selects exactly the rows that the predicate admits.
pub proof fn lemma_plan_selects_admitted(f: FilterView, c: CharacterRecord)
    ensures
        plan_selects(f, c) == f.admits(c),
{
    if let Some(q) = f.search {
        lemma_like_pattern_means_contains(q, c.character);
        lemma_like_pattern_means_contains(q, c.pinyin);
        lemma_like_pattern_means_contains(q, c.meaning);
    }
}

/// The filter specification that a query asks for, field by field as
/// it arrived.
pub open spec fn requested_filter(q: &CharacterQuery) -> FilterView {
    FilterView {
        level: q.level,
        stroke_count: q.stroke_count,
        search: match q.search {
            Some(s) => Some(s@),
            None => None,
        },
        page: q.pagination.page,
        limit: q.pagination.limit,
    }
}

/// The message that explains why a query was turned down.
pub open spec fn rejection_reason(q: &CharacterQuery) -> Seq<char> {
    if requested_filter(q).page_number() < 1 {
        "page must be at least 1"@
    } else if requested_filter(q).page_size() < 1 {
        "limit must be at least 1"@
    } else {
        "page is out of range"@
    }
}

/// A validated filter specification: the five fields as they arrived,
/// together with the page number, page size and offset that they
/// resolve to.
#[derive(Debug)]
pub struct FilterSpec {
    level: Option<i32>,
    stroke_count: Option<i32>,
    search: Option<String>,
    requested_page: Option<i64>,
    requested_limit: Option<i64>,
    page: i64,
    limit: i64,
    offset: i64,
}

/// The bounded, ordered store query that answers a filter specification.
/// Rows are always taken in ascending order of id; the count query uses
/// the same three predicates without offset and limit.
#[derive(Debug)]
pub struct QueryPlan {
    /// Keep rows whose level is at least this.
    pub min_level: Option<i32>,
    /// Keep rows with exactly this stroke count.
    pub stroke_count: Option<i32>,
    /// Keep rows in which this text occurs in the character, the pinyin
    /// or the meaning.
    pub search: Option<String>,
    /// Matching rows to skip.
    pub offset: i64,
    /// Matching rows to take at most.
    pub limit: i64,
}

impl QueryPlan {
    /// The `LIKE` pattern, with backslash as the escape character, for
    /// the search text, if there is one: it matches the texts in which
    /// the search text occurs, every character taken literally.
    pub fn like_pattern(&self) -> (r: Option<String>)
        ensures
            match self.search {
                Some(s) => r matches Some(p) && p@ == like_pattern(s@),
                None => r is None,
            },
    {
        match &self.search {
            Some(s) => Some(like_pattern_for(s.as_str())),
            None => None,
        }
    }
}

impl View for FilterSpec {
    type V = FilterView;

    closed spec fn view(&self) -> FilterView {
        FilterView {
            level: self.level,
            stroke_count: self.stroke_count,
            search: match self.search {
                Some(s) => Some(s@),
                None => None,
            },
            page: self.requested_page,
            limit: self.requested_limit,
        }
    }
}

impl FilterSpec {
    #[verifier::type_invariant]
    spec fn inv(&self) -> bool {
        &&& self@.wf()
        &&& self.page == self@.page_number()
        &&& self.limit == self@.page_size()
        &&& self.offset == self@.offset()
    }

    /// The requested minimum level, if any.
    pub fn level(&self) -> (r: Option<i32>)
        ensures
            r == self@.level,
    {
        self.level
    }

    /// The requested stroke count, if any.
    pub fn stroke_count(&self) -> (r: Option<i32>)
        ensures
            r == self@.stroke_count,
    {
        self.stroke_count
    }

    /// The search text, if any.
    pub fn search(&self) -> (r: Option<&String>)
        ensures
            match r {
                Some(s) => self@.search == Some(s@),
                None => self@.search is None,
            },
    {
        match &self.search {
            Some(s) => Some(s),
            None => None,
        }
    }

    /// The page as it was stated, if it was.
    pub fn requested_page(&self) -> (r: Option<i64>)
        ensures
            r == self@.page,
    {
        self.requested_page
    }

    /// The page size as it was stated, if it was.
    pub fn requested_limit(&self) -> (r: Option<i64>)
        ensures
            r == self@.limit,
    {
        self.requested_limit
    }

    /// The page number, at least 1.
    pub fn page(&self) -> (r: i64)
        ensures
            r == self@.page_number(),
            r >= 1,
    {
        proof {
            use_type_invariant(self);
        }
        self.page
    }

    /// The page size, at least 1.
    pub fn limit(&self) -> (r: i64)
        ensures
            r == self@.page_size(),
            r >= 1,
    {
        proof {
            use_type_invariant(self);
        }
        self.limit
    }

    /// Number of matching rows that precede the page: `(page - 1) * limit`.
    pub fn offset(&self) -> (r: i64)
        ensures
            r == self@.offset(),
            r >= 0,
            self@.wf(),
    {
        proof {
            use_type_invariant(self);
            assert((self.page - 1) * self.limit >= 0) by (nonlinear_arith)
                requires
                    self.page >= 1,
                    self.limit >= 1,
            ;
        }
        self.offset
    }

    /// Whether a row passes the predicate.
    pub fn admits(&self, c: &HanziCharacter) -> (r: bool)
        ensures
            r == self@.admits(c@),
    {
        if let Some(l) = self.level {
            if c.level < l {
                return false;
            }
        }
        if let Some(s) = self.stroke_count {
            if c.stroke_count != s {
                return false;
            }
        }
        match &self.search {
            Some(q) => {
                text_contains(c.character.as_str(), q.as_str()) || text_contains(
                    c.pinyin.as_str(),
                    q.as_str(),
                ) || text_contains(c.meaning.as_str(), q.as_str())
            },
            None => true,
        }
    }

    /// The store query for this specification.
    pub fn plan(&self) -> (r: QueryPlan)
        ensures
            r.min_level == self@.level,
            r.stroke_count == self@.stroke_count,
            match r.search {
                Some(s) => self@.search == Some(s@),
                None => self@.search is None,
            },
            r.offset == self@.offset(),
            r.limit == self@.page_size(),
            r.offset >= 0,
            r.limit >= 1,
    {
        proof {
            use_type_invariant(self);
            assert((self.page - 1) * self.limit >= 0) by (nonlinear_arith)
                requires
                    self.page >= 1,
                    self.limit >= 1,
            ;
        }
        QueryPlan {
            min_level: self.level,
            stroke_count: self.stroke_count,
            search: match &self.search {
                Some(s) => Some(s.clone()),
                None => None,
            },
            offset: self.offset,
            limit: self.limit,
        }
    }
}

impl CharacterQuery {
    /// Validates the query and resolves its pagination. Page and page
    /// size default to 1 and 20. A page below 1, a page size below 1 or
    /// an offset that does not fit in 64 bits is a validation failure; no
    /// other upper bound is put on either number.
    pub fn filter_spec(&self) -> (r: Result<FilterSpec, ApiError>)
        ensures
            r is Ok <==> requested_filter(self).wf(),
            r matches Ok(f) ==> f@ == requested_filter(self),
            r matches Err(e) ==> (e matches ApiError::ValidationError { message } && message@
                == rejection_reason(self)),
    {
        let page = match self.pagination.page {
            Some(p) => p,
            None => DEFAULT_PAGE,
        };
        let limit = match self.pagination.limit {
            Some(l) => l,
            None => DEFAULT_LIMIT,
        };
        if page < 1 {
            return Err(
                ApiError::ValidationError { message: "page must be at least 1".to_string() },
            );
        }
        if limit < 1 {
            return Err(
                ApiError::ValidationError { message: "limit must be at least 1".to_string() },
            );
        }
        match (page - 1).checked_mul(limit) {
            Some(offset) => {
                let f = FilterSpec {
                    level: self.level,
                    stroke_count: self.stroke_count,
                    search: match &self.search {
                        Some(s) => Some(s.clone()),
                        None => None,
                    },
                    requested_page: self.pagination.page,
                    requested_limit: self.pagination.limit,
                    page,
                    limit,
                    offset,
                };
                assert(f@ == requested_filter(self));
                Ok(f)
            },
            None => {
                assert((page - 1) * limit >= 0) by (nonlinear_arith)
                    requires
                        page >= 1,
                        limit >= 1,
                ;
                Err(ApiError::ValidationError { message: "page is out of range".to_string() })
            },
        }
    }
}

} // verus!
