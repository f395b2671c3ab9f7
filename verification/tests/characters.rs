use dushulang::characters::cache::{CacheLayer, CacheRead, CACHE_TTL_SECS};
use dushulang::characters::filter::FilterSpec;
use dushulang::characters::handlers::{
    assemble_page, get_character_by_id_handler, get_character_from_db, get_characters_from_db,
    get_characters_handler,
};
use dushulang::characters::key::{cache_key_for_entity, cache_key_for_list};
use dushulang::characters::model::{
    count_pages, CharacterQuery, HanziCharacter, NewHanziCharacter, PaginatedResponse,
    PaginationQuery,
};
use dushulang::characters::orchestrator::{CachedValue, Orchestrator, ReadFailure};
use dushulang::characters::read_path::{
    step, CacheReply, ReadAction, ReadEvent, ReadOutcome, ReadState, StoreReply,
};
use dushulang::characters::store::{RecordStore, StoreError};
use dushulang::clock::Timestamp;
use dushulang::errors::api::ApiError;

fn new_char(character: &str, pinyin: &str, meaning: &str, strokes: i32, level: i32) -> NewHanziCharacter {
    NewHanziCharacter {
        character: character.to_string(),
        pinyin: pinyin.to_string(),
        meaning: meaning.to_string(),
        stroke_count: strokes,
        level,
    }
}

fn store_with(n: i32) -> RecordStore {
    let mut store = RecordStore::new();
    for i in 1..=n {
        let id = store.create(
            new_char(&format!("c{}", i), &format!("p{}", i), &format!("m{}", i), i % 7, i % 5),
            Timestamp::from_secs(1_000 + i as i64),
        );
        assert_eq!(id, Some(i));
    }
    store
}

fn query(level: Option<i32>, strokes: Option<i32>, search: Option<&str>, page: Option<i64>, limit: Option<i64>) -> CharacterQuery {
    CharacterQuery {
        level,
        stroke_count: strokes,
        search: search.map(|s| s.to_string()),
        pagination: PaginationQuery { page, limit },
    }
}

fn spec_of(q: &CharacterQuery) -> FilterSpec {
    q.filter_spec().expect("valid query")
}

fn ids(page: &PaginatedResponse<HanziCharacter>) -> Vec<i32> {
    page.data.iter().map(|c| c.id).collect()
}

fn system(n: i32) -> Orchestrator {
    Orchestrator::new(store_with(n), CacheLayer::new())
}

#[test]
fn third_page_of_twenty_five_holds_the_last_five() {
    let mut sys = system(25);
    let page = sys.fetch_list(&query(None, None, None, Some(3), Some(10)), 5_000).unwrap();
    assert_eq!(ids(&page), vec![21, 22, 23, 24, 25]);
    assert_eq!(page.total, 25);
    assert_eq!(page.total_pages, 3);
    assert_eq!(page.page, 3);
    assert_eq!(page.limit, 10);
}

#[test]
fn absent_identity_is_not_found_with_404_envelope() {
    let mut sys = system(25);
    assert!(matches!(sys.fetch_by_id(999, 10), Err(ReadFailure::NotFound)));
    let reply = get_character_by_id_handler(999, &mut sys, Timestamp::from_secs(10));
    assert_eq!(reply.status, 404);
    assert!(!reply.body.success);
    assert!(reply.body.data.is_none());
    assert_eq!(reply.body.error.as_deref(), Some("Character not found"));
    assert_eq!(reply.body.timestamp, Timestamp::from_secs(10));
}

#[test]
fn absent_identity_is_never_cached() {
    let mut sys = system(3);
    assert!(sys.fetch_by_id(999, 10).is_err());
    assert!(matches!(sys.cache.get(&cache_key_for_entity(999), 10), CacheRead::Miss));
}

#[test]
fn search_matches_a_row_by_meaning_alone() {
    let mut store = RecordStore::new();
    store.create(new_char("龙", "long", "dragon", 5, 1), Timestamp::from_secs(1));
    store.create(new_char("辰", "chen", "the sign of 龙", 7, 2), Timestamp::from_secs(2));
    store.create(new_char("水", "shui", "water", 4, 1), Timestamp::from_secs(3));
    store.create(new_char("山", "龙shan", "mountain", 3, 1), Timestamp::from_secs(4));
    let mut sys = Orchestrator::new(store, CacheLayer::new());
    let page = sys.fetch_list(&query(None, None, Some("龙"), None, None), 0).unwrap();
    assert_eq!(ids(&page), vec![1, 2, 4]);
    assert_eq!(page.total, 3);
}

#[test]
fn search_takes_percent_and_underscore_literally() {
    let mut store = RecordStore::new();
    store.create(new_char("a", "b", "100% sure", 1, 1), Timestamp::from_secs(1));
    store.create(new_char("a", "b", "snake_case", 1, 1), Timestamp::from_secs(2));
    store.create(new_char("a", "b", "plain", 1, 1), Timestamp::from_secs(3));
    let f = spec_of(&query(None, None, Some("%"), None, None));
    assert_eq!(store.count(&f), Ok(1));
    let f = spec_of(&query(None, None, Some("_"), None, None));
    assert_eq!(store.count(&f), Ok(1));
    let f = spec_of(&query(None, None, Some(""), None, None));
    assert_eq!(store.count(&f), Ok(3));
}

#[test]
fn level_is_a_lower_bound_and_stroke_count_is_exact() {
    let mut store = RecordStore::new();
    for (strokes, level) in [(3, 1), (3, 2), (4, 2), (3, 3), (5, 4)] {
        store.create(new_char("x", "y", "z", strokes, level), Timestamp::from_secs(0));
    }
    let f = spec_of(&query(Some(2), None, None, None, None));
    assert_eq!(store.count(&f), Ok(4));
    let f = spec_of(&query(None, Some(3), None, None, None));
    assert_eq!(store.count(&f), Ok(3));
    let f = spec_of(&query(Some(2), Some(3), None, None, None));
    let rows = store.fetch_page(&f).unwrap();
    assert_eq!(rows.iter().map(|c| c.id).collect::<Vec<_>>(), vec![2, 4]);
}

#[test]
fn defaults_are_first_page_of_twenty() {
    let f = spec_of(&query(None, None, None, None, None));
    assert_eq!(f.page(), 1);
    assert_eq!(f.limit(), 20);
    assert_eq!(f.offset(), 0);
    let d = PaginationQuery::default();
    assert_eq!(d.page, Some(1));
    assert_eq!(d.limit, Some(20));
    let mut sys = system(25);
    let page = sys.fetch_list(&query(None, None, None, None, None), 0).unwrap();
    assert_eq!(page.data.len(), 20);
    assert_eq!(page.total_pages, 2);
}

#[test]
fn offset_is_page_minus_one_times_limit() {
    let f = spec_of(&query(None, None, None, Some(7), Some(13)));
    assert_eq!(f.offset(), 78);
    let plan = f.plan();
    assert_eq!(plan.offset, 78);
    assert_eq!(plan.limit, 13);
    assert_eq!(plan.min_level, None);
    assert_eq!(plan.stroke_count, None);
    assert_eq!(plan.search, None);
    let f = spec_of(&query(Some(2), Some(9), Some("ma"), Some(1), Some(5)));
    let plan = f.plan();
    assert_eq!(plan.min_level, Some(2));
    assert_eq!(plan.stroke_count, Some(9));
    assert_eq!(plan.search.as_deref(), Some("ma"));
    assert_eq!(plan.offset, 0);
}

#[test]
fn malformed_pagination_is_a_validation_failure() {
    let cases: [(Option<i64>, Option<i64>, &str); 5] = [
        (Some(0), None, "page must be at least 1"),
        (Some(-3), Some(10), "page must be at least 1"),
        (None, Some(0), "limit must be at least 1"),
        (Some(2), Some(-1), "limit must be at least 1"),
        (Some(i64::MAX), Some(i64::MAX), "page is out of range"),
    ];
    for (page, limit, reason) in cases {
        match query(None, None, None, page, limit).filter_spec() {
            Err(ApiError::ValidationError { message }) => assert_eq!(message, reason),
            other => panic!("expected a validation failure, got {:?}", other.map(|_| ())),
        }
    }
    assert!(query(None, None, None, Some(i64::MAX), Some(1)).filter_spec().is_ok());
    assert!(query(None, None, None, Some(1), Some(i64::MAX)).filter_spec().is_ok());
}

#[test]
fn invalid_query_is_answered_with_400_and_touches_nothing() {
    let mut sys = system(5);
    let reply = get_characters_handler(&query(None, None, None, Some(0), None), &mut sys, Timestamp::from_secs(9));
    assert_eq!(reply.status, 400);
    assert!(!reply.body.success);
    assert_eq!(reply.body.error.as_deref(), Some("page must be at least 1"));
    assert!(matches!(
        sys.fetch_list(&query(None, None, None, None, Some(0)), 9),
        Err(ReadFailure::Validation(_))
    ));
}

#[test]
fn page_count_is_the_ceiling_of_total_over_limit() {
    assert_eq!(count_pages(0, 10), 0);
    assert_eq!(count_pages(1, 10), 1);
    assert_eq!(count_pages(10, 10), 1);
    assert_eq!(count_pages(11, 10), 2);
    assert_eq!(count_pages(25, 10), 3);
    assert_eq!(count_pages(i64::MAX, 1), i64::MAX);
    assert_eq!(count_pages(i64::MAX, i64::MAX), 1);
    assert_eq!(count_pages(i64::MAX, 2), i64::MAX / 2 + 1);
    for total in 0..40i64 {
        for limit in 1..9i64 {
            let mut sys = system(total as i32);
            let page = sys.fetch_list(&query(None, None, None, Some(2), Some(limit)), 0).unwrap();
            assert_eq!(page.total, total);
            assert_eq!(page.total_pages, (total + limit - 1) / limit);
            assert!(page.data.len() as i64 <= limit);
        }
    }
}

#[test]
fn page_past_the_end_is_empty_and_no_error() {
    let mut sys = system(25);
    let page = sys.fetch_list(&query(None, None, None, Some(4), Some(10)), 0).unwrap();
    assert!(page.data.is_empty());
    assert_eq!(page.page, 4);
    assert_eq!(page.total, 25);
    assert_eq!(page.total_pages, 3);
    let page = sys.fetch_list(&query(None, None, None, Some(i64::MAX), Some(1)), 0).unwrap();
    assert!(page.data.is_empty());
    assert_eq!(page.page, i64::MAX);
    let reply = get_characters_handler(&query(None, None, None, Some(100), Some(10)), &mut sys, Timestamp::from_secs(1));
    assert_eq!(reply.status, 200);
    assert!(reply.body.success);
}

#[test]
fn sequential_pages_have_strictly_increasing_ids() {
    let mut sys = system(25);
    sys.store.delete(4);
    sys.store.delete(13);
    let first = sys.fetch_list(&query(Some(1), None, None, Some(1), Some(10)), 0).unwrap();
    let second = sys.fetch_list(&query(Some(1), None, None, Some(2), Some(10)), 0).unwrap();
    let mut all = ids(&first);
    all.extend(ids(&second));
    assert!(!all.is_empty());
    assert!(all.windows(2).all(|w| w[0] < w[1]));
    assert_eq!(first.data.len(), 10);
}

#[test]
fn repeated_read_within_ttl_returns_the_first_payload() {
    let mut sys = system(25);
    let q = query(None, None, None, Some(3), Some(10));
    let first = sys.fetch_list(&q, 1_000).unwrap();
    sys.store.delete(21);
    sys.store.create(new_char("new", "n", "n", 1, 1), Timestamp::from_secs(1_001));
    sys.store.update(22, new_char("changed", "c", "c", 9, 9));
    let again = sys.fetch_list(&q, 1_000 + CACHE_TTL_SECS - 1).unwrap();
    assert_eq!(ids(&again), ids(&first));
    assert_eq!(again.total, 25);
    assert_eq!(again.data[1].character, "c22");
    sys.store.set_online(false);
    let offline = sys.fetch_list(&q, 1_500).unwrap();
    assert_eq!(ids(&offline), vec![21, 22, 23, 24, 25]);
    sys.store.set_online(true);
    let fresh = sys.fetch_list(&q, 1_000 + CACHE_TTL_SECS).unwrap();
    assert_eq!(ids(&fresh), vec![22, 23, 24, 25, 26]);
    assert_eq!(fresh.data[0].character, "changed");
    let other_page = sys.fetch_list(&query(None, None, None, Some(1), Some(10)), 1_001).unwrap();
    assert_eq!(other_page.total, 25);
}

#[test]
fn repeated_lookup_within_ttl_returns_the_first_payload() {
    let mut sys = system(5);
    let first = sys.fetch_by_id(3, 100).unwrap();
    assert_eq!(first.character, "c3");
    sys.store.update(3, new_char("changed", "c", "c", 9, 9));
    assert_eq!(sys.fetch_by_id(3, 100 + CACHE_TTL_SECS - 1).unwrap().character, "c3");
    assert_eq!(sys.fetch_by_id(3, 100 + CACHE_TTL_SECS).unwrap().character, "changed");
    sys.store.delete(3);
    assert_eq!(sys.fetch_by_id(3, 101 + CACHE_TTL_SECS).unwrap().character, "changed");
    assert!(matches!(sys.fetch_by_id(3, 100 + 3 * CACHE_TTL_SECS), Err(ReadFailure::NotFound)));
}

#[test]
fn cache_outage_is_invisible_to_the_caller() {
    let mut sys = system(25);
    sys.cache.set_available(false);
    let q = query(None, None, None, Some(3), Some(10));
    let page = sys.fetch_list(&q, 0).unwrap();
    assert_eq!(ids(&page), vec![21, 22, 23, 24, 25]);
    sys.store.delete(25);
    let page = sys.fetch_list(&q, 1).unwrap();
    assert_eq!(ids(&page), vec![21, 22, 23, 24]);
    assert_eq!(sys.fetch_by_id(7, 0).unwrap().id, 7);
    let reply = get_characters_handler(&q, &mut sys, Timestamp::from_secs(2));
    assert_eq!(reply.status, 200);
    assert!(reply.body.error.is_none());
    sys.cache.set_available(true);
    assert!(matches!(sys.cache.get(&cache_key_for_list(&spec_of(&q)), 2), CacheRead::Miss));
}

#[test]
fn store_failure_is_propagated_with_a_fixed_phrase() {
    let mut sys = system(5);
    sys.store.set_online(false);
    let q = query(None, None, None, None, None);
    assert!(matches!(sys.fetch_list(&q, 0), Err(ReadFailure::Store(StoreError::Unavailable))));
    assert!(matches!(sys.fetch_by_id(1, 0), Err(ReadFailure::Store(StoreError::Unavailable))));
    let reply = get_characters_handler(&q, &mut sys, Timestamp::from_secs(0));
    assert_eq!(reply.status, 500);
    assert_eq!(reply.body.error.as_deref(), Some("Failed to get database connection"));
    let reply = get_character_by_id_handler(1, &mut sys, Timestamp::from_secs(0));
    assert_eq!(reply.status, 500);
    assert_eq!(reply.body.error.as_deref(), Some("Failed to get database connection"));
    let reply = get_characters_from_db(&spec_of(&q), &sys.store, Timestamp::from_secs(0));
    assert_eq!(reply.status, 500);
    let reply = get_character_from_db(1, &sys.store, Timestamp::from_secs(0));
    assert_eq!(reply.status, 500);
    assert!(matches!(
        ReadFailure::Store(StoreError::CountFailed).into_api_error(),
        ApiError::DatabaseError(d) if d == "Failed to count characters"
    ));
    assert_eq!(StoreError::FetchFailed.describe(), "Failed to fetch characters");
}

#[test]
fn store_alone_answers_like_a_read_without_cache() {
    let store = store_with(12);
    let f = spec_of(&query(None, None, None, Some(2), Some(5)));
    let reply = get_characters_from_db(&f, &store, Timestamp::from_secs(3));
    assert_eq!(reply.status, 200);
    let page = reply.body.data.unwrap();
    assert_eq!(ids(&page), vec![6, 7, 8, 9, 10]);
    assert_eq!(page.total_pages, 3);
    let reply = get_character_from_db(12, &store, Timestamp::from_secs(3));
    assert_eq!(reply.status, 200);
    assert_eq!(reply.body.data.unwrap().pinyin, "p12");
    let reply = get_character_from_db(13, &store, Timestamp::from_secs(3));
    assert_eq!(reply.status, 404);
}

#[test]
fn list_keys_tell_absent_from_present() {
    let key = |q: CharacterQuery| cache_key_for_list(&spec_of(&q));
    assert_eq!(
        key(query(None, None, None, None, None)),
        "characters:level:None:stroke:None:page:None:limit:None:search:None"
    );
    assert_eq!(
        key(query(None, None, None, Some(1), Some(20))),
        "characters:level:None:stroke:None:page:Some(1):limit:Some(20):search:None"
    );
    assert_eq!(
        key(query(Some(-2), Some(11), Some("ma:1"), Some(3), Some(10))),
        "characters:level:Some(-2):stroke:Some(11):page:Some(3):limit:Some(10):search:Some(ma:1)"
    );
    let all = [
        key(query(None, None, None, None, None)),
        key(query(Some(0), None, None, None, None)),
        key(query(None, Some(0), None, None, None)),
        key(query(None, None, Some(""), None, None)),
        key(query(None, None, Some("None"), None, None)),
        key(query(None, None, None, Some(2), None)),
        key(query(None, None, None, None, Some(2))),
        key(query(None, None, None, Some(2), Some(10))),
        key(query(None, None, None, Some(21), Some(0 + 1))),
        key(query(Some(1), Some(2), None, None, None)),
        key(query(Some(12), None, None, None, None)),
        key(query(None, None, Some(":page:2"), None, None)),
        key(query(None, None, None, Some(1), Some(20))),
        key(query(None, None, None, Some(1), None)),
        key(query(None, None, None, None, Some(20))),
        key(query(None, None, Some("None):page:Some(1"), None, None)),
        key(query(None, None, Some(":page:Some(1):limit:Some(20):search:None"), None, None)),
    ];
    for i in 0..all.len() {
        for j in 0..all.len() {
            assert_eq!(i == j, all[i] == all[j], "{} vs {}", all[i], all[j]);
        }
    }
    assert_ne!(
        key(query(None, None, None, Some(1), Some(20))),
        key(query(None, None, None, None, None))
    );
    assert_eq!(cache_key_for_entity(42), "character:42");
    assert_eq!(cache_key_for_entity(-7), "character:-7");
    assert_eq!(cache_key_for_entity(i32::MIN), "character:-2147483648");
    assert_eq!(cache_key_for_entity(0), "character:0");
}

#[test]
fn cache_entries_expire_and_are_overwritten() {
    let mut cache: CacheLayer<i32> = CacheLayer::new();
    assert!(matches!(cache.get("k", 0), CacheRead::Miss));
    assert!(cache.set_with_ttl("k", 1, 10, 100));
    assert!(matches!(cache.get("k", 100), CacheRead::Hit(&1)));
    assert!(matches!(cache.get("k", 109), CacheRead::Hit(&1)));
    assert!(matches!(cache.get("k", 110), CacheRead::Miss));
    assert!(matches!(cache.get("other", 100), CacheRead::Miss));
    assert!(cache.set_with_ttl("k", 2, 10, 105));
    assert!(matches!(cache.get("k", 112), CacheRead::Hit(&2)));
    assert!(cache.set_with_ttl("j", 3, 10, i64::MAX - 1));
    assert!(matches!(cache.get("j", i64::MAX - 1), CacheRead::Hit(&3)));
    cache.set_available(false);
    assert!(matches!(cache.get("k", 106), CacheRead::Unavailable));
    assert!(!cache.set_with_ttl("k", 9, 10, 106));
    cache.set_available(true);
    assert!(matches!(cache.get("k", 106), CacheRead::Hit(&2)));
}

#[test]
fn unusable_cache_entries_count_as_misses() {
    let mut sys = system(25);
    let q = query(None, None, None, Some(3), Some(10));
    let key = cache_key_for_list(&spec_of(&q));
    let wrong_shape = sys.store.fetch_by_id(1).unwrap().unwrap();
    sys.cache.set_with_ttl(&key, CachedValue::Character(wrong_shape), 1_000, 0);
    assert_eq!(ids(&sys.fetch_list(&q, 1).unwrap()), vec![21, 22, 23, 24, 25]);
    let broken = PaginatedResponse { data: Vec::new(), page: 3, limit: 10, total: 25, total_pages: 7 };
    sys.cache.set_with_ttl(&key, CachedValue::Page(broken), 1_000, 2);
    let page = sys.fetch_list(&q, 3).unwrap();
    assert_eq!(page.total_pages, 3);
    assert_eq!(page.data.len(), 5);
}

#[test]
fn read_path_asks_cache_then_store_then_responds() {
    let (s, a) = step::<u8>(ReadState::Start, ReadEvent::Begin);
    assert_eq!(s, ReadState::CacheAsked);
    assert!(matches!(a, ReadAction::AskCache));
    let (s, a) = step(ReadState::CacheAsked, ReadEvent::Cache(CacheReply::Hit(7u8)));
    assert_eq!(s, ReadState::Finished);
    assert!(matches!(a, ReadAction::Respond { outcome: ReadOutcome::Found(7), populate: false }));
    let (s, a) = step::<u8>(ReadState::CacheAsked, ReadEvent::Cache(CacheReply::Miss));
    assert_eq!(s, ReadState::StoreAsked { populate: true });
    assert!(matches!(a, ReadAction::AskStore));
    let (s, _) = step::<u8>(ReadState::CacheAsked, ReadEvent::Cache(CacheReply::Undecodable));
    assert_eq!(s, ReadState::StoreAsked { populate: true });
    let (s, _) = step::<u8>(ReadState::CacheAsked, ReadEvent::Cache(CacheReply::Unreachable));
    assert_eq!(s, ReadState::StoreAsked { populate: false });
    let (s, a) = step(ReadState::StoreAsked { populate: true }, ReadEvent::Store(StoreReply::Found(3u8)));
    assert_eq!(s, ReadState::Finished);
    assert!(matches!(a, ReadAction::Respond { outcome: ReadOutcome::Found(3), populate: true }));
    let (_, a) = step(ReadState::StoreAsked { populate: false }, ReadEvent::Store(StoreReply::Found(3u8)));
    assert!(matches!(a, ReadAction::Respond { outcome: ReadOutcome::Found(3), populate: false }));
    let (_, a) = step::<u8>(ReadState::StoreAsked { populate: true }, ReadEvent::Store(StoreReply::Absent));
    assert!(matches!(a, ReadAction::Respond { outcome: ReadOutcome::NotFound, populate: false }));
    let (_, a) = step::<u8>(
        ReadState::StoreAsked { populate: true },
        ReadEvent::Store(StoreReply::Failed(StoreError::FetchFailed)),
    );
    assert!(matches!(
        a,
        ReadAction::Respond { outcome: ReadOutcome::Failed(StoreError::FetchFailed), populate: false }
    ));
    let (s, a) = step::<u8>(ReadState::Start, ReadEvent::Store(StoreReply::Absent));
    assert_eq!(s, ReadState::Finished);
    assert!(matches!(a, ReadAction::Reject));
    let (_, a) = step::<u8>(ReadState::Finished, ReadEvent::Begin);
    assert!(matches!(a, ReadAction::Reject));
}

#[test]
fn assembling_a_page_checks_the_store_answer() {
    let f = spec_of(&query(None, None, None, Some(2), Some(2)));
    let rows = store_with(3).fetch_page(&f).unwrap();
    let page = assemble_page(&f, 3, rows).unwrap();
    assert_eq!((page.page, page.limit, page.total, page.total_pages), (2, 2, 3, 2));
    assert_eq!(ids(&page), vec![3]);
    assert!(page.is_usable_for(&f));
    assert_eq!(assemble_page(&f, -1, Vec::new()).err(), Some(StoreError::CountFailed));
    let too_many = store_with(3).fetch_page(&spec_of(&query(None, None, None, None, None))).unwrap();
    assert_eq!(assemble_page(&f, 3, too_many).err(), Some(StoreError::FetchFailed));
}

#[test]
fn store_assigns_ascending_identities() {
    let mut store = store_with(3);
    assert!(store.delete(2));
    assert!(!store.delete(2));
    assert_eq!(store.create(new_char("d", "d", "d", 1, 1), Timestamp::from_secs(0)), Some(4));
    assert!(store.delete(4));
    assert_eq!(store.create(new_char("e", "e", "e", 1, 1), Timestamp::from_secs(0)), Some(4));
    assert_eq!(store.len(), 3);
    assert!(!store.update(2, new_char("x", "x", "x", 1, 1)));
    assert!(store.update(3, new_char("x", "x", "x", 1, 1)));
    let got = store.fetch_by_id(3).unwrap().unwrap();
    assert_eq!(got.character, "x");
    assert_eq!(got.created_at, Timestamp::from_secs(1_003));
    let mut empty = RecordStore::new();
    assert_eq!(empty.create(new_char("a", "a", "a", 1, 1), Timestamp::from_secs(0)), Some(1));
}

#[test]
fn like_pattern_takes_the_search_text_literally() {
    let pattern = |text: &str| spec_of(&query(None, None, Some(text), None, None)).plan().like_pattern();
    assert_eq!(pattern("ma").as_deref(), Some("%ma%"));
    assert_eq!(pattern("").as_deref(), Some("%%"));
    assert_eq!(pattern("100%").as_deref(), Some("%100\\%%"));
    assert_eq!(pattern("a_b").as_deref(), Some("%a\\_b%"));
    assert_eq!(pattern("back\\slash").as_deref(), Some("%back\\\\slash%"));
    assert_eq!(pattern("龙%_").as_deref(), Some("%龙\\%\\_%"));
    assert_eq!(spec_of(&query(None, None, None, None, None)).plan().like_pattern(), None);
}

#[test]
fn failed_cache_writes_are_ignored() {
    let mut sys = system(25);
    sys.cache.set_writable(false);
    let q = query(None, None, None, Some(3), Some(10));
    assert_eq!(ids(&sys.fetch_list(&q, 0).unwrap()), vec![21, 22, 23, 24, 25]);
    assert!(matches!(sys.cache.get(&cache_key_for_list(&spec_of(&q)), 0), CacheRead::Miss));
    sys.store.delete(21);
    assert_eq!(ids(&sys.fetch_list(&q, 1).unwrap()), vec![22, 23, 24, 25]);
    assert_eq!(sys.fetch_by_id(5, 1).unwrap().id, 5);
    assert!(matches!(sys.cache.get(&cache_key_for_entity(5), 1), CacheRead::Miss));
    sys.cache.set_writable(true);
    assert_eq!(sys.fetch_by_id(5, 2).unwrap().id, 5);
    assert!(matches!(sys.cache.get(&cache_key_for_entity(5), 2), CacheRead::Hit(CachedValue::Character(c)) if c.id == 5));
    let mut cache: CacheLayer<u8> = CacheLayer::new();
    assert!(cache.set_with_ttl("k", 1, 10, 0));
    cache.set_writable(false);
    assert!(!cache.set_with_ttl("k", 2, 10, 0));
    assert!(matches!(cache.get("k", 1), CacheRead::Hit(&1)));
}

#[test]
fn absent_and_stated_default_pagination_are_cached_apart() {
    let mut sys = system(25);
    let absent = query(None, None, None, None, None);
    let stated = query(None, None, None, Some(1), Some(20));
    let absent_spec = spec_of(&absent);
    let stated_spec = spec_of(&stated);
    assert_eq!((absent_spec.page(), absent_spec.limit(), absent_spec.offset()), (1, 20, 0));
    assert_eq!((stated_spec.page(), stated_spec.limit(), stated_spec.offset()), (1, 20, 0));
    assert_eq!((absent_spec.requested_page(), absent_spec.requested_limit()), (None, None));
    assert_eq!((stated_spec.requested_page(), stated_spec.requested_limit()), (Some(1), Some(20)));
    let first = sys.fetch_list(&absent, 0).unwrap();
    assert_eq!(first.total, 25);
    assert!(matches!(sys.cache.get(&cache_key_for_list(&absent_spec), 1), CacheRead::Hit(_)));
    assert!(matches!(sys.cache.get(&cache_key_for_list(&stated_spec), 1), CacheRead::Miss));
    sys.store.delete(1);
    let stale = sys.fetch_list(&absent, 2).unwrap();
    let fresh = sys.fetch_list(&stated, 2).unwrap();
    assert_eq!(stale.total, 25);
    assert_eq!(fresh.total, 24);
    assert_eq!(ids(&stale)[0], 1);
    assert_eq!(ids(&fresh)[0], 2);
    assert_eq!((fresh.page, fresh.limit), (1, 20));
    assert!(matches!(sys.cache.get(&cache_key_for_list(&stated_spec), 3), CacheRead::Hit(_)));
}
