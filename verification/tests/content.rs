use dushulang::clock::Timestamp;
use dushulang::comments::{create_comment_handler, CommentInsert, NewComment};
use dushulang::content::chapter::{
    create_chapter_handler, delete_chapter_handler, get_all_chapters_handler,
    get_chapter_by_id_handler, get_chapters_by_classic_handler,
    show_all as show_all_chapters, update_chapter_handler, Chapter, ChapterResponse,
    CreateChapterRequest, UpdateChapterRequest,
};
use dushulang::content::classic::{
    create_classic_handler, delete_classic_handler, get_classic_handler, is_valid_slug,
    list_classics_handler, reject_slug, update_classic_handler, Classic, CreateClassicAction,
    CreateClassicEvent, CreateClassicRequest, CreateClassicState, UpdateClassicRequest,
};
use dushulang::content::outcome::{any_affected, reversed};
use dushulang::content::sentence::{
    create_sentence_handler, delete_sentence_handler, get_all_sentences_handler,
    get_sentence_by_id_handler, get_sentences_by_chapter_handler, update_sentence_handler,
    CreateSentenceRequest, Sentence, SentenceResponse, UpdateSentenceRequest,
};
use dushulang::errors::app::AppError;
use dushulang::ident::Uuid;
use dushulang::middleware::{cors, health_check, health_check_at, security_headers};
use dushulang::response::{ApiResponse, Outcome, Reply};

fn t(secs: i64) -> Timestamp {
    Timestamp::from_secs(secs)
}

fn id(n: u128) -> Uuid {
    Uuid::from_u128(n)
}

fn classic(n: u128, slug: &str) -> Classic {
    Classic::from_request(
        CreateClassicRequest {
            slug: slug.to_string(),
            title: format!("title of {}", slug),
            author: Some("孔子".to_string()),
            dynasty: None,
            description: None,
        },
        id(n),
        t(100),
    )
}

fn chapter(n: u128, number: i32) -> Chapter {
    Chapter::from_request(
        CreateChapterRequest { classic_id: id(1), number, title: format!("ch{}", number), content: None },
        id(n),
        t(5),
    )
}

fn sentence(n: u128, number: i32) -> Sentence {
    Sentence::from_request(
        CreateSentenceRequest {
            chapter_id: id(2),
            number,
            text: format!("s{}", number),
            pinyin: Some("pin".to_string()),
            translation: None,
        },
        id(n),
        t(6),
    )
}

fn failed<T>(r: &Reply<ApiResponse<T>>, status: u16, message: &str) {
    assert_eq!(r.status, status);
    assert!(!r.body.success);
    assert!(r.body.data.is_none());
    assert_eq!(r.body.error.as_deref(), Some(message));
}

fn succeeded<T>(r: &Reply<ApiResponse<T>>, status: u16) {
    assert_eq!(r.status, status);
    assert!(r.body.success);
    assert!(r.body.data.is_some());
    assert!(r.body.error.is_none());
}

#[test]
fn slugs_hold_letters_digits_and_hyphens() {
    for ok in ["lunyu", "san-zi-jing", "daxue2", "", "论语", "-", "A-1"] {
        assert!(is_valid_slug(ok), "{:?}", ok);
        assert!(reject_slug(ok, t(0)).is_none());
    }
    for bad in ["lun yu", "lun_yu", "a/b", "a.b", "x;drop", "a\n"] {
        assert!(!is_valid_slug(bad), "{:?}", bad);
        failed(&reject_slug(bad, t(0)).unwrap(), 400, "无效的经典标识符");
    }
}

#[test]
fn classic_lookup_replies() {
    let r = get_classic_handler("lunyu", Ok(Some(classic(1, "lunyu"))), t(1));
    succeeded(&r, 200);
    assert_eq!(r.body.data.unwrap().slug, "lunyu");
    failed(&get_classic_handler("lunyu", Ok(None), t(1)), 404, "经典未找到");
    failed(&get_classic_handler("lunyu", Err("pg down".into()), t(1)), 500, "获取经典详情失败");
    failed(&get_classic_handler("lun yu", Ok(Some(classic(1, "x"))), t(1)), 400, "无效的经典标识符");
}

#[test]
fn classic_list_update_and_delete_replies() {
    let r = list_classics_handler(Ok(vec![classic(1, "a"), classic(2, "b")]), t(1));
    succeeded(&r, 200);
    assert_eq!(r.body.data.unwrap().len(), 2);
    failed(&list_classics_handler(Err("x".into()), t(1)), 500, "获取经典列表失败");
    succeeded(&update_classic_handler(Ok(Some(classic(1, "a"))), t(1)), 200);
    failed(&update_classic_handler(Ok(None), t(1)), 404, "经典未找到");
    failed(&update_classic_handler(Err("x".into()), t(1)), 500, "更新经典失败");
    let r = delete_classic_handler(Ok(true), t(1));
    succeeded(&r, 200);
    assert_eq!(r.body.data.as_deref(), Some("经典删除成功"));
    failed(&delete_classic_handler(Ok(false), t(1)), 404, "经典未找到");
    failed(&delete_classic_handler(Err("x".into()), t(1)), 500, "删除经典失败");
    let _ = UpdateClassicRequest { title: None, author: None, dynasty: None, description: None };
    assert!(any_affected(1));
    assert!(any_affected(7));
    assert!(!any_affected(0));
}

fn request(slug: &str, title: &str) -> CreateClassicRequest {
    CreateClassicRequest {
        slug: slug.to_string(),
        title: title.to_string(),
        author: None,
        dynasty: None,
        description: None,
    }
}

fn classic_reply(action: CreateClassicAction) -> Reply<ApiResponse<Classic>> {
    match action {
        CreateClassicAction::Respond(r) => r,
        _ => panic!("expected a reply"),
    }
}

#[test]
fn creating_a_classic_checks_then_looks_up_then_creates() {
    let (s, a) = create_classic_handler(
        CreateClassicState::Received,
        CreateClassicEvent::Request(request("lunyu", "论语")),
        t(1),
    );
    assert_eq!(s, CreateClassicState::SlugAsked);
    assert!(matches!(a, CreateClassicAction::FindBySlug(req) if req.slug == "lunyu"));
    let (s, a) = create_classic_handler(s, CreateClassicEvent::SlugLookup(Ok(false)), t(1));
    assert_eq!(s, CreateClassicState::CreateAsked);
    assert!(matches!(a, CreateClassicAction::Create));
    let (s, a) = create_classic_handler(s, CreateClassicEvent::Created(Ok(classic(9, "lunyu"))), t(1));
    assert_eq!(s, CreateClassicState::Finished);
    let r = classic_reply(a);
    succeeded(&r, 201);
    assert_eq!(r.body.data.unwrap().id, id(9));
    let (_, a) = create_classic_handler(s, CreateClassicEvent::SlugLookup(Ok(false)), t(1));
    assert!(matches!(a, CreateClassicAction::Reject));
}

#[test]
fn creating_a_classic_can_fail_at_every_step() {
    for (slug, title) in [("", "论语"), ("lunyu", ""), ("", "")] {
        let (s, a) = create_classic_handler(
            CreateClassicState::Received,
            CreateClassicEvent::Request(request(slug, title)),
            t(1),
        );
        assert_eq!(s, CreateClassicState::Finished);
        failed(&classic_reply(a), 400, "标题和标识符不能为空");
    }
    let (s, a) = create_classic_handler(CreateClassicState::SlugAsked, CreateClassicEvent::SlugLookup(Ok(true)), t(1));
    assert_eq!(s, CreateClassicState::Finished);
    failed(&classic_reply(a), 409, "该标识符已存在");
    let (_, a) = create_classic_handler(CreateClassicState::SlugAsked, CreateClassicEvent::SlugLookup(Err("x".into())), t(1));
    failed(&classic_reply(a), 500, "创建经典失败");
    let (_, a) = create_classic_handler(CreateClassicState::CreateAsked, CreateClassicEvent::Created(Err("x".into())), t(1));
    failed(&classic_reply(a), 500, "创建经典失败");
    let (s, a) = create_classic_handler(CreateClassicState::Received, CreateClassicEvent::SlugLookup(Ok(false)), t(1));
    assert_eq!(s, CreateClassicState::Finished);
    assert!(matches!(a, CreateClassicAction::Reject));
    let (_, a) = create_classic_handler(CreateClassicState::CreateAsked, CreateClassicEvent::Request(request("a", "b")), t(1));
    assert!(matches!(a, CreateClassicAction::Reject));
}

#[test]
fn chapters_are_shown_field_for_field_and_in_order() {
    let shown = show_all_chapters(vec![chapter(10, 1), chapter(11, 2), chapter(12, 3)]);
    assert_eq!(shown.iter().map(|c| c.number).collect::<Vec<_>>(), vec![1, 2, 3]);
    assert_eq!(shown[1].id, id(11));
    assert_eq!(shown[1].title, "ch2");
    assert_eq!(shown[1].classic_id, id(1));
    assert_eq!(shown[1].created_at, t(5));
    assert!(show_all_chapters(Vec::new()).is_empty());
    let one = ChapterResponse::from(chapter(4, 8));
    assert_eq!((one.id, one.number, one.title.as_str(), one.content, one.updated_at), (id(4), 8, "ch8", None, t(5)));
    assert_eq!(reversed(vec![1, 2, 3]), vec![3, 2, 1]);
    assert_eq!(reversed(Vec::<u8>::new()), Vec::<u8>::new());
}

#[test]
fn chapter_replies() {
    let r = get_all_chapters_handler(Ok(vec![chapter(1, 1), chapter(2, 2)]), t(1)).unwrap();
    succeeded(&r, 200);
    assert_eq!(r.body.data.unwrap().len(), 2);
    assert!(matches!(get_all_chapters_handler(Err("boom".into()), t(1)), Err(AppError::Database(d)) if d == "boom"));
    let r = get_chapters_by_classic_handler(Ok(vec![chapter(1, 1)]), t(1)).unwrap();
    assert_eq!(r.body.data.unwrap()[0].number, 1);
    let r = get_chapter_by_id_handler(Ok(Some(chapter(3, 7))), t(1)).unwrap();
    succeeded(&r, 200);
    assert_eq!(r.body.data.unwrap().number, 7);
    assert!(matches!(get_chapter_by_id_handler(Ok(None), t(1)), Err(AppError::NotFound)));
    assert!(matches!(get_chapter_by_id_handler(Err("e".into()), t(1)), Err(AppError::Database(_))));
    let r = create_chapter_handler(Ok(chapter(3, 7)), t(1)).unwrap();
    succeeded(&r, 201);
    assert!(matches!(
        create_chapter_handler(Err("ERROR: duplicate key value violates unique constraint".into()), t(1)),
        Err(AppError::Validation(m)) if m == "Chapter number already exists for this classic"
    ));
    assert!(matches!(
        create_chapter_handler(Err("connection reset".into()), t(1)),
        Err(AppError::Database(d)) if d == "connection reset"
    ));
    succeeded(&update_chapter_handler(Ok(Some(chapter(3, 7))), t(1)).unwrap(), 200);
    assert!(matches!(update_chapter_handler(Ok(None), t(1)), Err(AppError::NotFound)));
    let r = delete_chapter_handler(Ok(true), t(1)).unwrap();
    assert_eq!(r.body.data.as_deref(), Some("Chapter deleted successfully"));
    assert!(matches!(delete_chapter_handler(Ok(false), t(1)), Err(AppError::NotFound)));
    assert!(matches!(delete_chapter_handler(Err("e".into()), t(1)), Err(AppError::Database(_))));
    let _ = UpdateChapterRequest { number: None, title: None, content: None };
}

#[test]
fn sentence_replies() {
    let r = get_all_sentences_handler(Ok(vec![sentence(1, 1), sentence(2, 2)]), t(1)).unwrap();
    succeeded(&r, 200);
    let list = r.body.data.unwrap();
    assert_eq!(list.iter().map(|s| s.text.clone()).collect::<Vec<_>>(), vec!["s1", "s2"]);
    assert_eq!(list[0].pinyin.as_deref(), Some("pin"));
    assert_eq!(list[0].chapter_id, id(2));
    assert!(matches!(get_all_sentences_handler(Err("boom".into()), t(1)), Err(AppError::Database(_))));
    succeeded(&get_sentences_by_chapter_handler(Ok(Vec::new()), t(1)).unwrap(), 200);
    succeeded(&get_sentence_by_id_handler(Ok(Some(sentence(3, 7))), t(1)).unwrap(), 200);
    assert!(matches!(get_sentence_by_id_handler(Ok(None), t(1)), Err(AppError::NotFound)));
    succeeded(&create_sentence_handler(Ok(sentence(3, 7)), t(1)).unwrap(), 201);
    assert!(matches!(
        create_sentence_handler(Err("duplicate key".into()), t(1)),
        Err(AppError::Validation(m)) if m == "Sentence number already exists for this chapter"
    ));
    assert!(matches!(create_sentence_handler(Err("duplicate  key".into()), t(1)), Err(AppError::Database(_))));
    succeeded(&update_sentence_handler(Ok(Some(sentence(3, 7))), t(1)).unwrap(), 200);
    assert!(matches!(update_sentence_handler(Err("e".into()), t(1)), Err(AppError::Database(_))));
    let r = delete_sentence_handler(Ok(true), t(1)).unwrap();
    assert_eq!(r.body.data.as_deref(), Some("Sentence deleted successfully"));
    assert!(matches!(delete_sentence_handler(Ok(false), t(1)), Err(AppError::NotFound)));
    let one = SentenceResponse::from(sentence(4, 8));
    assert_eq!((one.id, one.number, one.text.as_str(), one.translation), (id(4), 8, "s8", None));
    let _ = UpdateSentenceRequest { number: None, text: None, pinyin: None, translation: None };
}

fn comment(text: &str) -> NewComment {
    NewComment { text: text.to_string(), user_id: id(1) }
}

#[test]
fn comments_must_have_between_1_and_200_characters() {
    assert!(comment("a").validate().is_ok());
    assert!(comment(&"好".repeat(200)).validate().is_ok());
    for bad in [String::new(), "x".repeat(201), "好".repeat(201)] {
        let errors = comment(&bad).validate().unwrap_err();
        assert_eq!(errors.len(), 1);
        assert_eq!(errors[0].field, "text");
        assert_eq!(errors[0].message, "Comment text must be between 1 and 200 characters");
        let r = create_comment_handler(&comment(&bad), CommentInsert::Inserted);
        assert_eq!(r.status, 400);
        match r.body {
            Outcome::Failure(e) => {
                assert_eq!(e.error, "Validation Error");
                assert_eq!(e.message, "text: Comment text must be between 1 and 200 characters");
                assert_eq!(e.code, 400);
            }
            Outcome::Payload(_) => panic!("expected a failure"),
        }
    }
}

#[test]
fn comment_replies_follow_the_store() {
    let r = create_comment_handler(&comment("fine"), CommentInsert::Inserted);
    assert_eq!(r.status, 201);
    assert!(matches!(r.body, Outcome::Payload(done) if done.message == "Comment created successfully"));
    let r = create_comment_handler(&comment("fine"), CommentInsert::NoConnection);
    assert_eq!(r.status, 500);
    assert!(matches!(r.body, Outcome::Failure(e) if e.message == "Failed to get database connection" && e.error == "Database Error"));
    let r = create_comment_handler(&comment("fine"), CommentInsert::Failed);
    assert_eq!(r.status, 500);
    assert!(matches!(r.body, Outcome::Failure(e) if e.message == "Failed to create comment" && e.code == 500));
}

#[test]
fn cross_origin_policy_is_fixed() {
    let p = cors();
    assert!(p.allow_any_origin);
    assert_eq!(
        p.allowed_headers,
        vec!["content-type", "authorization", "accept", "origin", "user-agent", "x-requested-with"]
    );
    assert_eq!(p.allowed_methods, vec!["GET", "POST", "PUT", "DELETE", "PATCH", "OPTIONS"]);
    assert_eq!(p.max_age, 3600);
}

#[test]
fn transport_security_is_sent_in_production_only() {
    let names = |env: Option<&str>| {
        security_headers(&env.map(|s| s.to_string())).into_iter().map(|h| h.name).collect::<Vec<_>>()
    };
    let base = vec![
        "X-Content-Type-Options",
        "X-Frame-Options",
        "X-XSS-Protection",
        "Referrer-Policy",
        "Permissions-Policy",
        "Content-Security-Policy",
    ];
    assert_eq!(names(None), base);
    assert_eq!(names(Some("development")), base);
    assert_eq!(names(Some("Production")), base);
    let mut with = base.clone();
    with.push("Strict-Transport-Security");
    assert_eq!(names(Some("production")), with);
    let all = security_headers(&Some("production".to_string()));
    assert_eq!(all[0].value, "nosniff");
    assert_eq!(all[1].value, "DENY");
    assert_eq!(all[2].value, "1; mode=block");
    assert_eq!(all[3].value, "strict-origin-when-cross-origin");
    assert_eq!(all[4].value, "geolocation=(), microphone=(), camera=()");
    assert!(all[5].value.starts_with("default-src 'self'; script-src"));
    assert_eq!(all[6].value, "max-age=31536000; includeSubDomains; preload");
}

#[test]
fn health_report_names_the_environment() {
    let r = health_check_at(&None, t(12));
    assert_eq!(r.status, "healthy");
    assert_eq!(r.service, "xiaoxiao-dushulang-rust-backend");
    assert_eq!(r.version, "2.0.0");
    assert_eq!(r.timestamp, t(12));
    assert_eq!(r.environment, "development");
    assert_eq!((r.services.database.as_str(), r.services.redis.as_str(), r.services.api.as_str()), ("connected", "connected", "running"));
    let r = health_check(&Some("staging".to_string()));
    assert_eq!(r.environment, "staging");
    assert!(r.timestamp.secs > 1_600_000_000);
}
