use service_core::blogs::{detail_response, list_item, list_response, total_pages, ListParams};
use service_core::content_store::{newer, ContentStore};
use service_core::entities::BlogPost;
use service_core::errors::{AppError, StoreFailure};
use service_core::handlers::{get_blog_by_slug, list_blogs};

fn post(author: i32, slug: &str, status: Option<&str>, published: Option<i64>, created: Option<i64>) -> BlogPost {
    BlogPost {
        id: 0,
        author_id: author,
        title: format!("Title of {}", slug),
        slug: slug.to_string(),
        excerpt: Some(format!("About {}", slug)),
        content: format!("<p>{}</p>", slug),
        status: status.map(|s| s.to_string()),
        published_at: published,
        created_at: created,
        updated_at: created,
    }
}

fn params(page: Option<u64>, per_page: Option<u64>, status: Option<&str>) -> ListParams {
    ListParams { page, per_page, status: status.map(|s| s.to_string()) }
}

fn store_with_author() -> (ContentStore, i32) {
    let mut store = ContentStore::new();
    let author = store.insert_account("author@example.com".into(), "Author".into(), 1).unwrap();
    (store, author.id)
}

fn slugs(store: &mut ContentStore, p: &ListParams) -> Vec<String> {
    list_blogs(store, p).unwrap().items.into_iter().map(|i| i.slug).collect()
}

#[test]
fn listing_of_an_empty_table() {
    let mut store = ContentStore::new();
    let r = list_blogs(&mut store, &params(Some(1), Some(10), Some("published"))).unwrap();
    assert!(r.items.is_empty());
    assert_eq!(r.page, 1);
    assert_eq!(r.per_page, 10);
    assert_eq!(r.total, 0);
    assert_eq!(r.total_pages, 0);
}

#[test]
fn per_page_of_1000_is_clamped_to_100() {
    let (mut store, author) = store_with_author();
    for i in 0..150 {
        store.insert_post(post(author, &format!("p{}", i), Some("published"), Some(i), Some(i))).unwrap();
    }
    let r = list_blogs(&mut store, &params(Some(1), Some(1000), None)).unwrap();
    assert_eq!(r.per_page, 100);
    assert_eq!(r.items.len(), 100);
    assert_eq!(r.total, 150);
    assert_eq!(r.total_pages, 2);
    let r = list_blogs(&mut store, &params(Some(2), Some(1000), None)).unwrap();
    assert_eq!(r.items.len(), 50);
    assert_eq!(r.page, 2);
    assert_eq!(list_blogs(&mut store, &params(None, Some(101), None)).unwrap().per_page, 100);
    assert_eq!(list_blogs(&mut store, &params(None, Some(100), None)).unwrap().per_page, 100);
    assert_eq!(list_blogs(&mut store, &params(None, Some(u64::MAX), None)).unwrap().per_page, 100);
}

#[test]
fn defaults_and_floors_of_the_query() {
    let (mut store, author) = store_with_author();
    for i in 0..12 {
        store.insert_post(post(author, &format!("p{}", i), Some("published"), Some(i), Some(i))).unwrap();
    }
    store.insert_post(post(author, "d1", Some("draft"), None, Some(50))).unwrap();
    let r = list_blogs(&mut store, &params(None, None, None)).unwrap();
    assert_eq!((r.page, r.per_page, r.total, r.total_pages), (1, 10, 12, 2));
    assert_eq!(r.items.len(), 10);
    let r = list_blogs(&mut store, &params(Some(0), Some(0), None)).unwrap();
    assert_eq!((r.page, r.per_page, r.total, r.total_pages), (1, 1, 12, 12));
    assert_eq!(r.items.len(), 1);
    assert_eq!(r.items[0].slug, "p11");
    let r = list_blogs(&mut store, &params(Some(99), None, None)).unwrap();
    assert_eq!((r.page, r.per_page, r.total, r.total_pages), (99, 10, 12, 2));
    assert!(r.items.is_empty());
    let r = list_blogs(&mut store, &params(Some(u64::MAX), Some(100), None)).unwrap();
    assert_eq!(r.page, u64::MAX);
    assert!(r.items.is_empty());
}

#[test]
fn status_filter_restricts_and_empty_filter_lifts() {
    let (mut store, author) = store_with_author();
    store.insert_post(post(author, "pub", Some("published"), Some(10), Some(1))).unwrap();
    store.insert_post(post(author, "draft", Some("draft"), None, Some(2))).unwrap();
    store.insert_post(post(author, "arch", Some("archived"), Some(5), Some(3))).unwrap();
    store.insert_post(post(author, "none", None, None, Some(4))).unwrap();
    assert_eq!(slugs(&mut store, &params(None, None, None)), vec!["pub"]);
    assert_eq!(slugs(&mut store, &params(None, None, Some("published"))), vec!["pub"]);
    assert_eq!(slugs(&mut store, &params(None, None, Some("draft"))), vec!["none", "draft"]);
    assert_eq!(slugs(&mut store, &params(None, None, Some("archived"))), vec!["arch"]);
    assert_eq!(slugs(&mut store, &params(None, None, Some("Published"))), Vec::<String>::new());
    assert_eq!(slugs(&mut store, &params(None, None, Some(""))), vec!["pub", "arch", "none", "draft"]);
    let r = list_blogs(&mut store, &params(None, None, Some(""))).unwrap();
    assert_eq!((r.total, r.total_pages), (4, 1));
}

#[test]
fn a_post_without_status_is_stored_as_draft() {
    let (mut store, author) = store_with_author();
    store.insert_post(post(author, "none", None, None, Some(4))).unwrap();
    let r = get_blog_by_slug(&mut store, "none", "::1", 9).unwrap();
    assert_eq!(r.status, Some("draft".to_string()));
}

#[test]
fn order_is_published_desc_then_created_desc_with_missing_last() {
    let (mut store, author) = store_with_author();
    store.insert_post(post(author, "never-old", Some("x"), None, Some(1))).unwrap();
    store.insert_post(post(author, "mid", Some("x"), Some(50), Some(9))).unwrap();
    store.insert_post(post(author, "never-new", Some("x"), None, Some(7))).unwrap();
    store.insert_post(post(author, "new", Some("x"), Some(90), Some(2))).unwrap();
    store.insert_post(post(author, "mid-later", Some("x"), Some(50), Some(12))).unwrap();
    store.insert_post(post(author, "never-undated", Some("x"), None, None)).unwrap();
    store.insert_post(post(author, "mid-undated", Some("x"), Some(50), None)).unwrap();
    store.insert_post(post(author, "old", Some("x"), Some(-5), Some(100))).unwrap();
    store.insert_post(post(author, "mid-twin", Some("x"), Some(50), Some(9))).unwrap();
    assert_eq!(
        slugs(&mut store, &params(None, Some(100), Some("x"))),
        vec!["new", "mid-later", "mid", "mid-twin", "mid-undated", "old", "never-new", "never-old",
            "never-undated"]
    );
    assert_eq!(slugs(&mut store, &params(Some(2), Some(4), Some("x"))),
        vec!["mid-undated", "old", "never-new", "never-old"]);
    assert_eq!(slugs(&mut store, &params(Some(3), Some(4), Some("x"))), vec!["never-undated"]);
}

#[test]
fn newer_compares_published_then_created() {
    let a = post(1, "a", None, Some(2), Some(1));
    let b = post(1, "b", None, Some(1), Some(9));
    let c = post(1, "c", None, None, Some(9));
    let d = post(1, "d", None, Some(2), Some(5));
    let e = post(1, "e", None, Some(2), None);
    assert!(newer(&a, &b) && !newer(&b, &a));
    assert!(newer(&b, &c) && !newer(&c, &b));
    assert!(newer(&d, &a) && !newer(&a, &d));
    assert!(newer(&a, &e) && !newer(&e, &a));
    assert!(!newer(&a, &a) && !newer(&c, &c));
}

#[test]
fn total_pages_is_the_ceiling() {
    assert_eq!(total_pages(0, 10), 0);
    assert_eq!(total_pages(1, 10), 1);
    assert_eq!(total_pages(10, 10), 1);
    assert_eq!(total_pages(11, 10), 2);
    assert_eq!(total_pages(100, 1), 100);
    assert_eq!(total_pages(u64::MAX, 1), u64::MAX);
    assert_eq!(total_pages(u64::MAX, 2), 9_223_372_036_854_775_808);
    assert_eq!(total_pages(u64::MAX, 100), 184_467_440_737_095_517);
    assert_eq!(total_pages(5, 0), 0);
}

#[test]
fn response_is_built_from_rows_and_count() {
    let rows = vec![post(1, "a", Some("published"), Some(3), Some(1)), post(1, "b", None, None, None)];
    let r = list_response(rows, 3, 2, 7);
    assert_eq!((r.page, r.per_page, r.total, r.total_pages), (3, 2, 7, 4));
    assert_eq!(r.items.len(), 2);
    assert_eq!(r.items[0].slug, "a");
    assert_eq!(r.items[0].title, "Title of a");
    assert_eq!(r.items[0].excerpt, Some("About a".to_string()));
    assert_eq!(r.items[0].status, Some("published".to_string()));
    assert_eq!(r.items[0].published_at, Some(3));
    assert_eq!(r.items[1].status, None);
    let item = list_item(post(4, "z", None, Some(1), None));
    assert_eq!((item.id, item.slug.as_str(), item.published_at), (0, "z", Some(1)));
}

#[test]
fn first_read_counts_one_view_and_second_two() {
    let (mut store, author) = store_with_author();
    let id = store.insert_post(post(author, "hello", Some("published"), Some(10), Some(1))).unwrap();
    store.insert_post(post(author, "other", Some("published"), Some(11), Some(2))).unwrap();
    let first = get_blog_by_slug(&mut store, "hello", "203.0.113.9", 100).unwrap();
    assert_eq!(first.views_count, 1);
    assert_eq!(first.id, id);
    assert_eq!(first.author_id, author);
    assert_eq!(first.slug, "hello");
    assert_eq!(first.title, "Title of hello");
    assert_eq!(first.content, "<p>hello</p>");
    assert_eq!(first.published_at, Some(10));
    let second = get_blog_by_slug(&mut store, "hello", "203.0.113.9", 101).unwrap();
    assert_eq!(second.views_count, 2);
    assert_eq!(get_blog_by_slug(&mut store, "other", "::1", 102).unwrap().views_count, 1);
    assert_eq!(get_blog_by_slug(&mut store, "hello", "::1", 103).unwrap().views_count, 3);
    assert_eq!(store.count_views(id), 3);
}

#[test]
fn read_of_an_unknown_slug_is_not_found_and_records_nothing() {
    let (mut store, author) = store_with_author();
    let id = store.insert_post(post(author, "hello", None, None, None)).unwrap();
    match get_blog_by_slug(&mut store, "nope", "::1", 1) {
        Err(e) => {
            assert_eq!(e.status_code(), 404);
            assert_eq!(e.public_message(), "Blog not found");
        }
        Ok(_) => panic!("found a post that is not there"),
    }
    assert_eq!(store.count_views(id), 0);
    assert!(matches!(get_blog_by_slug(&mut store, "", "::1", 1), Err(AppError::NotFound(_))));
}

#[test]
fn detail_carries_the_post_and_the_count() {
    let d = detail_response(post(3, "a", Some("published"), Some(1), Some(2)), 17);
    assert_eq!((d.author_id, d.views_count, d.created_at, d.updated_at), (3, 17, Some(2), Some(2)));
    assert_eq!((d.slug.as_str(), d.status.as_deref(), d.published_at), ("a", Some("published"), Some(1)));
}

#[test]
fn store_gives_identifiers_and_keeps_slugs_and_addresses_unique() {
    let mut store = ContentStore::new();
    let a = store.insert_account("a@example.com".into(), "A".into(), 5).unwrap();
    let b = store.insert_account("b@example.com".into(), "B".into(), 6).unwrap();
    assert_eq!((a.id, b.id), (1, 2));
    assert_eq!(a.created_at, Some(5));
    assert_eq!(a.updated_at, Some(5));
    assert!(matches!(
        store.insert_account("a@example.com".into(), "Twin".into(), 7),
        Err(StoreFailure::UniqueViolation)
    ));
    assert_eq!(store.insert_account("c@example.com".into(), "C".into(), 7).unwrap().id, 3);
    assert_eq!(store.insert_post(post(1, "s", None, None, None)).unwrap(), 1);
    assert!(matches!(store.insert_post(post(2, "s", None, None, None)), Err(StoreFailure::UniqueViolation)));
    match store.insert_post(post(99, "t", None, None, None)) {
        Err(StoreFailure::Other(text)) => assert_eq!(text, "FOREIGN KEY constraint failed"),
        other => panic!("unexpected {:?}", other),
    }
    assert_eq!(store.insert_post(post(2, "t", None, None, None)).unwrap(), 2);
    match store.record_view(99, "::1".into(), 1) {
        Err(StoreFailure::Other(text)) => assert_eq!(text, "FOREIGN KEY constraint failed"),
        other => panic!("unexpected {:?}", other),
    }
    assert!(store.record_view(2, "::1".into(), 1).is_ok());
    assert_eq!(store.count_views(2), 1);
    assert_eq!(store.count_views(1), 0);
    assert_eq!(store.count_posts(""), 2);
    assert_eq!(store.count_posts("draft"), 2);
    assert_eq!(store.count_posts("published"), 0);
}

#[test]
fn deleting_an_author_deletes_its_posts_and_their_views() {
    let mut store = ContentStore::new();
    let a = store.insert_account("a@example.com".into(), "A".into(), 5).unwrap().id;
    let b = store.insert_account("b@example.com".into(), "B".into(), 6).unwrap().id;
    let a1 = store.insert_post(post(a, "a1", Some("published"), Some(3), None)).unwrap();
    let b1 = store.insert_post(post(b, "b1", Some("published"), Some(2), None)).unwrap();
    let a2 = store.insert_post(post(a, "a2", Some("published"), Some(1), None)).unwrap();
    for (p, n) in [(a1, 2), (b1, 3), (a2, 1)] {
        for i in 0..n {
            store.record_view(p, format!("10.0.0.{}", i), i).unwrap();
        }
    }
    assert_eq!(store.delete_account(99), 0);
    assert_eq!(store.count_posts(""), 3);
    assert_eq!(store.delete_account(a), 1);
    assert_eq!(store.delete_account(a), 0);
    assert!(store.find_account_by_id(a).is_none());
    assert!(store.find_account_by_id(b).is_some());
    assert_eq!(slugs(&mut store, &params(None, None, Some(""))), vec!["b1"]);
    assert!(store.find_post_by_slug("a1").is_none());
    assert!(store.find_post_by_slug("a2").is_none());
    assert_eq!(store.count_views(a1), 0);
    assert_eq!(store.count_views(a2), 0);
    assert_eq!(store.count_views(b1), 3);
    assert_eq!(store.insert_post(post(b, "a1", None, None, None)).unwrap(), 4);
    assert_eq!(store.insert_account("a@example.com".into(), "A".into(), 9).unwrap().id, 3);
}
