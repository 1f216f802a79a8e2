// Tests of the two listing endpoints: filters, ordering, pagination counts
// and the page-size rules, all with timestamps chosen by hand.

use blog_api::list::{PostQuery, PostPage};
use blog_api::post::CreatePost;
use blog_api::store::PostStore;
use blog_api::ServiceError;

fn payload(title: &str, slug: &str, published: bool, tags: Vec<&str>) -> CreatePost {
    CreatePost {
        title: title.to_string(),
        content: format!("content of {}", title),
        excerpt: format!("excerpt of {}", title),
        slug: slug.to_string(),
        author: "ann".to_string(),
        published,
        featured_image: None,
        tags: tags.into_iter().map(|t| t.to_string()).collect(),
    }
}

fn query(page: Option<i32>, limit: Option<i32>, tag: Option<&str>, search: Option<&str>) -> PostQuery {
    PostQuery {
        page,
        limit,
        tag: tag.map(|t| t.to_string()),
        search: search.map(|s| s.to_string()),
    }
}

/// n published posts titled p1..pn, created at 1000, 2000, ...
fn seeded(n: usize) -> PostStore {
    let mut store = PostStore::new();
    for i in 1..=n {
        store
            .create(
                payload(&format!("p{}", i), &format!("p{}", i), true, vec![]),
                format!("id-{}", i),
                (i as i64) * 1_000,
            )
            .unwrap();
    }
    store
}

fn titles(pg: &PostPage) -> Vec<String> {
    pg.posts.iter().map(|p| p.title.clone()).collect()
}

#[test]
fn public_list_is_ordered_newest_first() {
    let store = seeded(3);
    let pg = store.list_public(&query(None, None, None, None), 10).unwrap();
    assert_eq!(titles(&pg), vec!["p3", "p2", "p1"]);
}

#[test]
fn ordering_holds_even_when_the_clock_ran_backwards() {
    let mut store = PostStore::new();
    store.create(payload("late", "late", true, vec![]), "id-a".to_string(), 5_000).unwrap();
    store.create(payload("early", "early", true, vec![]), "id-b".to_string(), 1_000).unwrap();
    store.create(payload("middle", "middle", true, vec![]), "id-c".to_string(), 3_000).unwrap();
    let pg = store.list_public(&query(None, None, None, None), 10).unwrap();
    assert_eq!(titles(&pg), vec!["late", "middle", "early"]);
}

#[test]
fn public_list_hides_unpublished() {
    let mut store = seeded(2);
    store
        .create(payload("draft", "draft", false, vec![]), "id-d".to_string(), 9_000)
        .unwrap();
    let pg = store.list_public(&query(None, None, None, None), 10).unwrap();
    assert_eq!(titles(&pg), vec!["p2", "p1"]);
    assert_eq!(pg.pagination.total_posts, 2);
}

#[test]
fn admin_list_includes_unpublished() {
    let mut store = seeded(2);
    store
        .create(payload("draft", "draft", false, vec![]), "id-d".to_string(), 9_000)
        .unwrap();
    let pg = store.list_admin(&query(None, None, None, None)).unwrap();
    assert_eq!(titles(&pg), vec!["draft", "p2", "p1"]);
    assert_eq!(pg.pagination.total_posts, 3);
}

#[test]
fn total_pages_is_ceiling_and_last_page_holds_the_remainder() {
    let store = seeded(5);
    let pg1 = store.list_public(&query(Some(1), Some(2), None, None), 10).unwrap();
    assert_eq!(pg1.pagination.total_pages, 3);
    assert_eq!(pg1.pagination.total_posts, 5);
    assert_eq!(pg1.posts.len(), 2);
    let pg3 = store.list_public(&query(Some(3), Some(2), None, None), 10).unwrap();
    assert_eq!(pg3.posts.len(), 1);
    assert_eq!(titles(&pg3), vec!["p1"]);
}

#[test]
fn last_page_is_full_when_the_page_size_divides_the_count() {
    let store = seeded(4);
    let pg = store.list_public(&query(Some(2), Some(2), None, None), 10).unwrap();
    assert_eq!(pg.pagination.total_pages, 2);
    assert_eq!(pg.posts.len(), 2);
    assert_eq!(titles(&pg), vec!["p2", "p1"]);
}

#[test]
fn page_past_the_end_is_empty_but_counts_stay() {
    let store = seeded(3);
    let pg = store.list_public(&query(Some(9), Some(2), None, None), 10).unwrap();
    assert_eq!(pg.posts.len(), 0);
    assert_eq!(pg.pagination.total_posts, 3);
    assert_eq!(pg.pagination.total_pages, 2);
    assert_eq!(pg.pagination.current_page, 9);
}

#[test]
fn requested_limit_of_1000_is_capped_to_50() {
    let store = seeded(3);
    let pg = store.list_public(&query(None, Some(1000), None, None), 10).unwrap();
    assert_eq!(pg.pagination.posts_per_page, 50);
    assert_eq!(pg.posts.len(), 3);
}

#[test]
fn admin_limit_is_not_capped() {
    let store = seeded(3);
    let pg = store.list_admin(&query(None, Some(1000), None, None)).unwrap();
    assert_eq!(pg.pagination.posts_per_page, 1000);
}

#[test]
fn public_page_below_one_is_floored_admin_page_is_not() {
    let store = seeded(3);
    let pg = store.list_public(&query(Some(0), Some(2), None, None), 10).unwrap();
    assert_eq!(pg.pagination.current_page, 1);
    assert_eq!(titles(&pg), vec!["p3", "p2"]);
    let r = store.list_admin(&query(Some(0), Some(2), None, None));
    assert_eq!(r.unwrap_err(), ServiceError::InternalError);
}

#[test]
fn negative_limit_fails_like_the_database_would() {
    let store = seeded(1);
    assert_eq!(
        store.list_public(&query(None, Some(-5), None, None), 10).unwrap_err(),
        ServiceError::InternalError
    );
    assert_eq!(
        store.list_admin(&query(None, Some(-5), None, None)).unwrap_err(),
        ServiceError::InternalError
    );
}

#[test]
fn zero_limit_reports_saturated_page_count() {
    let store = seeded(2);
    let pg = store.list_public(&query(None, Some(0), None, None), 10).unwrap();
    assert_eq!(pg.posts.len(), 0);
    assert_eq!(pg.pagination.total_posts, 2);
    assert_eq!(pg.pagination.total_pages, i32::MAX);
    let empty = PostStore::new();
    let pg0 = empty.list_public(&query(None, Some(0), None, None), 10).unwrap();
    assert_eq!(pg0.pagination.total_pages, 0);
}

#[test]
fn default_limits_differ_between_public_and_admin() {
    let store = seeded(1);
    let pub_pg = store.list_public(&query(None, None, None, None), 7).unwrap();
    assert_eq!(pub_pg.pagination.posts_per_page, 7);
    let adm_pg = store.list_admin(&query(None, None, None, None)).unwrap();
    assert_eq!(adm_pg.pagination.posts_per_page, 10);
}

#[test]
fn tag_filter_matches_exactly_one_post() {
    let mut store = PostStore::new();
    store
        .create(payload("A", "a", true, vec!["x"]), "id-a".to_string(), 1_000)
        .unwrap();
    store
        .create(payload("B", "b", true, vec!["z"]), "id-b".to_string(), 2_000)
        .unwrap();
    let with_x = store.list_public(&query(None, None, Some("x"), None), 10).unwrap();
    assert_eq!(titles(&with_x), vec!["A"]);
    assert_eq!(with_x.pagination.total_posts, 1);
    let with_y = store.list_public(&query(None, None, Some("y"), None), 10).unwrap();
    assert_eq!(with_y.posts.len(), 0);
    assert_eq!(with_y.pagination.total_posts, 0);
}

#[test]
fn tag_filter_is_exact_membership_not_substring() {
    let mut store = PostStore::new();
    store
        .create(payload("A", "a", true, vec!["rust"]), "id-a".to_string(), 1_000)
        .unwrap();
    let pg = store.list_public(&query(None, None, Some("rus"), None), 10).unwrap();
    assert_eq!(pg.posts.len(), 0);
}

#[test]
fn search_matches_title_or_content_substring() {
    let mut store = PostStore::new();
    store
        .create(payload("Alpha news", "a", true, vec![]), "id-a".to_string(), 1_000)
        .unwrap();
    store
        .create(payload("Beta", "b", true, vec![]), "id-b".to_string(), 2_000)
        .unwrap();
    let by_title = store.list_public(&query(None, None, None, Some("lpha")), 10).unwrap();
    assert_eq!(titles(&by_title), vec!["Alpha news"]);
    let by_content = store.list_public(&query(None, None, None, Some("content of Beta")), 10).unwrap();
    assert_eq!(titles(&by_content), vec!["Beta"]);
    let case_sensitive = store.list_public(&query(None, None, None, Some("alpha")), 10).unwrap();
    assert_eq!(case_sensitive.posts.len(), 0);
}

#[test]
fn tag_and_search_filters_combine_with_and() {
    let mut store = PostStore::new();
    store
        .create(payload("Alpha", "a", true, vec!["x"]), "id-a".to_string(), 1_000)
        .unwrap();
    store
        .create(payload("Alpine", "b", true, vec!["y"]), "id-b".to_string(), 2_000)
        .unwrap();
    let pg = store.list_public(&query(None, None, Some("x"), Some("Alp")), 10).unwrap();
    assert_eq!(titles(&pg), vec!["Alpha"]);
}

#[test]
fn admin_ignores_empty_filter_strings_public_takes_them_literally() {
    let mut store = PostStore::new();
    store
        .create(payload("A", "a", true, vec!["x"]), "id-a".to_string(), 1_000)
        .unwrap();
    let adm = store.list_admin(&query(None, None, Some(""), Some(""))).unwrap();
    assert_eq!(adm.pagination.total_posts, 1);
    // the empty search string is a substring of everything...
    let pub_search = store.list_public(&query(None, None, None, Some("")), 10).unwrap();
    assert_eq!(pub_search.pagination.total_posts, 1);
    // ...but the empty tag string only matches a post tagged with it.
    let pub_tag = store.list_public(&query(None, None, Some(""), None), 10).unwrap();
    assert_eq!(pub_tag.pagination.total_posts, 0);
}
