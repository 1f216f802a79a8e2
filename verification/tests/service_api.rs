// Tests of the handler layer: these run with the real id generator and the
// real clock behind the service, so they exercise the outside calls too.

use blog_api::config::SiteConfig;
use blog_api::list::PostQuery;
use blog_api::post::{CreatePost, UpdatePost};
use blog_api::service::AppState;
use blog_api::{health_check, ServiceError};

fn payload(title: &str, slug: &str, published: bool, tags: Vec<&str>) -> CreatePost {
    CreatePost {
        title: title.to_string(),
        content: format!("content of {}", title),
        excerpt: format!("excerpt of {}", title),
        slug: slug.to_string(),
        author: "ann".to_string(),
        published,
        featured_image: None,
        tags: tags.into_iter().map(|t| t.to_string()).collect(),
    }
}

fn no_query() -> PostQuery {
    PostQuery { page: None, limit: None, tag: None, search: None }
}

fn state() -> AppState {
    AppState::new(SiteConfig::default())
}

#[test]
fn created_posts_get_distinct_ids_and_equal_timestamps() {
    let mut app = state();
    let p1 = app.create_post(payload("A", "a", true, vec![])).unwrap();
    let p2 = app.create_post(payload("B", "b", true, vec![])).unwrap();
    assert_ne!(p1.id, p2.id);
    assert_eq!(p1.id.len(), 36);
    assert_eq!(p1.created_at, p1.updated_at);
    assert_eq!(p2.created_at, p2.updated_at);
}

#[test]
fn unpublished_post_is_admin_visible_but_slug_hidden() {
    let mut app = state();
    let p = app.create_post(payload("Draft", "draft", false, vec![])).unwrap();
    let by_id = app.get_post_by_id(&p.id).unwrap();
    assert_eq!(by_id.title, "Draft");
    let by_slug = app.get_post_by_slug(&"draft".to_string());
    assert_eq!(by_slug.unwrap_err(), ServiceError::NotFound);
}

#[test]
fn update_through_the_service_merges_and_keeps_creation_stamp() {
    let mut app = state();
    let p = app.create_post(payload("Old", "old", true, vec!["x"])).unwrap();
    let up = UpdatePost {
        title: Some("New".to_string()),
        content: None,
        excerpt: None,
        slug: None,
        author: None,
        published: None,
        featured_image: None,
        tags: None,
    };
    let after = app.update_post(&p.id, &up).unwrap();
    assert_eq!(after.title, "New");
    assert_eq!(after.content, p.content);
    assert_eq!(after.slug, p.slug);
    assert_eq!(after.tags, p.tags);
    assert_eq!(after.created_at, p.created_at);
    assert!(after.updated_at >= p.updated_at);
}

#[test]
fn scenario_created_post_is_listed_under_its_tag() {
    let mut app = state();
    let p = app.create_post(payload("A", "a", true, vec!["x"])).unwrap();
    let with_x = app
        .get_posts(&PostQuery { page: None, limit: None, tag: Some("x".to_string()), search: None })
        .unwrap();
    assert_eq!(with_x.posts.len(), 1);
    assert_eq!(with_x.posts[0].id, p.id);
    assert_eq!(with_x.posts[0].title, "A");
    let with_y = app
        .get_posts(&PostQuery { page: None, limit: None, tag: Some("y".to_string()), search: None })
        .unwrap();
    assert_eq!(with_y.posts.len(), 0);
    assert_eq!(with_y.pagination.total_posts, 0);
}

#[test]
fn scenario_public_limit_1000_is_capped_to_50() {
    let mut app = state();
    app.create_post(payload("A", "a", true, vec![])).unwrap();
    let pg = app
        .get_posts(&PostQuery { page: None, limit: Some(1000), tag: None, search: None })
        .unwrap();
    assert_eq!(pg.pagination.posts_per_page, 50);
}

#[test]
fn delete_twice_reports_not_found_the_second_time() {
    let mut app = state();
    let p = app.create_post(payload("A", "a", true, vec![])).unwrap();
    assert!(app.delete_post(&p.id).is_ok());
    assert_eq!(app.delete_post(&p.id).unwrap_err(), ServiceError::NotFound);
    assert_eq!(app.get_post_by_id(&p.id).unwrap_err(), ServiceError::NotFound);
}

#[test]
fn admin_listing_uses_its_own_default_limit() {
    let mut app = state();
    app.create_post(payload("A", "a", false, vec![])).unwrap();
    let pg = app.get_admin_posts(&no_query()).unwrap();
    assert_eq!(pg.pagination.posts_per_page, 10);
    assert_eq!(pg.pagination.total_posts, 1);
}

#[test]
fn site_config_snapshot_is_served_verbatim() {
    let app = state();
    let c = app.get_site_config();
    assert_eq!(c.site_name, "My Blog");
    assert_eq!(c.site_description, "A beautiful blog");
    assert_eq!(c.site_url, "http://localhost:4321");
    assert_eq!(c.site_author, "Blog Author");
    assert_eq!(c.site_email, "author@example.com");
    assert_eq!(c.site_keywords, "blog");
    assert_eq!(c.site_language, "en");
    assert_eq!(c.twitter_handle, "@blog");
    assert_eq!(c.github_url, "https://github.com");
    assert!(c.enable_comments);
    assert_eq!(c.posts_per_page, 10);
    assert!(c.enable_search);
}

#[test]
fn health_check_answers_ok() {
    assert_eq!(health_check(), "OK");
}

#[test]
fn error_status_codes_match_the_http_mapping() {
    assert_eq!(ServiceError::NotFound.status_code(), 404);
    assert_eq!(ServiceError::InternalError.status_code(), 500);
}
