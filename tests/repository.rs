use blog_store::error::{BackendFailure, StoreError};
use blog_store::models::{NewPost, User};
use blog_store::repository::{PostFilter, PostRepository};
use blog_store::slug::slugify;

const AUTHOR: u128 = 7;

fn store() -> PostRepository {
    let mut repo = PostRepository::new();
    repo.insert_user(User {
        id: AUTHOR,
        email: "author@example.com".to_string(),
        name: "Author".to_string(),
        created_at: 0,
        updated_at: 0,
    })
    .unwrap();
    repo
}

fn titles(posts: &[blog_store::models::Post]) -> Vec<String> {
    posts.iter().map(|p| p.title.clone()).collect()
}

fn filter(category: Option<&str>, term: Option<&str>) -> PostFilter {
    PostFilter {
        category: category.map(|c| c.to_string()),
        search_term: term.map(|t| t.to_string()),
    }
}

fn sample() -> PostRepository {
    let mut repo = store();
    repo.insert_post(
        NewPost::new("Async Rust".to_string(), "a".to_string(), AUTHOR).with_category("Rust".to_string()),
        1,
        10,
    )
    .unwrap();
    repo.insert_post(
        NewPost::new("Async Lambda".to_string(), "b".to_string(), AUTHOR).with_category("Cloud".to_string()),
        2,
        11,
    )
    .unwrap();
    repo.insert_post(
        NewPost::new("Ownership".to_string(), "c".to_string(), AUTHOR).with_category("Rust".to_string()),
        3,
        12,
    )
    .unwrap();
    repo
}

#[test]
fn slugs_from_titles() {
    assert_eq!(slugify("Hello World"), "hello-world");
    assert_eq!(slugify("  Hello,   World!  "), "hello-world");
    assert_eq!(slugify("hello-world"), "hello-world");
    assert_eq!(slugify("Rust 2024: What's New?"), "rust-2024-what-s-new");
    assert_eq!(slugify("Ünïcode"), "n-code");
    assert_eq!(slugify("!!!"), "");
    assert_eq!(slugify(""), "");
}

#[test]
fn same_slug_is_refused() {
    let mut repo = store();
    let first = repo.create(NewPost::new("Hello World".to_string(), "one".to_string(), AUTHOR), 100);
    assert_eq!(first.unwrap().slug, "hello-world");
    let second = repo.create(NewPost::new("hello, world!".to_string(), "two".to_string(), AUTHOR), 100);
    assert_eq!(second.unwrap_err(), StoreError::ConstraintViolation);
    assert_eq!(repo.post_count(), 1);
}

#[test]
fn unknown_owner_is_refused() {
    let mut repo = store();
    let r = repo.create(NewPost::new("Orphan".to_string(), "x".to_string(), AUTHOR + 1), 100);
    assert_eq!(r.unwrap_err(), StoreError::ConstraintViolation);
    assert_eq!(repo.post_count(), 0);
}

#[test]
fn title_without_words_is_refused() {
    let mut repo = store();
    let r = repo.create(NewPost::new("???".to_string(), "x".to_string(), AUTHOR), 100);
    assert_eq!(r.unwrap_err(), StoreError::ConstraintViolation);
    let r = repo.create(NewPost::new(String::new(), "x".to_string(), AUTHOR), 100);
    assert_eq!(r.unwrap_err(), StoreError::ConstraintViolation);
}

#[test]
fn used_identifier_is_refused() {
    let mut repo = store();
    repo.insert_post(NewPost::new("One".to_string(), "x".to_string(), AUTHOR), 5, 1).unwrap();
    let r = repo.insert_post(NewPost::new("Two".to_string(), "y".to_string(), AUTHOR), 5, 2);
    assert_eq!(r.unwrap_err(), StoreError::ConstraintViolation);
}

#[test]
fn duplicate_user_is_refused() {
    let mut repo = store();
    let same_id = User {
        id: AUTHOR,
        email: "other@example.com".to_string(),
        name: "Other".to_string(),
        created_at: 0,
        updated_at: 0,
    };
    assert_eq!(repo.insert_user(same_id).unwrap_err(), StoreError::ConstraintViolation);
    let same_email = User {
        id: AUTHOR + 1,
        email: "author@example.com".to_string(),
        name: "Other".to_string(),
        created_at: 0,
        updated_at: 0,
    };
    assert_eq!(repo.insert_user(same_email).unwrap_err(), StoreError::ConstraintViolation);
}

#[test]
fn lookup_miss_is_not_found() {
    let repo = sample();
    assert_eq!(repo.get_by_slug("nonexistent").unwrap_err(), StoreError::NotFound);
    assert_eq!(PostRepository::new().get_by_slug("nonexistent").unwrap_err(), StoreError::NotFound);
}

#[test]
fn lookup_is_exact_and_case_sensitive() {
    let repo = sample();
    assert_eq!(repo.get_by_slug("async-rust").unwrap().title, "Async Rust");
    assert_eq!(repo.get_by_slug("Async-Rust").unwrap_err(), StoreError::NotFound);
    assert_eq!(repo.get_by_slug("async").unwrap_err(), StoreError::NotFound);
}

#[test]
fn created_post_round_trips() {
    let mut repo = store();
    let created = repo
        .create(NewPost::new("Round Trip".to_string(), "# body".to_string(), AUTHOR), 100)
        .unwrap();
    assert_eq!(created.created_at, created.updated_at);
    assert!(!created.published);
    let found = repo.get_by_slug(&created.slug).unwrap();
    assert_eq!(found.title, "Round Trip");
    assert_eq!(found.content, "# body");
    assert_eq!(found.user_id, AUTHOR);
    assert_eq!(found.id, created.id);
}

#[test]
fn created_posts_get_distinct_identifiers() {
    let mut repo = store();
    let a = repo.create(NewPost::new("First".to_string(), "x".to_string(), AUTHOR), 100).unwrap();
    let b = repo.create(NewPost::new("Second".to_string(), "y".to_string(), AUTHOR), 200).unwrap();
    assert_ne!(a.id, b.id);
    assert_eq!(a.created_at, 100);
    assert_eq!(b.updated_at, 200);
}

#[test]
fn insert_with_given_identifier_and_time() {
    let mut repo = store();
    let p = repo
        .insert_post(
            NewPost::new("Given".to_string(), "c".to_string(), AUTHOR).with_excerpt("short".to_string()),
            42,
            1000,
        )
        .unwrap();
    assert_eq!(p.id, 42);
    assert_eq!(p.created_at, 1000);
    assert_eq!(p.updated_at, 1000);
    assert_eq!(p.excerpt.as_deref(), Some("short"));
    assert_eq!(p.slug, "given");
}

#[test]
fn filters_combine_by_conjunction() {
    let repo = sample();
    assert_eq!(titles(&repo.list(&filter(Some("Rust"), Some("async")))), vec!["Async Rust"]);
    assert_eq!(
        titles(&repo.list(&filter(Some("All"), Some("async")))),
        vec!["Async Rust", "Async Lambda"]
    );
    assert_eq!(
        titles(&repo.list(&PostFilter::all())),
        vec!["Async Rust", "Async Lambda", "Ownership"]
    );
}

#[test]
fn empty_filters_list_everything() {
    let repo = sample();
    assert_eq!(repo.list(&filter(Some(""), Some(""))).len(), 3);
    assert_eq!(titles(&repo.list(&filter(Some("Rust"), None))), vec!["Async Rust", "Ownership"]);
    assert!(repo.list(&filter(Some("rust"), None)).is_empty());
}

#[test]
fn search_ignores_letter_case() {
    let repo = sample();
    assert_eq!(titles(&repo.list(&filter(None, Some("RUST")))), vec!["Async Rust"]);
    assert_eq!(titles(&repo.list(&filter(None, Some("ownER")))), vec!["Ownership"]);
    assert_eq!(
        titles(&repo.list(&filter(Some("All"), Some("ASYNC")))),
        titles(&repo.list(&filter(Some("All"), Some("async"))))
    );
}

#[test]
fn search_reads_the_excerpt() {
    let mut repo = store();
    repo.insert_post(
        NewPost::new("Plain".to_string(), "x".to_string(), AUTHOR)
            .with_excerpt("About Borrowing".to_string()),
        1,
        1,
    )
    .unwrap();
    assert_eq!(repo.list(&filter(None, Some("borrow"))).len(), 1);
    assert_eq!(repo.list(&filter(None, Some("missing"))).len(), 0);
}

#[test]
fn listing_is_stable() {
    let repo = sample();
    let f = filter(None, Some("a"));
    assert_eq!(titles(&repo.list(&f)), titles(&repo.list(&f)));
}

#[test]
fn filter_decision_on_lowered_text() {
    let repo = sample();
    let post = repo.get_by_slug("async-rust").unwrap();
    let f = filter(Some("All"), Some("RUST"));
    assert!(f.admits_lowered(&post, "rust", "async rust", None));
    assert!(!f.admits_lowered(&post, "rust", "async", None));
    assert!(f.admits_lowered(&post, "rust", "async", Some("rust tips")));
    assert!(f.admits(&post));
}

#[test]
fn backend_failures_translate() {
    assert_eq!(StoreError::from_backend(BackendFailure::UniqueViolation), StoreError::ConstraintViolation);
    assert_eq!(StoreError::from_backend(BackendFailure::ForeignKeyViolation), StoreError::ConstraintViolation);
    assert_eq!(StoreError::from_backend(BackendFailure::CheckViolation), StoreError::ConstraintViolation);
    assert_eq!(StoreError::from_backend(BackendFailure::NotNullViolation), StoreError::ConstraintViolation);
    assert_eq!(StoreError::from_backend(BackendFailure::NoRows), StoreError::NotFound);
    assert_eq!(StoreError::from_backend(BackendFailure::PoolTimedOut), StoreError::ConnectionUnavailable);
    assert_eq!(StoreError::from_backend(BackendFailure::ConnectionLost), StoreError::ConnectionUnavailable);
    assert_eq!(StoreError::from_backend(BackendFailure::Other), StoreError::QueryFailed);
}

#[test]
fn startup_fatal_kinds() {
    assert!(StoreError::MigrationFailed.is_startup_fatal());
    assert!(StoreError::PoolInitFailed.is_startup_fatal());
    assert!(!StoreError::NotFound.is_startup_fatal());
    assert!(!StoreError::ConnectionUnavailable.is_startup_fatal());
}

#[test]
fn first_post_on_empty_table_succeeds() {
    let mut repo = store();
    let p = repo
        .create(NewPost::new("Hello World".to_string(), "b".to_string(), AUTHOR), 9)
        .unwrap();
    assert_eq!(p.slug, "hello-world");
    assert_eq!(repo.get_by_slug("hello-world").unwrap().content, "b");
}
