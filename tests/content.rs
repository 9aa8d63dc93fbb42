use blog_store::content::{get_post, get_posts, present_post};
use blog_store::models::Post;

fn stored() -> Post {
    Post {
        id: 1,
        title: "Title".to_string(),
        content: "# Title".to_string(),
        user_id: 2,
        excerpt: Some("Short".to_string()),
        slug: "title".to_string(),
        published: true,
        category: "Rust".to_string(),
        created_at: 5,
        updated_at: 6,
    }
}

#[test]
fn catalogue_lookup_by_slug() {
    let posts = get_posts("# Forms".to_string());
    assert_eq!(posts.len(), 1);
    let found = get_post(&posts, "tanstack-forms-custom-fields").unwrap();
    assert_eq!(found.title, "Custom fields and layouts using Tanstack Forms");
    assert_eq!(found.content, "# Forms");
    assert_eq!(found.read_time, "10 min read");
    assert_eq!(found.excerpt, blog_store::content::FORMS_EXCERPT);
    assert!(found.excerpt.starts_with("Learn how to build a custom <Input /> component"));
    assert!(get_post(&posts, "missing").is_none());
    assert!(get_post(&Vec::new(), "tanstack-forms-custom-fields").is_none());
}

#[test]
fn rendered_body_is_kept() {
    let page = present_post(&stored(), Some("<h1>Title</h1>".to_string()));
    assert_eq!(page.body_html, "<h1>Title</h1>");
    assert_eq!(page.slug, "title");
    assert_eq!(page.excerpt.as_deref(), Some("Short"));
}

#[test]
fn failed_render_gives_empty_body() {
    let page = present_post(&stored(), None);
    assert_eq!(page.body_html, "");
    assert_eq!(page.title, "Title");
}
