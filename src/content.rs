//! The presentation side of posts: the catalogue entries shown on the blog
//! pages, lookup by slug, and the page record of a stored post with its body
//! rendered from markdown.
use vstd::prelude::*;
use vstd::string::StringExecFns;
use crate::models::Post;
use crate::text::same_text;

verus! {

/// A post as the blog pages show it.
#[derive(Debug, Clone)]
pub struct BlogPostData {
    pub slug: String,
    pub title: String,
    pub excerpt: String,
    pub category: String,
    pub date: String,
    pub read_time: String,
    pub content: String,
}

/// The summary shown for the article on custom form fields.
pub const FORMS_EXCERPT: &'static str = "Learn how to build a custom <Input /> component using the @tanstack/react-form library while keeping layout and logic cleanly separated. This guide shows how to wrap your form fields with a reusable InputLayout to manage titles, icons, error states, and other UI elements — all without cluttering your field logic.";

/// The entries of the blog catalogue, given the markdown source of the
/// article on custom form fields.
pub fn get_posts(tanstack_forms_md: String) -> (r: Vec<BlogPostData>)
    ensures
        r@.len() == 1,
        r@[0].slug@ == "tanstack-forms-custom-fields"@,
        r@[0].title@ == "Custom fields and layouts using Tanstack Forms"@,
        r@[0].excerpt@ == FORMS_EXCERPT@,
        r@[0].category@ == "typescript"@,
        r@[0].read_time@ == "10 min read"@,
        r@[0].date@ == "2024-12-15"@,
        r@[0].content == tanstack_forms_md,
{
    let mut posts: Vec<BlogPostData> = Vec::new();
    posts.push(
        BlogPostData {
            slug: String::from_str("tanstack-forms-custom-fields"),
            title: String::from_str("Custom fields and layouts using Tanstack Forms"),
            excerpt: String::from_str(FORMS_EXCERPT),
            content: tanstack_forms_md,
            category: String::from_str("typescript"),
            date: String::from_str("2024-12-15"),
            read_time: String::from_str("10 min read"),
        },
    );
    posts
}

/// An exact copy of a catalogue entry.
fn copy_entry(p: &BlogPostData) -> (r: BlogPostData)
    ensures
        r == *p,
{
    BlogPostData {
        slug: p.slug.clone(),
        title: p.title.clone(),
        excerpt: p.excerpt.clone(),
        category: p.category.clone(),
        date: p.date.clone(),
        read_time: p.read_time.clone(),
        content: p.content.clone(),
    }
}

/// The first catalogue entry with exactly this slug, if any.
pub fn get_post(posts: &Vec<BlogPostData>, slug: &str) -> (r: Option<BlogPostData>)
    ensures
        r is None <==> forall|i: int| 0 <= i < posts@.len() ==> #[trigger] posts@[i].slug@ != slug@,
        r is Some ==> exists|i: int|
            0 <= i < posts@.len() && #[trigger] posts@[i] == r->Some_0 && posts@[i].slug@ == slug@
                && forall|j: int| 0 <= j < i ==> #[trigger] posts@[j].slug@ != slug@,
{
    let mut i: usize = 0;
    while i < posts.len()
        invariant
            i <= posts@.len(),
            forall|j: int| 0 <= j < i ==> #[trigger] posts@[j].slug@ != slug@,
        decreases posts@.len() - i,
    {
        if same_text(posts[i].slug.as_str(), slug) {
            return Some(copy_entry(&posts[i]));
        }
        i = i + 1;
    }
    None
}

/// A stored post ready for its page: the markdown body replaced by its HTML.
#[derive(Debug, Clone)]
pub struct PostPage {
    pub slug: String,
    pub title: String,
    pub excerpt: Option<String>,
    pub category: String,
    pub body_html: String,
}

/// The page of a post, given what the markdown renderer made of its content:
/// the HTML when rendering succeeded, an empty body when it failed.
pub fn present_post(post: &Post, rendered: Option<String>) -> (r: PostPage)
    ensures
        r.slug == post.slug,
        r.title == post.title,
        r.excerpt == post.excerpt,
        r.category == post.category,
        match rendered {
            Some(html) => r.body_html == html,
            None => r.body_html@ == Seq::<char>::empty(),
        },
{
    let body_html = match rendered {
        Some(html) => html,
        None => String::new(),
    };
    PostPage {
        slug: post.slug.clone(),
        title: post.title.clone(),
        excerpt: crate::models::copy_opt_text(&post.excerpt),
        category: post.category.clone(),
        body_html,
    }
}

} // verus!
