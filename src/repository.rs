//! The rules of the post tables, as an in-memory repository: the table
//! constraints (unique slugs and identifiers, every post owned by a known
//! user), slug lookup, and filtered listing. A database-backed store applies
//! the same slug rule, filter and error kinds to its own rows.
use vstd::prelude::*;
use vstd::string::StrSliceExecFns;
use crate::error::StoreError;
use crate::models::{NewPost, Post, Timestamp, User};
use crate::slug::{slug_of, slugify};
use crate::text::{ascii_lowered, contains_text, folded, lowercase, occurs_in, same_text};
use vstd::utf8::is_ascii_chars;

verus! {

/// The abstract contents of the store: the users and the posts, in insertion order.
pub struct StoreView {
    pub users: Seq<User>,
    pub posts: Seq<Post>,
}

/// Some user has the identifier.
pub open spec fn has_user(users: Seq<User>, id: u128) -> bool {
    exists|i: int| 0 <= i < users.len() && #[trigger] users[i].id == id
}

/// Some user has the email address.
pub open spec fn email_taken(users: Seq<User>, email: Seq<char>) -> bool {
    exists|i: int| 0 <= i < users.len() && #[trigger] users[i].email@ == email
}

/// Some post has the slug.
pub open spec fn slug_taken(posts: Seq<Post>, slug: Seq<char>) -> bool {
    exists|i: int| 0 <= i < posts.len() && #[trigger] posts[i].slug@ == slug
}

/// Some post has the identifier.
pub open spec fn post_id_taken(posts: Seq<Post>, id: u128) -> bool {
    exists|i: int| 0 <= i < posts.len() && #[trigger] posts[i].id == id
}

/// The table constraints: users have distinct identifiers and email
/// addresses; posts have distinct identifiers and distinct non-empty slugs,
/// belong to a known user, and were not updated before they were created.
pub open spec fn store_ok(v: StoreView) -> bool {
    &&& forall|i: int, j: int|
        0 <= i < j < v.users.len() ==> #[trigger] v.users[i].id != #[trigger] v.users[j].id
            && v.users[i].email@ != v.users[j].email@
    &&& forall|i: int, j: int|
        0 <= i < j < v.posts.len() ==> #[trigger] v.posts[i].id != #[trigger] v.posts[j].id
            && v.posts[i].slug@ != v.posts[j].slug@
    &&& forall|i: int|
        0 <= i < v.posts.len() ==> {
            let p = #[trigger] v.posts[i];
            &&& has_user(v.users, p.user_id)
            &&& p.slug@.len() > 0
            &&& p.created_at <= p.updated_at
        }
}

/// A write of `n` under the identifier `id` breaks a constraint: the title
/// gives an empty slug, the slug or the identifier is in use, or the owner is
/// not a known user.
pub open spec fn post_rejected(v: StoreView, n: NewPost, id: u128) -> bool {
    ||| slug_of(n.title@).len() == 0
    ||| slug_taken(v.posts, slug_of(n.title@))
    ||| !has_user(v.users, n.user_id)
    ||| post_id_taken(v.posts, id)
}

/// `p` is the record that storing `n` under `id` at time `now` makes:
/// the supplied fields unchanged, the slug derived from the title, not yet
/// published, created and updated at `now`.
pub open spec fn built_post(p: Post, n: NewPost, id: u128, now: Timestamp) -> bool {
    &&& p.id == id
    &&& p.title == n.title
    &&& p.content == n.content
    &&& p.user_id == n.user_id
    &&& p.excerpt == n.excerpt
    &&& p.category == n.category
    &&& p.slug@ == slug_of(n.title@)
    &&& !p.published
    &&& p.created_at == now
    &&& p.updated_at == now
}

/// The post with the slug, looked up from the most recent one back.
pub open spec fn slug_lookup(posts: Seq<Post>, slug: Seq<char>) -> Option<Post>
    decreases posts.len(),
{
    if posts.len() == 0 {
        None
    } else if posts.last().slug@ == slug {
        Some(posts.last())
    } else {
        slug_lookup(posts.drop_last(), slug)
    }
}

/// A listing filter. A category restricts to posts filed under exactly that
/// category, unless it is empty or the sentinel `All`; a search term keeps
/// posts whose title or excerpt contains it, letter case aside, unless it is
/// empty. Both restrictions apply together.
#[derive(Debug, Clone)]
pub struct PostFilter {
    pub category: Option<String>,
    pub search_term: Option<String>,
}

/// The category part of a filter lets a post filed under `category` through.
pub open spec fn category_admits(wanted: Option<String>, category: Seq<char>) -> bool {
    match wanted {
        None => true,
        Some(c) => c@.len() == 0 || c@ == "All"@ || c@ == category,
    }
}

/// A lowercased search term occurs in the lowercased title or excerpt.
pub open spec fn search_hit(term: Seq<char>, title: Seq<char>, excerpt: Option<Seq<char>>) -> bool {
    occurs_in(term, title) || (excerpt is Some && occurs_in(term, excerpt->Some_0))
}

/// The view of an optional text.
pub open spec fn opt_view(s: Option<String>) -> Option<Seq<char>> {
    match s {
        Some(t) => Some(t@),
        None => None,
    }
}

/// The lowercase of an optional text.
pub open spec fn opt_lower(s: Option<Seq<char>>) -> Option<Seq<char>> {
    match s {
        Some(t) => Some(folded(t)),
        None => None,
    }
}

/// The search part of a filter lets the post through.
pub open spec fn search_admits(term: Option<String>, p: Post) -> bool {
    match term {
        None => true,
        Some(t) => t@.len() == 0 || search_hit(
            folded(t@),
            folded(p.title@),
            opt_lower(opt_view(p.excerpt)),
        ),
    }
}

/// The filter lets the post through.
pub open spec fn post_matches(f: PostFilter, p: Post) -> bool {
    category_admits(f.category, p.category@) && search_admits(f.search_term, p)
}

/// The posts that a listing with the filter returns, in storage order.
pub open spec fn listed(posts: Seq<Post>, f: PostFilter) -> Seq<Post> {
    posts.filter(|p: Post| post_matches(f, p))
}

impl PostFilter {
    /// The filter that lets every post through.
    pub fn all() -> (r: PostFilter)
        ensures
            r.category is None,
            r.search_term is None,
    {
        PostFilter { category: None, search_term: None }
    }

    /// Decides the filter on a post, given the lowercase of the search term,
    /// of the title and of the excerpt.
    pub fn admits_lowered(
        &self,
        post: &Post,
        term_lower: &str,
        title_lower: &str,
        excerpt_lower: Option<&str>,
    ) -> (r: bool)
        ensures
            r == (category_admits(self.category, post.category@) && match self.search_term {
                None => true,
                Some(t) => t@.len() == 0 || search_hit(
                    term_lower@,
                    title_lower@,
                    match excerpt_lower {
                        Some(e) => Some(e@),
                        None => None,
                    },
                ),
            }),
    {
        let category_ok = match &self.category {
            None => true,
            Some(c) => c.as_str().unicode_len() == 0 || same_text(c.as_str(), "All") || same_text(
                c.as_str(),
                post.category.as_str(),
            ),
        };
        if !category_ok {
            return false;
        }
        match &self.search_term {
            None => true,
            Some(t) => {
                if t.as_str().unicode_len() == 0 {
                    true
                } else if contains_text(title_lower, term_lower) {
                    true
                } else {
                    match excerpt_lower {
                        Some(e) => contains_text(e, term_lower),
                        None => false,
                    }
                }
            },
        }
    }

    /// Decides the filter on a post.
    pub fn admits(&self, post: &Post) -> (r: bool)
        ensures
            r == post_matches(*self, *post),
    {
        let term_lower = match &self.search_term {
            Some(t) => lowercase(t.as_str()),
            None => String::new(),
        };
        let title_lower = lowercase(post.title.as_str());
        match &post.excerpt {
            Some(e) => {
                let excerpt_lower = lowercase(e.as_str());
                self.admits_lowered(post, term_lower.as_str(), title_lower.as_str(), Some(excerpt_lower.as_str()))
            },
            None => self.admits_lowered(post, term_lower.as_str(), title_lower.as_str(), None),
        }
    }
}

/// The letter case of an ASCII search term does not change a listing: two
/// filters with the same category whose search terms are ASCII and alike once
/// lowered (a term and its uppercase, say) list the same posts.
pub proof fn lemma_search_ignores_case(posts: Seq<Post>, f: PostFilter, g: PostFilter)
    requires
        f.category == g.category,
        f.search_term is Some,
        g.search_term is Some,
        is_ascii_chars(f.search_term->Some_0@),
        is_ascii_chars(g.search_term->Some_0@),
        ascii_lowered(f.search_term->Some_0@) == ascii_lowered(g.search_term->Some_0@),
    ensures
        listed(posts, f) == listed(posts, g),
    decreases posts.len(),
{
    reveal(Seq::filter);
    let t = f.search_term->Some_0@;
    let u = g.search_term->Some_0@;
    assert(t.len() == ascii_lowered(t).len());
    assert(u.len() == ascii_lowered(u).len());
    assert(folded(t) == folded(u));
    if posts.len() > 0 {
        lemma_search_ignores_case(posts.drop_last(), f, g);
        assert(post_matches(f, posts.last()) == post_matches(g, posts.last()));
    }
}

/// Relies on `uuid::Uuid::new_v4` and `Uuid::as_u128`: a random version-4
/// identifier as its 128-bit value. Nothing is known of the value.
#[verifier::external_body]
fn fresh_post_id() -> (r: u128) {
    uuid::Uuid::new_v4().as_u128()
}

/// A second post whose title gives the slug of a stored one is refused:
/// after `p` is stored from `first`, storing `second` breaks a constraint
/// whatever identifier it is given.
pub proof fn lemma_duplicate_slug_refused(
    before: StoreView,
    first: NewPost,
    id: u128,
    now: Timestamp,
    p: Post,
    second: NewPost,
    second_id: u128,
)
    requires
        store_ok(before),
        !post_rejected(before, first, id),
        built_post(p, first, id, now),
        slug_of(second.title@) == slug_of(first.title@),
    ensures
        post_rejected(StoreView { users: before.users, posts: before.posts.push(p) }, second, second_id),
{
    let after = before.posts.push(p);
    assert(after[before.posts.len() as int] == p);
    assert(slug_taken(after, slug_of(second.title@)));
}

/// A stored post is found again by its slug, with the title, content and
/// owner it was created with.
pub proof fn lemma_created_post_found(before: StoreView, n: NewPost, id: u128, now: Timestamp, p: Post)
    requires
        store_ok(before),
        !post_rejected(before, n, id),
        built_post(p, n, id, now),
    ensures
        slug_lookup(before.posts.push(p), p.slug@) == Some(p),
        p.title == n.title,
        p.content == n.content,
        p.user_id == n.user_id,
{
    assert(before.posts.push(p).drop_last() =~= before.posts);
}

/// A lookup finds a post exactly when some post has the slug, and what it
/// finds has that slug.
pub proof fn lemma_lookup_finds_only_taken(posts: Seq<Post>, slug: Seq<char>)
    ensures
        slug_lookup(posts, slug) is Some <==> slug_taken(posts, slug),
        slug_lookup(posts, slug) is Some ==> slug_lookup(posts, slug)->Some_0.slug@ == slug
            && posts.contains(slug_lookup(posts, slug)->Some_0),
    decreases posts.len(),
{
    if posts.len() > 0 {
        let rest = posts.drop_last();
        lemma_lookup_finds_only_taken(rest, slug);
        if posts.last().slug@ == slug {
            assert(posts[posts.len() - 1].slug@ == slug);
        } else {
            if slug_taken(posts, slug) {
                let k = choose|k: int| 0 <= k < posts.len() && #[trigger] posts[k].slug@ == slug;
                assert(rest[k].slug@ == slug);
            }
            if slug_taken(rest, slug) {
                let k = choose|k: int| 0 <= k < rest.len() && #[trigger] rest[k].slug@ == slug;
                assert(posts[k].slug@ == slug);
            }
            if slug_lookup(rest, slug) is Some {
                let k = choose|k: int| 0 <= k < rest.len() && rest[k] == slug_lookup(rest, slug)->Some_0;
                assert(posts[k] == rest[k]);
            }
        }
    }
}

/// A filter with no restriction lists every post, in storage order.
pub proof fn lemma_open_filter_lists_all(posts: Seq<Post>, f: PostFilter)
    requires
        f.category is None,
        f.search_term is None,
    ensures
        listed(posts, f) == posts,
    decreases posts.len(),
{
    reveal(Seq::filter);
    if posts.len() > 0 {
        lemma_open_filter_lists_all(posts.drop_last(), f);
        assert(posts.drop_last().push(posts.last()) =~= posts);
    }
}

/// The category and the search term restrict together: a post passes a
/// filter exactly when it passes the filter's category with no search term
/// (or an empty one) and its search term with no category (or `All`), and
/// listing with both is listing by the search term among the posts listed by
/// the category.
pub proof fn lemma_filter_conjunction(
    posts: Seq<Post>,
    f: PostFilter,
    by_category: PostFilter,
    by_search: PostFilter,
)
    requires
        by_category.category == f.category,
        by_category.search_term is None || by_category.search_term->Some_0@.len() == 0,
        by_search.search_term == f.search_term,
        by_search.category is None || by_search.category->Some_0@ == "All"@,
    ensures
        forall|p: Post|
            #[trigger] post_matches(f, p) == (post_matches(by_category, p) && post_matches(by_search, p)),
        listed(posts, f) == listed(listed(posts, by_category), by_search),
    decreases posts.len(),
{
    reveal(Seq::filter);
    if posts.len() > 0 {
        let rest = posts.drop_last();
        lemma_filter_conjunction(rest, f, by_category, by_search);
        let mid = listed(posts, by_category);
        if post_matches(by_category, posts.last()) {
            assert(mid.drop_last() =~= listed(rest, by_category));
        }
    }
}

/// The in-memory `users` and `posts` tables.
pub struct PostRepository {
    users: Vec<User>,
    posts: Vec<Post>,
}

impl View for PostRepository {
    type V = StoreView;

    closed spec fn view(&self) -> StoreView {
        StoreView { users: self.users@, posts: self.posts@ }
    }
}

impl PostRepository {
    /// The table constraints hold.
    pub open spec fn wf(&self) -> bool {
        store_ok(self@)
    }

    /// An empty store.
    pub fn new() -> (r: PostRepository)
        ensures
            r.wf(),
            r@.users.len() == 0,
            r@.posts.len() == 0,
    {
        PostRepository { users: Vec::new(), posts: Vec::new() }
    }

    /// The number of stored posts.
    pub fn post_count(&self) -> (r: usize)
        ensures
            r == self@.posts.len(),
    {
        self.posts.len()
    }

    fn user_index(&self, id: u128, email: &str) -> (r: (bool, bool))
        ensures
            r.0 == has_user(self@.users, id),
            r.1 == email_taken(self@.users, email@),
    {
        let mut id_found = false;
        let mut email_found = false;
        let mut i: usize = 0;
        while i < self.users.len()
            invariant
                i <= self.users@.len(),
                self@.users == self.users@,
                id_found == exists|j: int| 0 <= j < i && #[trigger] self.users@[j].id == id,
                email_found == exists|j: int| 0 <= j < i && #[trigger] self.users@[j].email@ == email@,
            decreases self.users@.len() - i,
        {
            if self.users[i].id == id {
                id_found = true;
            }
            if same_text(self.users[i].email.as_str(), email) {
                email_found = true;
            }
            i = i + 1;
        }
        (id_found, email_found)
    }

    fn post_conflicts(&self, id: u128, slug: &str) -> (r: (bool, bool))
        ensures
            r.0 == post_id_taken(self@.posts, id),
            r.1 == slug_taken(self@.posts, slug@),
    {
        let mut id_found = false;
        let mut slug_found = false;
        let mut i: usize = 0;
        while i < self.posts.len()
            invariant
                i <= self.posts@.len(),
                self@.posts == self.posts@,
                id_found == exists|j: int| 0 <= j < i && #[trigger] self.posts@[j].id == id,
                slug_found == exists|j: int| 0 <= j < i && #[trigger] self.posts@[j].slug@ == slug@,
            decreases self.posts@.len() - i,
        {
            if self.posts[i].id == id {
                id_found = true;
            }
            if same_text(self.posts[i].slug.as_str(), slug) {
                slug_found = true;
            }
            i = i + 1;
        }
        (id_found, slug_found)
    }

    /// Adds an author. Fails with `ConstraintViolation`, leaving the store
    /// unchanged, when the identifier or the email address is in use.
    pub fn insert_user(&mut self, user: User) -> (r: Result<(), StoreError>)
        requires
            old(self).wf(),
        ensures
            final(self).wf(),
            has_user(old(self)@.users, user.id) || email_taken(old(self)@.users, user.email@) ==> {
                &&& r == Err::<(), StoreError>(StoreError::ConstraintViolation)
                &&& final(self)@ == old(self)@
            },
            !(has_user(old(self)@.users, user.id) || email_taken(old(self)@.users, user.email@)) ==> {
                &&& r is Ok
                &&& final(self)@.users == old(self)@.users.push(user)
                &&& final(self)@.posts == old(self)@.posts
            },
    {
        let (id_found, email_found) = self.user_index(user.id, user.email.as_str());
        if id_found || email_found {
            return Err(StoreError::ConstraintViolation);
        }
        let ghost before = self@;
        self.users.push(user);
        proof {
            let after = self@;
            assert(after.users == before.users.push(user));
            assert forall|i: int| 0 <= i < after.posts.len() implies {
                let p = #[trigger] after.posts[i];
                &&& has_user(after.users, p.user_id)
                &&& p.slug@.len() > 0
                &&& p.created_at <= p.updated_at
            } by {
                let p = after.posts[i];
                assert(has_user(before.users, p.user_id));
                let k = choose|k: int| 0 <= k < before.users.len() && #[trigger] before.users[k].id == p.user_id;
                assert(after.users[k] == before.users[k]);
                assert(after.users[k].id == p.user_id);
            }
            assert forall|i: int, j: int| 0 <= i < j < after.users.len() implies #[trigger] after.users[i].id
                != #[trigger] after.users[j].id && after.users[i].email@ != after.users[j].email@ by {
                if j == before.users.len() {
                    assert(after.users[i] == before.users[i]);
                    if after.users[i].id == user.id {
                        assert(has_user(before.users, user.id));
                    }
                    if after.users[i].email@ == user.email@ {
                        assert(email_taken(before.users, user.email@));
                    }
                } else {
                    assert(after.users[i] == before.users[i]);
                    assert(after.users[j] == before.users[j]);
                }
            }
            assert(store_ok(before));
            assert(after.posts == before.posts);
            assert(store_ok(after));
        }
        Ok(())
    }

    /// Stores `new_post` under the identifier `id` at time `now`, with the slug
    /// derived from its title. Fails with `ConstraintViolation`, leaving the
    /// store unchanged, when that breaks a constraint (see [`post_rejected`]).
    pub fn insert_post(&mut self, new_post: NewPost, id: u128, now: Timestamp) -> (r: Result<Post, StoreError>)
        requires
            old(self).wf(),
        ensures
            final(self).wf(),
            post_rejected(old(self)@, new_post, id) ==> {
                &&& r == Err::<Post, StoreError>(StoreError::ConstraintViolation)
                &&& final(self)@ == old(self)@
            },
            !post_rejected(old(self)@, new_post, id) ==> {
                &&& r is Ok
                &&& built_post(r->Ok_0, new_post, id, now)
                &&& final(self)@.posts == old(self)@.posts.push(r->Ok_0)
                &&& final(self)@.users == old(self)@.users
            },
    {
        let slug = slugify(new_post.title.as_str());
        if slug.as_str().unicode_len() == 0 {
            return Err(StoreError::ConstraintViolation);
        }
        let (id_found, slug_found) = self.post_conflicts(id, slug.as_str());
        let (owner_found, _) = self.user_index(new_post.user_id, "");
        if id_found || slug_found || !owner_found {
            return Err(StoreError::ConstraintViolation);
        }
        let post = Post {
            id,
            title: new_post.title,
            content: new_post.content,
            user_id: new_post.user_id,
            excerpt: new_post.excerpt,
            slug,
            published: false,
            category: new_post.category,
            created_at: now,
            updated_at: now,
        };
        let ghost before = self@;
        let stored = post.copy();
        self.posts.push(stored);
        proof {
            let after = self@;
            assert(after.posts == before.posts.push(post));
            assert forall|i: int, j: int| 0 <= i < j < after.posts.len() implies #[trigger] after.posts[i].id
                != #[trigger] after.posts[j].id && after.posts[i].slug@ != after.posts[j].slug@ by {
                if j == before.posts.len() {
                    assert(after.posts[i] == before.posts[i]);
                    if after.posts[i].id == id {
                        assert(post_id_taken(before.posts, id));
                    }
                    if after.posts[i].slug@ == post.slug@ {
                        assert(slug_taken(before.posts, post.slug@));
                    }
                } else {
                    assert(after.posts[i] == before.posts[i]);
                    assert(after.posts[j] == before.posts[j]);
                }
            }
            assert forall|i: int| 0 <= i < after.posts.len() implies {
                let p = #[trigger] after.posts[i];
                &&& has_user(after.users, p.user_id)
                &&& p.slug@.len() > 0
                &&& p.created_at <= p.updated_at
            } by {
                if i < before.posts.len() {
                    assert(after.posts[i] == before.posts[i]);
                }
            }
        }
        Ok(post)
    }

    /// Creates a post from `new_post` under a fresh random identifier, stamped
    /// with the time `now`. Fails with `ConstraintViolation`, leaving the
    /// store unchanged, when the title gives an empty or used slug, when the
    /// owner is unknown, or when the drawn identifier is in use; on an empty
    /// table only the first two can happen.
    pub fn create(&mut self, new_post: NewPost, now: Timestamp) -> (r: Result<Post, StoreError>)
        requires
            old(self).wf(),
        ensures
            final(self).wf(),
            old(self)@.posts.len() == 0 && slug_of(new_post.title@).len() > 0 && has_user(
                old(self)@.users,
                new_post.user_id,
            ) ==> r is Ok,
            slug_of(new_post.title@).len() == 0 || slug_taken(old(self)@.posts, slug_of(new_post.title@))
                || !has_user(old(self)@.users, new_post.user_id) ==> r is Err,
            r is Err ==> {
                &&& r == Err::<Post, StoreError>(StoreError::ConstraintViolation)
                &&& final(self)@ == old(self)@
            },
            r is Ok ==> {
                &&& built_post(r->Ok_0, new_post, r->Ok_0.id, now)
                &&& !post_rejected(old(self)@, new_post, r->Ok_0.id)
                &&& final(self)@.posts == old(self)@.posts.push(r->Ok_0)
                &&& final(self)@.users == old(self)@.users
            },
    {
        let id = fresh_post_id();
        self.insert_post(new_post, id, now)
    }

    /// The post with exactly this slug (letter case counts); `NotFound` when
    /// there is none.
    pub fn get_by_slug(&self, slug: &str) -> (r: Result<Post, StoreError>)
        requires
            self.wf(),
        ensures
            match slug_lookup(self@.posts, slug@) {
                Some(p) => r == Ok::<Post, StoreError>(p),
                None => r == Err::<Post, StoreError>(StoreError::NotFound),
            },
    {
        let mut i: usize = self.posts.len();
        assert(self.posts@.take(i as int) =~= self.posts@);
        while i > 0
            invariant
                i <= self.posts@.len(),
                self@.posts == self.posts@,
                slug_lookup(self.posts@, slug@) == slug_lookup(self.posts@.take(i as int), slug@),
            decreases i,
        {
            let ghost prefix = self.posts@.take(i as int);
            assert(prefix.drop_last() =~= self.posts@.take(i - 1));
            if same_text(self.posts[i - 1].slug.as_str(), slug) {
                return Ok(self.posts[i - 1].copy());
            }
            i = i - 1;
        }
        Err(StoreError::NotFound)
    }

    /// The posts that the filter lets through, in storage order.
    pub fn list(&self, filter: &PostFilter) -> (r: Vec<Post>)
        requires
            self.wf(),
        ensures
            r@ == listed(self@.posts, *filter),
    {
        let mut out: Vec<Post> = Vec::new();
        let mut i: usize = 0;
        while i < self.posts.len()
            invariant
                i <= self.posts@.len(),
                self@.posts == self.posts@,
                out@ == listed(self.posts@.take(i as int), *filter),
            decreases self.posts@.len() - i,
        {
            let ghost next = self.posts@.take(i + 1);
            assert(next.drop_last() =~= self.posts@.take(i as int));
            proof {
                reveal(Seq::filter);
            }
            if filter.admits(&self.posts[i]) {
                out.push(self.posts[i].copy());
            }
            i = i + 1;
        }
        assert(self.posts@.take(self.posts@.len() as int) =~= self.posts@);
        out
    }
}

} // verus!
