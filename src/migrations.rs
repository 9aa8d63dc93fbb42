//! The embedded, ordered set of forward-only schema migrations, and the choice
//! of which of them a database still needs. Applied versions are recorded in
//! the database's tracking table, so running the set again changes nothing.
use vstd::prelude::*;
use vstd::string::StringExecFns;

verus! {

/// One forward schema change.
#[derive(Debug, Clone)]
pub struct Migration {
    pub version: u64,
    pub name: String,
    pub up_sql: String,
}

/// The statement that creates the table recording applied versions.
pub const TRACKING_TABLE_SQL: &'static str = "CREATE TABLE IF NOT EXISTS schema_migrations (version BIGINT PRIMARY KEY, applied_at TIMESTAMPTZ NOT NULL DEFAULT NOW())";

/// The `users` table: a UUID key and a unique, required email address.
pub const CREATE_USERS_SQL: &'static str = "CREATE TABLE users (id UUID PRIMARY KEY, email VARCHAR NOT NULL UNIQUE, name VARCHAR NOT NULL, created_at TIMESTAMPTZ NOT NULL DEFAULT NOW(), updated_at TIMESTAMPTZ NOT NULL DEFAULT NOW())";

/// The `posts` table: a UUID key, a required reference to `users`, a unique
/// non-empty slug, and creation no later than the last update.
pub const CREATE_POSTS_SQL: &'static str = "CREATE TABLE posts (id UUID PRIMARY KEY, title VARCHAR NOT NULL CHECK (title <> ''), content TEXT NOT NULL, user_id UUID NOT NULL REFERENCES users (id), excerpt VARCHAR, slug VARCHAR NOT NULL UNIQUE CHECK (slug <> ''), published BOOLEAN NOT NULL DEFAULT FALSE, category VARCHAR NOT NULL DEFAULT '', created_at TIMESTAMPTZ NOT NULL DEFAULT NOW(), updated_at TIMESTAMPTZ NOT NULL DEFAULT NOW(), CHECK (created_at <= updated_at))";

/// The versions of a migration sequence, in order.
pub open spec fn versions_of(plan: Seq<Migration>) -> Seq<u64> {
    plan.map_values(|m: Migration| m.version)
}

/// Each version is greater than the one before it.
pub open spec fn strictly_ascending(v: Seq<u64>) -> bool {
    forall|i: int, j: int| 0 <= i < j < v.len() ==> #[trigger] v[i] < #[trigger] v[j]
}

/// The migrations of `plan` whose version is not among `applied`, in plan order.
pub open spec fn pending(plan: Seq<Migration>, applied: Seq<u64>) -> Seq<Migration> {
    plan.filter(|m: Migration| !applied.contains(m.version))
}

/// The recorded versions after a run that applies what is pending.
pub open spec fn applied_after(plan: Seq<Migration>, applied: Seq<u64>) -> Seq<u64> {
    applied + versions_of(pending(plan, applied))
}

fn migration(version: u64, name: &str, up_sql: &str) -> (r: Migration)
    ensures
        r.version == version,
        r.name@ == name@,
        r.up_sql@ == up_sql@,
{
    Migration { version, name: String::from_str(name), up_sql: String::from_str(up_sql) }
}

/// The migrations built into the library, by ascending version: the `users`
/// table, then the `posts` table with its unique slug and its reference to
/// `users`.
pub fn embedded_migrations() -> (r: Vec<Migration>)
    ensures
        versions_of(r@) == seq![1u64, 2u64],
        strictly_ascending(versions_of(r@)),
        r@[0].name@ == "create_users"@,
        r@[0].up_sql@ == CREATE_USERS_SQL@,
        r@[1].name@ == "create_posts"@,
        r@[1].up_sql@ == CREATE_POSTS_SQL@,
{
    let mut plan: Vec<Migration> = Vec::new();
    plan.push(
        migration(
            1,
            "create_users",
            CREATE_USERS_SQL,
        ),
    );
    plan.push(
        migration(
            2,
            "create_posts",
            CREATE_POSTS_SQL,
        ),
    );
    assert(versions_of(plan@) =~= seq![1u64, 2u64]);
    plan
}

fn version_applied(applied: &Vec<u64>, version: u64) -> (r: bool)
    ensures
        r == applied@.contains(version),
{
    let mut i: usize = 0;
    while i < applied.len()
        invariant
            i <= applied@.len(),
            forall|j: int| 0 <= j < i ==> applied@[j] != version,
        decreases applied@.len() - i,
    {
        if applied[i] == version {
            return true;
        }
        i = i + 1;
    }
    false
}

/// The migrations of `plan` that still have to run, in plan order: those
/// whose version is not among the applied ones.
pub fn pending_migrations(plan: &Vec<Migration>, applied: &Vec<u64>) -> (r: Vec<Migration>)
    ensures
        r@ == pending(plan@, applied@),
{
    let mut out: Vec<Migration> = Vec::new();
    let mut i: usize = 0;
    while i < plan.len()
        invariant
            i <= plan@.len(),
            out@ == pending(plan@.take(i as int), applied@),
        decreases plan@.len() - i,
    {
        let ghost next = plan@.take(i + 1);
        assert(next.drop_last() =~= plan@.take(i as int));
        proof {
            reveal(Seq::filter);
        }
        if !version_applied(applied, plan[i].version) {
            let m = &plan[i];
            out.push(Migration { version: m.version, name: m.name.clone(), up_sql: m.up_sql.clone() });
        }
        i = i + 1;
    }
    assert(plan@.take(plan@.len() as int) =~= plan@);
    out
}

proof fn lemma_filter_nothing(s: Seq<Migration>, pred: spec_fn(Migration) -> bool)
    requires
        forall|i: int| 0 <= i < s.len() ==> !pred(#[trigger] s[i]),
    ensures
        s.filter(pred).len() == 0,
    decreases s.len(),
{
    reveal(Seq::filter);
    if s.len() > 0 {
        let t = s.drop_last();
        assert forall|i: int| 0 <= i < t.len() implies !pred(#[trigger] t[i]) by {
            assert(t[i] == s[i]);
        }
        lemma_filter_nothing(t, pred);
        assert(!pred(s[s.len() - 1]));
    }
}

/// Running the migrations a second time is a no-op: after one run nothing is
/// pending, and a second run leaves the recorded versions as the first left
/// them.
pub proof fn lemma_rerun_is_noop(plan: Seq<Migration>, applied: Seq<u64>)
    ensures
        pending(plan, applied_after(plan, applied)).len() == 0,
        applied_after(plan, applied_after(plan, applied)) == applied_after(plan, applied),
{
    let once = applied_after(plan, applied);
    let first = pending(plan, applied);
    let pred = |m: Migration| !applied.contains(m.version);
    let pred2 = |m: Migration| !once.contains(m.version);
    assert forall|i: int| 0 <= i < plan.len() implies !pred2(#[trigger] plan[i]) by {
        let v = plan[i].version;
        if applied.contains(v) {
            let k = choose|k: int| 0 <= k < applied.len() && applied[k] == v;
            assert(once[k] == v);
        } else {
            plan.lemma_filter_contains(pred, i);
            assert(first.contains(plan[i]));
            let k = choose|k: int| 0 <= k < first.len() && first[k] == plan[i];
            assert(versions_of(first)[k] == v);
            assert(once[applied.len() + k] == v);
        }
    }
    lemma_filter_nothing(plan, pred2);
    assert(versions_of(pending(plan, once)) =~= Seq::<u64>::empty());
    assert(applied_after(plan, once) =~= once);
}

} // verus!
