//! URL-safe post identifiers derived from titles.
use vstd::prelude::*;
use vstd::string::StrSliceExecFns;
use crate::text::{ascii_lower, push_char};

verus! {

/// ASCII letters and digits are kept in a slug; every other character separates words.
pub open spec fn is_word_char(c: char) -> bool {
    ('a' <= c && c <= 'z') || ('A' <= c && c <= 'Z') || ('0' <= c && c <= '9')
}

/// The slug that the rest of a title `s` adds to what has been written so
/// far (`acc`), where `gap` says that a separator was seen since the last
/// word character.
pub open spec fn slug_rest(s: Seq<char>, acc: Seq<char>, gap: bool) -> Seq<char>
    decreases s.len(),
{
    if s.len() == 0 {
        acc
    } else if is_word_char(s[0]) {
        let sep = if gap && acc.len() > 0 {
            acc.push('-')
        } else {
            acc
        };
        slug_rest(s.drop_first(), sep.push(ascii_lower(s[0])), false)
    } else {
        slug_rest(s.drop_first(), acc, true)
    }
}

/// The slug of a title: its ASCII letters and digits in lowercase, each run of
/// other characters between two words written as a single `-`, and nothing
/// before the first word or after the last.
pub open spec fn slug_of(title: Seq<char>) -> Seq<char> {
    slug_rest(title, Seq::empty(), false)
}

fn lower_ascii_char(c: char) -> (r: char)
    ensures
        r == ascii_lower(c),
{
    if 'A' <= c && c <= 'Z' {
        ((c as u32 + 32) as u8) as char
    } else {
        c
    }
}

/// Derives the slug of a title.
pub fn slugify(title: &str) -> (r: String)
    ensures
        r@ == slug_of(title@),
{
    let n = title.unicode_len();
    let mut out = String::new();
    let mut gap = false;
    let mut i: usize = 0;
    assert(title@.skip(0) =~= title@);
    while i < n
        invariant
            n == title@.len(),
            i <= n,
            slug_of(title@) == slug_rest(title@.skip(i as int), out@, gap),
        decreases n - i,
    {
        let c = title.get_char(i);
        assert(title@.skip(i as int)[0] == c);
        assert(title@.skip(i as int).drop_first() =~= title@.skip(i + 1));
        if ('a' <= c && c <= 'z') || ('A' <= c && c <= 'Z') || ('0' <= c && c <= '9') {
            if gap && out.as_str().unicode_len() > 0 {
                push_char(&mut out, '-');
            }
            push_char(&mut out, lower_ascii_char(c));
            gap = false;
        } else {
            gap = true;
        }
        i = i + 1;
    }
    assert(title@.skip(n as int) =~= Seq::<char>::empty());
    out
}

} // verus!
