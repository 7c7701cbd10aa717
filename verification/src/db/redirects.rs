//! Repository rename/transfer redirects.

use vstd::prelude::*;
use crate::text::{
    ascii_lower, chars_of, lemma_ascii_lower_facts, lemma_ascii_lower_idempotent, lower_chars, push_chars,
};

verus! {

#[derive(Debug, Clone)]
pub struct RedirectRow {
    pub id: String,
    pub old_owner_slug: String,
    pub old_name: String,
    pub repo_id: String,
    pub expires_at: String,
    pub created_at: String,
}


/// The stored key of a redirect: owner slug and repository name in ASCII lowercase, so that
/// lookups ignore ASCII case.
pub fn redirect_key(old_owner_slug: &str, old_name: &str) -> (r: (String, String))
    ensures
        r.0@ == ascii_lower(old_owner_slug@),
        r.1@ == ascii_lower(old_name@),
        r.0@.len() == old_owner_slug@.len() && r.1@.len() == old_name@.len(),
        forall|i: int| 0 <= i < r.0@.len() ==> !('A' <= #[trigger] r.0@[i] <= 'Z'),
        forall|i: int| 0 <= i < r.1@.len() ==> !('A' <= #[trigger] r.1@[i] <= 'Z'),
        forall|i: int| 0 <= i < old_owner_slug@.len() && !('A' <= #[trigger] old_owner_slug@[i]
            <= 'Z') ==> r.0@[i] == old_owner_slug@[i],
        forall|i: int| 0 <= i < old_name@.len() && !('A' <= #[trigger] old_name@[i] <= 'Z')
            ==> r.1@[i] == old_name@[i],
{
    proof {
        lemma_ascii_lower_facts(old_owner_slug@);
        lemma_ascii_lower_facts(old_name@);
    }
    let mut slug = String::new();
    push_chars(&mut slug, &lower_chars(&chars_of(old_owner_slug)));
    let mut name = String::new();
    push_chars(&mut name, &lower_chars(&chars_of(old_name)));
    (slug, name)
}

/// A stored key is its own key: lowercasing it again changes nothing.
pub proof fn lemma_redirect_key_stable(slug: Seq<char>, name: Seq<char>)
    ensures
        ascii_lower(ascii_lower(slug)) == ascii_lower(slug),
        ascii_lower(ascii_lower(name)) == ascii_lower(name),
{
    lemma_ascii_lower_idempotent(slug);
    lemma_ascii_lower_idempotent(name);
}

/// `s` without its trailing `c` characters (`str::trim_end_matches` with a character).
pub open spec fn trim_end_char(s: Seq<char>, c: char) -> Seq<char>
    decreases s.len(),
{
    if s.len() > 0 && s.last() == c {
        trim_end_char(s.drop_last(), c)
    } else {
        s
    }
}

/// `s` with every `from` replaced by `to`.
pub open spec fn replace_char(s: Seq<char>, from: char, to: char) -> Seq<char> {
    s.map_values(|x: char| if x == from { to } else { x })
}

/// The SQLite storage form of an RFC 3339 UTC timestamp: trailing `Z` dropped and the `T`
/// separator replaced by a space (`2026-01-01T00:00:00Z` is stored as `2026-01-01 00:00:00`).
pub open spec fn spec_sqlite_timestamp(ts: Seq<char>) -> Seq<char> {
    replace_char(trim_end_char(ts, 'Z'), 'T', ' ')
}

/// The storage form never holds a `T` nor ends in `Z`, is never longer than the input, and
/// leaves an input with neither untouched.
pub proof fn lemma_sqlite_timestamp_shape(ts: Seq<char>)
    ensures
        forall|i: int| 0 <= i < spec_sqlite_timestamp(ts).len() ==> #[trigger] spec_sqlite_timestamp(
            ts,
        )[i] != 'T',
        spec_sqlite_timestamp(ts).len() > 0 ==> spec_sqlite_timestamp(ts).last() != 'Z',
        spec_sqlite_timestamp(ts).len() <= ts.len(),
        (forall|i: int| 0 <= i < ts.len() ==> #[trigger] ts[i] != 'T') && (ts.len() == 0
            || ts.last() != 'Z') ==> spec_sqlite_timestamp(ts) == ts,
    decreases ts.len(),
{
    lemma_trim_end_char_prefix(ts);
    if forall|i: int| 0 <= i < ts.len() ==> #[trigger] ts[i] != 'T' {
        if ts.len() == 0 || ts.last() != 'Z' {
            assert(replace_char(ts, 'T', ' ') =~= ts);
        }
    }
}

/// Dropping trailing `c`s leaves a prefix of `s` that does not end in `c`.
proof fn lemma_trim_end_char_prefix(s: Seq<char>)
    ensures
        trim_end_char(s, 'Z').len() <= s.len(),
        trim_end_char(s, 'Z') == s.subrange(0, trim_end_char(s, 'Z').len() as int),
        trim_end_char(s, 'Z').len() > 0 ==> trim_end_char(s, 'Z').last() != 'Z',
    decreases s.len(),
{
    if s.len() > 0 && s.last() == 'Z' {
        lemma_trim_end_char_prefix(s.drop_last());
        let t = trim_end_char(s.drop_last(), 'Z');
        assert(s.drop_last().subrange(0, t.len() as int) =~= s.subrange(0, t.len() as int));
    } else {
        assert(s.subrange(0, s.len() as int) =~= s);
    }
}

pub fn sqlite_timestamp(ts: &str) -> (r: String)
    ensures
        r@ == spec_sqlite_timestamp(ts@),
        forall|i: int| 0 <= i < r@.len() ==> #[trigger] r@[i] != 'T',
        r@.len() > 0 ==> r@.last() != 'Z',
        r@.len() <= ts@.len(),
{
    proof {
        lemma_sqlite_timestamp_shape(ts@);
    }
    let v = chars_of(ts);
    let mut end: usize = v.len();
    assert(v@.subrange(0, end as int) =~= v@);
    while end > 0 && v[end - 1] == 'Z'
        invariant
            end <= v@.len(),
            trim_end_char(v@, 'Z') == trim_end_char(v@.subrange(0, end as int), 'Z'),
        decreases end,
    {
        assert(v@.subrange(0, end as int).drop_last() =~= v@.subrange(0, end - 1));
        end = end - 1;
    }
    let mut out: Vec<char> = Vec::new();
    let mut k: usize = 0;
    while k < end
        invariant
            k <= end <= v@.len(),
            trim_end_char(v@, 'Z') == v@.subrange(0, end as int),
            out@ == replace_char(v@.subrange(0, k as int), 'T', ' '),
        decreases end - k,
    {
        let c = v[k];
        out.push(if c == 'T' { ' ' } else { c });
        assert(replace_char(v@.subrange(0, k + 1), 'T', ' ') =~= replace_char(
            v@.subrange(0, k as int),
            'T',
            ' ',
        ).push(if c == 'T' { ' ' } else { c }));
        k = k + 1;
    }
    let mut r = String::new();
    push_chars(&mut r, &out);
    r
}

} // verus!
