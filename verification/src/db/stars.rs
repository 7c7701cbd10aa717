//! Stars, forks and the public explore listing.

use vstd::prelude::*;
use crate::text::{chars_of, push_chars};

verus! {

/// One character of search text as it stands in a `LIKE` pattern: the wildcards `%` and `_`
/// escaped with a backslash, anything else as is.
pub open spec fn escape_like_char(c: char) -> Seq<char> {
    if c == '%' {
        seq!['\\', '%']
    } else if c == '_' {
        seq!['\\', '_']
    } else {
        seq![c]
    }
}

/// Search text with its `LIKE` wildcards escaped.
pub open spec fn escape_like(s: Seq<char>) -> Seq<char>
    decreases s.len(),
{
    if s.len() == 0 {
        Seq::empty()
    } else {
        escape_like(s.drop_last()) + escape_like_char(s.last())
    }
}

/// `LIKE` pattern (escape character `\`) matching any text that contains `q` literally.
pub fn explore_like_pattern(q: &str) -> (r: String)
    ensures
        r@ == "%"@ + escape_like(q@) + "%"@,
        r@.len() >= q@.len() + 2,
        r@[0] == '%' && r@.last() == '%',
        (forall|i: int| 0 <= i < q@.len() ==> #[trigger] q@[i] != '%' && q@[i] != '_') ==> r@
            == "%"@ + q@ + "%"@,
{
    proof {
        lemma_escape_like_keeps_plain_text(q@);
        reveal_strlit("%");
    }
    let v = chars_of(q);
    let mut out: Vec<char> = Vec::new();
    let mut k: usize = 0;
    while k < v.len()
        invariant
            k <= v@.len(),
            out@ == escape_like(v@.subrange(0, k as int)),
        decreases v.len() - k,
    {
        let c = v[k];
        let ghost before = out@;
        if c == '%' {
            out.push('\\');
            out.push('%');
        } else if c == '_' {
            out.push('\\');
            out.push('_');
        } else {
            out.push(c);
        }
        assert(v@.subrange(0, k + 1).drop_last() =~= v@.subrange(0, k as int));
        assert(out@ =~= before + escape_like_char(c));
        k = k + 1;
    }
    assert(v@.subrange(0, v@.len() as int) =~= v@);
    let mut r = String::from_str("%");
    push_chars(&mut r, &out);
    push_chars(&mut r, &chars_of("%"));
    r
}

/// Escaping never shortens the text, and text without wildcards is left as it is.
pub proof fn lemma_escape_like_keeps_plain_text(s: Seq<char>)
    ensures
        escape_like(s).len() >= s.len(),
        (forall|i: int| 0 <= i < s.len() ==> #[trigger] s[i] != '%' && s[i] != '_')
            ==> escape_like(s) == s,
    decreases s.len(),
{
    if s.len() > 0 {
        let init = s.drop_last();
        lemma_escape_like_keeps_plain_text(init);
        if forall|i: int| 0 <= i < s.len() ==> #[trigger] s[i] != '%' && s[i] != '_' {
            assert forall|i: int| 0 <= i < init.len() implies #[trigger] init[i] != '%' && init[i]
                != '_' by {
                assert(init[i] == s[i]);
            }
            assert(s[s.len() - 1] != '%' && s[s.len() - 1] != '_');
            assert(init.push(s.last()) =~= s);
            assert(init + seq![s.last()] =~= s);
        }
    }
}

/// Escaped search text holds no bare wildcard: every `%` or `_` in it follows a backslash.
pub proof fn lemma_escape_like_no_bare_wildcard(s: Seq<char>)
    ensures
        forall|i: int|
            #![trigger escape_like(s)[i]]
            0 <= i < escape_like(s).len() && (escape_like(s)[i] == '%' || escape_like(s)[i] == '_')
                ==> i > 0 && escape_like(s)[i - 1] == '\\',
    decreases s.len(),
{
    if s.len() > 0 {
        let init = s.drop_last();
        lemma_escape_like_no_bare_wildcard(init);
        let a = escape_like(init);
        let b = escape_like_char(s.last());
        assert(escape_like(s) == a + b);
        assert forall|i: int|
            #![trigger (a + b)[i]]
            0 <= i < (a + b).len() && ((a + b)[i] == '%' || (a + b)[i] == '_') implies i > 0 && (a
                + b)[i - 1] == '\\' by {
            if i < a.len() {
                assert((a + b)[i] == a[i]);
                assert((a + b)[i - 1] == a[i - 1]);
            } else {
                assert((a + b)[i] == b[i - a.len()]);
                if i - a.len() == 1 {
                    assert((a + b)[i - 1] == b[0]);
                }
            }
        }
    }
}

} // verus!
